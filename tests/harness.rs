use owlgo::error::OwlError;
use owlgo::lang::{build_step, check_prog_lang, try_prog_lang, ErlLang, OcamlLang, ProgLang};
use owlgo::path::{extension, file_stem, sibling};
use owlgo::process::{run_binary, stderr_only, stdout_else_stderr, Invocation, ProcessOutput};
use owlgo::quest::{
    as_ans_file, as_hint_file, check_output, cleanup_program, find_by_ext, find_by_stem_and_ext,
    hint_displays, outputs_match, select_cases, viewer_cmd, HintDisplay, QuestRun,
};
use owlgo::stamp::{compare_stamps, parse_usize, ParseFail};
use std::cmp::Ordering;
use std::collections::HashSet;

fn argv(inv: &Invocation) -> Vec<String> {
    let mut v = vec![inv.program.clone()];
    v.extend(inv.args.iter().cloned());
    v
}

fn words(s: &str) -> Vec<String> {
    s.split(' ').map(String::from).collect()
}

fn lang(ext: &str) -> ProgLang {
    match try_prog_lang(ext) {
        Ok(l) => l,
        Err(e) => panic!("no profile for {}: {}", ext, e.message()),
    }
}

fn output(success: bool, stdout: &[u8], stderr: &[u8]) -> ProcessOutput {
    ProcessOutput { success, stdout: stdout.to_vec(), stderr: stderr.to_vec() }
}

#[test]
fn stem_and_extension_of_paths() {
    assert_eq!(file_stem("quests/q1/main.c"), Some("main".to_string()));
    assert_eq!(extension("quests/q1/main.c"), Some("c".to_string()));
    assert_eq!(file_stem("archive.tar.gz"), Some("archive.tar".to_string()));
    assert_eq!(extension("archive.tar.gz"), Some("gz".to_string()));
    assert_eq!(file_stem(".bashrc"), Some(".bashrc".to_string()));
    assert_eq!(extension(".bashrc"), None);
    assert_eq!(extension("Makefile"), None);
    assert_eq!(file_stem(""), None);
    assert_eq!(file_stem("dir/.."), None);
    assert_eq!(file_stem("a/b/"), Some("b".to_string()));
    assert_eq!(file_stem("a/b.c/."), Some("b".to_string()));
    assert_eq!(extension("a/b.c//"), Some("c".to_string()));
    assert_eq!(file_stem("/"), None);
    assert_eq!(file_stem("/."), None);
    assert_eq!(file_stem("./"), None);
    assert_eq!(sibling("q/1.in/", "1.ans"), "q/1.ans");
    assert_eq!(sibling("a/b/1.in", "1.ans"), "a/b/1.ans");
    assert_eq!(sibling("1.in", "1.ans"), "1.ans");
}

#[test]
fn registry_knows_extensions() {
    assert_eq!(lang("c").name(), "c");
    assert_eq!(lang("cc").name(), "cpp");
    assert_eq!(lang("c++").name(), "cpp");
    assert_eq!(lang("py3").name(), "python");
    assert_eq!(lang("adb").name(), "ada");
    assert_eq!(lang("ml").name(), "ocaml");
    assert!(lang("c").should_build());
    assert!(!lang("py").should_build());
    match try_prog_lang("xyz") {
        Err(OwlError::Unsupported(x)) => assert_eq!(x, "xyz"),
        _ => panic!("expected Unsupported"),
    }
    assert!(check_prog_lang("main").is_none());
    assert!(check_prog_lang("notes.txt").is_none());
    assert_eq!(check_prog_lang("src/main.rs").map(|l| l.name()), Some("rust".to_string()));
    let rs = check_prog_lang("src/main.rs").and_then(|l| l.build_cmd("src/main.rs").ok()).map(|i| argv(&i));
    assert_eq!(rs, Some(words("rustc -C opt-level=3 -C target-cpu=native src/main.rs -o main")));
}

#[test]
fn version_commands() {
    assert_eq!(argv(&lang("c").version_cmd()), words("gcc --version"));
    assert_eq!(argv(&lang("go").version_cmd()), words("go version"));
    assert_eq!(argv(&lang("kt").version_cmd()), words("kotlinc -version"));
    assert_eq!(argv(&lang("erl").version_cmd()), words("erl -s erlang halt"));
    let l = lang("c");
    assert_eq!(l.version(output(true, b"gcc 14\n", b"")).ok(), Some("gcc 14\n".to_string()));
    match l.version(output(false, b"partial", b"gcc: not found")) {
        Err(OwlError::ProcessError(x, i)) => {
            assert_eq!(x, "'c version': unable to determine version");
            assert_eq!(i, "gcc: not found");
        }
        _ => panic!("expected ProcessError"),
    }
    match l.version(output(true, &[0xff], b"")) {
        Err(OwlError::FileError(x, _)) => assert_eq!(x, "'c version': could not read stdout"),
        _ => panic!("expected FileError"),
    }
    match l.version(output(false, b"", &[0xc0, 0x80])) {
        Err(OwlError::FileError(x, _)) => assert_eq!(x, "'c version': could not read stderr"),
        _ => panic!("expected FileError"),
    }
}

#[test]
fn build_commands_place_output_flag() {
    let c = lang("c").build_cmd("main.c").ok().map(|i| argv(&i));
    assert_eq!(c, Some(words("gcc -g -O2 -std=gnu23 -static -lm -o main main.c")));
    let rs = lang("rs").build_cmd("main.rs").ok().map(|i| argv(&i));
    assert_eq!(rs, Some(words("rustc -C opt-level=3 -C target-cpu=native main.rs -o main")));
    let zig = lang("zig").build_cmd("main.zig").ok().map(|i| argv(&i));
    assert_eq!(zig, Some(words("zig build-exe -O ReleaseFast -femit-bin=main main.zig")));
    let odin = lang("odin").build_cmd("main.odin").ok().map(|i| argv(&i));
    assert_eq!(odin, Some(words("odin build main.odin -file -out:main")));
    let ml = lang("ml").build_cmd("x.ml").ok().map(|i| argv(&i));
    assert_eq!(ml, Some(words("ocamlopt -I +unix unix.cmxa -I +str str.cmxa x.ml -o x")));
    let java = lang("java").build_cmd("Main.java").ok().map(|i| argv(&i));
    assert_eq!(java, Some(words("javac -encoding UTF-8 -d . Main.java")));
    let erl = lang("erl").build_cmd("x.erl").ok().map(|i| argv(&i));
    assert_eq!(erl, Some(words("erl -compile x.erl")));
}

#[test]
fn interpreted_language_has_no_build_command() {
    match lang("py").build_cmd("x.py") {
        Err(OwlError::ProcessError(x, _)) => assert_eq!(x, "No build command (python) for 'x.py'"),
        _ => panic!("expected ProcessError"),
    }
}

#[test]
fn compiled_language_needs_a_stem() {
    match lang("c").build_cmd("dir/..") {
        Err(OwlError::UriError(x, _)) => assert_eq!(x, "'dir/..': has no file stem"),
        _ => panic!("expected UriError"),
    }
}

#[test]
fn targets_and_side_files() {
    assert_eq!(lang("c").target_path("main.c", "main"), "main");
    assert_eq!(lang("java").target_path("Main.java", "Main"), "Main.class");
    assert_eq!(lang("kt").target_path("hello.kt", "hello"), "HelloKt.class");
    assert_eq!(lang("ts").target_path("app.ts", "app"), "app.js");
    assert_eq!(lang("erl").target_path("x.erl", "x"), "x.beam");
    assert_eq!(lang("py").target_path("d/x.py", "x"), "d/x");
    assert_eq!(lang("kt").build_files("hello.kt", "hello"), Some(vec!["META-INF".to_string()]));
    assert_eq!(lang("c").build_files("main.c", "main"), None);
    assert_eq!(
        lang("hs").build_files("q.hs", "q"),
        Some(words("Main.o Main.hi q.hi q.o"))
    );
    assert_eq!(
        lang("adb").build_files("p.adb", "p"),
        Some(words("b~p.adb b~p.ads b~p.ali b~p.o p.ali p.o"))
    );
    assert_eq!(
        lang("ml").build_files("src/x.ml", "x"),
        Some(words("src/x.cmi src/x.cmx src/x.o"))
    );
}

#[test]
fn run_commands_by_shape() {
    assert_eq!(lang("c").run_cmd("main").ok().map(|i| argv(&i)), Some(words("./main")));
    assert_eq!(lang("py").run_cmd("x.py").ok().map(|i| argv(&i)), Some(words("python3 x.py")));
    assert_eq!(lang("lean").run_cmd("x.lean").ok().map(|i| argv(&i)), Some(words("lean --run x.lean")));
    assert_eq!(
        lang("java").run_cmd("Main.class").ok().map(|i| argv(&i)),
        Some(words("java -Dfile.encoding=UTF-8 -XX:+UseSerialGC -Xss64m Main"))
    );
    assert_eq!(lang("ts").run_cmd("app.js").ok().map(|i| argv(&i)), Some(words("node app")));
    assert_eq!(
        lang("erl").run_cmd("x.beam").ok().map(|i| argv(&i)),
        Some(words("erl -run x -s init stop -noshell"))
    );
    assert_eq!(argv(&run_binary("a.out")), words("./a.out"));
}

#[test]
fn build_yields_log_or_error() {
    let c = lang("c");
    match c.build("q/main.c", output(true, b"compiled\n", b"")) {
        Ok(log) => {
            assert_eq!(log.target, "main");
            assert_eq!(log.stdout, "compiled\n");
            assert_eq!(log.build_files, None);
        }
        Err(e) => panic!("{}", e.message()),
    }
    match c.build("main.c", output(false, b"", b"main.c:1: error")) {
        Err(OwlError::ProcessError(x, i)) => {
            assert_eq!(x, "'build': exit with status failed");
            assert_eq!(i, "main.c:1: error(run program manually for stack trace)");
        }
        _ => panic!("expected ProcessError"),
    }
    assert!(matches!(c.build("main.c", output(true, &[0xff, 0xfe], b"")), Err(OwlError::FileError(_, _))));
}

#[test]
fn captured_output_falls_back_to_stderr() {
    assert_eq!(stdout_else_stderr("./binary", output(true, b"3\n", b"warn")).ok(), Some("3\n".to_string()));
    match stdout_else_stderr("./binary", output(false, b"partial", b"panic")) {
        Err(OwlError::ProcessError(x, i)) => {
            assert_eq!(x, "'./binary': exit with status failed");
            assert_eq!(i, "panic(run program manually for stack trace)");
        }
        _ => panic!("expected ProcessError"),
    }
    match stdout_else_stderr("./binary", output(true, &[0xc3], b"")) {
        Err(OwlError::FileError(x, _)) => assert_eq!(x, "'./binary': failed to read stdout"),
        _ => panic!("expected FileError"),
    }
    assert_eq!(stderr_only("git", output(true, b"ignored", b"Already up to date.")).ok(), Some("Already up to date.".to_string()));
    assert!(stderr_only("git", output(false, b"", b"fatal")).is_err());
}

#[test]
fn toolchain_check_decides_build() {
    match build_step(&lang("c"), false) {
        Err(OwlError::CommandNotFound(x)) => assert_eq!(x, "'c': command not found"),
        _ => panic!("expected CommandNotFound"),
    }
    assert_eq!(build_step(&lang("c"), true).ok(), Some(true));
    assert_eq!(build_step(&lang("py"), true).ok(), Some(false));
}

#[test]
fn case_id_selects_wrapped_position() {
    assert_eq!(select_cases(3, Some(5)), vec![1]);
    assert_eq!(select_cases(3, Some(3)), vec![2]);
    assert_eq!(select_cases(3, Some(1)), vec![0]);
    assert_eq!(select_cases(3, Some(7)), vec![0]);
    assert_eq!(select_cases(3, Some(0)), vec![0, 1, 2]);
    assert_eq!(select_cases(3, None), vec![0, 1, 2]);
    assert_eq!(select_cases(1, Some(9)), vec![0]);
    assert_eq!(select_cases(0, Some(2)), Vec::<usize>::new());
}

#[test]
fn output_must_match_exactly() {
    assert!(outputs_match("3\n", "3\n"));
    assert!(!outputs_match("3", "3\n"));
    assert!(!outputs_match("3 \n", "3\n"));
    assert!(!outputs_match("3\r\n", "3\n"));
    assert!(outputs_match("", ""));
}

#[test]
fn matching_output_passes_and_other_fails() {
    assert_eq!(check_output(Ok(("3\n".to_string(), 12)), "3\n").ok(), Some(12));
    match check_output(Ok(("3\n".to_string(), 12)), "4\n") {
        Err(OwlError::TestFailure(x)) => assert_eq!(x, "failed test"),
        _ => panic!("expected TestFailure"),
    }
    let crashed = Err(OwlError::ProcessError("'./binary': exit with status failed".to_string(), String::new()));
    assert!(matches!(check_output(crashed, "3\n"), Err(OwlError::ProcessError(_, _))));
}

fn run_quest(outputs: &[&str], answers: &[&str], case_id: Option<usize>) -> QuestRun {
    let mut run = QuestRun::new(outputs.len(), case_id);
    while let Some(i) = run.next_case() {
        run.judge(Ok((outputs[i].to_string(), 5)), answers[i]);
    }
    run
}

#[test]
fn judge_counts_run_errors_as_failures() {
    let mut run = QuestRun::new(3, None);
    let crashed = Err(OwlError::ProcessError("'./binary': exit with status failed".to_string(), String::new()));
    assert!(run.judge(crashed, "3\n").is_err());
    assert!(run.judge(Ok(("3".to_string(), 4)), "3\n").is_err());
    assert_eq!(run.judge(Ok(("3\n".to_string(), 4)), "3\n").ok(), Some(4));
    assert_eq!((run.passed, run.failed, run.elapsed, run.judged), (1, 2, 4, 3));
    assert!(run.next_case().is_none());
}

#[test]
fn echo_program_passes_matching_case() {
    let run = run_quest(&["3\n"], &["3\n"], None);
    assert_eq!((run.passed, run.failed, run.elapsed), (1, 0, 5));
    assert!(run.finish().is_ok());
}

#[test]
fn echo_program_fails_differing_case() {
    let run = run_quest(&["3\n"], &["4\n"], None);
    assert_eq!((run.passed, run.failed, run.elapsed), (0, 1, 0));
    match run.finish() {
        Err(OwlError::TestFailure(x)) => assert_eq!(x, "test failures"),
        _ => panic!("expected TestFailure"),
    }
}

#[test]
fn case_five_of_three_runs_second_case() {
    let run = run_quest(&["a\n", "b\n", "c\n"], &["x\n", "b\n", "y\n"], Some(5));
    assert_eq!(run.selected, vec![1]);
    assert_eq!((run.passed, run.failed), (1, 0));
    assert!(run.finish().is_ok());
}

#[test]
fn tally_counts_every_selected_case() {
    let run = run_quest(&["1", "2", "3", "4"], &["1", "x", "3", "y"], None);
    assert_eq!(run.passed + run.failed, 4);
    assert_eq!((run.passed, run.failed, run.elapsed), (2, 2, 10));
    assert!(run.finish().is_err());
    let mut sat = QuestRun::new(2, None);
    sat.record(&Ok(u64::MAX));
    sat.record(&Ok(7));
    assert_eq!(sat.elapsed, u64::MAX);
}

#[test]
fn cleanup_lists_target_then_build_files() {
    assert_eq!(cleanup_program("hello.py", "hello.py", None), Vec::<String>::new());
    assert_eq!(
        cleanup_program("hello.kt", "HelloKt.class", Some(vec!["META-INF".to_string()])),
        words("HelloKt.class META-INF")
    );
    assert_eq!(cleanup_program("main.c", "main", None), words("main"));
}

#[test]
fn cleanup_twice_is_harmless() {
    let plan = cleanup_program("p.adb", "p", Some(words("p.ali p.o")));
    let mut existing: HashSet<String> = words("p p.adb p.ali p.o").into_iter().collect();
    for p in &plan {
        existing.remove(p);
    }
    let once = existing.clone();
    for p in &plan {
        existing.remove(p);
    }
    assert_eq!(existing, once);
    assert_eq!(once, words("p.adb").into_iter().collect::<HashSet<String>>());
}

#[test]
fn answer_and_hint_files_sit_beside_input() {
    assert_eq!(as_ans_file("quests/two-sum/1.in").ok(), Some("quests/two-sum/1.ans".to_string()));
    assert_eq!(as_hint_file("quests/two-sum/1.in"), Some("quests/two-sum/1.md".to_string()));
    assert!(matches!(as_ans_file(""), Err(OwlError::UriError(_, _))));
}

#[test]
fn discovery_filters_listing() {
    let files = words("q/1.in q/1.ans q/sub/2.in q/readme.md");
    assert_eq!(find_by_ext("q", &files, "in").ok(), Some(words("q/1.in q/sub/2.in")));
    assert!(matches!(find_by_ext("q", &files, "out"), Err(OwlError::FileError(_, _))));
    assert_eq!(find_by_stem_and_ext("q", &files, "2", "in").ok(), Some("q/sub/2.in".to_string()));
    match find_by_stem_and_ext("q", &files, "3", "in") {
        Err(OwlError::FileError(x, _)) => assert_eq!(x, "No matches found in 'q' matching '3.in'"),
        _ => panic!("expected FileError"),
    }
}

#[test]
fn stamps_compare_part_by_part() {
    assert_eq!(compare_stamps("0.1.5", "0.1.6").ok(), Some(Ordering::Less));
    assert_eq!(compare_stamps("0.1.5", "0.1.5").ok(), Some(Ordering::Equal));
    assert_eq!(compare_stamps("0.2.1", "0.1.0").ok(), Some(Ordering::Greater));
    assert_eq!(compare_stamps("0.2.0", "0.1.9").ok(), Some(Ordering::Less));
    assert_eq!(compare_stamps("1.0", "1.0.1").ok(), Some(Ordering::Greater));
    assert_eq!(compare_stamps("+1.2", "1.3").ok(), Some(Ordering::Less));
    match compare_stamps("a.1", "0.1") {
        Err(OwlError::TomlError(x, i)) => {
            assert_eq!(x, "Failed to parse timestamp 'a.1' as (usize,,)");
            assert_eq!(i, "invalid digit found in string");
        }
        _ => panic!("expected TomlError"),
    }
    match compare_stamps("0.1", "0..1") {
        Err(OwlError::TomlError(x, i)) => {
            assert_eq!(x, "Failed to parse timestamp '0..1' as (usize,,)");
            assert_eq!(i, "cannot parse integer from empty string");
        }
        _ => panic!("expected TomlError"),
    }
    match compare_stamps("99999999999999999999999.1", "0.1") {
        Err(OwlError::TomlError(_, i)) => assert_eq!(i, "number too large to fit in target type"),
        _ => panic!("expected TomlError"),
    }
}

#[test]
fn error_messages() {
    assert_eq!(OwlError::CommandNotFound("'c': command not found".to_string()).message(), "'c': command not found");
    assert_eq!(OwlError::FileError("missing".to_string(), String::new()).message(), "missing (info: N/A)");
    assert_eq!(OwlError::ProcessError("failed".to_string(), "boom".to_string()).message(), "failed (info: boom)");
}

#[test]
fn fixed_profiles() {
    let erl = ErlLang::new();
    assert_eq!(erl.cmd_str, "erl");
    assert_eq!(erl.pre_run_args, words("-run"));
    assert_eq!(erl.target_suffix, ".beam");
    let ml = OcamlLang::new();
    assert_eq!(ml.build_cmd_str, "ocamlopt");
    assert_eq!(ml.build_args, words("-I +unix unix.cmxa -I +str str.cmxa"));
}

#[test]
fn hints_try_bat_then_glow_then_plain_text() {
    let shown: Vec<Option<Vec<String>>> = hint_displays()
        .iter()
        .map(|d| viewer_cmd(d, "q/1.md").map(|inv| argv(&inv)))
        .collect();
    assert_eq!(shown, vec![Some(words("bat q/1.md")), Some(words("glow q/1.md")), None]);
    assert!(viewer_cmd(&HintDisplay::Plain, "q/1.md").is_none());
}

#[test]
fn integers_parse_as_the_standard_library_does() {
    assert_eq!(parse_usize("42").ok(), Some(42));
    assert_eq!(parse_usize("+7").ok(), Some(7));
    assert_eq!(parse_usize("007").ok(), Some(7));
    assert_eq!(parse_usize(&usize::MAX.to_string()).ok(), Some(usize::MAX));
    assert!(matches!(parse_usize(""), Err(ParseFail::Empty)));
    assert!(matches!(parse_usize("+"), Err(ParseFail::InvalidDigit)));
    assert!(matches!(parse_usize("-1"), Err(ParseFail::InvalidDigit)));
    assert!(matches!(parse_usize("1a"), Err(ParseFail::InvalidDigit)));
    assert!(matches!(parse_usize("18446744073709551616"), Err(ParseFail::PosOverflow)));
    for s in ["", "+", "-1", "12x", "+12", "0", "18446744073709551616", "99999999999999999999x"] {
        assert_eq!(parse_usize(s).ok(), s.parse::<usize>().ok(), "{}", s);
    }
}
