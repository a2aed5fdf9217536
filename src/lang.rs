//! Language profiles: how each supported language is built, run and asked
//! for its version, as data of one of a few shapes.
use crate::error::OwlError;
use crate::path::{ext_of, extension, file_stem, lemma_stem_nonempty, sibling, sibling_of, stem_of};
use crate::process::{
    note, text_of, utf8_text, run_binary, stdout_else_stderr, tag_text, tagged, texts, Invocation,
    ProcessOutput,
};
use vstd::prelude::*;

verus! {

/// Where the output-name arguments stand relative to the source path.
pub enum ArgsPosition {
    Post,
    Pre,
}

/// How a compiler is told the name of the executable it writes.
pub enum ExeFlag {
    /// The flag and the name as two arguments: `-o main`.
    Pair(String),
    /// Leading arguments, then the flag and the name joined in one:
    /// `-femit-bin=main`.
    Joined(Vec<String>, String),
}

/// A file that a toolchain leaves beside its output.
pub enum SideFile {
    /// Always this name.
    Fixed(String),
    /// The target stem between a prefix and a suffix.
    Around(String, String),
}

/// How the artifact's name follows from the target stem.
pub enum ArtifactName {
    /// The stem with a suffix.
    Suffixed(String),
    /// The stem with its first character in upper case, then a suffix.
    Capitalized(String),
}

/// A compiler that writes a native executable named after the source's stem.
pub struct ComptimeLang {
    pub name: String,
    pub cmd_str: String,
    pub ver_arg: String,
    pub build_cmd_str: String,
    pub build_args: Vec<String>,
    pub exe_flag: ExeFlag,
    pub exe_position: ArgsPosition,
    pub build_files: Option<Vec<SideFile>>,
}

/// An interpreter that runs the source file itself; nothing is built.
pub struct RuntimeLang {
    pub name: String,
    pub cmd_str: String,
    pub cmd_args: Vec<String>,
    pub ver_arg: String,
}

/// A compiler whose artifact has a name of its own, run by a separate runtime
/// that is given the artifact's stem.
pub struct CustomLang {
    pub name: String,
    pub build_cmd_str: String,
    pub build_args: Vec<String>,
    pub run_cmd_str: String,
    pub run_args: Vec<String>,
    pub ver_arg: String,
    pub build_files: Option<Vec<SideFile>>,
    pub target_name: ArtifactName,
}

/// A compiled module that the runtime starts as a named unit, between
/// arguments that come before and after the unit's name.
pub struct ErlLang {
    pub name: String,
    pub cmd_str: String,
    pub build_args: Vec<String>,
    pub post_run_args: Vec<String>,
    pub pre_run_args: Vec<String>,
    pub ver_args: Vec<String>,
    pub target_suffix: String,
}

/// A native compiler that needs its libraries before the output flag and
/// leaves interface and object files beside the source.
pub struct OcamlLang {
    pub name: String,
    pub cmd_str: String,
    pub ver_arg: String,
    pub build_cmd_str: String,
    pub build_args: Vec<String>,
}

/// A language profile.
pub enum ProgLang {
    Comptime(ComptimeLang),
    Runtime(RuntimeLang),
    Custom(CustomLang),
    Erl(ErlLang),
    Ocaml(OcamlLang),
}

/// The shape of a profile.
pub enum Shape {
    CompileThenRun,
    InterpretDirectly,
    CustomArtifactNaming,
    ModuleUnit,
    NativeWithLibraries,
}

/// What a build leaves behind: the target to run, the build's standard
/// output, and the incidental files to delete afterwards.
pub struct BuildLog {
    pub target: String,
    pub stdout: String,
    pub build_files: Option<Vec<String>>,
}

/// The first character of a text in upper case, as the standard library
/// gives it.
pub uninterp spec fn upper_of(c: char) -> Seq<char>;

/// The arguments that name the executable.
pub open spec fn exe_args(flag: ExeFlag, stem: Seq<char>) -> Seq<Seq<char>> {
    match flag {
        ExeFlag::Pair(f) => seq![f@, stem],
        ExeFlag::Joined(lead, f) => texts(lead@).push(f@ + stem),
    }
}

/// The name of a side file for a target stem.
pub open spec fn side_name(f: SideFile, stem: Seq<char>) -> Seq<char> {
    match f {
        SideFile::Fixed(n) => n@,
        SideFile::Around(pre, suf) => pre@ + stem + suf@,
    }
}

/// The names of the side files for a target stem.
pub open spec fn side_names(fs: Option<Vec<SideFile>>, stem: Seq<char>) -> Option<Seq<Seq<char>>> {
    match fs {
        Some(v) => Some(v@.map_values(|f: SideFile| side_name(f, stem))),
        None => None,
    }
}

/// The artifact's name for a target stem.
pub open spec fn artifact_of(a: ArtifactName, stem: Seq<char>) -> Seq<char> {
    match a {
        ArtifactName::Suffixed(suf) => stem + suf@,
        ArtifactName::Capitalized(suf) => upper_of(stem[0]) + stem.drop_first() + suf@,
    }
}

/// The texts of optional strings.
pub open spec fn opt_texts(o: Option<Vec<String>>) -> Option<Seq<Seq<char>>> {
    match o {
        Some(v) => Some(texts(v@)),
        None => None,
    }
}

impl ProgLang {
    pub open spec fn spec_name(&self) -> Seq<char> {
        match self {
            ProgLang::Comptime(l) => l.name@,
            ProgLang::Runtime(l) => l.name@,
            ProgLang::Custom(l) => l.name@,
            ProgLang::Erl(l) => l.name@,
            ProgLang::Ocaml(l) => l.name@,
        }
    }

    pub open spec fn shape(&self) -> Shape {
        match self {
            ProgLang::Comptime(_) => Shape::CompileThenRun,
            ProgLang::Runtime(_) => Shape::InterpretDirectly,
            ProgLang::Custom(_) => Shape::CustomArtifactNaming,
            ProgLang::Erl(_) => Shape::ModuleUnit,
            ProgLang::Ocaml(_) => Shape::NativeWithLibraries,
        }
    }

    /// Whether the language has a build step.
    pub open spec fn needs_build(&self) -> bool {
        !(self is Runtime)
    }

    /// The program that reports the toolchain's version.
    pub open spec fn toolchain(&self) -> Seq<char> {
        match self {
            ProgLang::Comptime(l) => l.cmd_str@,
            ProgLang::Runtime(l) => l.cmd_str@,
            ProgLang::Custom(l) => l.build_cmd_str@,
            ProgLang::Erl(l) => l.cmd_str@,
            ProgLang::Ocaml(l) => l.cmd_str@,
        }
    }

    /// The arguments that ask the toolchain for its version.
    pub open spec fn version_argv(&self) -> Seq<Seq<char>> {
        match self {
            ProgLang::Comptime(l) => seq![l.ver_arg@],
            ProgLang::Runtime(l) => seq![l.ver_arg@],
            ProgLang::Custom(l) => seq![l.ver_arg@],
            ProgLang::Erl(l) => texts(l.ver_args@),
            ProgLang::Ocaml(l) => seq![l.ver_arg@],
        }
    }

    /// The program that builds.
    pub open spec fn builder(&self) -> Seq<char> {
        match self {
            ProgLang::Comptime(l) => l.build_cmd_str@,
            ProgLang::Runtime(l) => l.cmd_str@,
            ProgLang::Custom(l) => l.build_cmd_str@,
            ProgLang::Erl(l) => l.cmd_str@,
            ProgLang::Ocaml(l) => l.build_cmd_str@,
        }
    }

    /// The build's arguments for source `path` with stem `stem`.
    pub open spec fn build_argv(&self, path: Seq<char>, stem: Seq<char>) -> Seq<Seq<char>> {
        match self {
            ProgLang::Comptime(l) => {
                let out = exe_args(l.exe_flag, stem);
                match l.exe_position {
                    ArgsPosition::Pre => texts(l.build_args@) + out + seq![path],
                    ArgsPosition::Post => texts(l.build_args@) + seq![path] + out,
                }
            },
            ProgLang::Runtime(_) => Seq::empty(),
            ProgLang::Custom(l) => texts(l.build_args@).push(path),
            ProgLang::Erl(l) => texts(l.build_args@).push(path),
            ProgLang::Ocaml(l) => texts(l.build_args@).push(path) + seq!["-o"@, stem],
        }
    }

    /// The target that a build of `path`, with stem `stem`, produces.
    pub open spec fn target_of(&self, path: Seq<char>, stem: Seq<char>) -> Seq<char> {
        match self {
            ProgLang::Comptime(_) => stem,
            ProgLang::Runtime(_) => sibling_of(path, stem),
            ProgLang::Custom(l) => artifact_of(l.target_name, stem),
            ProgLang::Erl(l) => stem + l.target_suffix@,
            ProgLang::Ocaml(_) => stem,
        }
    }

    /// The incidental files that a build of `path`, with stem `stem`, leaves.
    pub open spec fn side_files_of(&self, path: Seq<char>, stem: Seq<char>) -> Option<Seq<Seq<char>>> {
        match self {
            ProgLang::Comptime(l) => side_names(l.build_files, stem),
            ProgLang::Runtime(_) => None,
            ProgLang::Custom(l) => side_names(l.build_files, stem),
            ProgLang::Erl(_) => None,
            ProgLang::Ocaml(_) => Some(
                seq![
                    sibling_of(path, stem + ".cmi"@),
                    sibling_of(path, stem + ".cmx"@),
                    sibling_of(path, stem + ".o"@),
                ],
            ),
        }
    }

    /// Whether running `target` needs its stem.
    pub open spec fn runs_by_stem(&self) -> bool {
        self is Custom || self is Erl
    }

    /// The program that runs `target`.
    pub open spec fn runner(&self, target: Seq<char>) -> Seq<char> {
        match self {
            ProgLang::Comptime(_) => "./"@ + target,
            ProgLang::Runtime(l) => l.cmd_str@,
            ProgLang::Custom(l) => l.run_cmd_str@,
            ProgLang::Erl(l) => l.cmd_str@,
            ProgLang::Ocaml(_) => "./"@ + target,
        }
    }

    /// The arguments that run `target`, whose stem is `stem`.
    pub open spec fn run_argv(&self, target: Seq<char>, stem: Seq<char>) -> Seq<Seq<char>> {
        match self {
            ProgLang::Comptime(_) => Seq::empty(),
            ProgLang::Runtime(l) => texts(l.cmd_args@).push(target),
            ProgLang::Custom(l) => texts(l.run_args@).push(stem),
            ProgLang::Erl(l) => texts(l.pre_run_args@).push(stem) + texts(l.post_run_args@),
            ProgLang::Ocaml(_) => Seq::empty(),
        }
    }
}

/// Whether building needs the source's stem.
pub open spec fn needs_stem_to_build(l: ProgLang) -> bool {
    l is Comptime || l is Ocaml
}

/// The stem of `p`, or the empty text where it has none.
pub open spec fn stem_or_empty(p: Seq<char>) -> Seq<char> {
    match stem_of(p) {
        Some(s) => s,
        None => Seq::empty(),
    }
}

/// The error for a path without a file stem.
pub open spec fn is_no_stem_error(e: OwlError, p: Seq<char>) -> bool {
    e matches OwlError::UriError(x, _) && x@ == tagged(p, "': has no file stem"@)
}

/// Relies on `char::to_uppercase`: the upper-case form of a character, which
/// depends on the character alone.
#[verifier::external_body]
fn uppercase(c: char) -> (r: String)
    ensures
        r@ == upper_of(c),
{
    c.to_uppercase().collect()
}

fn push_text(v: &mut Vec<String>, s: String)
    ensures
        texts(final(v)@) == texts(old(v)@).push(s@),
{
    v.push(s);
    assert(texts(v@) =~= texts(old(v)@).push(s@));
}

fn extend_texts(v: &mut Vec<String>, items: &Vec<String>)
    ensures
        texts(final(v)@) == texts(old(v)@) + texts(items@),
{
    let mut i: usize = 0;
    while i < items.len()
        invariant
            i <= items@.len(),
            texts(v@) == texts(old(v)@) + texts(items@.subrange(0, i as int)),
        decreases items@.len() - i,
    {
        let ghost before = v@;
        push_text(v, items[i].clone());
        assert(items@.subrange(0, i + 1) =~= items@.subrange(0, i as int).push(items@[i as int]));
        assert(texts(items@.subrange(0, i + 1)) =~= texts(items@.subrange(0, i as int)).push(
            items@[i as int]@,
        ));
        i = i + 1;
    }
    assert(items@.subrange(0, i as int) =~= items@);
}

fn copy_texts(items: &Vec<String>) -> (r: Vec<String>)
    ensures
        texts(r@) == texts(items@),
{
    let mut v: Vec<String> = Vec::new();
    assert(texts(v@) =~= Seq::<Seq<char>>::empty());
    extend_texts(&mut v, items);
    assert(texts(v@) =~= texts(items@));
    v
}

/// Owned copies of string literals.
fn strings(items: &[&str]) -> (r: Vec<String>)
    ensures
        texts(r@) == strs(items@),
{
    let mut v: Vec<String> = Vec::new();
    let mut i: usize = 0;
    while i < items.len()
        invariant
            i <= items@.len(),
            texts(v@) =~= items@.subrange(0, i as int).map_values(|s: &str| s@),
        decreases items@.len() - i,
    {
        push_text(&mut v, String::from_str(items[i]));
        assert(items@.subrange(0, i + 1) =~= items@.subrange(0, i as int).push(items@[i as int]));
        i = i + 1;
    }
    assert(items@.subrange(0, i as int) =~= items@);
    v
}

/// `upper` followed by `stem` without its first character, then `suffix`:
/// the capitalized artifact name once the first character's upper-case
/// form is known.
pub fn capitalized(upper: &str, stem: &str, suffix: &str) -> (r: String)
    requires
        stem@.len() > 0,
    ensures
        r@ == upper@ + stem@.drop_first() + suffix@,
{
    let n = stem.unicode_len();
    let rest = stem.substring_char(1, n);
    assert(rest@ =~= stem@.drop_first());
    String::from_str(upper).concat(rest).concat(suffix)
}

fn artifact_name(a: &ArtifactName, stem: &str) -> (r: String)
    requires
        stem@.len() > 0,
    ensures
        r@ == artifact_of(*a, stem@),
{
    match a {
        ArtifactName::Suffixed(suf) => String::from_str(stem).concat(suf.as_str()),
        ArtifactName::Capitalized(suf) => {
            let up = uppercase(stem.get_char(0));
            capitalized(up.as_str(), stem, suf.as_str())
        },
    }
}

fn side_file_name(f: &SideFile, stem: &str) -> (r: String)
    ensures
        r@ == side_name(*f, stem@),
{
    match f {
        SideFile::Fixed(n) => n.clone(),
        SideFile::Around(pre, suf) => pre.clone().concat(stem).concat(suf.as_str()),
    }
}

fn side_file_names(fs: &Option<Vec<SideFile>>, stem: &str) -> (r: Option<Vec<String>>)
    ensures
        opt_texts(r) == side_names(*fs, stem@),
{
    match fs {
        None => None,
        Some(v) => {
            let ghost want = v@.map_values(|f: SideFile| side_name(f, stem@));
            let mut out: Vec<String> = Vec::new();
            let mut i: usize = 0;
            while i < v.len()
                invariant
                    i <= v@.len(),
                    want == v@.map_values(|f: SideFile| side_name(f, stem@)),
                    texts(out@) =~= want.subrange(0, i as int),
                decreases v@.len() - i,
            {
                push_text(&mut out, side_file_name(&v[i], stem));
                i = i + 1;
            }
            Some(out)
        },
    }
}

impl ProgLang {
    /// The language's name.
    pub fn name(&self) -> (r: String)
        ensures
            r@ == self.spec_name(),
    {
        match self {
            ProgLang::Comptime(l) => l.name.clone(),
            ProgLang::Runtime(l) => l.name.clone(),
            ProgLang::Custom(l) => l.name.clone(),
            ProgLang::Erl(l) => l.name.clone(),
            ProgLang::Ocaml(l) => l.name.clone(),
        }
    }

    /// Whether the language has a build step.
    pub fn should_build(&self) -> (r: bool)
        ensures
            r == self.needs_build(),
    {
        match self {
            ProgLang::Runtime(_) => false,
            _ => true,
        }
    }

    /// The command that asks the toolchain for its version.
    pub fn version_cmd(&self) -> (r: Invocation)
        ensures
            r.program@ == self.toolchain(),
            texts(r.args@) == self.version_argv(),
    {
        let mut args: Vec<String> = Vec::new();
        assert(texts(args@) =~= Seq::<Seq<char>>::empty());
        match self {
            ProgLang::Comptime(l) => {
                push_text(&mut args, l.ver_arg.clone());
                Invocation { program: l.cmd_str.clone(), args }
            },
            ProgLang::Runtime(l) => {
                push_text(&mut args, l.ver_arg.clone());
                Invocation { program: l.cmd_str.clone(), args }
            },
            ProgLang::Custom(l) => {
                push_text(&mut args, l.ver_arg.clone());
                Invocation { program: l.build_cmd_str.clone(), args }
            },
            ProgLang::Erl(l) => Invocation { program: l.cmd_str.clone(), args: copy_texts(&l.ver_args) },
            ProgLang::Ocaml(l) => {
                push_text(&mut args, l.ver_arg.clone());
                Invocation { program: l.cmd_str.clone(), args }
            },
        }
    }

    /// The toolchain's version from the output of [`ProgLang::version_cmd`]:
    /// its standard output on success; otherwise an error that carries its
    /// standard error as it is. The toolchain counts as available exactly
    /// when this is `Ok`.
    pub fn version(&self, out: ProcessOutput) -> (r: Result<String, OwlError>)
        ensures
            out.success ==> match text_of(out.stdout@) {
                Some(t) => (r matches Ok(s) && s@ == t),
                None => (r matches Err(OwlError::FileError(x, _)) && x@ == tagged(
                    self.spec_name() + " version"@,
                    "': could not read stdout"@,
                )),
            },
            !out.success ==> match text_of(out.stderr@) {
                Some(t) => (r matches Err(OwlError::ProcessError(x, i)) && x@ == tagged(
                    self.spec_name() + " version"@,
                    "': unable to determine version"@,
                ) && i@ == t),
                None => (r matches Err(OwlError::FileError(x, _)) && x@ == tagged(
                    self.spec_name() + " version"@,
                    "': could not read stderr"@,
                )),
            },
    {
        let tag = self.name().concat(" version");
        let stream = if out.success {
            out.stdout
        } else {
            out.stderr
        };
        match utf8_text(stream) {
            Some(t) => {
                if out.success {
                    Ok(t)
                } else {
                    Err(OwlError::ProcessError(tag_text(tag.as_str(), "': unable to determine version"), t))
                }
            },
            None => {
                let what = if out.success {
                    "': could not read stdout"
                } else {
                    "': could not read stderr"
                };
                Err(
                    OwlError::FileError(
                        tag_text(tag.as_str(), what),
                        String::from_str("stream did not contain valid UTF-8"),
                    ),
                )
            },
        }
    }

    /// The command that builds the source at `path`.
    pub fn build_cmd(&self, path: &str) -> (r: Result<Invocation, OwlError>)
        ensures
            self is Runtime ==> r matches Err(OwlError::ProcessError(_, _)),
            !(self is Runtime) && needs_stem_to_build(*self) && stem_of(path@) is None ==> (r matches Err(e)
                && is_no_stem_error(e, path@)),
            !(self is Runtime) && !(needs_stem_to_build(*self) && stem_of(path@) is None) ==> (r matches Ok(inv)
                && inv.program@ == self.builder() && texts(inv.args@) == self.build_argv(
                path@,
                stem_or_empty(path@),
            )),
    {
        let stem = match file_stem(path) {
            Some(s) => s,
            None => {
                if needs_stem(self) {
                    return Err(OwlError::UriError(tag_text(path, "': has no file stem"), String::new()));
                }
                String::new()
            },
        };
        let mut args: Vec<String> = Vec::new();
        assert(texts(args@) =~= Seq::<Seq<char>>::empty());
        match self {
            ProgLang::Runtime(l) => {
                let what = String::from_str("No build command (").concat(l.name.as_str()).concat(
                    ") for '",
                ).concat(path).concat("'");
                Err(OwlError::ProcessError(what, String::new()))
            },
            ProgLang::Comptime(l) => {
                extend_texts(&mut args, &l.build_args);
                if let ArgsPosition::Post = l.exe_position {
                    push_text(&mut args, String::from_str(path));
                }
                match &l.exe_flag {
                    ExeFlag::Pair(f) => {
                        push_text(&mut args, f.clone());
                        push_text(&mut args, stem);
                    },
                    ExeFlag::Joined(lead, f) => {
                        extend_texts(&mut args, lead);
                        push_text(&mut args, f.clone().concat(stem.as_str()));
                    },
                }
                if let ArgsPosition::Pre = l.exe_position {
                    push_text(&mut args, String::from_str(path));
                }
                assert(texts(args@) =~= self.build_argv(path@, stem_or_empty(path@)));
                Ok(Invocation { program: l.build_cmd_str.clone(), args })
            },
            ProgLang::Custom(l) => {
                extend_texts(&mut args, &l.build_args);
                push_text(&mut args, String::from_str(path));
                Ok(Invocation { program: l.build_cmd_str.clone(), args })
            },
            ProgLang::Erl(l) => {
                extend_texts(&mut args, &l.build_args);
                push_text(&mut args, String::from_str(path));
                Ok(Invocation { program: l.cmd_str.clone(), args })
            },
            ProgLang::Ocaml(l) => {
                extend_texts(&mut args, &l.build_args);
                push_text(&mut args, String::from_str(path));
                push_text(&mut args, String::from_str("-o"));
                push_text(&mut args, stem);
                assert(texts(args@) =~= self.build_argv(path@, stem_or_empty(path@)));
                Ok(Invocation { program: l.build_cmd_str.clone(), args })
            },
        }
    }

    /// The target that building `path`, whose stem is `target_stem`, produces.
    pub fn target_path(&self, path: &str, target_stem: &str) -> (r: String)
        requires
            target_stem@.len() > 0,
        ensures
            r@ == self.target_of(path@, target_stem@),
    {
        match self {
            ProgLang::Comptime(_) => String::from_str(target_stem),
            ProgLang::Runtime(_) => sibling(path, target_stem),
            ProgLang::Custom(l) => artifact_name(&l.target_name, target_stem),
            ProgLang::Erl(l) => String::from_str(target_stem).concat(l.target_suffix.as_str()),
            ProgLang::Ocaml(_) => String::from_str(target_stem),
        }
    }

    /// The incidental files that building `path`, whose stem is
    /// `target_stem`, leaves behind.
    pub fn build_files(&self, path: &str, target_stem: &str) -> (r: Option<Vec<String>>)
        ensures
            opt_texts(r) == self.side_files_of(path@, target_stem@),
    {
        match self {
            ProgLang::Comptime(l) => side_file_names(&l.build_files, target_stem),
            ProgLang::Runtime(_) => None,
            ProgLang::Custom(l) => side_file_names(&l.build_files, target_stem),
            ProgLang::Erl(_) => None,
            ProgLang::Ocaml(_) => {
                let mut v: Vec<String> = Vec::new();
                assert(texts(v@) =~= Seq::<Seq<char>>::empty());
                let stem = String::from_str(target_stem);
                push_text(&mut v, sibling(path, stem.clone().concat(".cmi").as_str()));
                push_text(&mut v, sibling(path, stem.clone().concat(".cmx").as_str()));
                push_text(&mut v, sibling(path, stem.concat(".o").as_str()));
                assert(texts(v@) =~= self.side_files_of(path@, target_stem@)->Some_0);
                Some(v)
            },
        }
    }

    /// The command that runs `target`, the result of building with this
    /// profile (the source itself where nothing is built).
    pub fn run_cmd(&self, target: &str) -> (r: Result<Invocation, OwlError>)
        ensures
            self.runs_by_stem() && stem_of(target@) is None ==> (r matches Err(e) && is_no_stem_error(
                e,
                target@,
            )),
            !(self.runs_by_stem() && stem_of(target@) is None) ==> (r matches Ok(inv) && inv.program@
                == self.runner(target@) && texts(inv.args@) == self.run_argv(target@, stem_or_empty(target@))),
    {
        let mut args: Vec<String> = Vec::new();
        assert(texts(args@) =~= Seq::<Seq<char>>::empty());
        match self {
            ProgLang::Comptime(_) => Ok(run_binary(target)),
            ProgLang::Ocaml(_) => Ok(run_binary(target)),
            ProgLang::Runtime(l) => {
                extend_texts(&mut args, &l.cmd_args);
                push_text(&mut args, String::from_str(target));
                Ok(Invocation { program: l.cmd_str.clone(), args })
            },
            ProgLang::Custom(l) => {
                let stem = match file_stem(target) {
                    Some(s) => s,
                    None => {
                        return Err(OwlError::UriError(tag_text(target, "': has no file stem"), String::new()));
                    },
                };
                extend_texts(&mut args, &l.run_args);
                push_text(&mut args, stem);
                Ok(Invocation { program: l.run_cmd_str.clone(), args })
            },
            ProgLang::Erl(l) => {
                let stem = match file_stem(target) {
                    Some(s) => s,
                    None => {
                        return Err(OwlError::UriError(tag_text(target, "': has no file stem"), String::new()));
                    },
                };
                extend_texts(&mut args, &l.pre_run_args);
                push_text(&mut args, stem);
                extend_texts(&mut args, &l.post_run_args);
                Ok(Invocation { program: l.cmd_str.clone(), args })
            },
        }
    }
}

fn needs_stem(l: &ProgLang) -> (r: bool)
    ensures
        r == needs_stem_to_build(*l),
{
    match l {
        ProgLang::Comptime(_) => true,
        ProgLang::Ocaml(_) => true,
        _ => false,
    }
}

impl ProgLang {
    /// What building the source at `path` yielded, from the output of the
    /// command that [`ProgLang::build_cmd`] gave.
    pub fn build(&self, path: &str, out: ProcessOutput) -> (r: Result<BuildLog, OwlError>)
        ensures
            !out.success ==> match text_of(out.stderr@) {
                Some(t) => (r matches Err(OwlError::ProcessError(x, i)) && x@ == tagged(
                    "build"@,
                    "': exit with status failed"@,
                ) && i@ == t + note()),
                None => r matches Err(OwlError::FileError(_, _)),
            },
            out.success ==> match text_of(out.stdout@) {
                None => r matches Err(OwlError::FileError(_, _)),
                Some(t) => match stem_of(path@) {
                    None => (r matches Err(e) && is_no_stem_error(e, path@)),
                    Some(s) => (r matches Ok(log) && log.stdout@ == t && log.target@ == self.target_of(
                        path@,
                        s,
                    ) && opt_texts(log.build_files) == self.side_files_of(path@, s)),
                },
            },
    {
        let stdout = match stdout_else_stderr("build", out) {
            Ok(s) => s,
            Err(e) => {
                return Err(e);
            },
        };
        let stem = match file_stem(path) {
            Some(s) => s,
            None => {
                return Err(OwlError::UriError(tag_text(path, "': has no file stem"), String::new()));
            },
        };
        proof {
            lemma_stem_nonempty(path@);
        }
        Ok(
            BuildLog {
                target: self.target_path(path, stem.as_str()),
                stdout,
                build_files: self.build_files(path, stem.as_str()),
            },
        )
    }
}

/// The registered language for a file extension: its name, the program that
/// reports its toolchain's version, and its shape.
pub open spec fn lang_entry(ext: Seq<char>) -> Option<(Seq<char>, Seq<char>, Shape)> {
    if ext == "adb"@ || ext == "ads"@ {
        Some(("ada"@, "gnatmake"@, Shape::CompileThenRun))
    } else if ext == "c"@ {
        Some(("c"@, "gcc"@, Shape::CompileThenRun))
    } else if ext == "cpp"@ || ext == "cc"@ || ext == "C"@ || ext == "cxx"@ || ext == "c++"@ {
        Some(("cpp"@, "g++"@, Shape::CompileThenRun))
    } else if ext == "cr"@ {
        Some(("crystal"@, "crystal"@, Shape::CompileThenRun))
    } else if ext == "dart"@ {
        Some(("dart"@, "dart"@, Shape::CompileThenRun))
    } else if ext == "erl"@ {
        Some(("erlang"@, "erl"@, Shape::ModuleUnit))
    } else if ext == "ex"@ {
        Some(("elixir"@, "elixir"@, Shape::InterpretDirectly))
    } else if ext == "go"@ {
        Some(("go"@, "go"@, Shape::CompileThenRun))
    } else if ext == "hs"@ {
        Some(("haskell"@, "ghc"@, Shape::CompileThenRun))
    } else if ext == "java"@ {
        Some(("java"@, "javac"@, Shape::CustomArtifactNaming))
    } else if ext == "jl"@ {
        Some(("julia"@, "julia"@, Shape::InterpretDirectly))
    } else if ext == "js"@ {
        Some(("javascript"@, "node"@, Shape::InterpretDirectly))
    } else if ext == "kt"@ {
        Some(("kotlin"@, "kotlinc"@, Shape::CustomArtifactNaming))
    } else if ext == "lean"@ {
        Some(("lean"@, "lean"@, Shape::InterpretDirectly))
    } else if ext == "lua"@ {
        Some(("lua"@, "lua"@, Shape::InterpretDirectly))
    } else if ext == "ml"@ {
        Some(("ocaml"@, "ocamlopt"@, Shape::NativeWithLibraries))
    } else if ext == "odin"@ {
        Some(("odin"@, "odin"@, Shape::CompileThenRun))
    } else if ext == "py"@ || ext == "py3"@ {
        Some(("python"@, "python3"@, Shape::InterpretDirectly))
    } else if ext == "rb"@ {
        Some(("ruby"@, "ruby"@, Shape::InterpretDirectly))
    } else if ext == "rs"@ {
        Some(("rust"@, "rustc"@, Shape::CompileThenRun))
    } else if ext == "ts"@ {
        Some(("typescript"@, "tsc"@, Shape::CustomArtifactNaming))
    } else if ext == "zig"@ {
        Some(("zig"@, "zig"@, Shape::CompileThenRun))
    } else {
        None
    }
}

/// Whether `l` is the profile that `entry` describes.
pub open spec fn describes(entry: (Seq<char>, Seq<char>, Shape), l: ProgLang) -> bool {
    l.spec_name() == entry.0 && l.toolchain() == entry.1 && l.shape() == entry.2
}

/// The texts of string literals.
pub open spec fn strs(s: Seq<&str>) -> Seq<Seq<char>> {
    s.map_values(|x: &str| x@)
}

/// A side file as its prefix and, where the stem follows, its suffix.
pub open spec fn side_model(f: SideFile) -> (Seq<char>, Option<Seq<char>>) {
    match f {
        SideFile::Fixed(n) => (n@, None),
        SideFile::Around(p, q) => (p@, Some(q@)),
    }
}

/// The side files as prefixes and suffixes.
pub open spec fn side_models(fs: Option<Vec<SideFile>>) -> Option<Seq<(Seq<char>, Option<Seq<char>>)>> {
    match fs {
        Some(v) => Some(v@.map_values(|f: SideFile| side_model(f))),
        None => None,
    }
}

/// The same side files, element by element.
pub open spec fn same_sides(
    a: Option<Seq<(Seq<char>, Option<Seq<char>>)>>,
    b: Option<Seq<(Seq<char>, Option<Seq<char>>)>>,
) -> bool {
    match (a, b) {
        (Some(x), Some(y)) => x =~= y,
        (None, None) => true,
        _ => false,
    }
}

/// Side files given as literals.
pub open spec fn sides(s: Seq<(&str, Option<&str>)>) -> Seq<(Seq<char>, Option<Seq<char>>)> {
    s.map_values(
        |x: (&str, Option<&str>)|
            (
                x.0@,
                match x.1 {
                    Some(q) => Some(q@),
                    None => None,
                },
            ),
    )
}

/// The output-name flag as its leading arguments, the flag, and whether the
/// name is joined to it.
pub open spec fn flag_model(f: ExeFlag) -> (Seq<Seq<char>>, Seq<char>, bool) {
    match f {
        ExeFlag::Pair(x) => (Seq::empty(), x@, false),
        ExeFlag::Joined(lead, x) => (texts(lead@), x@, true),
    }
}

/// A flag followed by the name as a separate argument.
pub open spec fn pair(flag: Seq<char>) -> (Seq<Seq<char>>, Seq<char>, bool) {
    (Seq::empty(), flag, false)
}

/// Leading arguments, then a flag with the name joined to it.
pub open spec fn joined(lead: Seq<Seq<char>>, flag: Seq<char>) -> (Seq<Seq<char>>, Seq<char>, bool) {
    (lead, flag, true)
}

/// The artifact naming as its suffix and whether the stem is capitalized.
pub open spec fn artifact_model(a: ArtifactName) -> (Seq<char>, bool) {
    match a {
        ArtifactName::Suffixed(x) => (x@, false),
        ArtifactName::Capitalized(x) => (x@, true),
    }
}

/// `l` is the compiled profile with these parameters; its toolchain both
/// builds and reports the version.
pub open spec fn is_comptime(
    l: ProgLang,
    name: Seq<char>,
    cmd: Seq<char>,
    ver_arg: Seq<char>,
    build_args: Seq<Seq<char>>,
    flag: (Seq<Seq<char>>, Seq<char>, bool),
    position: ArgsPosition,
    files: Option<Seq<(Seq<char>, Option<Seq<char>>)>>,
) -> bool {
    l matches ProgLang::Comptime(c) && c.name@ == name && c.cmd_str@ == cmd && c.build_cmd_str@ == cmd
        && c.ver_arg@ == ver_arg && texts(c.build_args@) =~= build_args && flag_model(c.exe_flag).0 =~= flag.0
        && flag_model(c.exe_flag).1 == flag.1 && flag_model(c.exe_flag).2 == flag.2
        && c.exe_position == position && same_sides(side_models(c.build_files), files)
}

/// `l` is the interpreted profile with these parameters.
pub open spec fn is_runtime(
    l: ProgLang,
    name: Seq<char>,
    cmd: Seq<char>,
    cmd_args: Seq<Seq<char>>,
    ver_arg: Seq<char>,
) -> bool {
    l matches ProgLang::Runtime(r) && r.name@ == name && r.cmd_str@ == cmd && texts(r.cmd_args@) =~= cmd_args
        && r.ver_arg@ == ver_arg
}

/// `l` is the profile with a named artifact and these parameters.
pub open spec fn is_custom(
    l: ProgLang,
    name: Seq<char>,
    build_cmd: Seq<char>,
    build_args: Seq<Seq<char>>,
    run_cmd: Seq<char>,
    run_args: Seq<Seq<char>>,
    ver_arg: Seq<char>,
    files: Option<Seq<(Seq<char>, Option<Seq<char>>)>>,
    artifact: (Seq<char>, bool),
) -> bool {
    l matches ProgLang::Custom(c) && c.name@ == name && c.build_cmd_str@ == build_cmd && texts(c.build_args@)
        =~= build_args && c.run_cmd_str@ == run_cmd && texts(c.run_args@) =~= run_args && c.ver_arg@ == ver_arg
        && same_sides(side_models(c.build_files), files) && artifact_model(c.target_name) == artifact
}

/// The Erlang profile's parameters.
pub open spec fn is_erl_profile(e: ErlLang) -> bool {
    &&& e.name@ == "erlang"@
    &&& e.cmd_str@ == "erl"@
    &&& texts(e.build_args@) =~= strs(seq!["-compile"])
    &&& texts(e.post_run_args@) =~= strs(seq!["-s", "init", "stop", "-noshell"])
    &&& texts(e.pre_run_args@) =~= strs(seq!["-run"])
    &&& texts(e.ver_args@) =~= strs(seq!["-s", "erlang", "halt"])
    &&& e.target_suffix@ == ".beam"@
}

/// The OCaml profile's parameters.
pub open spec fn is_ocaml_profile(o: OcamlLang) -> bool {
    &&& o.name@ == "ocaml"@
    &&& o.cmd_str@ == "ocamlopt"@
    &&& o.ver_arg@ == "--version"@
    &&& o.build_cmd_str@ == "ocamlopt"@
    &&& texts(o.build_args@) =~= strs(seq!["-I", "+unix", "unix.cmxa", "-I", "+str", "str.cmxa"])
}

/// The full profile registered for an extension.
pub open spec fn registered(ext: Seq<char>, l: ProgLang) -> bool {
    if ext == "adb"@ || ext == "ads"@ {
        is_comptime(
            l,
            "ada"@,
            "gnatmake"@,
            "--version"@,
            strs(seq!["-g", "-O2"]),
            pair("-o"@),
            ArgsPosition::Pre,
            Some(
                sides(
                    seq![
                        ("b~", Some(".adb")),
                        ("b~", Some(".ads")),
                        ("b~", Some(".ali")),
                        ("b~", Some(".o")),
                        ("", Some(".ali")),
                        ("", Some(".o")),
                    ],
                ),
            ),
        )
    } else if ext == "c"@ {
        is_comptime(
            l,
            "c"@,
            "gcc"@,
            "--version"@,
            strs(seq!["-g", "-O2", "-std=gnu23", "-static", "-lm"]),
            pair("-o"@),
            ArgsPosition::Pre,
            None,
        )
    } else if ext == "cpp"@ || ext == "cc"@ || ext == "C"@ || ext == "cxx"@ || ext == "c++"@ {
        is_comptime(
            l,
            "cpp"@,
            "g++"@,
            "--version"@,
            strs(seq!["-g", "-O2", "-std=gnu++23", "-static", "-lrt", "-lpthread"]),
            pair("-o"@),
            ArgsPosition::Pre,
            None,
        )
    } else if ext == "cr"@ {
        is_comptime(
            l,
            "crystal"@,
            "crystal"@,
            "--version"@,
            strs(seq!["build", "-O", "2", "--no-color"]),
            pair("-o"@),
            ArgsPosition::Post,
            None,
        )
    } else if ext == "dart"@ {
        is_comptime(
            l,
            "dart"@,
            "dart"@,
            "--version"@,
            strs(seq!["compile", "exe"]),
            pair("-o"@),
            ArgsPosition::Pre,
            None,
        )
    } else if ext == "erl"@ {
        l matches ProgLang::Erl(e) && is_erl_profile(e)
    } else if ext == "ex"@ {
        is_runtime(l, "elixir"@, "elixir"@, Seq::empty(), "--version"@)
    } else if ext == "go"@ {
        is_comptime(l, "go"@, "go"@, "version"@, strs(seq!["build"]), pair("-o"@), ArgsPosition::Pre, None)
    } else if ext == "hs"@ {
        is_comptime(
            l,
            "haskell"@,
            "ghc"@,
            "--version"@,
            strs(seq!["-O2", "-ferror-spans", "-threaded", "-rtsopts", "-dynamic", "-outputdir", "."]),
            pair("-o"@),
            ArgsPosition::Pre,
            Some(sides(seq![("Main.o", None), ("Main.hi", None), ("", Some(".hi")), ("", Some(".o"))])),
        )
    } else if ext == "java"@ {
        is_custom(
            l,
            "java"@,
            "javac"@,
            strs(seq!["-encoding", "UTF-8", "-d", "."]),
            "java"@,
            strs(seq!["-Dfile.encoding=UTF-8", "-XX:+UseSerialGC", "-Xss64m"]),
            "--version"@,
            None,
            (".class"@, false),
        )
    } else if ext == "jl"@ {
        is_runtime(l, "julia"@, "julia"@, Seq::empty(), "--version"@)
    } else if ext == "js"@ {
        is_runtime(l, "javascript"@, "node"@, Seq::empty(), "--version"@)
    } else if ext == "kt"@ {
        is_custom(
            l,
            "kotlin"@,
            "kotlinc"@,
            Seq::empty(),
            "kotlin"@,
            strs(seq!["-J-XX:+UseSerialGC", "-J-Xss64m"]),
            "-version"@,
            Some(sides(seq![("META-INF", None)])),
            ("Kt.class"@, true),
        )
    } else if ext == "lean"@ {
        is_runtime(l, "lean"@, "lean"@, strs(seq!["--run"]), "--version"@)
    } else if ext == "lua"@ {
        is_runtime(l, "lua"@, "lua"@, Seq::empty(), "-v"@)
    } else if ext == "ml"@ {
        l matches ProgLang::Ocaml(o) && is_ocaml_profile(o)
    } else if ext == "odin"@ {
        is_comptime(
            l,
            "odin"@,
            "odin"@,
            "version"@,
            strs(seq!["build"]),
            joined(strs(seq!["-file"]), "-out:"@),
            ArgsPosition::Post,
            None,
        )
    } else if ext == "py"@ || ext == "py3"@ {
        is_runtime(l, "python"@, "python3"@, Seq::empty(), "--version"@)
    } else if ext == "rb"@ {
        is_runtime(l, "ruby"@, "ruby"@, strs(seq!["--yjit"]), "--version"@)
    } else if ext == "rs"@ {
        is_comptime(
            l,
            "rust"@,
            "rustc"@,
            "--version"@,
            strs(seq!["-C", "opt-level=3", "-C", "target-cpu=native"]),
            pair("-o"@),
            ArgsPosition::Post,
            None,
        )
    } else if ext == "ts"@ {
        is_custom(
            l,
            "typescript"@,
            "tsc"@,
            strs(seq!["--module", "commonjs", "-outDir", "."]),
            "node"@,
            Seq::empty(),
            "--version"@,
            None,
            (".js"@, false),
        )
    } else if ext == "zig"@ {
        is_comptime(
            l,
            "zig"@,
            "zig"@,
            "version"@,
            strs(seq!["build-exe", "-O", "ReleaseFast"]),
            joined(Seq::empty(), "-femit-bin="@),
            ArgsPosition::Pre,
            None,
        )
    } else {
        false
    }
}

fn is_text(a: &str, b: &str) -> (r: bool)
    ensures
        r == (a@ == b@),
{
    String::from_str(a) == String::from_str(b)
}

fn comptime(
    name: &str,
    cmd: &str,
    ver_arg: &str,
    build_args: &[&str],
    exe_flag: ExeFlag,
    exe_position: ArgsPosition,
    build_files: Option<Vec<SideFile>>,
) -> (r: ProgLang)
    ensures
        is_comptime(
            r,
            name@,
            cmd@,
            ver_arg@,
            strs(build_args@),
            flag_model(exe_flag),
            exe_position,
            side_models(build_files),
        ),
        r.spec_name() == name@,
        r.toolchain() == cmd@,
        r.shape() == Shape::CompileThenRun,
{
    ProgLang::Comptime(
        ComptimeLang {
            name: String::from_str(name),
            cmd_str: String::from_str(cmd),
            ver_arg: String::from_str(ver_arg),
            build_cmd_str: String::from_str(cmd),
            build_args: strings(build_args),
            exe_flag,
            exe_position,
            build_files,
        },
    )
}

fn runtime(name: &str, cmd: &str, cmd_args: &[&str], ver_arg: &str) -> (r: ProgLang)
    ensures
        is_runtime(r, name@, cmd@, strs(cmd_args@), ver_arg@),
        r.spec_name() == name@,
        r.toolchain() == cmd@,
        r.shape() == Shape::InterpretDirectly,
{
    ProgLang::Runtime(
        RuntimeLang {
            name: String::from_str(name),
            cmd_str: String::from_str(cmd),
            cmd_args: strings(cmd_args),
            ver_arg: String::from_str(ver_arg),
        },
    )
}

fn custom(
    name: &str,
    build_cmd: &str,
    build_args: &[&str],
    run_cmd: &str,
    run_args: &[&str],
    ver_arg: &str,
    build_files: Option<Vec<SideFile>>,
    target_name: ArtifactName,
) -> (r: ProgLang)
    ensures
        is_custom(
            r,
            name@,
            build_cmd@,
            strs(build_args@),
            run_cmd@,
            strs(run_args@),
            ver_arg@,
            side_models(build_files),
            artifact_model(target_name),
        ),
        r.spec_name() == name@,
        r.toolchain() == build_cmd@,
        r.shape() == Shape::CustomArtifactNaming,
{
    ProgLang::Custom(
        CustomLang {
            name: String::from_str(name),
            build_cmd_str: String::from_str(build_cmd),
            build_args: strings(build_args),
            run_cmd_str: String::from_str(run_cmd),
            run_args: strings(run_args),
            ver_arg: String::from_str(ver_arg),
            build_files,
            target_name,
        },
    )
}

/// Side files from literals: a prefix alone names a fixed file; with a
/// suffix, the stem goes between.
fn side_files(items: &[(&str, Option<&str>)]) -> (r: Option<Vec<SideFile>>)
    ensures
        side_models(r) == Some(sides(items@)),
{
    let mut v: Vec<SideFile> = Vec::new();
    let mut i: usize = 0;
    while i < items.len()
        invariant
            i <= items@.len(),
            v@.map_values(|f: SideFile| side_model(f)) =~= sides(items@.subrange(0, i as int)),
        decreases items@.len() - i,
    {
        let (pre, suf) = items[i];
        let f = match suf {
            Some(q) => SideFile::Around(String::from_str(pre), String::from_str(q)),
            None => SideFile::Fixed(String::from_str(pre)),
        };
        let ghost before = v@;
        v.push(f);
        assert(v@.map_values(|f: SideFile| side_model(f)) =~= before.map_values(|f: SideFile| side_model(f)).push(
            side_model(f),
        ));
        assert(items@.subrange(0, i + 1) =~= items@.subrange(0, i as int).push(items@[i as int]));
        i = i + 1;
    }
    assert(items@.subrange(0, i as int) =~= items@);
    Some(v)
}

fn pair_flag(flag: &str) -> (r: ExeFlag)
    ensures
        flag_model(r) == pair(flag@),
{
    ExeFlag::Pair(String::from_str(flag))
}

fn joined_flag(lead: &[&str], flag: &str) -> (r: ExeFlag)
    ensures
        flag_model(r) == joined(strs(lead@), flag@),
{
    ExeFlag::Joined(strings(lead), String::from_str(flag))
}

/// The profile registered for a file extension; `Unsupported` for an
/// extension that none is registered for.
pub fn try_prog_lang(lang_ext: &str) -> (r: Result<ProgLang, OwlError>)
    ensures
        match lang_entry(lang_ext@) {
            Some(entry) => (r matches Ok(l) && describes(entry, l) && registered(lang_ext@, l)),
            None => (r matches Err(OwlError::Unsupported(x)) && x@ == lang_ext@),
        },
{
    let e = lang_ext;
    if is_text(e, "adb") || is_text(e, "ads") {
        let files = side_files(
            &[
                ("b~", Some(".adb")),
                ("b~", Some(".ads")),
                ("b~", Some(".ali")),
                ("b~", Some(".o")),
                ("", Some(".ali")),
                ("", Some(".o")),
            ],
        );
        Ok(comptime("ada", "gnatmake", "--version", &["-g", "-O2"], pair_flag("-o"), ArgsPosition::Pre, files))
    } else if is_text(e, "c") {
        Ok(
            comptime(
                "c",
                "gcc",
                "--version",
                &["-g", "-O2", "-std=gnu23", "-static", "-lm"],
                pair_flag("-o"),
                ArgsPosition::Pre,
                None,
            ),
        )
    } else if is_text(e, "cpp") || is_text(e, "cc") || is_text(e, "C") || is_text(e, "cxx")
        || is_text(e, "c++") {
        Ok(
            comptime(
                "cpp",
                "g++",
                "--version",
                &["-g", "-O2", "-std=gnu++23", "-static", "-lrt", "-lpthread"],
                pair_flag("-o"),
                ArgsPosition::Pre,
                None,
            ),
        )
    } else if is_text(e, "cr") {
        Ok(
            comptime(
                "crystal",
                "crystal",
                "--version",
                &["build", "-O", "2", "--no-color"],
                pair_flag("-o"),
                ArgsPosition::Post,
                None,
            ),
        )
    } else if is_text(e, "dart") {
        Ok(comptime("dart", "dart", "--version", &["compile", "exe"], pair_flag("-o"), ArgsPosition::Pre, None))
    } else if is_text(e, "erl") {
        Ok(ProgLang::Erl(ErlLang::new()))
    } else if is_text(e, "ex") {
        Ok(runtime("elixir", "elixir", &[], "--version"))
    } else if is_text(e, "go") {
        Ok(comptime("go", "go", "version", &["build"], pair_flag("-o"), ArgsPosition::Pre, None))
    } else if is_text(e, "hs") {
        let files = side_files(&[("Main.o", None), ("Main.hi", None), ("", Some(".hi")), ("", Some(".o"))]);
        Ok(
            comptime(
                "haskell",
                "ghc",
                "--version",
                &["-O2", "-ferror-spans", "-threaded", "-rtsopts", "-dynamic", "-outputdir", "."],
                pair_flag("-o"),
                ArgsPosition::Pre,
                files,
            ),
        )
    } else if is_text(e, "java") {
        Ok(
            custom(
                "java",
                "javac",
                &["-encoding", "UTF-8", "-d", "."],
                "java",
                &["-Dfile.encoding=UTF-8", "-XX:+UseSerialGC", "-Xss64m"],
                "--version",
                None,
                ArtifactName::Suffixed(String::from_str(".class")),
            ),
        )
    } else if is_text(e, "jl") {
        Ok(runtime("julia", "julia", &[], "--version"))
    } else if is_text(e, "js") {
        Ok(runtime("javascript", "node", &[], "--version"))
    } else if is_text(e, "kt") {
        Ok(
            custom(
                "kotlin",
                "kotlinc",
                &[],
                "kotlin",
                &["-J-XX:+UseSerialGC", "-J-Xss64m"],
                "-version",
                side_files(&[("META-INF", None)]),
                ArtifactName::Capitalized(String::from_str("Kt.class")),
            ),
        )
    } else if is_text(e, "lean") {
        Ok(runtime("lean", "lean", &["--run"], "--version"))
    } else if is_text(e, "lua") {
        Ok(runtime("lua", "lua", &[], "-v"))
    } else if is_text(e, "ml") {
        Ok(ProgLang::Ocaml(OcamlLang::new()))
    } else if is_text(e, "odin") {
        let flag = joined_flag(&["-file"], "-out:");
        Ok(comptime("odin", "odin", "version", &["build"], flag, ArgsPosition::Post, None))
    } else if is_text(e, "py") || is_text(e, "py3") {
        Ok(runtime("python", "python3", &[], "--version"))
    } else if is_text(e, "rb") {
        Ok(runtime("ruby", "ruby", &["--yjit"], "--version"))
    } else if is_text(e, "rs") {
        Ok(
            comptime(
                "rust",
                "rustc",
                "--version",
                &["-C", "opt-level=3", "-C", "target-cpu=native"],
                pair_flag("-o"),
                ArgsPosition::Post,
                None,
            ),
        )
    } else if is_text(e, "ts") {
        Ok(
            custom(
                "typescript",
                "tsc",
                &["--module", "commonjs", "-outDir", "."],
                "node",
                &[],
                "--version",
                None,
                ArtifactName::Suffixed(String::from_str(".js")),
            ),
        )
    } else if is_text(e, "zig") {
        let flag = joined_flag(&[], "-femit-bin=");
        Ok(comptime("zig", "zig", "version", &["build-exe", "-O", "ReleaseFast"], flag, ArgsPosition::Pre, None))
    } else {
        Err(OwlError::Unsupported(String::from_str(lang_ext)))
    }
}

/// The profile for a source file, by its extension; `None` for a file
/// without an extension or with one that no profile is registered for.
pub fn check_prog_lang(prog: &str) -> (r: Option<ProgLang>)
    ensures
        match ext_of(prog@) {
            Some(ext) => match lang_entry(ext) {
                Some(entry) => (r matches Some(l) && describes(entry, l) && registered(ext, l)),
                None => r is None,
            },
            None => r is None,
        },
{
    match extension(prog) {
        Some(ext) => match try_prog_lang(ext.as_str()) {
            Ok(l) => Some(l),
            Err(_) => None,
        },
        None => None,
    }
}

/// The decision before a build: with the toolchain missing, a
/// `CommandNotFound` naming the language; otherwise whether the language
/// has a build step at all.
pub fn build_step(lang: &ProgLang, toolchain_found: bool) -> (r: Result<bool, OwlError>)
    ensures
        !toolchain_found ==> (r matches Err(OwlError::CommandNotFound(x)) && x@ == tagged(
            lang.spec_name(),
            "': command not found"@,
        )),
        toolchain_found ==> r == Ok::<bool, OwlError>(lang.needs_build()),
{
    if !toolchain_found {
        let name = lang.name();
        return Err(OwlError::CommandNotFound(tag_text(name.as_str(), "': command not found")));
    }
    Ok(lang.should_build())
}

impl ErlLang {
    /// The Erlang profile: `erl -compile` builds a `.beam` module, which
    /// `erl -run <module> -s init stop -noshell` runs.
    pub fn new() -> (r: ErlLang)
        ensures
            is_erl_profile(r),
    {
        let build_args = strings(&["-compile"]);
        let post_run_args = strings(&["-s", "init", "stop", "-noshell"]);
        let pre_run_args = strings(&["-run"]);
        let ver_args = strings(&["-s", "erlang", "halt"]);
        ErlLang {
            name: String::from_str("erlang"),
            cmd_str: String::from_str("erl"),
            build_args,
            post_run_args,
            pre_run_args,
            ver_args,
            target_suffix: String::from_str(".beam"),
        }
    }
}

impl OcamlLang {
    /// The OCaml profile: `ocamlopt` with the `unix` and `str` libraries.
    pub fn new() -> (r: OcamlLang)
        ensures
            is_ocaml_profile(r),
    {
        OcamlLang {
            name: String::from_str("ocaml"),
            cmd_str: String::from_str("ocamlopt"),
            ver_arg: String::from_str("--version"),
            build_cmd_str: String::from_str("ocamlopt"),
            build_args: strings(&["-I", "+unix", "unix.cmxa", "-I", "+str", "str.cmxa"]),
        }
    }
}
} // verus!
