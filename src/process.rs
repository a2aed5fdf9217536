//! What a child process is asked to run, and how its captured output becomes
//! a result. Spawning, feeding standard input and timing happen outside the
//! library; they hand over a [`ProcessOutput`].
use crate::error::OwlError;
use vstd::prelude::*;
use vstd::utf8::{decode_utf8, valid_utf8};

verus! {

/// The note appended to captured standard error when a process fails.
pub const STACK_TRACE_NOTE: &'static str = "(run program manually for stack trace)";

/// A program and its arguments.
pub struct Invocation {
    pub program: String,
    pub args: Vec<String>,
}

/// How a finished process ended and what it wrote.
pub struct ProcessOutput {
    pub success: bool,
    pub stdout: Vec<u8>,
    pub stderr: Vec<u8>,
}

/// The texts of a sequence of strings.
pub open spec fn texts(v: Seq<String>) -> Seq<Seq<char>> {
    v.map_values(|s: String| s@)
}

/// The text that `bytes` decode to, where they are valid UTF-8.
pub open spec fn text_of(bytes: Seq<u8>) -> Option<Seq<char>> {
    if valid_utf8(bytes) {
        Some(decode_utf8(bytes))
    } else {
        None
    }
}

/// `'tag'` followed by `rest`.
pub open spec fn tagged(tag: Seq<char>, rest: Seq<char>) -> Seq<char> {
    "'"@ + tag + rest
}

/// The text that the note appended to failed output holds.
pub open spec fn note() -> Seq<char> {
    STACK_TRACE_NOTE@
}

/// The result of a finished process, from the stream that counts: standard
/// output on success; on failure, standard error with the note appended.
pub open spec fn outcome_ok(tag: Seq<char>, stream: Seq<u8>, success: bool, name: Seq<char>, r: Result<String, OwlError>) -> bool {
    match text_of(stream) {
        Some(t) => if success {
            r matches Ok(s) && s@ == t
        } else {
            r matches Err(OwlError::ProcessError(x, i)) && x@ == tagged(tag, "': exit with status failed"@)
                && i@ == t + note()
        },
        None => r matches Err(OwlError::FileError(x, _)) && x@ == tagged(tag, "': failed to read "@ + name),
    }
}

/// Relies on `String::from_utf8`: it accepts exactly the byte sequences that
/// are valid UTF-8, and gives the text they encode.
#[verifier::external_body]
pub(crate) fn utf8_text(bytes: Vec<u8>) -> (r: Option<String>)
    ensures
        opt_text(r) == text_of(bytes@),
{
    String::from_utf8(bytes).ok()
}

/// The text of an optional string.
pub open spec fn opt_text(o: Option<String>) -> Option<Seq<char>> {
    match o {
        Some(s) => Some(s@),
        None => None,
    }
}

/// `'tag'` followed by `rest`.
pub fn tag_text(tag: &str, rest: &str) -> (r: String)
    ensures
        r@ == tagged(tag@, rest@),
{
    String::from_str("'").concat(tag).concat(rest)
}

fn interpret(tag: &str, stream: Vec<u8>, success: bool, name: &str) -> (r: Result<String, OwlError>)
    ensures
        outcome_ok(tag@, stream@, success, name@, r),
{
    match utf8_text(stream) {
        Some(t) => {
            if success {
                Ok(t)
            } else {
                Err(
                    OwlError::ProcessError(
                        tag_text(tag, "': exit with status failed"),
                        t.concat(STACK_TRACE_NOTE),
                    ),
                )
            }
        },
        None => {
            let what = String::from_str("': failed to read ").concat(name);
            Err(
                OwlError::FileError(
                    tag_text(tag, what.as_str()),
                    String::from_str("stream did not contain valid UTF-8"),
                ),
            )
        },
    }
}

/// The captured standard output of a process that succeeded; for one that
/// failed, an error that carries its standard error.
pub fn stdout_else_stderr(cmd_tag: &str, out: ProcessOutput) -> (r: Result<String, OwlError>)
    ensures
        out.success ==> outcome_ok(cmd_tag@, out.stdout@, true, "stdout"@, r),
        !out.success ==> outcome_ok(cmd_tag@, out.stderr@, false, "stderr"@, r),
{
    if out.success {
        interpret(cmd_tag, out.stdout, true, "stdout")
    } else {
        interpret(cmd_tag, out.stderr, false, "stderr")
    }
}

/// The captured standard error of a process, whether it succeeded or not:
/// for tools that report on standard error.
pub fn stderr_only(cmd_tag: &str, out: ProcessOutput) -> (r: Result<String, OwlError>)
    ensures
        outcome_ok(cmd_tag@, out.stderr@, out.success, "stderr"@, r),
{
    interpret(cmd_tag, out.stderr, out.success, "stderr")
}

/// Runs the executable `exe` from the working directory.
pub fn run_binary(exe: &str) -> (r: Invocation)
    ensures
        r.program@ == "./"@ + exe@,
        r.args@.len() == 0,
{
    Invocation { program: String::from_str("./").concat(exe), args: Vec::new() }
}

} // verus!
