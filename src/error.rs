//! The error kinds of the harness and their text.
use vstd::prelude::*;

verus! {

/// What went wrong; the first text says what, the second (where there is one)
/// carries the details, such as a failed process's captured standard error.
#[derive(Debug)]
pub enum OwlError {
    CommandNotFound(String),
    FileError(String, String),
    LlmError(String, String),
    NetworkError(String, String),
    ProcessError(String, String),
    TestFailure(String),
    TomlError(String, String),
    TuiError(String, String),
    Unsupported(String),
    UriError(String, String),
}

/// `expr (info: details)`, with `N/A` for empty details.
pub open spec fn with_info(expr: Seq<char>, info: Seq<char>) -> Seq<char> {
    expr + " (info: "@ + (if info.len() == 0 {
        "N/A"@
    } else {
        info
    }) + ")"@
}

/// The text shown for an error.
pub open spec fn error_text(e: OwlError) -> Seq<char> {
    match e {
        OwlError::CommandNotFound(x) => x@,
        OwlError::TestFailure(x) => x@,
        OwlError::Unsupported(x) => x@,
        OwlError::FileError(x, i) => with_info(x@, i@),
        OwlError::LlmError(x, i) => with_info(x@, i@),
        OwlError::NetworkError(x, i) => with_info(x@, i@),
        OwlError::ProcessError(x, i) => with_info(x@, i@),
        OwlError::TomlError(x, i) => with_info(x@, i@),
        OwlError::TuiError(x, i) => with_info(x@, i@),
        OwlError::UriError(x, i) => with_info(x@, i@),
    }
}

fn info_text(expr: &String, info: &String) -> (r: String)
    ensures
        r@ == with_info(expr@, info@),
{
    let shown = if info.as_str().unicode_len() == 0 {
        "N/A"
    } else {
        info.as_str()
    };
    expr.clone().concat(" (info: ").concat(shown).concat(")")
}

impl OwlError {
    /// The text shown for this error.
    pub fn message(&self) -> (r: String)
        ensures
            r@ == error_text(*self),
    {
        match self {
            OwlError::CommandNotFound(x) => x.clone(),
            OwlError::TestFailure(x) => x.clone(),
            OwlError::Unsupported(x) => x.clone(),
            OwlError::FileError(x, i) => info_text(x, i),
            OwlError::LlmError(x, i) => info_text(x, i),
            OwlError::NetworkError(x, i) => info_text(x, i),
            OwlError::ProcessError(x, i) => info_text(x, i),
            OwlError::TomlError(x, i) => info_text(x, i),
            OwlError::TuiError(x, i) => info_text(x, i),
            OwlError::UriError(x, i) => info_text(x, i),
        }
    }
}

} // verus!
