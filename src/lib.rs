//! A build, run and check harness for single-file programs in many
//! languages: which toolchain a source file needs, the commands that build
//! and run it, how a run's captured output becomes a result, which test
//! cases a quest runs and how they are judged and tallied, what to delete
//! afterwards, and what the manifest records.
pub mod error;
pub mod lang;
pub mod manifest;
pub mod path;
pub mod process;
pub mod quest;
pub mod stamp;
