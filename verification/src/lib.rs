//! The decision logic of a small interactive shell: the directory stack behind `cd`, `pushd`,
//! `popd` and `dirs`, the parser that turns a line into pipeline segments, and the rules that
//! wire the stages of a pipeline together.
//!
//! The library decides and the caller acts: the caller performs each requested effect
//! (changing the working directory, spawning a process, printing) and reports back how it
//! went. The one thing the library asks the system itself is where the home directory is.

pub mod command;
pub mod home;
pub mod laws;
pub mod parse;
pub mod pipeline;
pub mod report;
pub mod shell;
pub mod stack;
pub mod text;
