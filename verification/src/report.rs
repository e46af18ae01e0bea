//! The texts the shell shows: the prompt and the error lines, and the names it falls back
//! on when a directory cannot be told.

use vstd::prelude::*;

verus! {

/// The prompt shown in the directory `cwd`.
pub open spec fn prompt_text(cwd: Seq<char>) -> Seq<char> {
    cwd + "> "@
}

/// The line that reports a failed change of directory, given the system's reason.
pub open spec fn dir_error_text(reason: Seq<char>) -> Seq<char> {
    "Error switching directories: "@ + reason
}

/// The line that reports a program that could not be started, given the system's reason.
pub open spec fn spawn_error_text(reason: Seq<char>) -> Seq<char> {
    "Error occurred with excution: "@ + reason
}

/// The line that reports input that could not be read, given the system's reason.
pub open spec fn read_error_text(reason: Seq<char>) -> Seq<char> {
    "Error reading input: "@ + reason
}

/// The line that reports a `popd` with nothing to go back to.
pub open spec fn stack_empty_text() -> Seq<char> {
    "popd: directory stack empty"@
}

/// Builds the prompt shown in the directory `cwd`.
pub fn prompt(cwd: &str) -> (line: String)
    ensures
        line@ == prompt_text(cwd@),
{
    cwd.to_owned().concat("> ")
}

/// Builds the report of a failed change of directory.
pub fn dir_error(reason: &str) -> (line: String)
    ensures
        line@ == dir_error_text(reason@),
{
    String::from_str("Error switching directories: ").concat(reason)
}

/// Builds the report of a program that could not be started.
pub fn spawn_error(reason: &str) -> (line: String)
    ensures
        line@ == spawn_error_text(reason@),
{
    String::from_str("Error occurred with excution: ").concat(reason)
}

/// Builds the report of input that could not be read.
pub fn read_error(reason: &str) -> (line: String)
    ensures
        line@ == read_error_text(reason@),
{
    String::from_str("Error reading input: ").concat(reason)
}

/// Builds the report of a `popd` with nothing to go back to.
pub fn stack_empty() -> (line: String)
    ensures
        line@ == stack_empty_text(),
{
    String::from_str("popd: directory stack empty")
}

/// The working directory as text: the one found, or `?` where it could not be told.
pub fn working_dir_or_unknown(found: Option<String>) -> (dir: String)
    ensures
        dir@ == match found {
            Some(path) => path@,
            None => "?"@,
        },
{
    match found {
        Some(path) => path,
        None => String::from_str("?"),
    }
}

/// The home directory as text: the one found, or the root `/` where it could not be told.
pub fn home_or_root(found: Option<String>) -> (dir: String)
    ensures
        dir@ == match found {
            Some(path) => path@,
            None => "/"@,
        },
{
    match found {
        Some(path) => path,
        None => String::from_str("/"),
    }
}

} // verus!
