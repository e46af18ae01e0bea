//! Where the user's home directory is, as the `dirs` crate reports it.

use crate::report::home_or_root;
use vstd::prelude::*;

verus! {

/// `std::path::PathBuf`, carried through as an opaque value.
#[verifier::external_type_specification]
#[verifier::external_body]
pub struct ExPathBuf(std::path::PathBuf);

/// `dirs::home_dir` looks the home directory up in the environment and the user database.
/// Its answer depends on the machine and the moment, so nothing is claimed of it.
pub assume_specification[ dirs::home_dir ]() -> (found: Option<std::path::PathBuf>)
;

/// `Path::to_str` gives the path as text where it is valid Unicode, and nothing otherwise.
/// The path is opaque here, so nothing is claimed of the text.
#[verifier::external_body]
fn path_text(path: &std::path::PathBuf) -> (text: Option<String>) {
    path.to_str().map(str::to_owned)
}

/// The user's home directory, or the root `/` where none is known or its path is not text.
pub fn get_home_dir() -> (home: String) {
    let found = match dirs::home_dir() {
        Some(path) => path_text(&path),
        None => None,
    };
    home_or_root(found)
}

} // verus!
