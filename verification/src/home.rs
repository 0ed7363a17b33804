//! The user's home directory.

use vstd::prelude::*;

verus! {

/// Asks `dirs::home_dir()` for the home directory of the current user and
/// writes the path out as text, lossily where it is no Unicode.
///
/// Nothing is claimed of the answer: it depends on the machine and on the
/// environment of the process, and there may be none.
#[verifier::external_body]
pub(crate) fn home_dir_text() -> (home: Option<String>) {
    match dirs::home_dir() {
        Some(path) => Some(path.to_string_lossy().into_owned()),
        None => None,
    }
}

} // verus!
