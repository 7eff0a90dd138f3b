//! The user's home directory.
use vstd::prelude::*;

verus! {

/// Calls `home::home_dir` and gives the path as text.
///
/// Nothing is claimed of the result: it comes from the environment (`HOME`)
/// or the system's user database, and is `None` where neither gives one.
#[verifier::external_body]
pub(crate) fn home_dir() -> (r: Option<String>) {
    match home::home_dir() {
        Some(p) => Some(p.to_string_lossy().into_owned()),
        None => None,
    }
}

} // verus!
