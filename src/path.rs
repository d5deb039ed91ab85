//! Filesystem path validation performed before any load.

use vstd::prelude::*;

verus! {

/// Relies on `std::path::Path::exists`: whether the path names an existing
/// entity. The answer depends on the filesystem, so nothing is promised of it.
#[verifier::external_body]
fn path_exists(path: &str) -> (r: bool) {
    std::path::Path::new(path).exists()
}

/// Whether `path` names an existing filesystem entry. The empty path never
/// does, and is rejected without touching the filesystem.
pub fn is_path_valid(path: &str) -> (r: bool)
    ensures
        path@.len() == 0 ==> !r,
{
    if path.unicode_len() == 0 {
        return false;
    }
    path_exists(path)
}

} // verus!
