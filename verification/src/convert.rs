//! The rules of the convert page: which paths may be imported.

use vstd::prelude::*;

verus! {

/// What `std::path::Path::starts_with` gives: whether `base` is a prefix of
/// `path`, compared whole component by whole component.
pub uninterp spec fn path_starts_with(path: Seq<char>, base: Seq<char>) -> bool;

/// Trusted: `std::path::Path::new(path).starts_with(base)`. Its result is a
/// function of the two paths alone, named `path_starts_with`.
#[verifier::external_body]
fn path_has_prefix(path: &str, base: &str) -> (res: bool)
    ensures
        res == path_starts_with(path@, base@),
{
    std::path::Path::new(path).starts_with(base)
}

/// Whether a path may be imported: only paths inside the home directory
/// are, when the home directory is known; any path is when it is not.
pub fn is_path_allowed(path: &str, home: Option<&str>) -> (res: bool)
    ensures
        res == (match home {
            Some(h) => path_starts_with(path@, h@),
            None => true,
        }),
{
    match home {
        Some(h) => path_has_prefix(path, h),
        None => true,
    }
}

} // verus!
