//! File-system paths as the proxy resolves them, through `std::path`.

use vstd::prelude::*;
use crate::text::opt_view;

verus! {

/// What `std::path::Path::is_absolute` answers for the path with this text.
pub uninterp spec fn path_is_absolute(p: Seq<char>) -> bool;

/// The text of `Path::new(base).join(p)`.
pub uninterp spec fn path_join(base: Seq<char>, p: Seq<char>) -> Seq<char>;

/// The text of `Path::new(p).parent()`, `None` where the path has no parent.
pub uninterp spec fn path_parent(p: Seq<char>) -> Option<Seq<char>>;

/// `std::path::Path::is_absolute` on the path with this text. Its result is
/// named, not stated: it is a function of the text under the path rules of
/// the platform the program is built for.
#[verifier::external_body]
pub(crate) fn is_absolute(p: &str) -> (r: bool)
    ensures
        r == path_is_absolute(p@),
{
    std::path::Path::new(p).is_absolute()
}

/// `std::path::Path::join`, rendered back to text. Its result is named (a
/// function of both texts under the target platform's path rules); std
/// documents that joining an absolute path replaces the base, which is stated.
#[verifier::external_body]
pub(crate) fn join(base: &str, p: &str) -> (r: String)
    ensures
        r@ == path_join(base@, p@),
        path_is_absolute(p@) ==> r@ == p@,
{
    std::path::Path::new(base).join(p).to_string_lossy().to_string()
}

/// `std::path::Path::parent`, rendered back to text. Its result is named, not
/// stated: a function of the text under the target platform's path rules.
#[verifier::external_body]
pub(crate) fn parent(p: &str) -> (r: Option<String>)
    ensures
        opt_view(r) == path_parent(p@),
{
    match std::path::Path::new(p).parent() {
        Some(d) => Some(d.to_string_lossy().to_string()),
        None => None,
    }
}

/// The path `path` resolved against `data_dir`: an absolute path as it is,
/// a relative one joined onto `data_dir`.
pub open spec fn resolved_path(path: Seq<char>, data_dir: Seq<char>) -> Seq<char> {
    if path_is_absolute(path) {
        path
    } else {
        path_join(data_dir, path)
    }
}

/// Resolves `path` against `data_dir`: an absolute path is returned as it is,
/// a relative one is joined onto `data_dir`.
pub fn resolve_path_against_data_dir(path: &str, data_dir: &str) -> (r: String)
    ensures
        r@ == resolved_path(path@, data_dir@),
{
    if is_absolute(path) {
        String::from_str(path)
    } else {
        join(data_dir, path)
    }
}

} // verus!
