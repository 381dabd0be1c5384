//! Filesystem paths held as strings, and the operations of `std::path` that
//! the loaders use on them.
use vstd::prelude::*;

verus! {

/// Whether `std::path` takes `p` for an absolute path.
pub uninterp spec fn path_is_absolute(p: Seq<char>) -> bool;

/// The parent of `p` as `std::path` computes it; `None` for a root or an
/// empty path.
pub uninterp spec fn path_parent(p: Seq<char>) -> Option<Seq<char>>;

/// `p` joined onto `base` as `std::path` computes it.
pub uninterp spec fn path_join(base: Seq<char>, p: Seq<char>) -> Seq<char>;

/// Relies on `std::path::Path::is_absolute`.
#[verifier::external_body]
pub(crate) fn is_absolute(p: &String) -> (r: bool)
    ensures
        r == path_is_absolute(p@),
{
    std::path::Path::new(p).is_absolute()
}

/// Relies on `std::path::Path::parent`. The parent of a UTF-8 path is a
/// prefix of it, so the conversion back to a string is exact.
#[verifier::external_body]
pub(crate) fn parent(p: &String) -> (r: Option<String>)
    ensures
        r is None <==> path_parent(p@) is None,
        r matches Some(q) ==> path_parent(p@) == Some(q@),
{
    match std::path::Path::new(p).parent() {
        Some(q) => Some(q.to_string_lossy().into_owned()),
        None => None,
    }
}

/// Relies on `std::path::Path::join`; an absolute `p` replaces `base`.
#[verifier::external_body]
pub(crate) fn join(base: &String, p: &String) -> (r: String)
    ensures
        r@ == path_join(base@, p@),
        path_is_absolute(p@) ==> r@ == p@,
{
    std::path::Path::new(base).join(p).to_string_lossy().into_owned()
}

/// Anchors `p` at `folder`: an absolute path is kept, a relative one is
/// joined onto `folder`.
pub open spec fn anchored(folder: Seq<char>, p: Seq<char>) -> Seq<char> {
    if path_is_absolute(p) {
        p
    } else {
        path_join(folder, p)
    }
}

/// Anchors `p` at `folder`.
pub fn anchor(folder: &String, p: String) -> (r: String)
    ensures
        r@ == anchored(folder@, p@),
{
    if is_absolute(&p) {
        p
    } else {
        join(folder, &p)
    }
}

} // verus!
