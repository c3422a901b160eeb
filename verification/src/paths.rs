//! Filesystem paths as text.
//!
//! The library holds every path as a `String` and leaves the platform's path
//! rules to `std::path`. What `std::path` computes is given a name here, so
//! that contracts can speak of it without fixing one platform's syntax.

use vstd::prelude::*;

verus! {

/// Whether the platform takes `path` for an absolute path
/// (`std::path::Path::is_absolute`).
pub uninterp spec fn path_is_absolute(path: Seq<char>) -> bool;

/// The path without its final component, if it has one
/// (`std::path::Path::parent`).
pub uninterp spec fn path_parent(path: Seq<char>) -> Option<Seq<char>>;

/// `path` adjoined to `base` (`std::path::Path::join`).
pub uninterp spec fn path_join(base: Seq<char>, path: Seq<char>) -> Seq<char>;

/// Calls `std::path::Path::is_absolute` on `path`. The contract only names
/// the answer: it is a function of the text alone.
#[verifier::external_body]
pub(crate) fn is_absolute(path: &str) -> (r: bool)
    ensures
        r == path_is_absolute(path@),
{
    std::path::Path::new(path).is_absolute()
}

/// Calls `std::path::Path::parent` on `path`. The contract names the answer
/// and adds what the documentation gives: the parent is the path with its
/// final component taken away, so its text is strictly shorter.
#[verifier::external_body]
pub(crate) fn parent_of(path: &str) -> (r: Option<String>)
    ensures
        match r {
            Some(p) => path_parent(path@) == Some(p@) && p@.len() < path@.len(),
            None => path_parent(path@).is_none(),
        },
{
    match std::path::Path::new(path).parent() {
        Some(p) => Some(p.to_string_lossy().into_owned()),
        None => None,
    }
}

/// Calls `std::path::Path::join` on `base` with `path`. The contract only
/// names the answer.
#[verifier::external_body]
pub(crate) fn join(base: &str, path: &str) -> (r: String)
    ensures
        r@ == path_join(base@, path@),
{
    std::path::Path::new(base).join(path).to_string_lossy().into_owned()
}

} // verus!
