//! File-system paths as text.
//!
//! Paths travel through this crate as UTF-8 strings. Two operations on them
//! are left to `std::path`, which knows the platform's separators and
//! prefixes; their results are named here so that contracts can speak of
//! them.

use vstd::prelude::*;

verus! {

/// The text of the path that `std::path::Path::join` builds from `base`
/// extended by `component`, on the platform the crate is compiled for.
pub uninterp spec fn joined(base: Seq<char>, component: Seq<char>) -> Seq<char>;

/// The texts of the paths that `std::path::Path::ancestors` yields for
/// `path`, nearest first, on the platform the crate is compiled for.
pub uninterp spec fn ancestors(path: Seq<char>) -> Seq<Seq<char>>;

/// Calls `std::path::Path::join`.
///
/// Trusted: the result is taken to be `joined` of the two arguments. Both
/// arguments are UTF-8, hence so is the joined path, and turning it back
/// into a `String` loses nothing.
#[verifier::external_body]
pub(crate) fn join_path(base: &str, component: &str) -> (path: String)
    ensures
        path@ == joined(base@, component@),
{
    std::path::Path::new(base).join(component).to_string_lossy().into_owned()
}

/// Collects what `std::path::Path::ancestors` yields for `path`.
///
/// Trusted: the result is taken to be `ancestors(path)`. As the standard
/// library documents, the iterator always yields at least one item, and the
/// first is the path itself.
#[verifier::external_body]
pub(crate) fn path_ancestors(path: &str) -> (dirs: Vec<String>)
    ensures
        dirs.deep_view() == ancestors(path@),
        dirs.len() >= 1,
        dirs[0]@ == path@,
{
    let mut dirs = Vec::new();
    for dir in std::path::Path::new(path).ancestors() {
        dirs.push(dir.to_string_lossy().into_owned());
    }
    dirs
}

} // verus!
