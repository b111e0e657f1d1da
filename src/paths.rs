use std::path::{Path, PathBuf};
use vstd::prelude::*;

verus! {

/// The last component of `path` as `Path::file_name` reads it: none where
/// the path is empty, is a root, or ends in `..`.
pub uninterp spec fn file_name_of(path: Seq<char>) -> Option<Seq<char>>;

/// The path that `PathBuf::push` makes of `base` and `name`.
pub uninterp spec fn pushed_path(base: Seq<char>, name: Seq<char>) -> Seq<char>;

/// The view of an optional string.
pub open spec fn opt_view(o: Option<String>) -> Option<Seq<char>> {
    match o {
        Some(s) => Some(s@),
        None => None,
    }
}

/// Relies on `std::path::Path::file_name`: the final component of the path,
/// if there is one. A component of a `&str` path is itself valid UTF-8, so
/// the lossy conversion keeps every character.
#[verifier::external_body]
pub(crate) fn file_name(path: &str) -> (r: Option<String>)
    ensures
        opt_view(r) == file_name_of(path@),
{
    match Path::new(path).file_name() {
        Some(name) => Some(name.to_string_lossy().into_owned()),
        None => None,
    }
}

/// Relies on `std::path::PathBuf::push`: `name` appended to `base` with the
/// platform's separator. Both are `&str`, so the result is valid UTF-8.
#[verifier::external_body]
pub(crate) fn push_path(base: &str, name: &str) -> (r: String)
    ensures
        r@ == pushed_path(base@, name@),
{
    let mut buf = PathBuf::from(base);
    buf.push(name);
    buf.to_string_lossy().into_owned()
}

} // verus!
