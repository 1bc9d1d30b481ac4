//! What the standard library reads out of a path.
//!
//! Nothing in this file is proved: the two functions below call
//! `std::path::Path`, and their contracts only give the results a name.

use vstd::prelude::*;

verus! {

/// The extension that `std::path::Path::extension` finds in `path`, if any.
pub uninterp spec fn file_extension(path: Seq<char>) -> Option<Seq<char>>;

/// The file stem that `std::path::Path::file_stem` finds in `path`, if any.
pub uninterp spec fn file_stem(path: Seq<char>) -> Option<Seq<char>>;

/// The characters of an optional string.
pub open spec fn text_of(s: Option<String>) -> Option<Seq<char>> {
    match s {
        Some(s) => Some(s@),
        None => None,
    }
}

/// Calls `std::path::Path::extension` on `path`.
///
/// Trusted: the result is a function of the path's text alone, on the
/// platform the crate is built for. An extension cut out of a `str` is
/// itself valid UTF-8, so turning it into a `String` loses nothing.
#[verifier::external_body]
pub(crate) fn extension_of(path: &str) -> (ext: Option<String>)
    ensures
        text_of(ext) == file_extension(path@),
{
    match std::path::Path::new(path).extension() {
        Some(ext) => Some(ext.to_string_lossy().into_owned()),
        None => None,
    }
}

/// Calls `std::path::Path::file_stem` on `path`.
///
/// Trusted: the result is a function of the path's text alone, on the
/// platform the crate is built for. A stem cut out of a `str` is itself
/// valid UTF-8, so turning it into a `String` loses nothing.
#[verifier::external_body]
pub(crate) fn stem_of(path: &str) -> (stem: Option<String>)
    ensures
        text_of(stem) == file_stem(path@),
{
    match std::path::Path::new(path).file_stem() {
        Some(stem) => Some(stem.to_string_lossy().into_owned()),
        None => None,
    }
}

} // verus!
