//! File system paths as text, computed by the standard library's path type.
//!
//! A path is held as a `String`. What the standard library makes of it is
//! deterministic for the platform the library is built for, but is not spelled
//! out here: each result has a name, and the contracts speak of the names.

use std::path::Path;
use std::path::PathBuf;
use vstd::prelude::*;

verus! {

/// The path that `std::path::Path::join` gives for `base` extended by `child`.
pub uninterp spec fn joined_path(base: Seq<char>, child: Seq<char>) -> Seq<char>;

/// The extension that `std::path::Path::extension` finds in `path`, if any.
pub uninterp spec fn path_extension(path: Seq<char>) -> Option<Seq<char>>;

/// The path that `std::path::PathBuf::set_extension` leaves when `path` is
/// given the extension `extension`.
pub uninterp spec fn path_with_extension(path: Seq<char>, extension: Seq<char>) -> Seq<char>;

/// The text that formatting `path` as a `std::path::Path` with `{:?}` gives.
pub uninterp spec fn quoted_path(path: Seq<char>) -> Seq<char>;

/// Whether `text` holds a character that some platform reads as a path
/// separator.
pub open spec fn has_separator(text: Seq<char>) -> bool {
    text.contains('/') || text.contains('\\')
}

/// Calls `std::path::Path::join`. Believed, not proved: the result is
/// `joined_path` of the two arguments. The join of two texts is itself text,
/// so turning it back into a `String` loses nothing.
#[verifier::external_body]
pub(crate) fn join_path(base: &str, child: &str) -> (out: String)
    ensures
        out@ == joined_path(base@, child@),
{
    Path::new(base).join(child).to_string_lossy().into_owned()
}

/// Calls `std::path::Path::extension`. Believed, not proved: the result is
/// `path_extension` of the argument.
#[verifier::external_body]
pub(crate) fn extension_of(path: &str) -> (out: Option<String>)
    ensures
        out.deep_view() == path_extension(path@),
{
    match Path::new(path).extension() {
        Some(extension) => Some(extension.to_string_lossy().into_owned()),
        None => None,
    }
}

/// Calls `std::path::PathBuf::set_extension` on a copy of `path`. Believed,
/// not proved: the result is `path_with_extension` of the two arguments. The
/// standard library panics on an extension that holds a path separator, so
/// such an extension is not accepted.
#[verifier::external_body]
pub(crate) fn replace_extension(path: &str, extension: &str) -> (out: String)
    requires
        !has_separator(extension@),
    ensures
        out@ == path_with_extension(path@, extension@),
{
    let mut changed = PathBuf::from(path);
    changed.set_extension(extension);
    changed.to_string_lossy().into_owned()
}

/// Formats `path` as `std::path::Path` does for `{:?}`: quoted and escaped.
/// Believed, not proved: the result is `quoted_path` of the argument.
#[verifier::external_body]
pub(crate) fn quote_path(path: &str) -> (out: String)
    ensures
        out@ == quoted_path(path@),
{
    format!("{:?}", Path::new(path))
}

} // verus!
