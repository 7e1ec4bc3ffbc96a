//! Path utility functions and the path-like capability traits.
//!
//! Basename and parent extraction are purely structural: they read the text
//! of the path and never touch the filesystem.  Canonicalization is the one
//! operation here that resolves against the live filesystem and can fail
//! for reasons outside the caller's control.

pub mod as_path;
pub mod from_path;
pub mod segments;
pub mod temp_path;

use vstd::prelude::*;
use crate::error::{ErrorInfo, FsIOError};
use as_path::AsPath;
use segments::{basename_of, basename_str, parent_dir_of, parent_str};
use temp_path::{has_suffix, hex_digits};

verus! {

/// Whether `s` is absolute path text: on Unix, text that begins with '/'.
pub open spec fn is_absolute(s: Seq<char>) -> bool {
    s.len() > 0 && s[0] == '/'
}

/// Relies on std::path::Path::canonicalize: it resolves an existing path
/// against the filesystem to its canonical, absolute form, and an absolute
/// path on Unix begins with '/'.  On failure it hands back the underlying
/// operating-system error code, when the error carries one.
#[verifier::external_body]
fn canonicalize_native(path: &str) -> (r: Result<String, Option<i32>>)
    ensures
        r matches Ok(resolved) ==> is_absolute(resolved@),
{
    match std::path::Path::new(path).canonicalize() {
        Ok(resolved) => Ok(resolved.to_string_lossy().into_owned()),
        Err(error) => Err(error.raw_os_error()),
    }
}

/// The I/O failure value for a resolution that failed with the given
/// operating-system error code.
fn canonicalize_failure(code: Option<i32>) -> (r: FsIOError)
    ensures
        r.info matches ErrorInfo::IOError(message, c) && message@ == "Unable to canonicalize path."@
            && c == code,
{
    FsIOError { info: ErrorInfo::IOError("Unable to canonicalize path.".to_owned(), code) }
}

/// Returns a canonicalized string from the provided path value: the path is
/// resolved against the filesystem to its absolute, symlink-free form.  When
/// resolution fails — the path does not exist or cannot be resolved — the
/// result is an I/O failure wrapping the operating-system error code.
pub fn canonicalize_as_string<T: AsPath + ?Sized>(path: &T) -> (r: Result<String, FsIOError>)
    ensures
        r matches Ok(resolved) ==> is_absolute(resolved@),
        r matches Err(error) ==> error.info matches ErrorInfo::IOError(message, _)
            && message@ == "Unable to canonicalize path."@,
{
    let path_str = path.as_path_str();
    match canonicalize_native(path_str) {
        Ok(resolved) => Ok(resolved),
        Err(code) => Err(canonicalize_failure(code)),
    }
}

/// The result of a best-effort resolution: the resolved path when
/// resolution succeeded, the caller's fallback verbatim otherwise.
pub fn resolved_or(resolved: Result<String, FsIOError>, or_value: &str) -> (r: String)
    ensures
        resolved matches Ok(value) ==> r == value,
        resolved is Err ==> r@ == or_value@,
{
    match resolved {
        Ok(value) => value,
        Err(_) => or_value.to_owned(),
    }
}

/// Returns a canonicalized string from the provided path value, and the
/// caller-supplied fallback verbatim when resolution fails; this never
/// fails.
pub fn canonicalize_or<T: AsPath + ?Sized>(path: &T, or_value: &str) -> (r: String)
    ensures
        is_absolute(r@) || r@ == or_value@,
{
    resolved_or(canonicalize_as_string(path), or_value)
}

/// Returns the last path component (file name or last directory name), read
/// purely from the path's text: no filesystem access, no existence check.
/// There is no value when the path has no final component: the root path,
/// the empty path, or a path ending in a `..` segment.
pub fn get_basename<T: AsPath + ?Sized>(path: &T) -> (r: Option<String>)
    ensures
        match r {
            Some(name) => basename_of(path.path_view()) == Some(name@),
            None => basename_of(path.path_view()) is None,
        },
{
    let path_str = path.as_path_str();
    basename_str(path_str)
}

/// Returns the parent path, read purely from the path's text.  There is no
/// value when the path has no parent component (the root, the empty path)
/// or when the parent is empty (a single-segment relative path): an empty
/// parent is normalized to no value, never returned as an empty string.
pub fn get_parent_directory<T: AsPath + ?Sized>(path: &T) -> (r: Option<String>)
    ensures
        match r {
            Some(head) => parent_dir_of(path.path_view()) == Some(head@),
            None => parent_dir_of(path.path_view()) is None,
        },
{
    let path_str = path.as_path_str();
    match parent_str(path_str) {
        Some(head) => {
            if head.as_str().is_empty() {
                None
            } else {
                Some(head)
            }
        },
        None => None,
    }
}

/// Returns a path string inside the platform's temporary-file directory,
/// with a generated base name and the given extension appended after a dot.
/// The file itself is not created, and the returned path did not exist on
/// the filesystem when it was checked.
pub fn get_temporary_file_path(extension: &str) -> (r: String)
    ensures
        has_suffix(r@, seq!['.'] + extension@),
        exists|prefix: Seq<char>, v: int|
            r@ == prefix + seq!['/'] + hex_digits(v, 16) + seq!['.'] + extension@,
{
    temp_path::get(extension)
}

} // verus!
