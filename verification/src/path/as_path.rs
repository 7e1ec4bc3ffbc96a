//! The "path-like" capability: any value that can be referenced as the text
//! of a native path, without taking ownership and without performing I/O.

use vstd::prelude::*;

verus! {

/// The path view a text value gets when it is read as a path: the native
/// path representation keeps the text as it is, so the conversion is
/// lossless and never fails.
pub open spec fn path_of_text(s: Seq<char>) -> Seq<char> {
    s
}

/// A value that can be referenced as the text of a native path.
pub trait AsPath {
    /// The sequence of characters this value denotes when read as a path.
    spec fn path_view(&self) -> Seq<char>;

    /// Borrow this value as native path text.
    fn as_path_str(&self) -> (r: &str)
        ensures
            r@ == self.path_view(),
    ;
}

impl AsPath for str {
    open spec fn path_view(&self) -> Seq<char> {
        path_of_text(self@)
    }

    fn as_path_str(&self) -> (r: &str) {
        self
    }
}

impl AsPath for String {
    open spec fn path_view(&self) -> Seq<char> {
        path_of_text(self@)
    }

    fn as_path_str(&self) -> (r: &str) {
        self.as_str()
    }
}

} // verus!
