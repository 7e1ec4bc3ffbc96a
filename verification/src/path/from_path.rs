//! The converse capability: a value that can be constructed from native
//! path text, used to produce display strings.

use vstd::prelude::*;
use crate::path::as_path::path_of_text;

verus! {

/// The display text of a native path: the native representation holds the
/// text itself, so displaying it gives that text back unchanged.
pub open spec fn display_of_path(p: Seq<char>) -> Seq<char> {
    p
}

/// A value that can be constructed from native path text.
pub trait FromPath: Sized {
    /// The text this value displays as.
    spec fn display_text(&self) -> Seq<char>;

    /// Build the display value of the given native path text.
    fn from_path(path: &str) -> (r: Self)
        ensures
            r.display_text() == display_of_path(path@),
    ;
}

impl FromPath for String {
    open spec fn display_text(&self) -> Seq<char> {
        self@
    }

    fn from_path(path: &str) -> (r: String) {
        path.to_owned()
    }
}

/// Round-trip law: reading a text value as a path and displaying that path
/// again yields the text unchanged, for every text value.
pub proof fn lemma_path_display_round_trip(s: Seq<char>)
    ensures
        display_of_path(path_of_text(s)) == s,
{
}

} // verus!
