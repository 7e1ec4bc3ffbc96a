//! The structural model of a path: a sequence of characters read as
//! '/'-separated segments, with `.` segments normalized away everywhere but
//! at the front, and `..` never naming a final component.
//!
//! `basename_of` and `parent_of` define, purely on the text, which component
//! is the final one and what remains once it is removed; the executable
//! functions here are proved to compute exactly those values.

use vstd::prelude::*;

verus! {

/// The index at which the final '/'-separated segment of `s` begins: the
/// position right after the last '/' of `s`, or `0` when `s` holds no '/'.
pub open spec fn seg_start(s: Seq<char>) -> int
    decreases s.len(),
{
    if s.len() == 0 {
        0
    } else if s.last() == '/' {
        s.len() as int
    } else {
        seg_start(s.drop_last())
    }
}

/// The final '/'-separated segment of `s` (empty when `s` ends in '/').
pub open spec fn final_segment(s: Seq<char>) -> Seq<char> {
    s.subrange(seg_start(s), s.len() as int)
}

/// `s` with every trailing '/' removed.
pub open spec fn strip_trailing_slashes(s: Seq<char>) -> Seq<char>
    decreases s.len(),
{
    if s.len() > 0 && s.last() == '/' {
        strip_trailing_slashes(s.drop_last())
    } else {
        s
    }
}

/// The final path component of `s`: trailing slashes and trailing `.`
/// segments are ignored; there is no final component when nothing remains
/// (the root or the empty path) or when the path ends in a `..` segment.
pub open spec fn basename_of(s: Seq<char>) -> Option<Seq<char>>
    decreases s.len(),
{
    if s.len() == 0 {
        None
    } else if s.last() == '/' {
        basename_of(s.drop_last())
    } else if final_segment(s) == seq!['.'] {
        basename_of(s.drop_last())
    } else if final_segment(s) == seq!['.', '.'] {
        None
    } else {
        Some(final_segment(s))
    }
}

/// The path `s` without its final component: trailing slashes and trailing
/// `.` segments are ignored, the final component and the slashes before it
/// are removed, and what is left is kept verbatim.  A lone leading segment
/// leaves the empty path; a segment reached only through leading slashes
/// leaves the root.  The root and the empty path have no parent at all.
pub open spec fn parent_of(s: Seq<char>) -> Option<Seq<char>>
    decreases s.len(),
{
    if s.len() == 0 {
        None
    } else if s.last() == '/' {
        parent_of(s.drop_last())
    } else if final_segment(s) == seq!['.'] {
        if seg_start(s) == 0 {
            Some(Seq::empty())
        } else {
            parent_of(s.drop_last())
        }
    } else {
        let head = strip_trailing_slashes(s.take(seg_start(s)));
        if head.len() == 0 {
            if seg_start(s) > 0 {
                Some(seq!['/'])
            } else {
                Some(Seq::empty())
            }
        } else {
            Some(head)
        }
    }
}

/// The parent directory of `s`: as `parent_of`, with an empty parent
/// normalized to no value rather than to an empty-string value.
pub open spec fn parent_dir_of(s: Seq<char>) -> Option<Seq<char>> {
    match parent_of(s) {
        Some(head) => if head.len() == 0 {
            None
        } else {
            Some(head)
        },
        None => None,
    }
}

pub proof fn lemma_seg_start_bounds(s: Seq<char>)
    ensures
        0 <= seg_start(s) <= s.len(),
    decreases s.len(),
{
    if s.len() == 0 {
    } else if s.last() == '/' {
    } else {
        lemma_seg_start_bounds(s.drop_last());
    }
}

pub proof fn lemma_seg_start_in_range(s: Seq<char>)
    requires
        s.len() > 0,
        s.last() != '/',
    ensures
        seg_start(s) < s.len(),
{
    lemma_seg_start_bounds(s.drop_last());
}

/// `seg_start` is the one index that sits right after the last '/', with no
/// '/' anywhere at or beyond it.
pub proof fn lemma_seg_start_characterization(s: Seq<char>, j: int)
    requires
        0 <= j <= s.len(),
        j == 0 || s[j - 1] == '/',
        forall|i: int| j <= i < s.len() ==> s[i] != '/',
    ensures
        seg_start(s) == j,
    decreases s.len(),
{
    if s.len() == 0 {
    } else if s.last() == '/' {
        assert(j == s.len()) by {
            if j < s.len() {
                assert(s[s.len() - 1] != '/');
            }
        }
    } else {
        assert(j < s.len()) by {
            if j == s.len() {
                assert(s[j - 1] == '/');
            }
        }
        lemma_seg_start_characterization(s.drop_last(), j);
    }
}

/// The index right after the last '/' of `p`, or `0` when `p` holds none.
pub(crate) fn seg_start_exec(p: &str, n: usize) -> (j: usize)
    requires
        n == p@.len(),
    ensures
        j == seg_start(p@),
        j <= n,
{
    let mut j: usize = n;
    loop
        invariant
            j <= n,
            n == p@.len(),
            forall|i: int| j <= i < n ==> p@[i] != '/',
        ensures
            j <= n,
            j == 0 || p@[j - 1] == '/',
            forall|i: int| j <= i < n ==> p@[i] != '/',
        decreases j,
    {
        if j == 0 {
            break;
        }
        if p.get_char(j - 1) == '/' {
            break;
        }
        j = j - 1;
    }
    proof {
        lemma_seg_start_characterization(p@, j as int);
    }
    j
}

/// The final path component of `p`, owned, by `basename_of`.
pub(crate) fn basename_str(p: &str) -> (r: Option<String>)
    ensures
        match r {
            Some(name) => basename_of(p@) == Some(name@),
            None => basename_of(p@) is None,
        },
    decreases p@.len(),
{
    let n: usize = p.unicode_len();
    if n == 0 {
        return None;
    }
    if p.get_char(n - 1) == '/' {
        let head = p.substring_char(0, n - 1);
        proof {
            assert(head@ =~= p@.drop_last());
        }
        return basename_str(head);
    }
    proof {
        lemma_seg_start_in_range(p@);
    }
    let j: usize = seg_start_exec(p, n);
    let seg_len: usize = n - j;
    if seg_len == 1 && p.get_char(j) == '.' {
        proof {
            assert(final_segment(p@) =~= seq!['.']);
        }
        let head = p.substring_char(0, n - 1);
        proof {
            assert(head@ =~= p@.drop_last());
        }
        return basename_str(head);
    }
    proof {
        assert(final_segment(p@) != seq!['.']) by {
            if final_segment(p@) == seq!['.'] {
                assert(final_segment(p@).len() == 1);
                assert(p@[j as int] == final_segment(p@)[0]);
            }
        }
    }
    if seg_len == 2 && p.get_char(j) == '.' && p.get_char(j + 1) == '.' {
        proof {
            assert(final_segment(p@) =~= seq!['.', '.']);
        }
        return None;
    }
    proof {
        assert(final_segment(p@) != seq!['.', '.']) by {
            if final_segment(p@) == seq!['.', '.'] {
                assert(final_segment(p@).len() == 2);
                assert(p@[j as int] == final_segment(p@)[0]);
                assert(p@[j + 1] == final_segment(p@)[1]);
            }
        }
    }
    let seg = p.substring_char(j, n);
    proof {
        assert(seg@ =~= final_segment(p@));
    }
    Some(seg.to_owned())
}

/// The path `p` without its final component, owned, by `parent_of`.
pub(crate) fn parent_str(p: &str) -> (r: Option<String>)
    ensures
        match r {
            Some(head) => parent_of(p@) == Some(head@),
            None => parent_of(p@) is None,
        },
    decreases p@.len(),
{
    let n: usize = p.unicode_len();
    if n == 0 {
        return None;
    }
    if p.get_char(n - 1) == '/' {
        let head = p.substring_char(0, n - 1);
        proof {
            assert(head@ =~= p@.drop_last());
        }
        return parent_str(head);
    }
    proof {
        lemma_seg_start_in_range(p@);
    }
    let j: usize = seg_start_exec(p, n);
    let seg_len: usize = n - j;
    if seg_len == 1 && p.get_char(j) == '.' {
        proof {
            assert(final_segment(p@) =~= seq!['.']);
        }
        if j == 0 {
            return Some(String::new());
        }
        let head = p.substring_char(0, n - 1);
        proof {
            assert(head@ =~= p@.drop_last());
        }
        return parent_str(head);
    }
    proof {
        assert(final_segment(p@) != seq!['.']) by {
            if final_segment(p@) == seq!['.'] {
                assert(final_segment(p@).len() == 1);
                assert(p@[j as int] == final_segment(p@)[0]);
            }
        }
    }
    let mut e: usize = j;
    loop
        invariant
            e <= j,
            j <= n,
            n == p@.len(),
            strip_trailing_slashes(p@.take(j as int)) == strip_trailing_slashes(
                p@.take(e as int),
            ),
        ensures
            e <= j,
            e == 0 || p@[e - 1] != '/',
            strip_trailing_slashes(p@.take(j as int)) == strip_trailing_slashes(
                p@.take(e as int),
            ),
        decreases e,
    {
        if e == 0 {
            break;
        }
        if p.get_char(e - 1) != '/' {
            break;
        }
        e = e - 1;
        proof {
            assert(p@.take(e + 1).drop_last() =~= p@.take(e as int));
        }
    }
    proof {
        assert(strip_trailing_slashes(p@.take(e as int)) == p@.take(e as int));
    }
    if e == 0 {
        if j > 0 {
            let root = root_string();
            return Some(root);
        }
        return Some(String::new());
    }
    let head = p.substring_char(0, e);
    proof {
        assert(head@ =~= p@.take(e as int));
    }
    Some(head.to_owned())
}

/// The root path, "/", as an owned string.
fn root_string() -> (r: String)
    ensures
        r@ == seq!['/'],
{
    let r = "/";
    proof {
        reveal_strlit("/");
        assert(r@ =~= seq!['/']);
    }
    r.to_owned()
}

} // verus!
