//! Looking for characters and runs of characters in a text.

use vstd::prelude::*;
use crate::text::{chars_eq, to_chars};

verus! {

/// The place of the last `c` in `v[from..to]`, if there is one.
pub fn last_index_of(v: &[char], from: usize, to: usize, c: char) -> (r: Option<usize>)
    requires
        from <= to <= v.len(),
    ensures
        match r {
            Some(k) => {
                &&& from <= k < to
                &&& v@[k as int] == c
                &&& v@.subrange(from as int, to as int).index_of_last(c) == Some(k - from)
            },
            None => v@.subrange(from as int, to as int).index_of_last(c) is None,
        },
{
    let ghost part = v@.subrange(from as int, to as int);
    let mut i: usize = to;
    while i > from
        invariant
            from <= i <= to <= v.len(),
            part == v@.subrange(from as int, to as int),
            forall|j: int| i - from <= j < to - from ==> #[trigger] part[j] != c,
        decreases i,
    {
        if v[i - 1] == c {
            proof {
                part.index_of_last_ensures(c);
                assert(part[i - 1 - from] == c);
            }
            return Some(i - 1);
        }
        i -= 1;
    }
    proof {
        part.index_of_last_ensures(c);
    }
    None
}

/// The place of the first `c` in `v[from..to]`, if there is one.
pub fn first_index_of(v: &[char], from: usize, to: usize, c: char) -> (r: Option<usize>)
    requires
        from <= to <= v.len(),
    ensures
        match r {
            Some(k) => {
                &&& from <= k < to
                &&& v@[k as int] == c
                &&& v@.subrange(from as int, to as int).index_of_first(c) == Some(k - from)
            },
            None => v@.subrange(from as int, to as int).index_of_first(c) is None,
        },
{
    let ghost part = v@.subrange(from as int, to as int);
    let mut i: usize = from;
    while i < to
        invariant
            from <= i <= to <= v.len(),
            part == v@.subrange(from as int, to as int),
            forall|j: int| 0 <= j < i - from ==> #[trigger] part[j] != c,
        decreases to - i,
    {
        if v[i] == c {
            proof {
                part.index_of_first_ensures(c);
                assert(part[i - from] == c);
            }
            return Some(i);
        }
        i += 1;
    }
    proof {
        part.index_of_first_ensures(c);
    }
    None
}

/// Whether `needle` occurs in `hay` as a run of neighbouring characters.
pub open spec fn contains_text(hay: Seq<char>, needle: Seq<char>) -> bool {
    exists|i: int|
        0 <= i <= hay.len() - needle.len() && #[trigger] hay.subrange(i, i + needle.len())
            == needle
}

/// Whether `hay` ends in `tail`.
pub open spec fn ends_in(hay: Seq<char>, tail: Seq<char>) -> bool {
    tail.len() <= hay.len() && hay.skip(hay.len() - tail.len()) == tail
}

/// Says whether `needle` occurs in `hay`.
pub fn chars_contain(hay: &[char], needle: &[char]) -> (found: bool)
    ensures
        found == contains_text(hay@, needle@),
{
    if needle.len() > hay.len() {
        return false;
    }
    let last = hay.len() - needle.len();
    let mut i: usize = 0;
    loop
        invariant
            i <= last,
            last == hay.len() - needle.len(),
            forall|j: int| 0 <= j < i ==> #[trigger] hay@.subrange(j, j + needle.len()) != needle@,
        decreases last - i,
    {
        if chars_eq(hay, i, i + needle.len(), needle) {
            return true;
        }
        if i == last {
            return false;
        }
        i += 1;
    }
}

/// Says whether `hay` ends in `tail`.
pub fn str_ends_with(hay: &str, tail: &str) -> (r: bool)
    ensures
        r == ends_in(hay@, tail@),
{
    let h = to_chars(hay);
    let t = to_chars(tail);
    if t.len() > h.len() {
        return false;
    }
    assert(h@.skip(h.len() - t.len()) == h@.subrange(h.len() - t.len(), h.len() as int));
    chars_eq(h.as_slice(), h.len() - t.len(), h.len(), t.as_slice())
}

/// Whether `s` begins with `prefix`.
pub open spec fn begins_with(s: Seq<char>, prefix: Seq<char>) -> bool {
    prefix.len() <= s.len() && s.take(prefix.len() as int) == prefix
}

} // verus!
