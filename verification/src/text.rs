//! Texts as lists of characters: the bridge between `str`, `String` and
//! `[char]`, and the comparisons and searches built on it.

pub mod edit;
pub mod lines;
pub mod numbers;
pub mod order;
pub mod search;

use vstd::prelude::*;

verus! {

/// `String::push` of the standard library appends one character to the end of
/// the string and leaves the rest as it was.
pub assume_specification[ String::push ](s: &mut String, c: char)
    ensures
        final(s)@ == old(s)@.push(c),
;

/// The views of a list of string slices, in order.
pub open spec fn strs(xs: Seq<&str>) -> Seq<Seq<char>> {
    Seq::new(xs.len(), |i: int| xs[i]@)
}

/// The views of a list of owned strings, in order.
pub open spec fn strings(xs: Seq<String>) -> Seq<Seq<char>> {
    Seq::new(xs.len(), |i: int| xs[i]@)
}

/// An ASCII letter or digit.
pub open spec fn is_ascii_alphanumeric(c: char) -> bool {
    ('0' <= c && c <= '9') || ('a' <= c && c <= 'z') || ('A' <= c && c <= 'Z')
}

/// A decimal digit.
pub open spec fn is_ascii_digit(c: char) -> bool {
    '0' <= c && c <= '9'
}

/// The code of `c`, with the upper-case ASCII letters moved onto the lower-case ones.
pub open spec fn ascii_fold(c: char) -> int {
    if 'A' <= c && c <= 'Z' {
        c as int + 32
    } else {
        c as int
    }
}

/// Two texts that differ at most in the case of their ASCII letters.
pub open spec fn eq_ignore_ascii_case(a: Seq<char>, b: Seq<char>) -> bool {
    &&& a.len() == b.len()
    &&& forall|i: int| 0 <= i < a.len() ==> ascii_fold(#[trigger] a[i]) == ascii_fold(b[i])
}

pub fn ascii_alphanumeric(c: char) -> (b: bool)
    ensures
        b == is_ascii_alphanumeric(c),
{
    ('0' <= c && c <= '9') || ('a' <= c && c <= 'z') || ('A' <= c && c <= 'Z')
}

pub fn ascii_digit(c: char) -> (b: bool)
    ensures
        b == is_ascii_digit(c),
{
    '0' <= c && c <= '9'
}

pub fn fold_ascii(c: char) -> (n: u32)
    ensures
        n == ascii_fold(c),
{
    if 'A' <= c && c <= 'Z' {
        c as u32 + 32
    } else {
        c as u32
    }
}

/// The characters of `s`, in order.
pub fn to_chars(s: &str) -> (v: Vec<char>)
    ensures
        v@ == s@,
{
    let mut v: Vec<char> = Vec::new();
    for c in it: s.chars()
        invariant
            it.seq() == s@,
            v@ == it.seq().take(it.index()),
    {
        v.push(c);
    }
    assert(v@ == s@.take(s@.len() as int));
    v
}

/// The string spelled by the characters `v[from..to]`.
pub fn from_chars(v: &[char], from: usize, to: usize) -> (s: String)
    requires
        from <= to <= v.len(),
    ensures
        s@ == v@.subrange(from as int, to as int),
{
    let mut s = String::new();
    let mut i: usize = from;
    while i < to
        invariant
            from <= i <= to <= v.len(),
            s@ == v@.subrange(from as int, i as int),
        decreases to - i,
    {
        s.push(v[i]);
        i += 1;
    }
    s
}

/// Appends the characters of `tail` to `s`.
pub fn push_chars(s: &mut String, tail: &[char])
    ensures
        final(s)@ == old(s)@ + tail@,
{
    let mut i: usize = 0;
    while i < tail.len()
        invariant
            i <= tail.len(),
            s@ == old(s)@ + tail@.take(i as int),
        decreases tail.len() - i,
    {
        s.push(tail[i]);
        i += 1;
    }
    assert(tail@.take(tail.len() as int) == tail@);
}

/// Whether `a[a_from..a_to]` and `b` differ at most in the case of their ASCII letters.
pub fn chars_eq_ignore_ascii_case(a: &[char], a_from: usize, a_to: usize, b: &[char]) -> (r: bool)
    requires
        a_from <= a_to <= a.len(),
    ensures
        r == eq_ignore_ascii_case(a@.subrange(a_from as int, a_to as int), b@),
{
    if a_to - a_from != b.len() {
        return false;
    }
    let ghost part = a@.subrange(a_from as int, a_to as int);
    let mut i: usize = 0;
    while i < b.len()
        invariant
            a_from <= a_to <= a.len(),
            a_to - a_from == b.len(),
            i <= b.len(),
            part == a@.subrange(a_from as int, a_to as int),
            forall|j: int| 0 <= j < i ==> ascii_fold(#[trigger] part[j]) == ascii_fold(b@[j]),
        decreases b.len() - i,
    {
        if fold_ascii(a[a_from + i]) != fold_ascii(b[i]) {
            assert(ascii_fold(part[i as int]) != ascii_fold(b@[i as int]));
            return false;
        }
        i += 1;
    }
    true
}

/// Whether `a[a_from..a_to]` and `b` hold the same characters.
pub fn chars_eq(a: &[char], a_from: usize, a_to: usize, b: &[char]) -> (r: bool)
    requires
        a_from <= a_to <= a.len(),
    ensures
        r == (a@.subrange(a_from as int, a_to as int) == b@),
{
    if a_to - a_from != b.len() {
        return false;
    }
    let ghost part = a@.subrange(a_from as int, a_to as int);
    let mut i: usize = 0;
    while i < b.len()
        invariant
            a_from <= a_to <= a.len(),
            a_to - a_from == b.len(),
            i <= b.len(),
            part == a@.subrange(a_from as int, a_to as int),
            forall|j: int| 0 <= j < i ==> #[trigger] part[j] == b@[j],
        decreases b.len() - i,
    {
        if a[a_from + i] != b[i] {
            assert(part[i as int] != b@[i as int]);
            return false;
        }
        i += 1;
    }
    assert(part =~= b@);
    true
}

/// How many of `urls` are not empty.
pub open spec fn nonempty_count(urls: Seq<Seq<char>>) -> nat
    decreases urls.len(),
{
    if urls.len() == 0 {
        0
    } else {
        let last: nat = if urls.last().len() > 0 {
            1
        } else {
            0
        };
        nonempty_count(urls.drop_last()) + last
    }
}

/// Counts the entries of `urls` that are not empty.
pub fn count_nonempty(urls: &[&str]) -> (n: usize)
    ensures
        n == nonempty_count(strs(urls@)),
        n <= urls@.len(),
{
    let ghost all = strs(urls@);
    let mut n: usize = 0;
    let mut i: usize = 0;
    while i < urls.len()
        invariant
            i <= urls.len(),
            all == strs(urls@),
            n == nonempty_count(all.take(i as int)),
            n <= i,
        decreases urls.len() - i,
    {
        assert(all.take(i + 1).drop_last() == all.take(i as int));
        assert(all.take(i + 1).last() == urls@[i as int]@);
        if !urls[i].is_empty() {
            n += 1;
        }
        i += 1;
    }
    assert(all.take(urls.len() as int) == all);
    n
}

/// Whether `a` and `b` hold the same text.
pub fn str_eq(a: &str, b: &str) -> (same: bool)
    ensures
        same == (a@ == b@),
{
    let x = to_chars(a);
    let y = to_chars(b);
    assert(x@.subrange(0, x.len() as int) == x@);
    chars_eq(x.as_slice(), 0, x.len(), y.as_slice())
}

/// The characters `v[from..to]`.
pub fn copy_chars(v: &[char], from: usize, to: usize) -> (out: Vec<char>)
    requires
        from <= to <= v.len(),
    ensures
        out@ == v@.subrange(from as int, to as int),
{
    let mut out: Vec<char> = Vec::new();
    let mut i: usize = from;
    while i < to
        invariant
            from <= i <= to <= v.len(),
            out@ == v@.subrange(from as int, i as int),
        decreases to - i,
    {
        out.push(v[i]);
        i += 1;
    }
    out
}

/// A copy of `v`.
pub fn clone_strings(v: &Vec<String>) -> (out: Vec<String>)
    ensures
        strings(out@) == strings(v@),
{
    let mut out: Vec<String> = Vec::new();
    let mut i: usize = 0;
    while i < v.len()
        invariant
            i <= v.len(),
            out@.len() == i,
            forall|j: int| 0 <= j < i ==> #[trigger] out@[j]@ == v@[j]@,
        decreases v.len() - i,
    {
        out.push(v[i].clone());
        i += 1;
    }
    assert(strings(out@) =~= strings(v@));
    out
}

} // verus!
