//! Replacing and removing parts of a text.

use vstd::prelude::*;
use crate::text::{chars_eq, from_chars, push_chars};
use crate::text::search::begins_with;

verus! {

/// `s` with every `from` replaced by the text `to`.
pub open spec fn replaced(s: Seq<char>, from: char, to: Seq<char>) -> Seq<char>
    decreases s.len(),
{
    if s.len() == 0 {
        seq![]
    } else {
        replaced(s.drop_last(), from, to) + if s.last() == from {
            to
        } else {
            seq![s.last()]
        }
    }
}

/// Appends `v[from..to]` to `out`, with every `what` replaced by `with`.
pub fn push_replaced(out: &mut String, v: &[char], from: usize, to: usize, what: char, with: &[char])
    requires
        from <= to <= v.len(),
    ensures
        final(out)@ == old(out)@ + replaced(v@.subrange(from as int, to as int), what, with@),
{
    let ghost part = v@.subrange(from as int, to as int);
    let mut i: usize = from;
    assert(part.take(0) == Seq::<char>::empty());
    assert(out@ =~= old(out)@ + replaced(part.take(0), what, with@));
    while i < to
        invariant
            from <= i <= to <= v.len(),
            part == v@.subrange(from as int, to as int),
            out@ == old(out)@ + replaced(part.take(i - from), what, with@),
        decreases to - i,
    {
        let ghost before = out@;
        assert(part.take(i - from + 1).drop_last() == part.take(i - from));
        assert(part.take(i - from + 1).last() == v@[i as int]);
        if v[i] == what {
            push_chars(out, with);
        } else {
            out.push(v[i]);
            assert(out@ == before + seq![v@[i as int]]);
        }
        assert(out@ =~= old(out)@ + replaced(part.take(i - from + 1), what, with@));
        i += 1;
    }
    assert(part.take(to - from) == part);
}

/// `s` without the occurrences of `pattern`, which are looked for from left
/// to right and do not overlap. An empty pattern takes nothing away.
pub open spec fn without(s: Seq<char>, pattern: Seq<char>) -> Seq<char>
    decreases s.len(),
{
    if pattern.len() == 0 || s.len() == 0 {
        s
    } else if begins_with(s, pattern) {
        without(s.skip(pattern.len() as int), pattern)
    } else {
        seq![s.first()] + without(s.drop_first(), pattern)
    }
}

/// The text `v[from..to]` without the occurrences of `pattern`.
pub fn remove_all(v: &[char], from: usize, to: usize, pattern: &[char]) -> (out: String)
    requires
        from <= to <= v.len(),
    ensures
        out@ == without(v@.subrange(from as int, to as int), pattern@),
{
    let ghost part = v@.subrange(from as int, to as int);
    if pattern.len() == 0 {
        return from_chars(v, from, to);
    }
    let mut out = String::new();
    let mut i: usize = from;
    assert(part.skip(0) == part);
    assert(out@ + without(part, pattern@) =~= without(part, pattern@));
    while i < to
        invariant
            from <= i <= to <= v.len(),
            pattern@.len() > 0,
            part == v@.subrange(from as int, to as int),
            without(part, pattern@) == out@ + without(part.skip(i - from), pattern@),
        decreases to - i,
    {
        let ghost rest = part.skip(i - from);
        let ghost before = out@;
        if pattern.len() <= to - i && chars_eq(v, i, i + pattern.len(), pattern) {
            assert(rest.take(pattern@.len() as int) == v@.subrange(i as int, i + pattern@.len()));
            assert(rest.skip(pattern@.len() as int) == part.skip(i - from + pattern@.len()));
            i += pattern.len();
        } else {
            assert(!begins_with(rest, pattern@)) by {
                if pattern@.len() <= rest.len() {
                    assert(rest.take(pattern@.len() as int) == v@.subrange(
                        i as int,
                        i + pattern@.len(),
                    ));
                }
            }
            assert(rest.first() == v@[i as int]);
            assert(rest.drop_first() == part.skip(i - from + 1));
            out.push(v[i]);
            assert(out@ + without(part.skip(i - from + 1), pattern@) =~= before + (seq![
                v@[i as int],
            ] + without(part.skip(i - from + 1), pattern@)));
            i += 1;
        }
    }
    assert(part.skip(to - from).len() == 0);
    assert(out@ + without(part.skip(to - from), pattern@) =~= out@);
    out
}

/// `s` with the occurrences of `pattern` replaced by `with`. The occurrences
/// are looked for from left to right and do not overlap; `pattern` is not
/// empty.
pub open spec fn substituted(s: Seq<char>, pattern: Seq<char>, with: Seq<char>) -> Seq<char>
    decreases s.len(),
{
    if pattern.len() == 0 || s.len() == 0 {
        s
    } else if begins_with(s, pattern) {
        with + substituted(s.skip(pattern.len() as int), pattern, with)
    } else {
        seq![s.first()] + substituted(s.drop_first(), pattern, with)
    }
}

/// The text `v` with the occurrences of `pattern` replaced by `with`.
pub fn replace_all(v: &[char], pattern: &[char], with: &[char]) -> (out: String)
    requires
        pattern@.len() > 0,
    ensures
        out@ == substituted(v@, pattern@, with@),
{
    let mut out = String::new();
    let mut i: usize = 0;
    assert(v@.skip(0) == v@);
    assert(out@ + substituted(v@, pattern@, with@) =~= substituted(v@, pattern@, with@));
    while i < v.len()
        invariant
            i <= v.len(),
            pattern@.len() > 0,
            substituted(v@, pattern@, with@) == out@ + substituted(
                v@.skip(i as int),
                pattern@,
                with@,
            ),
        decreases v.len() - i,
    {
        let ghost rest = v@.skip(i as int);
        let ghost before = out@;
        if pattern.len() <= v.len() - i && chars_eq(v, i, i + pattern.len(), pattern) {
            assert(rest.take(pattern@.len() as int) == v@.subrange(i as int, i + pattern@.len()));
            assert(rest.skip(pattern@.len() as int) == v@.skip(i + pattern@.len()));
            push_chars(&mut out, with);
            assert(out@ + substituted(v@.skip(i + pattern@.len()), pattern@, with@) =~= before + (
            with@ + substituted(v@.skip(i + pattern@.len()), pattern@, with@)));
            i += pattern.len();
        } else {
            assert(!begins_with(rest, pattern@)) by {
                if pattern@.len() <= rest.len() {
                    assert(rest.take(pattern@.len() as int) == v@.subrange(
                        i as int,
                        i + pattern@.len(),
                    ));
                }
            }
            assert(rest.first() == v@[i as int]);
            assert(rest.drop_first() == v@.skip(i + 1));
            out.push(v[i]);
            assert(out@ + substituted(v@.skip(i + 1), pattern@, with@) =~= before + (seq![
                v@[i as int],
            ] + substituted(v@.skip(i + 1), pattern@, with@)));
            i += 1;
        }
    }
    assert(v@.skip(v.len() as int).len() == 0);
    assert(out@ + substituted(v@.skip(v.len() as int), pattern@, with@) =~= out@);
    out
}

} // verus!
