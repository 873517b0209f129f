//! Lines, white space at the ends of a text, and texts put in a row.

use vstd::prelude::*;
use crate::text::{copy_chars, push_chars, strings, to_chars};
use crate::text::search::first_index_of;

verus! {

/// A line without the carriage return that stood before its line feed.
pub open spec fn strip_cr(line: Seq<char>) -> Seq<char> {
    if line.len() > 0 && line.last() == '\r' {
        line.drop_last()
    } else {
        line
    }
}

/// The lines of a text. A line ends at a line feed; the line feed is not part
/// of the line, and neither is a carriage return right before it. What
/// follows the last line feed is a line only if it is not empty.
pub open spec fn lines_of(text: Seq<char>) -> Seq<Seq<char>>
    decreases text.len(),
{
    if text.len() == 0 {
        seq![]
    } else {
        match text.index_of_first('\n') {
            None => seq![text],
            Some(k) => if 0 <= k < text.len() {
                seq![strip_cr(text.take(k))] + lines_of(text.skip(k + 1))
            } else {
                seq![text]
            },
        }
    }
}

/// Splits a text into its lines.
pub fn split_lines(text: &str) -> (lines: Vec<Vec<char>>)
    ensures
        Seq::new(lines@.len(), |i: int| lines@[i]@) == lines_of(text@),
{
    let v = to_chars(text);
    let mut lines: Vec<Vec<char>> = Vec::new();
    let mut start: usize = 0;
    let ghost mut done: Seq<Seq<char>> = seq![];
    assert(v@.skip(0) == v@);
    while start < v.len()
        invariant
            start <= v.len(),
            v@ == text@,
            done == Seq::new(lines@.len(), |i: int| lines@[i]@),
            lines_of(v@) == done + lines_of(v@.skip(start as int)),
        decreases v.len() - start,
    {
        let ghost rest = v@.skip(start as int);
        assert(rest == v@.subrange(start as int, v.len() as int));
        match first_index_of(v.as_slice(), start, v.len(), '\n') {
            None => {
                let line = copy_chars(v.as_slice(), start, v.len());
                proof {
                    assert(lines_of(rest) == seq![rest]);
                    assert(v@.skip(v.len() as int).len() == 0);
                    done = done.push(line@);
                }
                lines.push(line);
                start = v.len();
                assert(done =~= Seq::new(lines@.len(), |i: int| lines@[i]@));
                assert(lines_of(v@) =~= done + lines_of(v@.skip(start as int)));
            },
            Some(k) => {
                let end = if k > start && v[k - 1] == '\r' {
                    k - 1
                } else {
                    k
                };
                let line = copy_chars(v.as_slice(), start, end);
                proof {
                    assert(rest.take(k - start) == v@.subrange(start as int, k as int));
                    assert(line@ == strip_cr(rest.take(k - start)));
                    assert(rest.skip(k - start + 1) == v@.skip(k + 1));
                    done = done.push(line@);
                }
                lines.push(line);
                start = k + 1;
                assert(done =~= Seq::new(lines@.len(), |i: int| lines@[i]@));
                assert(lines_of(v@) =~= done + lines_of(v@.skip(start as int)));
            },
        }
    }
    assert(v@.skip(start as int).len() == 0);
    assert(done + lines_of(v@.skip(start as int)) =~= done);
    lines
}

/// A white-space character: one with the Unicode property `White_Space`.
pub open spec fn is_whitespace(c: char) -> bool {
    let n = c as int;
    ||| 0x09 <= n <= 0x0D
    ||| n == 0x20
    ||| n == 0x85
    ||| n == 0xA0
    ||| n == 0x1680
    ||| 0x2000 <= n <= 0x200A
    ||| n == 0x2028
    ||| n == 0x2029
    ||| n == 0x202F
    ||| n == 0x205F
    ||| n == 0x3000
}

pub fn whitespace(c: char) -> (b: bool)
    ensures
        b == is_whitespace(c),
{
    let n = c as u32;
    (0x09 <= n && n <= 0x0D) || n == 0x20 || n == 0x85 || n == 0xA0 || n == 0x1680 || (0x2000 <= n
        && n <= 0x200A) || n == 0x2028 || n == 0x2029 || n == 0x202F || n == 0x205F || n == 0x3000
}

/// `s` without the white space it ends in.
pub open spec fn trimmed_end(s: Seq<char>) -> Seq<char>
    decreases s.len(),
{
    if s.len() > 0 && is_whitespace(s.last()) {
        trimmed_end(s.drop_last())
    } else {
        s
    }
}

/// `s` without the white space it begins with.
pub open spec fn trimmed_start(s: Seq<char>) -> Seq<char>
    decreases s.len(),
{
    if s.len() > 0 && is_whitespace(s.first()) {
        trimmed_start(s.drop_first())
    } else {
        s
    }
}

/// `s` without the white space at either end.
pub open spec fn trimmed(s: Seq<char>) -> Seq<char> {
    trimmed_end(trimmed_start(s))
}

/// The bounds of `v` without the white space at either end.
pub fn trim_bounds(v: &[char]) -> (r: (usize, usize))
    ensures
        r.0 <= r.1 <= v.len(),
        trimmed(v@) == v@.subrange(r.0 as int, r.1 as int),
{
    let mut start: usize = 0;
    assert(v@.skip(0) == v@);
    while start < v.len() && whitespace(v[start])
        invariant
            start <= v.len(),
            trimmed_start(v@) == trimmed_start(v@.skip(start as int)),
        decreases v.len() - start,
    {
        assert(v@.skip(start as int).drop_first() == v@.skip(start + 1));
        start += 1;
    }
    let ghost rest = v@.skip(start as int);
    assert(trimmed_start(v@) == rest);
    let mut end: usize = v.len();
    assert(rest.take(rest.len() as int) == rest);
    while end > start && whitespace(v[end - 1])
        invariant
            start <= end <= v.len(),
            rest == v@.skip(start as int),
            trimmed_end(rest) == trimmed_end(rest.take(end - start)),
        decreases end,
    {
        assert(rest.take(end - start).drop_last() == rest.take(end - start - 1));
        end -= 1;
    }
    assert(rest.take(end - start) == v@.subrange(start as int, end as int));
    (start, end)
}

/// The texts of `items` in a row, with `sep` between each two.
pub open spec fn joined(items: Seq<Seq<char>>, sep: Seq<char>) -> Seq<char>
    decreases items.len(),
{
    if items.len() == 0 {
        seq![]
    } else if items.len() == 1 {
        items[0]
    } else {
        joined(items.drop_last(), sep) + sep + items.last()
    }
}

/// Puts the texts of `items` in a row, with `sep` between each two.
pub fn join(items: &Vec<String>, sep: &str) -> (out: String)
    ensures
        out@ == joined(strings(items@), sep@),
{
    let ghost all = strings(items@);
    let separator = to_chars(sep);
    let mut out = String::new();
    let mut i: usize = 0;
    assert(all.take(0) =~= Seq::<Seq<char>>::empty());
    while i < items.len()
        invariant
            i <= items.len(),
            all == strings(items@),
            separator@ == sep@,
            out@ == joined(all.take(i as int), sep@),
        decreases items.len() - i,
    {
        let ghost before = out@;
        assert(all.take(i + 1).drop_last() == all.take(i as int));
        assert(all.take(i + 1).last() == items@[i as int]@);
        if i > 0 {
            push_chars(&mut out, separator.as_slice());
        }
        let item = to_chars(items[i].as_str());
        push_chars(&mut out, item.as_slice());
        assert(out@ =~= joined(all.take(i + 1), sep@)) by {
            if i == 0 {
                assert(before =~= Seq::<char>::empty());
            }
        }
        i += 1;
    }
    assert(all.take(items.len() as int) == all);
    out
}

} // verus!
