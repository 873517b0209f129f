//! Numbers written in decimal digits.

use vstd::prelude::*;
use crate::text::{ascii_digit, is_ascii_digit, push_chars, to_chars};

verus! {

/// The decimal digit that stands for `d`.
pub open spec fn digit_char(d: int) -> char {
    (('0' as int) + d) as char
}

/// The number `n` in decimal digits, without leading zeros.
pub open spec fn decimal_of(n: nat) -> Seq<char>
    decreases n,
{
    if n < 10 {
        seq![digit_char(n as int)]
    } else {
        decimal_of(n / 10).push(digit_char((n % 10) as int))
    }
}

/// `digits` with zeros put before it until it has `width` characters.
pub open spec fn zero_padded(digits: Seq<char>, width: nat) -> Seq<char> {
    if digits.len() >= width {
        digits
    } else {
        Seq::new((width - digits.len()) as nat, |i: int| '0') + digits
    }
}

/// Appends `n` in decimal digits to `out`.
pub fn push_decimal(out: &mut String, n: u64)
    ensures
        final(out)@ == old(out)@ + decimal_of(n as nat),
    decreases n,
{
    if n >= 10 {
        push_decimal(out, n / 10);
    }
    let ghost before = out@;
    let digit = (48u8 + (n % 10) as u8) as char;
    assert(digit == digit_char((n % 10) as int));
    out.push(digit);
    assert(out@ =~= old(out)@ + decimal_of(n as nat)) by {
        if n >= 10 {
            assert(before == old(out)@ + decimal_of((n / 10) as nat));
        }
    }
}

/// Writes `n` in decimal digits, with zeros before it where it has fewer
/// than `width` digits.
pub fn decimal(n: u32, width: usize) -> (out: String)
    ensures
        out@ == zero_padded(decimal_of(n as nat), width as nat),
{
    let mut digits = String::new();
    push_decimal(&mut digits, n as u64);
    assert(digits@ =~= decimal_of(n as nat));
    let d = to_chars(digits.as_str());
    let mut out = String::new();
    if d.len() < width {
        let zeros = width - d.len();
        let mut i: usize = 0;
        while i < zeros
            invariant
                i <= zeros,
                out@ == Seq::new(i as nat, |k: int| '0'),
            decreases zeros - i,
        {
            out.push('0');
            assert(out@ =~= Seq::new((i + 1) as nat, |k: int| '0'));
            i += 1;
        }
    }
    push_chars(&mut out, d.as_slice());
    assert(out@ =~= zero_padded(decimal_of(n as nat), width as nat));
    out
}

/// The number that the decimal digits `digits` stand for.
pub open spec fn number_of(digits: Seq<char>) -> nat
    decreases digits.len(),
{
    if digits.len() == 0 {
        0
    } else {
        number_of(digits.drop_last()) * 10 + (digits.last() as int - '0' as int) as nat
    }
}

/// Whether `s` is made of decimal digits only.
pub open spec fn all_digits(s: Seq<char>) -> bool {
    forall|i: int| 0 <= i < s.len() ==> is_ascii_digit(#[trigger] s[i])
}

/// What `s` says as a number below 2^32: an optional `+`, then one decimal
/// digit or more, and nothing else.
pub open spec fn parsed_u32(s: Seq<char>) -> Option<u32> {
    let digits = if s.len() > 0 && s[0] == '+' {
        s.drop_first()
    } else {
        s
    };
    if digits.len() > 0 && all_digits(digits) && number_of(digits) <= u32::MAX {
        Some(number_of(digits) as u32)
    } else {
        None
    }
}

/// A number written in more digits is not smaller.
pub proof fn lemma_number_grows(digits: Seq<char>, n: int)
    requires
        0 <= n <= digits.len(),
        all_digits(digits),
    ensures
        number_of(digits.take(n)) <= number_of(digits),
    decreases digits.len(),
{
    if n < digits.len() {
        assert(digits.drop_last().take(n) == digits.take(n));
        assert forall|i: int| 0 <= i < digits.drop_last().len() implies is_ascii_digit(
            #[trigger] digits.drop_last()[i],
        ) by {
            assert(digits.drop_last()[i] == digits[i]);
        }
        lemma_number_grows(digits.drop_last(), n);
        assert(is_ascii_digit(digits[digits.len() - 1]));
    } else {
        assert(digits.take(n) == digits);
    }
}

/// Reads a number below 2^32 off `v[from..to]`.
pub fn parse_u32(v: &[char], from: usize, to: usize) -> (r: Option<u32>)
    requires
        from <= to <= v.len(),
    ensures
        r == parsed_u32(v@.subrange(from as int, to as int)),
{
    let ghost s = v@.subrange(from as int, to as int);
    let start = if from < to && v[from] == '+' {
        from + 1
    } else {
        from
    };
    let ghost digits = v@.subrange(start as int, to as int);
    assert(digits == if s.len() > 0 && s[0] == '+' {
        s.drop_first()
    } else {
        s
    });
    if start == to {
        return None;
    }
    let mut n: u64 = 0;
    let mut i: usize = start;
    assert(digits.take(0) =~= Seq::<char>::empty());
    while i < to
        invariant
            start <= i <= to <= v.len(),
            start < to,
            digits == v@.subrange(start as int, to as int),
            s == v@.subrange(from as int, to as int),
            digits == if s.len() > 0 && s[0] == '+' {
                s.drop_first()
            } else {
                s
            },
            forall|j: int| 0 <= j < i - start ==> is_ascii_digit(#[trigger] digits[j]),
            n == number_of(digits.take(i - start)),
            n <= u32::MAX,
        decreases to - i,
    {
        let c = v[i];
        if !ascii_digit(c) {
            assert(!is_ascii_digit(digits[i - start]));
            return None;
        }
        assert(digits.take(i - start + 1).drop_last() == digits.take(i - start));
        assert(digits.take(i - start + 1).last() == c);
        let next = n * 10 + (c as u64 - 48);
        assert(next == number_of(digits.take(i - start + 1)));
        if next > 0xFFFF_FFFF {
            proof {
                if all_digits(digits) {
                    lemma_number_grows(digits, i - start + 1);
                }
            }
            return None;
        }
        n = next;
        i += 1;
    }
    assert(digits.take(to - start) == digits);
    Some(n as u32)
}

} // verus!
