//! Lists of texts without repeats, and the order of the dictionary.

use vstd::prelude::*;
use crate::text::{clone_strings, str_eq, strings};

verus! {

/// `s` with each text kept where it comes first and dropped where it comes again.
pub open spec fn unique(s: Seq<Seq<char>>) -> Seq<Seq<char>>
    decreases s.len(),
{
    if s.len() == 0 {
        seq![]
    } else {
        let before = unique(s.drop_last());
        if before.contains(s.last()) {
            before
        } else {
            before.push(s.last())
        }
    }
}

/// Whether `items` holds the text `item`.
pub fn holds(items: &Vec<String>, item: &str) -> (found: bool)
    ensures
        found == strings(items@).contains(item@),
{
    let ghost all = strings(items@);
    let mut i: usize = 0;
    while i < items.len()
        invariant
            i <= items.len(),
            all == strings(items@),
            forall|j: int| 0 <= j < i ==> #[trigger] all[j] != item@,
        decreases items.len() - i,
    {
        if str_eq(items[i].as_str(), item) {
            assert(all[i as int] == item@);
            return true;
        }
        i += 1;
    }
    false
}

/// Appends to `seen` those of `more` that it does not hold yet, in order.
pub fn add_unique(seen: &mut Vec<String>, more: &Vec<String>)
    requires
        unique(strings(old(seen)@)) == strings(old(seen)@),
    ensures
        strings(final(seen)@) == unique(strings(old(seen)@) + strings(more@)),
        unique(strings(final(seen)@)) == strings(final(seen)@),
{
    let ghost start = strings(seen@);
    let ghost added = strings(more@);
    let mut i: usize = 0;
    assert(start + added.take(0) =~= start);
    while i < more.len()
        invariant
            i <= more.len(),
            start == strings(old(seen)@),
            added == strings(more@),
            strings(seen@) == unique(start + added.take(i as int)),
        decreases more.len() - i,
    {
        let ghost so_far = start + added.take(i as int);
        let ghost next = start + added.take(i + 1);
        assert(next.drop_last() == so_far);
        assert(next.last() == more@[i as int]@);
        if !holds(seen, more[i].as_str()) {
            let ghost before = strings(seen@);
            seen.push(more[i].clone());
            assert(strings(seen@) =~= before.push(more@[i as int]@));
        }
        i += 1;
    }
    assert(added.take(more.len() as int) == added);
    proof {
        lemma_unique_is_settled(start + added);
    }
}

/// Dropping the repeats of a list that has none changes nothing.
pub proof fn lemma_unique_is_settled(s: Seq<Seq<char>>)
    ensures
        unique(unique(s)) == unique(s),
        forall|x: Seq<char>| unique(s).contains(x) <==> s.contains(x),
    decreases s.len(),
{
    if s.len() > 0 {
        let head = s.drop_last();
        lemma_unique_is_settled(head);
        let before = unique(head);
        assert forall|x: Seq<char>| unique(s).contains(x) <==> s.contains(x) by {
            if s.contains(x) {
                let i = choose|i: int| 0 <= i < s.len() && s[i] == x;
                if i < s.len() - 1 {
                    assert(head[i] == x);
                    assert(head.contains(x));
                    assert(before.contains(x));
                    let j = choose|j: int| 0 <= j < before.len() && before[j] == x;
                    if !before.contains(s.last()) {
                        assert(before.push(s.last())[j] == x);
                    }
                } else {
                    if !before.contains(s.last()) {
                        assert(before.push(s.last())[before.len() as int] == x);
                    }
                }
            }
            if unique(s).contains(x) {
                let j = choose|j: int| 0 <= j < unique(s).len() && unique(s)[j] == x;
                if before.contains(s.last()) || j < before.len() {
                    assert(before[j] == x);
                    assert(head.contains(x));
                    let i = choose|i: int| 0 <= i < head.len() && head[i] == x;
                    assert(s[i] == x);
                } else {
                    assert(s[s.len() - 1] == x);
                }
            }
        }
        if !before.contains(s.last()) {
            let u = before.push(s.last());
            assert(u.drop_last() == before);
            assert(u.last() == s.last());
        }
    }
}

/// `seen` followed by those of `more` that it does not hold yet, in order.
pub fn with_unique(seen: &Vec<String>, more: &Vec<String>) -> (out: Vec<String>)
    requires
        unique(strings(seen@)) == strings(seen@),
    ensures
        strings(out@) == unique(strings(seen@) + strings(more@)),
        unique(strings(out@)) == strings(out@),
{
    let mut out = clone_strings(seen);
    add_unique(&mut out, more);
    out
}

/// Whether `a` comes before `b` in the order of the dictionary, character
/// codes deciding: at the first place where the two differ `a` has the
/// smaller character, or `a` ends there and `b` goes on.
pub open spec fn comes_before(a: Seq<char>, b: Seq<char>) -> bool {
    exists|k: int|
        0 <= k <= a.len() && k <= b.len() && #[trigger] a.take(k) == b.take(k) && (if k
            < a.len() {
            k < b.len() && (a[k] as int) < (b[k] as int)
        } else {
            k < b.len()
        })
}

/// How one text stands to another in the order of the dictionary.
#[derive(Clone, Copy, Debug, PartialEq, Eq, Structural)]
pub enum Rank {
    Before,
    Same,
    After,
}

/// Says how `a` stands to `b`.
pub fn rank(a: &[char], b: &[char]) -> (r: Rank)
    ensures
        r == Rank::Before <==> comes_before(a@, b@),
        r == Rank::Same <==> a@ == b@,
        r == Rank::After <==> comes_before(b@, a@),
{
    let mut k: usize = 0;
    assert(a@.take(0) =~= b@.take(0));
    while k < a.len() && k < b.len()
        invariant
            k <= a.len(),
            k <= b.len(),
            a@.take(k as int) == b@.take(k as int),
        decreases a.len() - k,
    {
        if a[k] != b[k] {
            proof {
                lemma_first_difference(a@, b@, k as int);
                lemma_first_difference(b@, a@, k as int);
                assert(a@ != b@);
            }
            if a[k] < b[k] {
                return Rank::Before;
            } else {
                return Rank::After;
            }
        }
        assert(a@.take(k + 1) =~= a@.take(k as int).push(a@[k as int]));
        assert(b@.take(k + 1) =~= b@.take(k as int).push(b@[k as int]));
        k += 1;
    }
    proof {
        lemma_first_difference(a@, b@, k as int);
        lemma_first_difference(b@, a@, k as int);
        if k == a.len() && k == b.len() {
            assert(a@.take(k as int) == a@);
            assert(b@.take(k as int) == b@);
        }
    }
    if k < b.len() {
        Rank::Before
    } else if k < a.len() {
        Rank::After
    } else {
        Rank::Same
    }
}

/// The order of the dictionary carries over: what comes before a text comes
/// before all that the text comes before.
pub proof fn lemma_before_carries_over(a: Seq<char>, b: Seq<char>, c: Seq<char>)
    requires
        comes_before(a, b),
        comes_before(b, c),
    ensures
        comes_before(a, c),
{
    let k1 = choose|k: int|
        0 <= k <= a.len() && k <= b.len() && #[trigger] a.take(k) == b.take(k) && (if k
            < a.len() {
            k < b.len() && (a[k] as int) < (b[k] as int)
        } else {
            k < b.len()
        });
    let k2 = choose|k: int|
        0 <= k <= b.len() && k <= c.len() && #[trigger] b.take(k) == c.take(k) && (if k
            < b.len() {
            k < c.len() && (b[k] as int) < (c[k] as int)
        } else {
            k < c.len()
        });
    let k = if k1 <= k2 {
        k1
    } else {
        k2
    };
    assert(a.take(k) =~= c.take(k)) by {
        assert forall|i: int| 0 <= i < k implies a[i] == c[i] by {
            assert(a.take(k1)[i] == a[i]);
            assert(b.take(k1)[i] == b[i]);
            assert(b.take(k2)[i] == b[i]);
            assert(c.take(k2)[i] == c[i]);
        }
    }
    if k1 < k2 {
        assert(b.take(k2)[k1] == b[k1]);
        assert(c.take(k2)[k1] == c[k1]);
    } else if k2 < k1 {
        assert(a.take(k1)[k2] == a[k2]);
        assert(b.take(k1)[k2] == b[k2]);
    }
}

/// The place up to which two texts agree decides their order.
pub proof fn lemma_first_difference(a: Seq<char>, b: Seq<char>, k: int)
    requires
        0 <= k <= a.len(),
        k <= b.len(),
        a.take(k) == b.take(k),
        k < a.len() && k < b.len() ==> a[k] != b[k],
    ensures
        comes_before(a, b) == (if k < a.len() {
            k < b.len() && (a[k] as int) < (b[k] as int)
        } else {
            k < b.len()
        }),
{
    assert forall|j: int|
        0 <= j <= a.len() && j <= b.len() && #[trigger] a.take(j) == b.take(j) implies j <= k by {
        if j > k {
            assert(a.take(j)[k] == a[k]);
            assert(b.take(j)[k] == b[k]);
        }
    }
    assert forall|j: int|
        0 <= j < k && j <= a.len() && j <= b.len() implies !(if j < a.len() {
        j < b.len() && (a[j] as int) < (b[j] as int)
    } else {
        j < b.len()
    }) by {
        assert(a.take(k)[j] == a[j]);
        assert(b.take(k)[j] == b[j]);
    }
}

} // verus!
