//! The extension filter: which file names a tool wants.

use vstd::prelude::*;
use crate::text::{
    ascii_fold, chars_eq, chars_eq_ignore_ascii_case, eq_ignore_ascii_case, strs, to_chars,
};
use crate::text::search::last_index_of;

verus! {

/// Where the last `/`-separated segment of `p` begins.
pub open spec fn segment_start(p: Seq<char>) -> int {
    match p.index_of_last('/') {
        Some(k) => k + 1,
        None => 0,
    }
}

/// The final component of a `/`-separated path: trailing separators and
/// trailing `.` components are passed over, and a path that ends in `..`, or
/// that has nothing left, has no file name.
pub open spec fn file_name_of(p: Seq<char>) -> Option<Seq<char>>
    decreases p.len(),
{
    if p.len() == 0 {
        None
    } else if p.last() == '/' {
        file_name_of(p.drop_last())
    } else {
        let segment = p.skip(segment_start(p));
        if segment == seq!['.'] {
            file_name_of(p.drop_last())
        } else if segment == seq!['.', '.'] {
            None
        } else {
            Some(segment)
        }
    }
}

/// The extension of a file name: what follows its last dot, without the dot.
/// A name without a dot has none, and neither has one whose only dot comes first.
pub open spec fn extension_of(name: Seq<char>) -> Option<Seq<char>> {
    match file_name_of(name) {
        Some(f) => match f.index_of_last('.') {
            Some(k) => if k > 0 {
                Some(f.skip(k + 1))
            } else {
                None
            },
            None => None,
        },
        None => None,
    }
}

/// Whether `ext` is, but for the case of ASCII letters, one of `allowed`.
pub open spec fn listed(ext: Seq<char>, allowed: Seq<Seq<char>>) -> bool {
    exists|i: int| 0 <= i < allowed.len() && eq_ignore_ascii_case(#[trigger] allowed[i], ext)
}

/// Whether a file of this name is wanted: an empty list wants every file, any
/// other list wants the files whose extension it holds.
pub open spec fn admits(name: Seq<char>, allowed: Seq<Seq<char>>) -> bool {
    allowed.len() == 0 || match extension_of(name) {
        Some(ext) => listed(ext, allowed),
        None => false,
    }
}

/// Whether the extension of `name` is, letter for letter, one of `extensions`.
pub open spec fn has_listed_extension(name: Seq<char>, extensions: Seq<Seq<char>>) -> bool {
    match extension_of(name) {
        Some(ext) => extensions.contains(ext),
        None => false,
    }
}

/// The bounds of the file name within `v`.
fn file_name_bounds(v: &[char]) -> (r: Option<(usize, usize)>)
    ensures
        match r {
            Some((a, b)) => a < b <= v.len() && file_name_of(v@) == Some(
                v@.subrange(a as int, b as int),
            ),
            None => file_name_of(v@) is None,
        },
{
    let mut end: usize = v.len();
    assert(v@.take(end as int) == v@);
    while end > 0
        invariant
            end <= v.len(),
            file_name_of(v@) == file_name_of(v@.take(end as int)),
        decreases end,
    {
        let ghost p = v@.take(end as int);
        assert(p.drop_last() == v@.take(end - 1));
        if v[end - 1] == '/' {
            end -= 1;
        } else {
            let start = match last_index_of(v, 0, end, '/') {
                Some(k) => k + 1,
                None => 0,
            };
            let ghost segment = p.skip(start as int);
            assert(start == segment_start(p));
            assert(segment == v@.subrange(start as int, end as int));
            let dot = end - start == 1 && v[start] == '.';
            let dots = end - start == 2 && v[start] == '.' && v[start + 1] == '.';
            assert(dot == (segment == seq!['.'])) by {
                if dot {
                    assert(segment =~= seq!['.']);
                } else if segment == seq!['.'] {
                    assert(segment.len() == 1);
                    assert(segment[0] == '.');
                }
            }
            assert(dots == (segment == seq!['.', '.'])) by {
                if dots {
                    assert(segment =~= seq!['.', '.']);
                } else if segment == seq!['.', '.'] {
                    assert(segment.len() == 2);
                    assert(segment[0] == '.');
                    assert(segment[1] == '.');
                }
            }
            if dot {
                end -= 1;
            } else if dots {
                return None;
            } else {
                return Some((start, end));
            }
        }
    }
    None
}

/// The bounds of the extension within `v`.
fn extension_bounds(v: &[char]) -> (r: Option<(usize, usize)>)
    ensures
        match r {
            Some((a, b)) => a <= b <= v.len() && extension_of(v@) == Some(
                v@.subrange(a as int, b as int),
            ),
            None => extension_of(v@) is None,
        },
{
    match file_name_bounds(v) {
        None => None,
        Some((a, b)) => {
            let ghost f = v@.subrange(a as int, b as int);
            match last_index_of(v, a, b, '.') {
                None => None,
                Some(k) => {
                    if k > a {
                        assert(f.skip(k - a + 1) == v@.subrange(k + 1, b as int));
                        Some((k + 1, b))
                    } else {
                        None
                    }
                },
            }
        },
    }
}

/// Says whether a file named `file_name` passes the filter `allowed_exts`.
///
/// With no extension listed every file passes. Otherwise a file passes when
/// its extension equals a listed one, the case of ASCII letters left aside;
/// the listed extensions are written without their dot.
pub fn ext_allowed(file_name: &str, allowed_exts: &[&str]) -> (wanted: bool)
    ensures
        wanted == admits(file_name@, strs(allowed_exts@)),
{
    if allowed_exts.len() == 0 {
        return true;
    }
    let v = to_chars(file_name);
    match extension_bounds(v.as_slice()) {
        None => false,
        Some((a, b)) => {
            let ghost ext = v@.subrange(a as int, b as int);
            let ghost allowed = strs(allowed_exts@);
            let mut i: usize = 0;
            while i < allowed_exts.len()
                invariant
                    i <= allowed_exts.len(),
                    a <= b <= v.len(),
                    ext == v@.subrange(a as int, b as int),
                    extension_of(file_name@) == Some(ext),
                    allowed == strs(allowed_exts@),
                    forall|j: int| 0 <= j < i ==> !eq_ignore_ascii_case(#[trigger] allowed[j], ext),
                decreases allowed_exts.len() - i,
            {
                let al = to_chars(allowed_exts[i]);
                assert(al@ == allowed[i as int]);
                let same = chars_eq_ignore_ascii_case(v.as_slice(), a, b, al.as_slice());
                proof {
                    lemma_eq_ignore_ascii_case_symmetric(ext, allowed[i as int]);
                }
                if same {
                    assert(eq_ignore_ascii_case(allowed[i as int], ext));
                    assert(listed(ext, allowed));
                    return true;
                }
                i += 1;
            }
            false
        },
    }
}

/// Says whether the extension of `file_name` is one of `extensions`, which
/// are written without their dot. Case counts, and a name without an
/// extension has none of them.
pub fn has_extension(file_name: &str, extensions: &[&str]) -> (found: bool)
    ensures
        found == has_listed_extension(file_name@, strs(extensions@)),
{
    let v = to_chars(file_name);
    match extension_bounds(v.as_slice()) {
        None => false,
        Some((a, b)) => {
            let ghost ext = v@.subrange(a as int, b as int);
            let ghost all = strs(extensions@);
            let mut i: usize = 0;
            while i < extensions.len()
                invariant
                    i <= extensions.len(),
                    a <= b <= v.len(),
                    ext == v@.subrange(a as int, b as int),
                    all == strs(extensions@),
                    extension_of(file_name@) == Some(ext),
                    forall|j: int| 0 <= j < i ==> #[trigger] all[j] != ext,
                decreases extensions.len() - i,
            {
                let e = to_chars(extensions[i]);
                if chars_eq(v.as_slice(), a, b, e.as_slice()) {
                    assert(all[i as int] == ext);
                    assert(all.contains(ext));
                    return true;
                }
                i += 1;
            }
            false
        },
    }
}

/// An empty list wants every file, whatever its name.
pub proof fn lemma_empty_filter_admits_all(name: Seq<char>)
    ensures
        admits(name, Seq::empty()),
{
}

/// Under a list that is not empty, a file with an extension is wanted exactly
/// when the list holds that extension, the case of ASCII letters left aside.
pub proof fn lemma_filter_goes_by_extension(
    name: Seq<char>,
    ext: Seq<char>,
    allowed: Seq<Seq<char>>,
)
    requires
        allowed.len() > 0,
        extension_of(name) == Some(ext),
    ensures
        admits(name, allowed) <==> exists|i: int|
            0 <= i < allowed.len() && eq_ignore_ascii_case(#[trigger] allowed[i], ext),
{
}

/// Under a list that is not empty, a file without an extension is not wanted.
pub proof fn lemma_filter_rejects_bare_names(name: Seq<char>, allowed: Seq<Seq<char>>)
    requires
        allowed.len() > 0,
        extension_of(name) is None,
    ensures
        !admits(name, allowed),
{
}

/// Matching without regard to ASCII case does not depend on the side a text stands on.
pub proof fn lemma_eq_ignore_ascii_case_symmetric(a: Seq<char>, b: Seq<char>)
    ensures
        eq_ignore_ascii_case(a, b) == eq_ignore_ascii_case(b, a),
{
    if eq_ignore_ascii_case(a, b) {
        assert forall|i: int| 0 <= i < b.len() implies ascii_fold(#[trigger] b[i]) == ascii_fold(
            a[i],
        ) by {
            assert(ascii_fold(a[i]) == ascii_fold(b[i]));
        }
    }
    if eq_ignore_ascii_case(b, a) {
        assert forall|i: int| 0 <= i < a.len() implies ascii_fold(#[trigger] a[i]) == ascii_fold(
            b[i],
        ) by {
            assert(ascii_fold(b[i]) == ascii_fold(a[i]));
        }
    }
}

} // verus!
