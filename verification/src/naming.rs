//! The names under which fetched files land, and the names read off URLs.

use vstd::prelude::*;
use vstd::string::StringExecFns;
use crate::filter::segment_start;
use crate::text::{
    ascii_alphanumeric, chars_eq, from_chars, is_ascii_alphanumeric, push_chars, to_chars,
};
use crate::text::search::{ends_in, last_index_of};

verus! {

/// `s` with every character that is no ASCII letter or digit replaced by `_`.
pub open spec fn sanitized(s: Seq<char>) -> Seq<char> {
    s.map_values(
        |c: char|
            if is_ascii_alphanumeric(c) {
                c
            } else {
                '_'
            },
    )
}

/// The name a file taken from a clone gets: the sanitized name of the clone's
/// top directory, an underscore, and the file's own name.
pub open spec fn unique_name_of(repo_top: Seq<char>, file_name: Seq<char>) -> Seq<char> {
    sanitized(repo_top) + seq!['_'] + file_name
}

/// What follows the last `/` of `url`; the whole of it where there is none.
pub open spec fn last_segment(url: Seq<char>) -> Seq<char> {
    url.skip(segment_start(url))
}

/// `s` without the `c`s it ends in.
pub open spec fn trim_end(s: Seq<char>, c: char) -> Seq<char>
    decreases s.len(),
{
    if s.len() > 0 && s.last() == c {
        trim_end(s.drop_last(), c)
    } else {
        s
    }
}

/// `s` without the `c`s it begins with.
pub open spec fn trim_start(s: Seq<char>, c: char) -> Seq<char>
    decreases s.len(),
{
    if s.len() > 0 && s.first() == c {
        trim_start(s.drop_first(), c)
    } else {
        s
    }
}

/// The name of a repository, read off its URL: the last segment, trailing
/// slashes left aside.
pub open spec fn repo_name_of(url: Seq<char>) -> Seq<char> {
    last_segment(trim_end(url, '/'))
}

/// The name of the file a write is staged in before it is moved into place.
pub open spec fn staged_name_of(file_name: Seq<char>) -> Seq<char> {
    file_name + seq!['.', 'p', 'a', 'r', 't']
}

/// Makes a text safe as part of a file name: ASCII letters and digits stay,
/// every other character becomes `_`.
pub fn sanitize(s: &str) -> (out: String)
    ensures
        out@ == sanitized(s@),
{
    let v = to_chars(s);
    let mut out = String::new();
    let mut i: usize = 0;
    while i < v.len()
        invariant
            i <= v.len(),
            out@ == sanitized(v@.take(i as int)),
        decreases v.len() - i,
    {
        let c = v[i];
        assert(v@.take(i + 1) == v@.take(i as int).push(c));
        assert(sanitized(v@.take(i + 1)) == sanitized(v@.take(i as int)).push(
            if is_ascii_alphanumeric(c) {
                c
            } else {
                '_'
            },
        ));
        if ascii_alphanumeric(c) {
            out.push(c);
        } else {
            out.push('_');
        }
        i += 1;
    }
    assert(v@.take(v.len() as int) == v@);
    out
}

/// Names the copy of `file_name` that comes out of the clone whose top
/// directory is `repo_top`.
pub fn unique_name(repo_top: &str, file_name: &str) -> (out: String)
    ensures
        out@ == unique_name_of(repo_top@, file_name@),
{
    let mut out = sanitize(repo_top);
    out.push('_');
    let name = to_chars(file_name);
    push_chars(&mut out, name.as_slice());
    out
}

/// Names the copy of `file_name` that comes out of the clone kept in the
/// folder `clone_dir`: the name of that folder, an underscore, and the file's
/// own name.
pub fn prefixed_name(clone_dir: &str, file_name: &str) -> (out: String)
    ensures
        out@ == repo_name_of(clone_dir@) + seq!['_'] + file_name@,
{
    let mut out = extract_repo_name(clone_dir);
    out.push('_');
    let name = to_chars(file_name);
    push_chars(&mut out, name.as_slice());
    out
}

/// Reads the file name off a URL: what follows its last `/`.
pub fn url_file_name(url: &str) -> (out: String)
    ensures
        out@ == last_segment(url@),
{
    let v = to_chars(url);
    let start = match last_index_of(v.as_slice(), 0, v.len(), '/') {
        Some(k) => k + 1,
        None => 0,
    };
    assert(v@.subrange(0, v.len() as int) == v@);
    assert(v@.skip(start as int) == v@.subrange(start as int, v.len() as int));
    from_chars(v.as_slice(), start, v.len())
}

/// Reads the name of a repository off its URL.
pub fn extract_repo_name(repo_url: &str) -> (out: String)
    ensures
        out@ == repo_name_of(repo_url@),
{
    let v = to_chars(repo_url);
    let mut end: usize = v.len();
    assert(v@.take(end as int) == v@);
    while end > 0 && v[end - 1] == '/'
        invariant
            end <= v.len(),
            trim_end(v@, '/') == trim_end(v@.take(end as int), '/'),
        decreases end,
    {
        assert(v@.take(end as int).drop_last() == v@.take(end - 1));
        end -= 1;
    }
    let ghost t = v@.take(end as int);
    assert(trim_end(v@, '/') == t);
    let start = match last_index_of(v.as_slice(), 0, end, '/') {
        Some(k) => k + 1,
        None => 0,
    };
    assert(t.skip(start as int) == v@.subrange(start as int, end as int));
    from_chars(v.as_slice(), start, end)
}

/// Takes the leading dots off an extension, so that `.yml` and `yml` name the same one.
pub fn strip_dots(extension: &str) -> (out: String)
    ensures
        out@ == trim_start(extension@, '.'),
{
    let v = to_chars(extension);
    let mut start: usize = 0;
    assert(v@.skip(0) == v@);
    while start < v.len() && v[start] == '.'
        invariant
            start <= v.len(),
            trim_start(v@, '.') == trim_start(v@.skip(start as int), '.'),
        decreases v.len() - start,
    {
        assert(v@.skip(start as int).drop_first() == v@.skip(start + 1));
        start += 1;
    }
    assert(v@.skip(start as int) == v@.subrange(start as int, v.len() as int));
    from_chars(v.as_slice(), start, v.len())
}

/// Names the file in which the content meant for `file_name` is staged.
pub fn staged_name(file_name: &str) -> (out: String)
    ensures
        out@ == staged_name_of(file_name@),
{
    let v = to_chars(file_name);
    let mut out = from_chars(v.as_slice(), 0, v.len());
    assert(v@.subrange(0, v.len() as int) == v@);
    out.push('.');
    out.push('p');
    out.push('a');
    out.push('r');
    out.push('t');
    out
}

/// `s` without `tail` at its end, where it ends in it.
pub open spec fn without_ending(s: Seq<char>, tail: Seq<char>) -> Seq<char> {
    if ends_in(s, tail) {
        s.take(s.len() - tail.len())
    } else {
        s
    }
}

/// The name of the folder that a repository is cloned into: the name of the
/// repository without a `.git` at its end, made safe as a file name, and
/// `repo` where that leaves nothing.
pub open spec fn clone_dir_of(repo_url: Seq<char>) -> Seq<char> {
    let name = sanitized(without_ending(repo_name_of(repo_url), ".git"@));
    if name.len() == 0 {
        "repo"@
    } else {
        name
    }
}

/// Names the folder that a repository is cloned into. The name depends on
/// the URL alone, so the files of one repository get the same names at every
/// run, and it holds ASCII letters, digits and `_` only.
pub fn clone_dir_name(repo_url: &str) -> (out: String)
    ensures
        out@ == clone_dir_of(repo_url@),
        out@.len() > 0,
        sanitized(out@) == out@,
{
    let repo = extract_repo_name(repo_url);
    let v = to_chars(repo.as_str());
    let git = to_chars(".git");
    let end = if git.len() <= v.len() && chars_eq(
        v.as_slice(),
        v.len() - git.len(),
        v.len(),
        git.as_slice(),
    ) {
        v.len() - git.len()
    } else {
        v.len()
    };
    proof {
        if git@.len() <= v@.len() {
            assert(v@.skip(v@.len() - git@.len()) == v@.subrange(
                v@.len() - git@.len(),
                v@.len() as int,
            ));
        }
        assert(v@.take(v@.len() as int) == v@);
        assert(v@.take(end as int) == v@.subrange(0, end as int));
    }
    let base = from_chars(v.as_slice(), 0, end);
    let name = sanitize(base.as_str());
    proof {
        lemma_sanitized_is_settled(base@);
        reveal_strlit("repo");
        assert(sanitized("repo"@) =~= "repo"@);
    }
    if name.as_str().is_empty() {
        String::from_str("repo")
    } else {
        name
    }
}

/// Making a text safe twice is making it safe once.
pub proof fn lemma_sanitized_is_settled(s: Seq<char>)
    ensures
        sanitized(sanitized(s)) == sanitized(s),
{
    assert(sanitized(sanitized(s)) =~= sanitized(s));
}

/// A file out of a clone is named by the folder of the clone as it stands,
/// an underscore and the file's own name: the folder's name is safe already.
pub proof fn lemma_clone_dir_is_the_prefix(repo_url: Seq<char>, file_name: Seq<char>)
    ensures
        unique_name_of(clone_dir_of(repo_url), file_name) == clone_dir_of(repo_url) + seq!['_']
            + file_name,
{
    lemma_sanitized_is_settled(without_ending(repo_name_of(repo_url), ".git"@));
    reveal_strlit("repo");
    assert(sanitized("repo"@) =~= "repo"@);
}

} // verus!
