//! Searches with regular expressions. The matching is the `regex` crate's;
//! what is done with the matches is this crate's.

use vstd::prelude::*;
use crate::text::{from_chars, strings};

verus! {

#[verifier::external_type_specification]
#[verifier::external_body]
pub struct ExRegexError(regex::Error);

/// Why a search with a regular expression came to nothing.
#[derive(Clone, Copy, Debug, PartialEq, Eq, Structural)]
pub enum PatternError {
    /// The pattern was not accepted as a regular expression.
    Rejected,
}

/// Whether `regex::Regex::new` takes `pattern` for a regular expression: the
/// pattern is well formed, and what it compiles to stays within the crate's
/// size limit.
pub uninterp spec fn pattern_accepted(pattern: Seq<char>) -> bool;

/// The matches of the regular expression `pattern` in `haystack`, in their
/// order, each as the texts of its groups: the whole match comes first, then
/// the groups in the order of their opening brackets, and a group that took
/// no part in the match has no text.
pub uninterp spec fn captures_of(pattern: Seq<char>, haystack: Seq<char>) -> Seq<
    Seq<Option<Seq<char>>>,
>;

/// The views of the groups of one match.
pub open spec fn group_views(groups: Seq<Option<String>>) -> Seq<Option<Seq<char>>> {
    Seq::new(
        groups.len(),
        |i: int|
            match groups[i] {
                Some(text) => Some(text@),
                None => None,
            },
    )
}

/// The views of a list of matches.
pub open spec fn match_views(found: Seq<Vec<Option<String>>>) -> Seq<Seq<Option<Seq<char>>>> {
    Seq::new(found.len(), |i: int| group_views(found[i]@))
}

/// Compiles `pattern` with `regex::Regex::new` and collects what
/// `Regex::captures_iter` yields on `haystack`: for every match the text of
/// each group, as `Captures::iter` and `Match::as_str` give it. The call
/// fails exactly when `Regex::new` does, with its error; which patterns
/// those are is named, not stated.
#[verifier::external_body]
pub(crate) fn captures_all(pattern: &str, haystack: &str) -> (r: Result<
    Vec<Vec<Option<String>>>,
    regex::Error,
>)
    ensures
        r is Ok <==> pattern_accepted(pattern@),
        r matches Ok(found) ==> match_views(found@) == captures_of(pattern@, haystack@),
{
    let re = regex::Regex::new(pattern)?;
    Ok(
        re.captures_iter(haystack).map(
            |caps| caps.iter().map(|group| group.map(|m| m.as_str().to_string())).collect(),
        ).collect(),
    )
}

/// The texts of group `group` in those of the first `n` matches in which the
/// group is there and took part, in order.
pub open spec fn group_texts(found: Seq<Seq<Option<Seq<char>>>>, group: int, n: int) -> Seq<
    Seq<char>,
>
    decreases n,
{
    if n <= 0 {
        seq![]
    } else {
        let before = group_texts(found, group, n - 1);
        let groups = found[n - 1];
        if 0 <= group < groups.len() && groups[group] is Some {
            before.push(groups[group]->Some_0)
        } else {
            before
        }
    }
}

/// The texts of group `group` over all of `found`.
pub open spec fn all_group_texts(found: Seq<Seq<Option<Seq<char>>>>, group: int) -> Seq<Seq<char>> {
    group_texts(found, group, found.len() as int)
}

/// Picks the text of group `group` out of every match that has it.
pub fn collect_group(found: &Vec<Vec<Option<String>>>, group: usize) -> (texts: Vec<String>)
    ensures
        strings(texts@) == all_group_texts(match_views(found@), group as int),
{
    let ghost views = match_views(found@);
    let mut texts: Vec<String> = Vec::new();
    let mut i: usize = 0;
    assert(strings(texts@) =~= group_texts(views, group as int, 0));
    while i < found.len()
        invariant
            i <= found.len(),
            views == match_views(found@),
            strings(texts@) == group_texts(views, group as int, i as int),
        decreases found.len() - i,
    {
        let groups = &found[i];
        assert(views[i as int] == group_views(groups@));
        if group < groups.len() {
            match &groups[group] {
                Some(text) => {
                    texts.push(text.clone());
                    assert(strings(texts@) =~= group_texts(views, group as int, i as int).push(
                        text@,
                    ));
                },
                None => {},
            }
        }
        i += 1;
    }
    texts
}

/// The texts of group `group` in the matches of `pattern` in each of
/// `lines`, line after line.
pub open spec fn group_in_lines(pattern: Seq<char>, lines: Seq<Seq<char>>, group: int) -> Seq<
    Seq<char>,
>
    decreases lines.len(),
{
    if lines.len() == 0 {
        seq![]
    } else {
        group_in_lines(pattern, lines.drop_last(), group) + all_group_texts(
            captures_of(pattern, lines.last()),
            group,
        )
    }
}

/// Searches each of `lines` for `pattern` and collects the texts of group
/// `group`. Without a line nothing is searched and nothing can fail; with
/// one, the texts are had exactly when the pattern is accepted.
pub fn collect_in_lines(pattern: &str, lines: &Vec<Vec<char>>, group: usize) -> (r: Result<
    Vec<String>,
    PatternError,
>)
    ensures
        r is Ok <==> (lines@.len() == 0 || pattern_accepted(pattern@)),
        r matches Ok(found) ==> strings(found@) == group_in_lines(
            pattern@,
            Seq::new(lines@.len(), |i: int| lines@[i]@),
            group as int,
        ),
        r matches Err(e) ==> e == PatternError::Rejected,
{
    let ghost all = Seq::new(lines@.len(), |i: int| lines@[i]@);
    let mut found: Vec<String> = Vec::new();
    let mut i: usize = 0;
    assert(all.take(0) =~= Seq::<Seq<char>>::empty());
    assert(strings(found@) =~= group_in_lines(pattern@, all.take(0), group as int));
    while i < lines.len()
        invariant
            i <= lines.len(),
            all == Seq::new(lines@.len(), |i: int| lines@[i]@),
            strings(found@) == group_in_lines(pattern@, all.take(i as int), group as int),
            i > 0 ==> pattern_accepted(pattern@),
        decreases lines.len() - i,
    {
        let line = &lines[i];
        let text = from_chars(line.as_slice(), 0, line.len());
        assert(line@.subrange(0, line.len() as int) == line@);
        assert(all.take(i + 1).drop_last() == all.take(i as int));
        assert(all.take(i + 1).last() == line@);
        match captures_all(pattern, text.as_str()) {
            Ok(matches) => {
                let mut more = collect_group(&matches, group);
                let ghost before = strings(found@);
                let ghost added = strings(more@);
                found.append(&mut more);
                assert(strings(found@) =~= before + added);
            },
            Err(_) => {
                return Err(PatternError::Rejected);
            },
        }
        i += 1;
    }
    assert(all.take(lines.len() as int) == all);
    Ok(found)
}

} // verus!
