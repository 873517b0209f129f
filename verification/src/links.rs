//! Links read off web pages and Markdown files, and the test that tells a
//! rule file from a page to search.

use vstd::prelude::*;
use crate::patterns::{
    all_group_texts, captures_all, captures_of, collect_group, collect_in_lines, group_in_lines,
    pattern_accepted, PatternError,
};
use crate::text::{copy_chars, strings, strs, to_chars};
use crate::text::lines::{lines_of, split_lines};
use crate::text::search::{chars_contain, contains_text, ends_in, str_ends_with};

verus! {

/// The pattern of a link in a web page: an `href` in double quotes that
/// begins with `http://` or `https://`. The first group is the URL.
pub const HREF_PATTERN: &'static str = "href=\"(https?://[^\"]+)\"";

/// The pattern of a link in Markdown: a text in square brackets and, in round
/// brackets, a URL that begins with `http://` or `https://`. The first group
/// is the URL.
pub const MARKDOWN_LINK_PATTERN: &'static str = "\\[.*?\\]\\((https?://.*?)\\)";

/// The heading that opens the list of rule repositories.
pub const RULES_HEADING: &'static str = "## Rules";

/// The heading that follows that list.
pub const TOOLS_HEADING: &'static str = "## Tools";

/// The links in a web page: the URL of every `href` that matches
/// [`HREF_PATTERN`].
pub open spec fn html_links(html: Seq<char>) -> Seq<Seq<char>> {
    all_group_texts(captures_of(HREF_PATTERN@, html), 1)
}

/// Reads the links off a web page. The page is searched whatever it holds,
/// so the links are had exactly when [`HREF_PATTERN`] is accepted.
pub fn parse_links_from_html(html: &str) -> (r: Result<Vec<String>, PatternError>)
    ensures
        r is Ok <==> pattern_accepted(HREF_PATTERN@),
        r matches Ok(links) ==> strings(links@) == html_links(html@),
        r matches Err(e) ==> e == PatternError::Rejected,
{
    match captures_all(HREF_PATTERN, html) {
        Ok(found) => Ok(collect_group(&found, 1)),
        Err(_) => Err(PatternError::Rejected),
    }
}

/// The lines of the rule section of a Markdown text, `lines` being what is
/// left of it. The section begins after a line that holds [`RULES_HEADING`]
/// and ends before the next line that holds [`TOOLS_HEADING`]; nothing after
/// that line counts, and a line that holds a heading is no line of the
/// section.
pub open spec fn section_lines(lines: Seq<Seq<char>>, in_section: bool) -> Seq<Seq<char>>
    decreases lines.len(),
{
    if lines.len() == 0 {
        seq![]
    } else {
        let line = lines.first();
        if contains_text(line, RULES_HEADING@) {
            section_lines(lines.drop_first(), true)
        } else if contains_text(line, TOOLS_HEADING@) {
            seq![]
        } else if in_section {
            seq![line] + section_lines(lines.drop_first(), in_section)
        } else {
            section_lines(lines.drop_first(), in_section)
        }
    }
}

/// The lines of the rule section of a Markdown text.
pub open spec fn rule_section_of(markdown: Seq<char>) -> Seq<Seq<char>> {
    section_lines(lines_of(markdown), false)
}

/// The links in the rule section of a Markdown text: the URL of every link
/// that matches [`MARKDOWN_LINK_PATTERN`], line after line.
pub open spec fn markdown_links(markdown: Seq<char>) -> Seq<Seq<char>> {
    group_in_lines(MARKDOWN_LINK_PATTERN@, rule_section_of(markdown), 1)
}

/// Whether the links of a Markdown text can be read: its rule section has no
/// line, or [`MARKDOWN_LINK_PATTERN`] is accepted.
pub open spec fn markdown_is_readable(markdown: Seq<char>) -> bool {
    rule_section_of(markdown).len() == 0 || pattern_accepted(MARKDOWN_LINK_PATTERN@)
}

/// Picks the lines of the rule section out of a Markdown text.
pub fn rule_section(markdown: &str) -> (section: Vec<Vec<char>>)
    ensures
        Seq::new(section@.len(), |i: int| section@[i]@) == rule_section_of(markdown@),
{
    let lines = split_lines(markdown);
    let rules = to_chars(RULES_HEADING);
    let tools = to_chars(TOOLS_HEADING);
    let ghost all = lines_of(markdown@);
    let mut section: Vec<Vec<char>> = Vec::new();
    let ghost mut picked: Seq<Seq<char>> = seq![];
    let mut in_section = false;
    let mut i: usize = 0;
    assert(all.skip(0) == all);
    assert(picked + section_lines(all, false) =~= section_lines(all, false));
    while i < lines.len()
        invariant
            i <= lines.len(),
            rules@ == RULES_HEADING@,
            tools@ == TOOLS_HEADING@,
            all == lines_of(markdown@),
            all == Seq::new(lines@.len(), |k: int| lines@[k]@),
            picked == Seq::new(section@.len(), |k: int| section@[k]@),
            rule_section_of(markdown@) == picked + section_lines(all.skip(i as int), in_section),
        decreases lines.len() - i,
    {
        let line = &lines[i];
        proof {
            assert(all.skip(i as int).first() == line@);
            assert(all.skip(i as int).drop_first() == all.skip(i + 1));
        }
        if chars_contain(line.as_slice(), rules.as_slice()) {
            in_section = true;
        } else if chars_contain(line.as_slice(), tools.as_slice()) {
            assert(picked + Seq::<Seq<char>>::empty() =~= picked);
            return section;
        } else if in_section {
            let copy = copy_chars(line.as_slice(), 0, line.len());
            assert(line@.subrange(0, line.len() as int) == line@);
            proof {
                assert(picked + (seq![line@] + section_lines(all.skip(i + 1), in_section)) =~= (
                picked.push(line@)) + section_lines(all.skip(i + 1), in_section));
                picked = picked.push(line@);
            }
            section.push(copy);
            assert(picked =~= Seq::new(section@.len(), |k: int| section@[k]@));
        }
        i += 1;
    }
    assert(all.skip(lines.len() as int).len() == 0);
    assert(picked + Seq::<Seq<char>>::empty() =~= picked);
    section
}

/// Reads the links off the rule section of a Markdown text. A text whose
/// rule section has no line gives no links and cannot fail.
pub fn parse_links_from_markdown(markdown: &str) -> (r: Result<Vec<String>, PatternError>)
    ensures
        r is Ok <==> markdown_is_readable(markdown@),
        r matches Ok(links) ==> strings(links@) == markdown_links(markdown@),
        r matches Err(e) ==> e == PatternError::Rejected,
{
    let section = rule_section(markdown);
    assert(Seq::new(section@.len(), |i: int| section@[i]@).len() == section@.len());
    collect_in_lines(MARKDOWN_LINK_PATTERN, &section, 1)
}

/// Whether `url` ends in one of `suffixes`.
pub open spec fn ends_in_any(url: Seq<char>, suffixes: Seq<Seq<char>>) -> bool {
    exists|i: int| 0 <= i < suffixes.len() && ends_in(url, #[trigger] suffixes[i])
}

/// Says whether `url` names a rule file, that is whether it ends in one of
/// `suffixes`. Any other URL is taken for a page that is searched for links.
pub fn is_rule_url(url: &str, suffixes: &[&str]) -> (r: bool)
    ensures
        r == ends_in_any(url@, strs(suffixes@)),
{
    let ghost all = strs(suffixes@);
    let mut i: usize = 0;
    while i < suffixes.len()
        invariant
            i <= suffixes.len(),
            all == strs(suffixes@),
            forall|j: int| 0 <= j < i ==> !ends_in(url@, #[trigger] all[j]),
        decreases suffixes.len() - i,
    {
        if str_ends_with(url, suffixes[i]) {
            assert(ends_in(url@, all[i as int]));
            return true;
        }
        i += 1;
    }
    false
}

} // verus!
