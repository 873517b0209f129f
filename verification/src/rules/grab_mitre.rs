//! ATT&CK technique pages: where a technique is found, what is read off its
//! page, and the searches that are written out for its analytics.

use vstd::prelude::*;
use vstd::string::StringExecFns;
use crate::text::{
    ascii_digit, chars_eq, copy_chars, from_chars, is_ascii_digit, push_chars, str_eq, strings,
    to_chars,
};
use crate::text::edit::{replace_all, substituted};
use crate::text::lines::{join, joined, trim_bounds, trimmed};
use crate::text::numbers::{decimal, decimal_of, parse_u32, parsed_u32, push_decimal, zero_padded};
use crate::text::order::{comes_before, lemma_before_carries_over, rank, Rank};
use crate::text::search::{begins_with, chars_contain, contains_text, first_index_of};

verus! {

/// What every technique page begins with.
pub const TECHNIQUE_URL_PREFIX: &'static str = "https://attack.mitre.org/techniques/T";

/// The folder that takes the searches.
pub const ALERTS_FOLDER: &'static str = "MITRE_Alerts";

/// The name and the category of a technique whose page does not give them.
pub const UNKNOWN: &'static str = "Unknown";

/// The hunting trigger of a technique whose page has no description.
pub const NO_DESCRIPTION: &'static str = "Description not found.";

/// The word by which a paragraph is taken for an analytic.
pub const ANALYTIC: &'static str = "Analytic";

/// One analytic of a technique: what it looks for, and the search.
#[derive(Clone, Debug, PartialEq, Eq)]
pub struct AnalyticQuery {
    pub description: String,
    pub query: String,
}

/// What is known of a technique.
#[derive(Clone, Debug, PartialEq, Eq)]
pub struct MitreTechniqueDetails {
    pub id: String,
    pub name: String,
    pub subtechnique: String,
    pub tactics: Vec<String>,
    pub hunting_trigger: String,
    pub mitre_category: String,
    pub analytics: Vec<AnalyticQuery>,
    pub apts: Vec<String>,
    pub url: String,
    pub technique_id: String,
    pub subtechnique_id: String,
}

/// What stands before the first `c` of `s`; all of `s` where there is none.
pub open spec fn before_first(s: Seq<char>, c: char) -> Seq<char> {
    match s.index_of_first(c) {
        Some(k) => s.take(k),
        None => s,
    }
}

/// What follows the first `c` of `s`; nothing where there is none.
pub open spec fn after_first(s: Seq<char>, c: char) -> Seq<char> {
    match s.index_of_first(c) {
        Some(k) => s.skip(k + 1),
        None => seq![],
    }
}

/// The number of the sub-technique in an identifier such as `1055.001`: what
/// stands between the first dot and the next, read as a number, and 0 where
/// that is no number.
pub open spec fn sub_number(technique_id: Seq<char>) -> nat {
    match parsed_u32(before_first(after_first(technique_id, '.'), '.')) {
        Some(n) => n as nat,
        None => 0,
    }
}

/// The page of a technique. An identifier with a dot names a sub-technique,
/// whose page lies below that of its technique under its number in three
/// digits.
pub open spec fn technique_url_of(technique_id: Seq<char>) -> Seq<char> {
    if technique_id.contains('.') {
        TECHNIQUE_URL_PREFIX@ + before_first(technique_id, '.') + seq!['/'] + zero_padded(
            decimal_of(sub_number(technique_id)),
            3,
        ) + seq!['/']
    } else {
        TECHNIQUE_URL_PREFIX@ + technique_id + seq!['/']
    }
}

/// Says where the page of a technique is found.
pub fn build_technique_url(technique_id: &str) -> (url: String)
    ensures
        url@ == technique_url_of(technique_id@),
{
    let v = to_chars(technique_id);
    let mut url = String::from_str(TECHNIQUE_URL_PREFIX);
    assert(v@.subrange(0, v.len() as int) == v@);
    proof {
        v@.index_of_first_ensures('.');
    }
    match first_index_of(v.as_slice(), 0, v.len(), '.') {
        None => {
            push_chars(&mut url, v.as_slice());
            url.push('/');
        },
        Some(k) => {
            let ghost rest = v@.skip(k + 1);
            assert(rest == v@.subrange(k + 1, v.len() as int));
            assert(v@.take(k as int) == v@.subrange(0, k as int));
            let end = match first_index_of(v.as_slice(), k + 1, v.len(), '.') {
                Some(j) => j,
                None => v.len(),
            };
            assert(before_first(rest, '.') == v@.subrange(k + 1, end as int)) by {
                assert(rest.take(end - k - 1) == v@.subrange(k + 1, end as int));
                assert(rest.take(rest.len() as int) == rest);
            }
            let sub = match parse_u32(v.as_slice(), k + 1, end) {
                Some(n) => n,
                None => 0,
            };
            let base = from_chars(v.as_slice(), 0, k);
            url.append(base.as_str());
            url.push('/');
            let number = decimal(sub, 3);
            url.append(number.as_str());
            url.push('/');
        },
    }
    assert(url@ =~= technique_url_of(technique_id@));
    url
}

/// The identifier of the technique itself, with its `T`: what stands before
/// the first dot.
pub open spec fn technique_of(technique_id: Seq<char>) -> Seq<char> {
    seq!['T'] + before_first(technique_id, '.')
}

/// The identifier of the sub-technique, with its `T`; none without a dot.
pub open spec fn subtechnique_of(technique_id: Seq<char>) -> Seq<char> {
    if technique_id.contains('.') {
        seq!['T'] + technique_id
    } else {
        seq![]
    }
}

/// Splits an identifier into that of the technique and that of the
/// sub-technique.
pub fn technique_ids(technique_id: &str) -> (ids: (String, String))
    ensures
        ids.0@ == technique_of(technique_id@),
        ids.1@ == subtechnique_of(technique_id@),
{
    let v = to_chars(technique_id);
    assert(v@.subrange(0, v.len() as int) == v@);
    proof {
        v@.index_of_first_ensures('.');
    }
    let mut technique = String::new();
    technique.push('T');
    let mut subtechnique = String::new();
    match first_index_of(v.as_slice(), 0, v.len(), '.') {
        None => {
            push_chars(&mut technique, v.as_slice());
        },
        Some(k) => {
            assert(v@.take(k as int) == v@.subrange(0, k as int));
            let base = from_chars(v.as_slice(), 0, k);
            technique.append(base.as_str());
            subtechnique.push('T');
            push_chars(&mut subtechnique, v.as_slice());
        },
    }
    assert(technique@ =~= technique_of(technique_id@));
    assert(subtechnique@ =~= subtechnique_of(technique_id@));
    (technique, subtechnique)
}

/// `v[from..to]` without the white space at either end.
fn trim_range(v: &[char], from: usize, to: usize) -> (out: String)
    requires
        from <= to <= v.len(),
    ensures
        out@ == trimmed(v@.subrange(from as int, to as int)),
{
    let part = copy_chars(v, from, to);
    let (a, b) = trim_bounds(part.as_slice());
    from_chars(part.as_slice(), a, b)
}

/// `text` without the white space at either end.
pub fn trim(text: &str) -> (out: String)
    ensures
        out@ == trimmed(text@),
{
    let v = to_chars(text);
    let (a, b) = trim_bounds(v.as_slice());
    from_chars(v.as_slice(), a, b)
}

/// The name of a technique and of its sub-technique, read off the heading of
/// its page: the heading is split at its first colon, and white space is
/// taken off the ends. A page without a heading gives [`UNKNOWN`].
pub open spec fn name_of(heading: Option<&str>) -> (Seq<char>, Seq<char>) {
    match heading {
        None => (UNKNOWN@, seq![]),
        Some(h) => {
            let raw = trimmed(h@);
            if raw.contains(':') {
                (trimmed(before_first(raw, ':')), trimmed(after_first(raw, ':')))
            } else {
                (raw, seq![])
            }
        },
    }
}

/// Reads the name of a technique and of its sub-technique off the heading.
pub fn extract_name_and_subtechnique(heading: Option<&str>) -> (names: (String, String))
    ensures
        (names.0@, names.1@) == name_of(heading),
{
    match heading {
        None => (String::from_str(UNKNOWN), String::new()),
        Some(h) => {
            let raw = trim(h);
            let v = to_chars(raw.as_str());
            assert(v@.subrange(0, v.len() as int) == v@);
            proof {
                v@.index_of_first_ensures(':');
            }
            match first_index_of(v.as_slice(), 0, v.len(), ':') {
                None => (raw, String::new()),
                Some(k) => {
                    assert(v@.take(k as int) == v@.subrange(0, k as int));
                    assert(v@.skip(k + 1) == v@.subrange(k + 1, v.len() as int));
                    (trim_range(v.as_slice(), 0, k), trim_range(v.as_slice(), k + 1, v.len()))
                },
            }
        },
    }
}

/// The texts of `elements`, each without the white space at its ends.
pub fn extract_tactics(elements: &Vec<String>) -> (tactics: Vec<String>)
    ensures
        strings(tactics@) == Seq::new(elements@.len(), |i: int| trimmed(elements@[i]@)),
{
    let mut tactics: Vec<String> = Vec::new();
    let mut i: usize = 0;
    while i < elements.len()
        invariant
            i <= elements.len(),
            tactics@.len() == i,
            forall|j: int| 0 <= j < i ==> #[trigger] tactics@[j]@ == trimmed(elements@[j]@),
        decreases elements.len() - i,
    {
        tactics.push(trim(elements[i].as_str()));
        i += 1;
    }
    assert(strings(tactics@) =~= Seq::new(elements@.len(), |i: int| trimmed(elements@[i]@)));
    tactics
}

/// The hunting trigger of a technique: the first sentence of its
/// description, that is the text up to its first full stop, or all of it
/// where there is none. The description is given by its runs of text, which
/// are put together with a blank between each two. A page without a
/// description gives [`NO_DESCRIPTION`].
pub open spec fn hunting_trigger_of(description: Option<Seq<Seq<char>>>) -> Seq<char> {
    match description {
        None => NO_DESCRIPTION@,
        Some(runs) => {
            let full = trimmed(joined(runs, seq![' ']));
            if full.contains('.') {
                before_first(full, '.') + seq!['.']
            } else {
                full
            }
        },
    }
}

/// The views of an optional list of texts.
pub open spec fn runs_view(runs: Option<&Vec<String>>) -> Option<Seq<Seq<char>>> {
    match runs {
        Some(r) => Some(strings(r@)),
        None => None,
    }
}

/// Reads the hunting trigger off the description of a technique.
pub fn extract_hunting_trigger(description: Option<&Vec<String>>) -> (trigger: String)
    ensures
        trigger@ == hunting_trigger_of(runs_view(description)),
{
    match description {
        None => String::from_str(NO_DESCRIPTION),
        Some(runs) => {
            let whole = join(runs, " ");
            proof {
                reveal_strlit(" ");
                assert(" "@ =~= seq![' ']);
            }
            let full = trim(whole.as_str());
            let v = to_chars(full.as_str());
            assert(v@.subrange(0, v.len() as int) == v@);
            proof {
                v@.index_of_first_ensures('.');
            }
            match first_index_of(v.as_slice(), 0, v.len(), '.') {
                None => full,
                Some(k) => {
                    assert(v@.take(k as int) == v@.subrange(0, k as int));
                    let mut trigger = from_chars(v.as_slice(), 0, k);
                    trigger.push('.');
                    trigger
                },
            }
        },
    }
}

/// Reads the category of a technique off its first tactic; a page without
/// tactics gives [`UNKNOWN`].
pub fn extract_mitre_category(first_tactic: Option<&str>) -> (category: String)
    ensures
        category@ == match first_tactic {
            Some(t) => trimmed(t@),
            None => UNKNOWN@,
        },
{
    match first_tactic {
        Some(t) => trim(t),
        None => String::from_str(UNKNOWN),
    }
}

/// The source type of Sysmon events, as the pages write it.
pub const SYSMON_SOURCETYPE: &'static str =
    "sourcetype=WinEventLog:Microsoft-Windows-Sysmon/Operational";

/// The source type of security events, as the pages write it.
pub const SECURITY_SOURCETYPE: &'static str = "sourcetype=WinEventLog:Security";

/// The macro that stands for Sysmon events in the searches.
pub const SYSMON_MACRO: &'static str = "`sysmon`";

/// The macro that stands for security events in the searches.
pub const SECURITY_MACRO: &'static str = "`windows-security`";

/// A search as it is kept: without the white space at its ends, and with the
/// source types replaced by their macros, the Sysmon one first.
pub open spec fn query_of(code: Seq<char>) -> Seq<char> {
    substituted(
        substituted(trimmed(code), SYSMON_SOURCETYPE@, SYSMON_MACRO@),
        SECURITY_SOURCETYPE@,
        SECURITY_MACRO@,
    )
}

/// What an analytic looks for, read off its paragraph: the paragraph without
/// the white space at its ends, and where it begins with [`ANALYTIC`] and
/// holds a hyphen, only what follows its first hyphen.
pub open spec fn description_of(paragraph: Seq<char>) -> Seq<char> {
    let text = trimmed(paragraph);
    if begins_with(text, ANALYTIC@) && text.contains('-') {
        trimmed(after_first(text, '-'))
    } else {
        text
    }
}

/// The analytic that a paragraph stands for, `code` being the text of the
/// first piece of code in it: there is one where the paragraph holds the
/// word [`ANALYTIC`] and a piece of code.
pub open spec fn analytic_of(paragraph: Seq<char>, code: Option<&str>) -> Option<
    (Seq<char>, Seq<char>),
> {
    match code {
        Some(c) => if contains_text(paragraph, ANALYTIC@) {
            Some((description_of(paragraph), query_of(c@)))
        } else {
            None
        },
        None => None,
    }
}

/// The view of an optional analytic.
pub open spec fn analytic_view(analytic: Option<AnalyticQuery>) -> Option<(Seq<char>, Seq<char>)> {
    match analytic {
        Some(a) => Some((a.description@, a.query@)),
        None => None,
    }
}

/// Reads the analytic off a paragraph, if it holds one.
pub fn extract_analytic(paragraph: &str, code: Option<&str>) -> (analytic: Option<AnalyticQuery>)
    ensures
        analytic_view(analytic) == analytic_of(paragraph@, code),
{
    let p = to_chars(paragraph);
    let word = to_chars(ANALYTIC);
    match code {
        None => None,
        Some(c) => {
            if !chars_contain(p.as_slice(), word.as_slice()) {
                return None;
            }
            let raw = trim(c);
            let sysmon = to_chars(SYSMON_SOURCETYPE);
            let security = to_chars(SECURITY_SOURCETYPE);
            proof {
                reveal_strlit("sourcetype=WinEventLog:Microsoft-Windows-Sysmon/Operational");
                reveal_strlit("sourcetype=WinEventLog:Security");
            }
            let first = replace_all(
                to_chars(raw.as_str()).as_slice(),
                sysmon.as_slice(),
                to_chars(SYSMON_MACRO).as_slice(),
            );
            let query = replace_all(
                to_chars(first.as_str()).as_slice(),
                security.as_slice(),
                to_chars(SECURITY_MACRO).as_slice(),
            );
            let text = trim(paragraph);
            let t = to_chars(text.as_str());
            assert(t@.subrange(0, t.len() as int) == t@);
            proof {
                t@.index_of_first_ensures('-');
            }
            let begins = word.len() <= t.len() && chars_eq(
                t.as_slice(),
                0,
                word.len(),
                word.as_slice(),
            );
            assert(begins == begins_with(t@, ANALYTIC@)) by {
                if word.len() <= t.len() {
                    assert(t@.take(word@.len() as int) == t@.subrange(0, word@.len() as int));
                }
            }
            let description = match first_index_of(t.as_slice(), 0, t.len(), '-') {
                Some(k) => {
                    if begins {
                        assert(t@.skip(k + 1) == t@.subrange(k + 1, t.len() as int));
                        trim_range(t.as_slice(), k + 1, t.len())
                    } else {
                        text
                    }
                },
                None => text,
            };
            Some(AnalyticQuery { description, query })
        },
    }
}

/// The identifier of a group: a `G` and four decimal digits.
pub open spec fn is_group_id(id: Seq<char>) -> bool {
    &&& id.len() == 5
    &&& id[0] == 'G'
    &&& forall|i: int| 1 <= i < 5 ==> is_ascii_digit(#[trigger] id[i])
}

/// Says whether `id` is the identifier of a group.
pub fn group_id(id: &str) -> (r: bool)
    ensures
        r == is_group_id(id@),
{
    let v = to_chars(id);
    if v.len() != 5 || v[0] != 'G' {
        return false;
    }
    let mut i: usize = 1;
    while i < 5
        invariant
            1 <= i <= 5,
            v@ == id@,
            v@.len() == 5,
            v@[0] == 'G',
            forall|j: int| 1 <= j < i ==> is_ascii_digit(#[trigger] v@[j]),
        decreases 5 - i,
    {
        if !ascii_digit(v[i]) {
            assert(!is_ascii_digit(id@[i as int]));
            return false;
        }
        i += 1;
    }
    true
}

/// Whether a row of the table of groups names a group: it has more than two
/// cells, and its first cell, white space left aside, is a group identifier.
pub open spec fn names_group(row: Seq<Seq<char>>) -> bool {
    row.len() > 2 && is_group_id(trimmed(row[0]))
}

/// Whether each text of `names` comes before the next.
pub open spec fn ascending(names: Seq<Seq<char>>) -> bool {
    forall|i: int, j: int|
        0 <= i < j < names.len() ==> comes_before(#[trigger] names[i], #[trigger] names[j])
}

/// Puts `name` into `names` at its place, unless it is there already.
fn insert_name(names: &mut Vec<String>, name: String)
    requires
        ascending(strings(old(names)@)),
    ensures
        ascending(strings(final(names)@)),
        forall|x: Seq<char>|
            strings(final(names)@).contains(x) <==> (strings(old(names)@).contains(x) || x
                == name@),
{
    let ghost before = strings(names@);
    let item = to_chars(name.as_str());
    let mut i: usize = 0;
    let mut placed = false;
    while i < names.len() && !placed
        invariant
            i <= names.len(),
            names@ == old(names)@,
            before == strings(names@),
            item@ == name@,
            ascending(before),
            forall|j: int| 0 <= j < i ==> comes_before(#[trigger] before[j], name@),
            placed ==> i < names.len() && comes_before(name@, before[i as int]),
        decreases names.len() - i + if placed { 0int } else { 1int },
    {
        let other = to_chars(names[i].as_str());
        match rank(other.as_slice(), item.as_slice()) {
            Rank::Same => {
                assert(before[i as int] == name@);
                return ;
            },
            Rank::After => {
                placed = true;
            },
            Rank::Before => {
                i += 1;
            },
        }
    }
    assert(i < names.len() ==> comes_before(name@, before[i as int]));
    names.insert(i, name);
    let ghost after = strings(names@);
    assert(after =~= before.insert(i as int, name@));
    assert forall|a: int, b: int| 0 <= a < b < after.len() implies comes_before(
        #[trigger] after[a],
        #[trigger] after[b],
    ) by {
        if b < i {
            assert(after[a] == before[a] && after[b] == before[b]);
        } else if b == i {
            assert(after[a] == before[a]);
        } else if a < i {
            assert(after[a] == before[a] && after[b] == before[b - 1]);
        } else if a == i {
            assert(after[b] == before[b - 1]);
            if b - 1 > i {
                lemma_before_carries_over(name@, before[i as int], before[b - 1]);
            }
        } else {
            assert(after[a] == before[a - 1] && after[b] == before[b - 1]);
        }
    }
    assert forall|x: Seq<char>|
        after.contains(x) <==> (before.contains(x) || x == name@) by {
        if before.contains(x) {
            let k = choose|k: int| 0 <= k < before.len() && before[k] == x;
            if k < i {
                assert(after[k] == x);
            } else {
                assert(after[k + 1] == x);
            }
        }
        if x == name@ {
            assert(after[i as int] == x);
        }
        if after.contains(x) {
            let k = choose|k: int| 0 <= k < after.len() && after[k] == x;
            if k < i {
                assert(before[k] == x);
            } else if k > i {
                assert(before[k - 1] == x);
            }
        }
    }
}

/// The names of the groups that the first `n` rows name.
pub open spec fn group_names(rows: Seq<Seq<Seq<char>>>, n: int) -> Set<Seq<char>> {
    Set::new(
        |name: Seq<char>|
            exists|i: int|
                0 <= i < n && names_group(#[trigger] rows[i]) && name == trimmed(rows[i][1]),
    )
}

/// The views of a table.
pub open spec fn table_view(rows: Seq<Vec<String>>) -> Seq<Seq<Seq<char>>> {
    Seq::new(rows.len(), |i: int| strings(rows[i]@))
}

/// Reads the groups that use a technique off the table of its page, each row
/// given by the texts of its cells: the names of the rows that name a group,
/// each once, in the order of the dictionary.
pub fn extract_unique_apts(rows: &Vec<Vec<String>>) -> (apts: Vec<String>)
    ensures
        ascending(strings(apts@)),
        forall|name: Seq<char>|
            strings(apts@).contains(name) <==> group_names(
                table_view(rows@),
                rows@.len() as int,
            ).contains(name),
{
    let ghost table = table_view(rows@);
    let mut apts: Vec<String> = Vec::new();
    let mut i: usize = 0;
    while i < rows.len()
        invariant
            i <= rows.len(),
            table == table_view(rows@),
            ascending(strings(apts@)),
            forall|name: Seq<char>|
                strings(apts@).contains(name) <==> group_names(table, i as int).contains(name),
        decreases rows.len() - i,
    {
        let row = &rows[i];
        let ghost before = strings(apts@);
        assert(table[i as int] == strings(row@));
        let mut named = false;
        if row.len() > 2 {
            let id = trim(row[0].as_str());
            if group_id(id.as_str()) {
                named = true;
                let name = trim(row[1].as_str());
                insert_name(&mut apts, name);
            }
        }
        assert(named == names_group(table[i as int]));
        assert forall|name: Seq<char>|
            strings(apts@).contains(name) <==> group_names(table, i + 1).contains(name) by {
            if group_names(table, i + 1).contains(name) {
                let k = choose|k: int|
                    0 <= k < i + 1 && names_group(#[trigger] table[k]) && name == trimmed(
                        table[k][1],
                    );
                if k < i {
                    assert(group_names(table, i as int).contains(name));
                }
            }
            if group_names(table, i as int).contains(name) {
                let k = choose|k: int|
                    0 <= k < i && names_group(#[trigger] table[k]) && name == trimmed(table[k][1]);
                assert(0 <= k < i + 1);
            }
            if named && name == trimmed(table[i as int][1]) {
                assert(names_group(table[i as int]));
            }
        }
        i += 1;
    }
    apts
}

/// What stands between two names in the list of groups of a search.
pub const APT_SEPARATOR: &'static str = "\",\"";

/// The pieces of a search, between which the particulars of a technique and
/// of one of its analytics are put.
pub const QUERY_HEAD: &'static str = "`indextime` ";

pub const QUERY_TRIGGER: &'static str =
    "\n| eval hash_sha256=lower(hash_sha256),\nhunting_trigger=\"";

pub const QUERY_CATEGORY: &'static str = "\",\nmitre_category=\"";

pub const QUERY_TECHNIQUE: &'static str = "\",\nmitre_technique=\"";

pub const QUERY_TECHNIQUE_ID: &'static str = "\",\nmitre_technique_id=\"";

pub const QUERY_SUBTECHNIQUE: &'static str = "\",\nmitre_subtechnique=\"";

pub const QUERY_SUBTECHNIQUE_ID: &'static str = "\",\nmitre_subtechnique_id=\"";

pub const QUERY_APT: &'static str = "\",\napt=mvappend(\"";

pub const QUERY_LINK: &'static str = "\"),\nmitre_link=\"";

pub const QUERY_UPLOAD: &'static str = "\",\ncreator=\"Cpl Iverson\",\nupload_date=\"";

pub const QUERY_MODIFY: &'static str = "\",\nlast_modify_date=\"";

pub const QUERY_TAIL: &'static str =
    "\",\nmitre_version=\"v16\",\npriority=\"medium\"\n| `process_create_whitelist`\n| eval indextime = _indextime\n| convert ctime(indextime)\n| table _time indextime event_description hash_sha256 host_fqdn user_name original_file_name process_path process_guid process_parent_path process_id process_parent_id process_command_line process_parent_command_line process_parent_guid mitre_category mitre_technique mitre_technique_id hunting_trigger mitre_subtechnique mitre_subtechnique_id apt mitre_link creator upload_date last_modify_date mitre_version priority\n| collect `jarvis_index`\n";

/// The search that is written out for one analytic of a technique.
pub open spec fn splunk_query_of(
    analytic: AnalyticQuery,
    details: MitreTechniqueDetails,
    apts_joined: Seq<char>,
    today_date: Seq<char>,
) -> Seq<char> {
    QUERY_HEAD@ + analytic.query@ + QUERY_TRIGGER@ + analytic.description@ + QUERY_CATEGORY@
        + details.mitre_category@ + QUERY_TECHNIQUE@ + details.name@ + QUERY_TECHNIQUE_ID@
        + details.technique_id@ + QUERY_SUBTECHNIQUE@ + details.subtechnique@
        + QUERY_SUBTECHNIQUE_ID@ + details.subtechnique_id@ + QUERY_APT@ + apts_joined
        + QUERY_LINK@ + details.url@ + QUERY_UPLOAD@ + today_date + QUERY_MODIFY@ + today_date
        + QUERY_TAIL@
}

/// Writes out the search for one analytic of a technique.
pub fn build_splunk_query(
    analytic: &AnalyticQuery,
    details: &MitreTechniqueDetails,
    apts_joined: &str,
    today_date: &str,
) -> (query: String)
    ensures
        query@ == splunk_query_of(*analytic, *details, apts_joined@, today_date@),
{
    let mut query = String::from_str(QUERY_HEAD);
    query.append(analytic.query.as_str());
    query.append(QUERY_TRIGGER);
    query.append(analytic.description.as_str());
    query.append(QUERY_CATEGORY);
    query.append(details.mitre_category.as_str());
    query.append(QUERY_TECHNIQUE);
    query.append(details.name.as_str());
    query.append(QUERY_TECHNIQUE_ID);
    query.append(details.technique_id.as_str());
    query.append(QUERY_SUBTECHNIQUE);
    query.append(details.subtechnique.as_str());
    query.append(QUERY_SUBTECHNIQUE_ID);
    query.append(details.subtechnique_id.as_str());
    query.append(QUERY_APT);
    query.append(apts_joined);
    query.append(QUERY_LINK);
    query.append(details.url.as_str());
    query.append(QUERY_UPLOAD);
    query.append(today_date);
    query.append(QUERY_MODIFY);
    query.append(today_date);
    query.append(QUERY_TAIL);
    query
}

/// The folder that takes the searches of a category: below
/// [`ALERTS_FOLDER`], under the category's name with `_` for each `, `. A
/// technique of unknown category has none.
pub open spec fn category_folder_of(mitre_category: Seq<char>) -> Option<Seq<char>> {
    if mitre_category == UNKNOWN@ {
        None
    } else {
        Some(ALERTS_FOLDER@ + seq!['/'] + substituted(mitre_category, ", "@, "_"@))
    }
}

/// The view of an optional text.
pub open spec fn text_view(text: Option<String>) -> Option<Seq<char>> {
    match text {
        Some(t) => Some(t@),
        None => None,
    }
}

/// Names the folder that takes the searches of a category.
pub fn category_folder(mitre_category: &str) -> (folder: Option<String>)
    ensures
        text_view(folder) == category_folder_of(mitre_category@),
{
    if str_eq(mitre_category, UNKNOWN) {
        return None;
    }
    let mut folder = String::from_str(ALERTS_FOLDER);
    folder.push('/');
    let comma = to_chars(", ");
    proof {
        reveal_strlit(", ");
    }
    let name = replace_all(
        to_chars(mitre_category).as_slice(),
        comma.as_slice(),
        to_chars("_").as_slice(),
    );
    folder.append(name.as_str());
    Some(folder)
}

/// The name of the file that takes the search of the analytic number
/// `number` of a technique.
pub open spec fn file_title_of(technique_id: Seq<char>, name: Seq<char>, number: nat) -> Seq<char> {
    "[T"@ + technique_id + "] "@ + name + "_Analytic_"@ + decimal_of(number) + ".txt"@
}

/// Names the file that takes the search of one analytic.
pub fn analytic_file_title(technique_id: &str, name: &str, number: usize) -> (title: String)
    ensures
        title@ == file_title_of(technique_id@, name@, number as nat),
{
    let mut title = String::from_str("[T");
    title.append(technique_id);
    title.append("] ");
    title.append(name);
    title.append("_Analytic_");
    push_decimal(&mut title, number as u64);
    title.append(".txt");
    title
}

/// The files that are written for the first `n` analytics of a technique,
/// each with its path below the folder `folder`.
pub open spec fn files_in(
    folder: Seq<char>,
    technique_id: Seq<char>,
    details: MitreTechniqueDetails,
    today_date: Seq<char>,
    n: int,
) -> Seq<(Seq<char>, Seq<char>)> {
    Seq::new(
        n as nat,
        |i: int|
            (
                folder + seq!['/'] + file_title_of(technique_id, details.name@, (i + 1) as nat),
                splunk_query_of(
                    details.analytics@[i],
                    details,
                    joined(strings(details.apts@), APT_SEPARATOR@),
                    today_date,
                ),
            ),
    )
}

/// The files that are written for a technique: one for each analytic, and
/// none where the category is unknown.
pub open spec fn analytics_files_of(
    technique_id: Seq<char>,
    details: MitreTechniqueDetails,
    today_date: Seq<char>,
) -> Seq<(Seq<char>, Seq<char>)> {
    match category_folder_of(details.mitre_category@) {
        Some(folder) => files_in(
            folder,
            technique_id,
            details,
            today_date,
            details.analytics@.len() as int,
        ),
        None => seq![],
    }
}

/// Lays out the files that are written for a technique, each with its path
/// and its content.
pub fn save_analytics_to_files(
    technique_id: &str,
    details: &MitreTechniqueDetails,
    today_date: &str,
) -> (files: Vec<(String, String)>)
    requires
        details.analytics@.len() < usize::MAX,
    ensures
        crate::ioc::pair_views(files@) == analytics_files_of(
            technique_id@,
            *details,
            today_date@,
        ),
{
    let mut files: Vec<(String, String)> = Vec::new();
    let folder = match category_folder(details.mitre_category.as_str()) {
        Some(f) => f,
        None => {
            assert(crate::ioc::pair_views(files@) =~= Seq::<(Seq<char>, Seq<char>)>::empty());
            return files;
        },
    };
    let apts_joined = join(&details.apts, APT_SEPARATOR);
    let mut i: usize = 0;
    assert(crate::ioc::pair_views(files@) =~= files_in(
        folder@,
        technique_id@,
        *details,
        today_date@,
        0,
    ));
    while i < details.analytics.len()
        invariant
            i <= details.analytics.len(),
            details.analytics@.len() < usize::MAX,
            apts_joined@ == joined(strings(details.apts@), APT_SEPARATOR@),
            crate::ioc::pair_views(files@) == files_in(
                folder@,
                technique_id@,
                *details,
                today_date@,
                i as int,
            ),
        decreases details.analytics.len() - i,
    {
        let mut path = folder.clone();
        path.push('/');
        let title = analytic_file_title(technique_id, details.name.as_str(), i + 1);
        path.append(title.as_str());
        let content = build_splunk_query(
            &details.analytics[i],
            details,
            apts_joined.as_str(),
            today_date,
        );
        assert(path@ =~= folder@ + seq!['/'] + file_title_of(
            technique_id@,
            details.name@,
            (i + 1) as nat,
        ));
        let ghost so_far = crate::ioc::pair_views(files@);
        let ghost entry = (path@, content@);
        files.push((path, content));
        assert(crate::ioc::pair_views(files@) =~= so_far.push(entry));
        assert(crate::ioc::pair_views(files@) =~= files_in(
            folder@,
            technique_id@,
            *details,
            today_date@,
            i + 1,
        ));
        i += 1;
    }
    files
}

/// Puts together what is known of a technique from what was read off its
/// page.
pub fn assemble_details(
    technique_id: &str,
    names: (String, String),
    tactics: Vec<String>,
    hunting_trigger: String,
    mitre_category: String,
    analytics: Vec<AnalyticQuery>,
    apts: Vec<String>,
) -> (details: MitreTechniqueDetails)
    ensures
        details.id@ == seq!['T'] + technique_id@,
        details.name == names.0,
        details.subtechnique == names.1,
        details.tactics == tactics,
        details.hunting_trigger == hunting_trigger,
        details.mitre_category == mitre_category,
        details.analytics == analytics,
        details.apts == apts,
        details.url@ == technique_url_of(technique_id@),
        details.technique_id@ == technique_of(technique_id@),
        details.subtechnique_id@ == subtechnique_of(technique_id@),
{
    let mut id = String::new();
    id.push('T');
    id.append(technique_id);
    let url = build_technique_url(technique_id);
    let ids = technique_ids(technique_id);
    MitreTechniqueDetails {
        id,
        name: names.0,
        subtechnique: names.1,
        tactics,
        hunting_trigger,
        mitre_category,
        analytics,
        apts,
        url,
        technique_id: ids.0,
        subtechnique_id: ids.1,
    }
}

} // verus!
