//! Indicator lists: how their files are named, how fetched text joins what a
//! file holds already, and which indicators are read out of a repository.

use vstd::prelude::*;
use vstd::string::StringExecFns;
use crate::download::DownloadFormat;
use crate::naming::last_segment;
use crate::patterns::{collect_in_lines, group_in_lines, pattern_accepted, PatternError};
use crate::text::{from_chars, strings, to_chars};
use crate::text::edit::{push_replaced, remove_all, replaced, without};
use crate::text::lines::{join, joined, lines_of, split_lines, trim_bounds, trimmed};
use crate::text::order::{unique, with_unique};
use crate::text::search::last_index_of;

verus! {

/// A domain name: labels of letters, digits and hyphens, and a last label of
/// two letters or more; case does not count.
pub const DOMAIN_PATTERN: &'static str =
    "(?i)\\b(?:[a-z0-9](?:[a-z0-9-]{0,61}[a-z0-9])?\\.)+[a-z]{2,}\\b";

/// Four groups of one to three digits with dots between them.
pub const IP_PATTERN: &'static str = "\\b\\d{1,3}(?:\\.\\d{1,3}){3}\\b";

/// 64 hexadecimal digits.
pub const SHA256_PATTERN: &'static str = "\\b[a-fA-F0-9]{64}\\b";

/// 40 hexadecimal digits.
pub const SHA1_PATTERN: &'static str = "\\b[a-fA-F0-9]{40}\\b";

/// 32 hexadecimal digits.
pub const MD5_PATTERN: &'static str = "\\b[a-fA-F0-9]{32}\\b";

/// The lower-case form of a text, as Unicode defines it.
pub uninterp spec fn lowercase_of(s: Seq<char>) -> Seq<char>;

/// `str::to_lowercase` of the standard library.
#[verifier::external_body]
fn to_lowercase(s: &str) -> (out: String)
    ensures
        out@ == lowercase_of(s@),
{
    s.to_lowercase()
}

/// The extension of a list in the given format.
pub open spec fn extension_text(format: DownloadFormat) -> Seq<char> {
    match format {
        DownloadFormat::Txt => "txt"@,
        DownloadFormat::Csv => "csv"@,
    }
}

/// What stands between two indicators in the given format.
pub open spec fn separator_of(format: DownloadFormat) -> Seq<char> {
    match format {
        DownloadFormat::Txt => seq!['\n'],
        DownloadFormat::Csv => seq![','],
    }
}

/// A name made of a kind as it is given, a hyphen, the date, a dot and the
/// extension of the format.
pub open spec fn dated_name(kind: Seq<char>, date: Seq<char>, format: DownloadFormat) -> Seq<
    char,
> {
    kind + seq!['-'] + date + seq!['.'] + extension_text(format)
}

/// The name of the file that takes the indicators of one kind on one day:
/// the kind in lower case, a hyphen, the date, a dot and the extension.
pub open spec fn ioc_file_name_of(
    ioc_type: Seq<char>,
    date: Seq<char>,
    format: DownloadFormat,
) -> Seq<char> {
    dated_name(lowercase_of(ioc_type), date, format)
}

/// Fetched text as it goes into a list: white space is taken off both ends,
/// and in a CSV list every line feed becomes a comma.
pub open spec fn as_entry(text: Seq<char>, format: DownloadFormat) -> Seq<char> {
    match format {
        DownloadFormat::Txt => trimmed(text),
        DownloadFormat::Csv => replaced(trimmed(text), '\n', seq![',']),
    }
}

/// What a list holds once `text` has joined `existing`: the new entry alone
/// where the list was empty but for white space, else the old content
/// without the white space at its ends, the separator, and the new entry.
pub open spec fn appended(
    existing: Seq<char>,
    text: Seq<char>,
    format: DownloadFormat,
) -> Seq<char> {
    if trimmed(existing).len() == 0 {
        as_entry(text, format)
    } else {
        trimmed(existing) + separator_of(format) + as_entry(text, format)
    }
}

/// The extension of a list in the given format.
pub fn format_extension(format: DownloadFormat) -> (ext: &'static str)
    ensures
        ext@ == extension_text(format),
{
    match format {
        DownloadFormat::Txt => "txt",
        DownloadFormat::Csv => "csv",
    }
}

/// Names the file that takes the indicators of kind `ioc_type` fetched on
/// the day `date`.
pub fn ioc_file_name(ioc_type: &str, date: &str, format: DownloadFormat) -> (name: String)
    ensures
        name@ == ioc_file_name_of(ioc_type@, date@, format),
{
    let kind = to_lowercase(ioc_type);
    name_list_file(kind.as_str(), date, format)
}

/// Names the file of a list from its kind as it is given, the date and the
/// format.
pub fn name_list_file(kind: &str, date: &str, format: DownloadFormat) -> (name: String)
    ensures
        name@ == dated_name(kind@, date@, format),
{
    let mut name = String::from_str(kind);
    name.push('-');
    name.append(date);
    name.push('.');
    name.append(format_extension(format));
    name
}

/// Puts fetched `text` after what the list holds already.
pub fn append_iocs(existing: &str, text: &str, format: DownloadFormat) -> (content: String)
    ensures
        content@ == appended(existing@, text@, format),
{
    let old = to_chars(existing);
    let new = to_chars(text);
    let (old_from, old_to) = trim_bounds(old.as_slice());
    let (new_from, new_to) = trim_bounds(new.as_slice());
    let mut content = from_chars(old.as_slice(), old_from, old_to);
    if old_to > old_from {
        match format {
            DownloadFormat::Txt => content.push('\n'),
            DownloadFormat::Csv => content.push(','),
        }
    }
    match format {
        DownloadFormat::Txt => {
            let entry = from_chars(new.as_slice(), new_from, new_to);
            content.append(entry.as_str());
        },
        DownloadFormat::Csv => {
            let comma = vec![','];
            assert(comma@ =~= seq![',']);
            push_replaced(&mut content, new.as_slice(), new_from, new_to, '\n', comma.as_slice());
        },
    }
    assert(content@ =~= appended(existing@, text@, format));
    content
}

/// The name of the folder a repository of indicators is cloned into: the last
/// segment of its URL without any `.git`.
pub open spec fn ioc_repo_name_of(repo_url: Seq<char>) -> Seq<char> {
    without(last_segment(repo_url), ".git"@)
}

/// Names the folder a repository of indicators is cloned into.
pub fn ioc_repo_name(repo_url: &str) -> (name: String)
    ensures
        name@ == ioc_repo_name_of(repo_url@),
{
    let v = to_chars(repo_url);
    let start = match last_index_of(v.as_slice(), 0, v.len(), '/') {
        Some(k) => k + 1,
        None => 0,
    };
    assert(v@.subrange(0, v.len() as int) == v@);
    assert(v@.skip(start as int) == v@.subrange(start as int, v.len() as int));
    let git = to_chars(".git");
    remove_all(v.as_slice(), start, v.len(), git.as_slice())
}

/// The matches of `pattern` in each of `lines`, line after line, each match
/// as the text it covers.
pub open spec fn found_in_lines(pattern: Seq<char>, lines: Seq<Seq<char>>) -> Seq<Seq<char>> {
    group_in_lines(pattern, lines, 0)
}

/// Collects the matches of `pattern` in each of `lines`. Without a line
/// nothing is searched and nothing can fail; with one, the matches are had
/// exactly when the pattern is accepted.
pub fn scan_lines(pattern: &str, lines: &Vec<Vec<char>>) -> (r: Result<Vec<String>, PatternError>)
    ensures
        r is Ok <==> (lines@.len() == 0 || pattern_accepted(pattern@)),
        r matches Ok(found) ==> strings(found@) == found_in_lines(
            pattern@,
            Seq::new(lines@.len(), |i: int| lines@[i]@),
        ),
        r matches Err(e) ==> e == PatternError::Rejected,
{
    collect_in_lines(pattern, lines, 0)
}

/// Whether the indicators can be read out of `content`: it has no line, or
/// each of the five patterns is accepted.
pub open spec fn can_be_scanned(content: Seq<char>) -> bool {
    ||| lines_of(content).len() == 0
    ||| {
        &&& pattern_accepted(DOMAIN_PATTERN@)
        &&& pattern_accepted(IP_PATTERN@)
        &&& pattern_accepted(SHA256_PATTERN@)
        &&& pattern_accepted(SHA1_PATTERN@)
        &&& pattern_accepted(MD5_PATTERN@)
    }
}

/// The indicators read so far, each kind without repeats and in the order in
/// which its members were first met.
#[derive(Debug)]
pub struct Indicators {
    domains: Vec<String>,
    ips: Vec<String>,
    sha256s: Vec<String>,
    sha1s: Vec<String>,
    md5s: Vec<String>,
}

pub struct IndicatorsView {
    pub domains: Seq<Seq<char>>,
    pub ips: Seq<Seq<char>>,
    pub sha256s: Seq<Seq<char>>,
    pub sha1s: Seq<Seq<char>>,
    pub md5s: Seq<Seq<char>>,
}

impl IndicatorsView {
    /// The indicators once the text `content` has been read as well: what
    /// each pattern finds in each of its lines joins its kind, repeats left
    /// out.
    pub open spec fn with_content(self, content: Seq<char>) -> IndicatorsView {
        let lines = lines_of(content);
        IndicatorsView {
            domains: unique(self.domains + found_in_lines(DOMAIN_PATTERN@, lines)),
            ips: unique(self.ips + found_in_lines(IP_PATTERN@, lines)),
            sha256s: unique(self.sha256s + found_in_lines(SHA256_PATTERN@, lines)),
            sha1s: unique(self.sha1s + found_in_lines(SHA1_PATTERN@, lines)),
            md5s: unique(self.md5s + found_in_lines(MD5_PATTERN@, lines)),
        }
    }

    /// The lists that are written on the day `date`, each with the name of
    /// its file: one for every kind that is not empty, its members one to a
    /// line.
    pub open spec fn lists(self, date: Seq<char>) -> Seq<(Seq<char>, Seq<char>)> {
        list_of("domain"@, self.domains, date) + list_of("ip"@, self.ips, date) + list_of(
            "sha256"@,
            self.sha256s,
            date,
        ) + list_of("sha1"@, self.sha1s, date) + list_of("md5"@, self.md5s, date)
    }
}

/// The name of the list of one kind of indicators read on the day `date`.
pub open spec fn list_name_of(kind: Seq<char>, date: Seq<char>) -> Seq<char> {
    kind + seq!['-'] + date + ".txt"@
}

/// The list of one kind, if it has members.
pub open spec fn list_of(kind: Seq<char>, members: Seq<Seq<char>>, date: Seq<char>) -> Seq<
    (Seq<char>, Seq<char>),
> {
    if members.len() == 0 {
        seq![]
    } else {
        seq![(list_name_of(kind, date), joined(members, seq!['\n']))]
    }
}

impl View for Indicators {
    type V = IndicatorsView;

    closed spec fn view(&self) -> IndicatorsView {
        IndicatorsView {
            domains: strings(self.domains@),
            ips: strings(self.ips@),
            sha256s: strings(self.sha256s@),
            sha1s: strings(self.sha1s@),
            md5s: strings(self.md5s@),
        }
    }
}

/// The views of a list of named texts.
pub open spec fn pair_views(pairs: Seq<(String, String)>) -> Seq<(Seq<char>, Seq<char>)> {
    Seq::new(pairs.len(), |i: int| (pairs[i].0@, pairs[i].1@))
}

impl Indicators {
    #[verifier::type_invariant]
    spec fn no_repeats(self) -> bool {
        &&& unique(strings(self.domains@)) == strings(self.domains@)
        &&& unique(strings(self.ips@)) == strings(self.ips@)
        &&& unique(strings(self.sha256s@)) == strings(self.sha256s@)
        &&& unique(strings(self.sha1s@)) == strings(self.sha1s@)
        &&& unique(strings(self.md5s@)) == strings(self.md5s@)
    }

    /// No indicators yet.
    pub fn new() -> (found: Self)
        ensures
            found@ == (IndicatorsView {
                domains: seq![],
                ips: seq![],
                sha256s: seq![],
                sha1s: seq![],
                md5s: seq![],
            }),
    {
        let none: Vec<String> = Vec::new();
        assert(strings(none@) =~= Seq::<Seq<char>>::empty());
        Indicators {
            domains: Vec::new(),
            ips: Vec::new(),
            sha256s: Vec::new(),
            sha1s: Vec::new(),
            md5s: Vec::new(),
        }
    }

    pub fn domains(&self) -> (v: &Vec<String>)
        ensures
            strings(v@) == self@.domains,
    {
        &self.domains
    }

    pub fn ips(&self) -> (v: &Vec<String>)
        ensures
            strings(v@) == self@.ips,
    {
        &self.ips
    }

    pub fn sha256s(&self) -> (v: &Vec<String>)
        ensures
            strings(v@) == self@.sha256s,
    {
        &self.sha256s
    }

    pub fn sha1s(&self) -> (v: &Vec<String>)
        ensures
            strings(v@) == self@.sha1s,
    {
        &self.sha1s
    }

    pub fn md5s(&self) -> (v: &Vec<String>)
        ensures
            strings(v@) == self@.md5s,
    {
        &self.md5s
    }

    /// Reads the indicators out of the text of one file, line by line. A text
    /// without lines leaves the indicators as they are and cannot fail; any
    /// other is read exactly when all five patterns are accepted. If a
    /// pattern is rejected nothing is taken over.
    pub fn scan(&mut self, content: &str) -> (r: Result<(), PatternError>)
        ensures
            r is Ok <==> can_be_scanned(content@),
            r is Ok ==> final(self)@ == old(self)@.with_content(content@),
            r matches Err(e) ==> e == PatternError::Rejected && final(self)@ == old(self)@,
    {
        proof {
            use_type_invariant(&*self);
        }
        let lines = split_lines(content);
        assert(lines@.len() == lines_of(content@).len()) by {
            assert(Seq::new(lines@.len(), |i: int| lines@[i]@).len() == lines@.len());
        }
        let domains = match scan_lines(DOMAIN_PATTERN, &lines) {
            Ok(found) => found,
            Err(e) => {
                return Err(e);
            },
        };
        let ips = match scan_lines(IP_PATTERN, &lines) {
            Ok(found) => found,
            Err(e) => {
                return Err(e);
            },
        };
        let sha256s = match scan_lines(SHA256_PATTERN, &lines) {
            Ok(found) => found,
            Err(e) => {
                return Err(e);
            },
        };
        let sha1s = match scan_lines(SHA1_PATTERN, &lines) {
            Ok(found) => found,
            Err(e) => {
                return Err(e);
            },
        };
        let md5s = match scan_lines(MD5_PATTERN, &lines) {
            Ok(found) => found,
            Err(e) => {
                return Err(e);
            },
        };
        self.domains = with_unique(&self.domains, &domains);
        self.ips = with_unique(&self.ips, &ips);
        self.sha256s = with_unique(&self.sha256s, &sha256s);
        self.sha1s = with_unique(&self.sha1s, &sha1s);
        self.md5s = with_unique(&self.md5s, &md5s);
        Ok(())
    }

    /// The lists to write on the day `date`, each with the name of its file.
    pub fn lists(&self, date: &str) -> (out: Vec<(String, String)>)
        ensures
            pair_views(out@) == self@.lists(date@),
    {
        let mut out: Vec<(String, String)> = Vec::new();
        assert(pair_views(out@) =~= Seq::<(Seq<char>, Seq<char>)>::empty());
        push_list(&mut out, "domain", &self.domains, date);
        push_list(&mut out, "ip", &self.ips, date);
        push_list(&mut out, "sha256", &self.sha256s, date);
        push_list(&mut out, "sha1", &self.sha1s, date);
        push_list(&mut out, "md5", &self.md5s, date);
        assert(pair_views(out@) =~= self@.lists(date@));
        out
    }
}

/// Names the list of one kind of indicators read on the day `date`.
pub fn ioc_list_name(kind: &str, date: &str) -> (name: String)
    ensures
        name@ == list_name_of(kind@, date@),
{
    let mut name = String::from_str(kind);
    name.push('-');
    name.append(date);
    name.append(".txt");
    name
}

fn push_list(out: &mut Vec<(String, String)>, kind: &str, members: &Vec<String>, date: &str)
    ensures
        pair_views(final(out)@) == pair_views(old(out)@) + list_of(
            kind@,
            strings(members@),
            date@,
        ),
{
    if members.len() > 0 {
        let name = ioc_list_name(kind, date);
        let content = join(members, "\n");
        proof {
            reveal_strlit("\n");
            assert("\n"@ =~= seq!['\n']);
        }
        out.push((name, content));
        assert(pair_views(out@) =~= pair_views(old(out)@) + list_of(
            kind@,
            strings(members@),
            date@,
        ));
    } else {
        assert(strings(members@).len() == 0);
        assert(pair_views(out@) =~= pair_views(old(out)@) + list_of(
            kind@,
            strings(members@),
            date@,
        ));
    }
}

} // verus!
