//! QRadar rules gathered by crawling: repositories cloned whole, and web
//! sources that are rule files or pages of links.

use vstd::prelude::*;
use crate::filter::{has_extension, has_listed_extension};
use crate::links::{ends_in_any, is_rule_url};
use crate::text::{count_nonempty, nonempty_count, strs};

verus! {

/// The repositories that hold QRadar rules.
pub open spec fn qradar_github_sources_catalog() -> Seq<Seq<char>> {
    seq![
        "https://github.com/IBM/qradar-sample-apps.git"@,
        "https://github.com/IBM/qradar-contrib.git"@,
        "https://github.com/IBM/qradar-mitre-attack.git"@,
        "https://github.com/usama-r/QRadar.git"@,
        "https://github.com/zrquan/QRadar-Rule.git"@,
    ]
}

/// The repositories that hold QRadar rules.
pub fn qradar_github_sources() -> (v: Vec<&'static str>)
    ensures
        strs(v@) == qradar_github_sources_catalog(),
        v@.len() == 5,
{
    let v = vec![
        "https://github.com/IBM/qradar-sample-apps.git",
        "https://github.com/IBM/qradar-contrib.git",
        "https://github.com/IBM/qradar-mitre-attack.git",
        "https://github.com/usama-r/QRadar.git",
        "https://github.com/zrquan/QRadar-Rule.git",
    ];
    assert(strs(v@) =~= qradar_github_sources_catalog());
    v
}

/// The web sources of QRadar rules; an empty entry is a place kept free.
pub open spec fn qradar_web_sources_catalog() -> Seq<Seq<char>> {
    seq![
        "https://raw.githubusercontent.com/IBM/qradar-sample-apps/main/sample_rules.xml"@,
        ""@,
    ]
}

/// The web sources of QRadar rules; an empty entry is a place kept free.
pub fn qradar_web_sources() -> (v: Vec<&'static str>)
    ensures
        strs(v@) == qradar_web_sources_catalog(),
        v@.len() == 2,
{
    let v = vec![
        "https://raw.githubusercontent.com/IBM/qradar-sample-apps/main/sample_rules.xml",
        "",
    ];
    assert(strs(v@) =~= qradar_web_sources_catalog());
    v
}

/// The endings by which a URL is taken for a QRadar rule file.
pub open spec fn rule_url_suffixes_catalog() -> Seq<Seq<char>> {
    seq![
        ".xml"@,
        ".json"@,
        ".rules"@,
        ".aql"@,
    ]
}

/// The endings by which a URL is taken for a QRadar rule file.
pub fn rule_url_suffixes() -> (v: Vec<&'static str>)
    ensures
        strs(v@) == rule_url_suffixes_catalog(),
        v@.len() == 4,
{
    let v = vec![
        ".xml",
        ".json",
        ".rules",
        ".aql",
    ];
    assert(strs(v@) =~= rule_url_suffixes_catalog());
    v
}

/// The extensions by which a file of a clone is taken for a QRadar rule file.
pub open spec fn rule_extensions_catalog() -> Seq<Seq<char>> {
    seq![
        "xml"@,
        "json"@,
        "rules"@,
        "aql"@,
    ]
}

/// The extensions by which a file of a clone is taken for a QRadar rule file.
pub fn rule_extensions() -> (v: Vec<&'static str>)
    ensures
        strs(v@) == rule_extensions_catalog(),
        v@.len() == 4,
{
    let v = vec![
        "xml",
        "json",
        "rules",
        "aql",
    ];
    assert(strs(v@) =~= rule_extensions_catalog());
    v
}

/// The number of sources: the repositories, and the web sources that are not
/// empty.
pub fn qradar_total_sources() -> (n: usize)
    ensures
        n == qradar_github_sources_catalog().len() + nonempty_count(qradar_web_sources_catalog()),
{
    let web = qradar_web_sources();
    qradar_github_sources().len() + count_nonempty(web.as_slice())
}

/// Says whether a web source is a QRadar rule file to fetch as it is. Any other is a
/// page, which is searched for links to follow.
pub fn names_rule_file(url: &str) -> (r: bool)
    ensures
        r == ends_in_any(url@, rule_url_suffixes_catalog()),
{
    let suffixes = rule_url_suffixes();
    is_rule_url(url, suffixes.as_slice())
}

/// Says whether a file found in a clone is a QRadar rule file, going by its extension.
pub fn is_rule_file(file_name: &str) -> (r: bool)
    ensures
        r == has_listed_extension(file_name@, rule_extensions_catalog()),
{
    let extensions = rule_extensions();
    has_extension(file_name, extensions.as_slice())
}

} // verus!
