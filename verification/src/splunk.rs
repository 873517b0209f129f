//! Splunk rules gathered by crawling: repositories cloned whole, and web
//! sources that are rule files or pages of links.

use vstd::prelude::*;
use crate::filter::{has_extension, has_listed_extension};
use crate::links::{ends_in_any, is_rule_url};
use crate::text::{count_nonempty, nonempty_count, strs};

verus! {

/// The repositories that hold Splunk rules.
pub open spec fn splunk_github_sources_catalog() -> Seq<Seq<char>> {
    seq![
        "https://github.com/Infinit3i/Defensive-Rules.git"@,
    ]
}

/// The repositories that hold Splunk rules.
pub fn splunk_github_sources() -> (v: Vec<&'static str>)
    ensures
        strs(v@) == splunk_github_sources_catalog(),
        v@.len() == 1,
{
    let v = vec![
        "https://github.com/Infinit3i/Defensive-Rules.git",
    ];
    assert(strs(v@) =~= splunk_github_sources_catalog());
    v
}

/// The web sources of Splunk rules; an empty entry is a place kept free.
pub open spec fn splunk_web_sources_catalog() -> Seq<Seq<char>> {
    seq![
        ""@,
    ]
}

/// The web sources of Splunk rules; an empty entry is a place kept free.
pub fn splunk_web_sources() -> (v: Vec<&'static str>)
    ensures
        strs(v@) == splunk_web_sources_catalog(),
        v@.len() == 1,
{
    let v = vec![
        "",
    ];
    assert(strs(v@) =~= splunk_web_sources_catalog());
    v
}

/// The endings by which a URL is taken for a Splunk rule file.
pub open spec fn rule_url_suffixes_catalog() -> Seq<Seq<char>> {
    seq![
        ".conf"@,
        ".xml"@,
        ".md"@,
        ".spl"@,
    ]
}

/// The endings by which a URL is taken for a Splunk rule file.
pub fn rule_url_suffixes() -> (v: Vec<&'static str>)
    ensures
        strs(v@) == rule_url_suffixes_catalog(),
        v@.len() == 4,
{
    let v = vec![
        ".conf",
        ".xml",
        ".md",
        ".spl",
    ];
    assert(strs(v@) =~= rule_url_suffixes_catalog());
    v
}

/// The extensions by which a file of a clone is taken for a Splunk rule file.
pub open spec fn rule_extensions_catalog() -> Seq<Seq<char>> {
    seq![
        "conf"@,
        "xml"@,
        "spl"@,
    ]
}

/// The extensions by which a file of a clone is taken for a Splunk rule file.
pub fn rule_extensions() -> (v: Vec<&'static str>)
    ensures
        strs(v@) == rule_extensions_catalog(),
        v@.len() == 3,
{
    let v = vec![
        "conf",
        "xml",
        "spl",
    ];
    assert(strs(v@) =~= rule_extensions_catalog());
    v
}

/// The number of sources: one for the base repository, the repositories listed,
/// and the web sources that are not empty.
pub fn splunk_total_sources() -> (n: usize)
    ensures
        n == 1 + splunk_github_sources_catalog().len() + nonempty_count(splunk_web_sources_catalog()),
{
    let web = splunk_web_sources();
    1 + splunk_github_sources().len() + count_nonempty(web.as_slice())
}

/// Says whether a web source is a Splunk rule file to fetch as it is. Any other is a
/// page, which is searched for links to follow.
pub fn names_rule_file(url: &str) -> (r: bool)
    ensures
        r == ends_in_any(url@, rule_url_suffixes_catalog()),
{
    let suffixes = rule_url_suffixes();
    is_rule_url(url, suffixes.as_slice())
}

/// Says whether a file found in a clone is a Splunk rule file, going by its extension.
pub fn is_rule_file(file_name: &str) -> (r: bool)
    ensures
        r == has_listed_extension(file_name@, rule_extensions_catalog()),
{
    let extensions = rule_extensions();
    has_extension(file_name, extensions.as_slice())
}

} // verus!
