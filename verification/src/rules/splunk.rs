//! Splunk searches and configurations.

use vstd::prelude::*;
use crate::download::{ToolSpec, ToolSpecView};
use crate::text::strs;

verus! {

/// The repositories of the catalog.
pub open spec fn repo_catalog() -> Seq<Seq<char>> {
    seq![
        "https://github.com/Infinit3i/Defensive-Rules.git"@,
        "https://github.com/mthcht/ThreatHunting-Keywords.git"@,
        "https://github.com/splunk/security_content.git"@,
        "https://github.com/anvilogic-forge/armory.git"@,
    ]
}

/// The files fetched by URL: none.
pub open spec fn page_catalog() -> Seq<Seq<char>> {
    seq![]
}

fn repos() -> (v: Vec<&'static str>)
    ensures
        strs(v@) == repo_catalog(),
        v@.len() == repo_catalog().len(),
{
    let v = vec![
        "https://github.com/Infinit3i/Defensive-Rules.git",
        "https://github.com/mthcht/ThreatHunting-Keywords.git",
        "https://github.com/splunk/security_content.git",
        "https://github.com/anvilogic-forge/armory.git",
    ];
    assert(strs(v@) =~= repo_catalog());
    v
}

fn pages() -> (v: Vec<&'static str>)
    ensures
        strs(v@) == page_catalog(),
        v@.len() == page_catalog().len(),
{
    let v: Vec<&'static str> = Vec::new();
    assert(strs(v@) =~= page_catalog());
    v
}

/// The number of sources in the catalog: every entry counts.
pub fn splunk_total_sources() -> (n: usize)
    ensures
        n == repo_catalog().len() + page_catalog().len(),
        n == 4,
{
    repos().len() + pages().len()
}

/// The catalog: configuration, XML, text and Markdown files, kept in the folder
/// `splunk`.
pub open spec fn catalog() -> ToolSpecView {
    ToolSpecView {
        name: "Splunk"@,
        dest_subfolder: "splunk"@,
        repo_urls: repo_catalog(),
        page_urls: page_catalog(),
        allowed_exts: seq!["conf"@, "xml"@, "txt"@, "md"@],
    }
}

/// The catalog: configuration, XML, text and Markdown files, kept in the folder
/// `splunk`.
pub fn splunk_spec() -> (spec: ToolSpec)
    ensures
        spec@ == catalog(),
        spec@.total() == 4,
{
    let allowed_exts = vec!["conf", "xml", "txt", "md"];
    assert(strs(allowed_exts@) =~= seq!["conf"@, "xml"@, "txt"@, "md"@]);
    ToolSpec {
        name: "Splunk",
        dest_subfolder: "splunk",
        repo_urls: repos(),
        page_urls: pages(),
        allowed_exts,
    }
}

} // verus!
