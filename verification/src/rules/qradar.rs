//! QRadar rules.

use vstd::prelude::*;
use crate::download::{ToolSpec, ToolSpecView};
use crate::text::strs;

verus! {

/// The repositories of the catalog.
pub open spec fn repo_catalog() -> Seq<Seq<char>> {
    seq![
        "https://github.com/Xboarder56/QRCE-Rules.git"@,
    ]
}

/// The files fetched by URL: none.
pub open spec fn page_catalog() -> Seq<Seq<char>> {
    seq![]
}

fn repos() -> (v: Vec<&'static str>)
    ensures
        strs(v@) == repo_catalog(),
        v@.len() == repo_catalog().len(),
{
    let v = vec![
        "https://github.com/Xboarder56/QRCE-Rules.git",
    ];
    assert(strs(v@) =~= repo_catalog());
    v
}

fn pages() -> (v: Vec<&'static str>)
    ensures
        strs(v@) == page_catalog(),
        v@.len() == page_catalog().len(),
{
    let v: Vec<&'static str> = Vec::new();
    assert(strs(v@) =~= page_catalog());
    v
}

/// The number of sources in the catalog: every entry counts.
pub fn qradar_total_sources() -> (n: usize)
    ensures
        n == repo_catalog().len() + page_catalog().len(),
        n == 1,
{
    repos().len() + pages().len()
}

/// The catalog: XML, JSON, AQL and text files, kept in the folder `qradar`.
pub open spec fn catalog() -> ToolSpecView {
    ToolSpecView {
        name: "QRadar"@,
        dest_subfolder: "qradar"@,
        repo_urls: repo_catalog(),
        page_urls: page_catalog(),
        allowed_exts: seq!["xml"@, "json"@, "aql"@, "txt"@],
    }
}

/// The catalog: XML, JSON, AQL and text files, kept in the folder `qradar`.
pub fn qradar_spec() -> (spec: ToolSpec)
    ensures
        spec@ == catalog(),
        spec@.total() == 1,
{
    let allowed_exts = vec!["xml", "json", "aql", "txt"];
    assert(strs(allowed_exts@) =~= seq!["xml"@, "json"@, "aql"@, "txt"@]);
    ToolSpec {
        name: "QRadar",
        dest_subfolder: "qradar",
        repo_urls: repos(),
        page_urls: pages(),
        allowed_exts,
    }
}

} // verus!
