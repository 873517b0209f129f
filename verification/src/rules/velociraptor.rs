//! Velociraptor detections, which are filed with the Suricata rules.

use vstd::prelude::*;
use crate::download::{ToolSpec, ToolSpecView};
use crate::text::strs;

verus! {

/// The repositories of the catalog. The empty entry is a place kept free; it
/// counts as a source and fails when taken up.
pub open spec fn repo_catalog() -> Seq<Seq<char>> {
    seq![
        "https://github.com/mgreen27/DetectRaptor.git"@,
        ""@,
    ]
}

/// The files fetched by URL: one place kept free.
pub open spec fn page_catalog() -> Seq<Seq<char>> {
    seq![
        ""@,
    ]
}

fn repos() -> (v: Vec<&'static str>)
    ensures
        strs(v@) == repo_catalog(),
        v@.len() == repo_catalog().len(),
{
    let v = vec![
        "https://github.com/mgreen27/DetectRaptor.git",
        "",
    ];
    assert(strs(v@) =~= repo_catalog());
    v
}

fn pages() -> (v: Vec<&'static str>)
    ensures
        strs(v@) == page_catalog(),
        v@.len() == page_catalog().len(),
{
    let v = vec![
        "",
    ];
    assert(strs(v@) =~= page_catalog());
    v
}

/// The number of sources in the catalog: every entry counts.
pub fn suricata_total_sources() -> (n: usize)
    ensures
        n == repo_catalog().len() + page_catalog().len(),
        n == 3,
{
    repos().len() + pages().len()
}

/// The catalog: rule files, kept in the folder `suricata`.
pub open spec fn catalog() -> ToolSpecView {
    ToolSpecView {
        name: "Suricata"@,
        dest_subfolder: "suricata"@,
        repo_urls: repo_catalog(),
        page_urls: page_catalog(),
        allowed_exts: seq!["rules"@, "rule"@],
    }
}

/// The catalog: rule files, kept in the folder `suricata`.
pub fn suricata_spec() -> (spec: ToolSpec)
    ensures
        spec@ == catalog(),
        spec@.total() == 3,
{
    let allowed_exts = vec!["rules", "rule"];
    assert(strs(allowed_exts@) =~= seq!["rules"@, "rule"@]);
    ToolSpec {
        name: "Suricata",
        dest_subfolder: "suricata",
        repo_urls: repos(),
        page_urls: pages(),
        allowed_exts,
    }
}

} // verus!
