//! Zeek, whose repository is searched for Sigma rules.

use vstd::prelude::*;
use crate::download::{ToolSpec, ToolSpecView};
use crate::text::strs;

verus! {

/// The repositories of the catalog.
pub open spec fn repo_catalog() -> Seq<Seq<char>> {
    seq![
        "https://github.com/zeek/zeek.git"@,
    ]
}

/// The files fetched by URL: one place kept free.
pub open spec fn page_catalog() -> Seq<Seq<char>> {
    seq![
        ""@,
    ]
}

fn repos() -> (v: Vec<&'static str>)
    ensures
        strs(v@) == repo_catalog(),
        v@.len() == repo_catalog().len(),
{
    let v = vec![
        "https://github.com/zeek/zeek.git",
    ];
    assert(strs(v@) =~= repo_catalog());
    v
}

fn pages() -> (v: Vec<&'static str>)
    ensures
        strs(v@) == page_catalog(),
        v@.len() == page_catalog().len(),
{
    let v = vec![
        "",
    ];
    assert(strs(v@) =~= page_catalog());
    v
}

/// The number of sources in the catalog: every entry counts.
pub fn sigma_total_sources() -> (n: usize)
    ensures
        n == repo_catalog().len() + page_catalog().len(),
        n == 2,
{
    repos().len() + pages().len()
}

/// The catalog: YAML files, kept in the folder `sigma`.
pub open spec fn catalog() -> ToolSpecView {
    ToolSpecView {
        name: "Sigma"@,
        dest_subfolder: "sigma"@,
        repo_urls: repo_catalog(),
        page_urls: page_catalog(),
        allowed_exts: seq!["yml"@, "yaml"@],
    }
}

/// The catalog: YAML files, kept in the folder `sigma`.
pub fn sigma_spec() -> (spec: ToolSpec)
    ensures
        spec@ == catalog(),
        spec@.total() == 2,
{
    let allowed_exts = vec!["yml", "yaml"];
    assert(strs(allowed_exts@) =~= seq!["yml"@, "yaml"@]);
    ToolSpec {
        name: "Sigma",
        dest_subfolder: "sigma",
        repo_urls: repos(),
        page_urls: pages(),
        allowed_exts,
    }
}

} // verus!
