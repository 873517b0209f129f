//! Sysmon configurations.

use vstd::prelude::*;
use crate::download::{ToolSpec, ToolSpecView};
use crate::text::strs;

verus! {

/// The repositories of the catalog: none.
pub open spec fn repo_catalog() -> Seq<Seq<char>> {
    seq![]
}

/// The configuration files of the catalog, fetched by URL.
pub open spec fn page_catalog() -> Seq<Seq<char>> {
    seq![
        "https://raw.githubusercontent.com/Neo23x0/sysmon-config/refs/heads/master/sysmonconfig-trace.xml"@,
        "https://raw.githubusercontent.com/ion-storm/sysmon-config/refs/heads/master/sysmonconfig-export.xml"@,
        "https://raw.githubusercontent.com/MotiBa/Sysmon/refs/heads/master/config_v17.xml"@,
        "https://raw.githubusercontent.com/olafhartong/sysmon-modular/refs/heads/master/sysmonconfig.xml"@,
        "https://raw.githubusercontent.com/SwiftOnSecurity/sysmon-config/refs/heads/master/sysmonconfig-export.xml"@,
    ]
}

fn repos() -> (v: Vec<&'static str>)
    ensures
        strs(v@) == repo_catalog(),
        v@.len() == repo_catalog().len(),
{
    let v: Vec<&'static str> = Vec::new();
    assert(strs(v@) =~= repo_catalog());
    v
}

fn pages() -> (v: Vec<&'static str>)
    ensures
        strs(v@) == page_catalog(),
        v@.len() == page_catalog().len(),
{
    let v = vec![
        "https://raw.githubusercontent.com/Neo23x0/sysmon-config/refs/heads/master/sysmonconfig-trace.xml",
        "https://raw.githubusercontent.com/ion-storm/sysmon-config/refs/heads/master/sysmonconfig-export.xml",
        "https://raw.githubusercontent.com/MotiBa/Sysmon/refs/heads/master/config_v17.xml",
        "https://raw.githubusercontent.com/olafhartong/sysmon-modular/refs/heads/master/sysmonconfig.xml",
        "https://raw.githubusercontent.com/SwiftOnSecurity/sysmon-config/refs/heads/master/sysmonconfig-export.xml",
    ];
    assert(strs(v@) =~= page_catalog());
    v
}

/// The number of sources in the catalog: every entry counts.
pub fn sysmon_total_sources() -> (n: usize)
    ensures
        n == repo_catalog().len() + page_catalog().len(),
        n == 5,
{
    repos().len() + pages().len()
}

/// The catalog: XML files, kept in the folder `sysmon`.
pub open spec fn catalog() -> ToolSpecView {
    ToolSpecView {
        name: "Sysmon"@,
        dest_subfolder: "sysmon"@,
        repo_urls: repo_catalog(),
        page_urls: page_catalog(),
        allowed_exts: seq!["xml"@],
    }
}

/// The catalog: XML files, kept in the folder `sysmon`.
pub fn sysmon_spec() -> (spec: ToolSpec)
    ensures
        spec@ == catalog(),
        spec@.total() == 5,
{
    let allowed_exts = vec!["xml"];
    assert(strs(allowed_exts@) =~= seq!["xml"@]);
    ToolSpec {
        name: "Sysmon",
        dest_subfolder: "sysmon",
        repo_urls: repos(),
        page_urls: pages(),
        allowed_exts,
    }
}

} // verus!
