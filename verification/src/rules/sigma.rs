//! Sigma rules.

use vstd::prelude::*;
use crate::jobs::{job_views, one_by_one, plan_by_extension, plan_of, without_dots, Job, JobView, ReportStyle};
use crate::text::strs;

verus! {

/// The repositories of the catalog.
pub open spec fn repo_catalog() -> Seq<Seq<char>> {
    seq![
        "https://github.com/SigmaHQ/sigma.git"@,
        "https://github.com/center-for-threat-informed-defense/cloud-analytics.git"@,
        "https://github.com/joesecurity/sigma-rules.git"@,
        "https://github.com/magicsword-io/LOLDrivers.git"@,
        "https://github.com/mbabinski/Sigma-Rules.git"@,
        "https://github.com/mdecrevoisier/SIGMA-detection-rules.git"@,
        "https://github.com/mthcht/ThreatHunting-Keywords-sigma-rules.git"@,
        "https://github.com/P4T12ICK/Sigma-Rule-Repository.git"@,
        "https://github.com/tsale/Sigma_rules.git"@,
    ]
}

/// The rule files fetched by URL.
pub open spec fn page_catalog() -> Seq<Seq<char>> {
    seq![
        "https://raw.githubusercontent.com/delivr-to/detections/refs/heads/main/sigma-rules/file_event_win_pdf_html_smuggle.yml"@,
    ]
}

fn repos() -> (v: Vec<&'static str>)
    ensures
        strs(v@) == repo_catalog(),
        v@.len() == repo_catalog().len(),
{
    let v = vec![
        "https://github.com/SigmaHQ/sigma.git",
        "https://github.com/center-for-threat-informed-defense/cloud-analytics.git",
        "https://github.com/joesecurity/sigma-rules.git",
        "https://github.com/magicsword-io/LOLDrivers.git",
        "https://github.com/mbabinski/Sigma-Rules.git",
        "https://github.com/mdecrevoisier/SIGMA-detection-rules.git",
        "https://github.com/mthcht/ThreatHunting-Keywords-sigma-rules.git",
        "https://github.com/P4T12ICK/Sigma-Rule-Repository.git",
        "https://github.com/tsale/Sigma_rules.git",
    ];
    assert(strs(v@) =~= repo_catalog());
    v
}

fn pages() -> (v: Vec<&'static str>)
    ensures
        strs(v@) == page_catalog(),
        v@.len() == page_catalog().len(),
{
    let v = vec![
        "https://raw.githubusercontent.com/delivr-to/detections/refs/heads/main/sigma-rules/file_event_win_pdf_html_smuggle.yml",
    ];
    assert(strs(v@) =~= page_catalog());
    v
}

/// The number of sources in the catalog.
pub fn sigma_total_sources() -> (n: usize)
    ensures
        n == repo_catalog().len() + page_catalog().len(),
        n == 10,
{
    repos().len() + pages().len()
}

/// Lays out the Sigma run into `output_path`: every source is tried for
/// `.yml` and then for `.yaml` files, and counted once both are through.
pub open spec fn run_plan(output_path: Seq<char>) -> Seq<JobView> {
    plan_of(
        repo_catalog(),
        page_catalog(),
        output_path,
        one_by_one(without_dots(seq![".yml"@, ".yaml"@])),
        one_by_one(without_dots(seq![".yml"@, ".yaml"@])),
        None,
        ReportStyle::Count,
    )
}

/// Lays out the Sigma run into `output_path`: every source is tried for
/// `.yml` and then for `.yaml` files, and counted once both are through.
pub fn process_sigma(output_path: &str) -> (plan: Vec<Job>)
    ensures
        job_views(plan@) == run_plan(output_path@),
{
    let r = repos();
    let p = pages();
    let extensions = vec![".yml", ".yaml"];
    assert(strs(extensions@) =~= seq![".yml"@, ".yaml"@]);
    plan_by_extension(r.as_slice(), p.as_slice(), output_path, extensions.as_slice(), ReportStyle::Count)
}

} // verus!
