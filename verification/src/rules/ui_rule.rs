//! What the tool selector sets going: where the files go, how many sources a
//! run covers, and what is done for each tool.

use vstd::prelude::*;
use vstd::string::StringExecFns;
use crate::download::{ToolSpec, ToolSpecView};
use crate::jobs::{job_views, Job, JobView};
use crate::rules::{qradar, sigma, splunk, suricata, sysmon, yara};
use crate::text::{nonempty_count, str_eq, strs};

verus! {

/// The folder that takes the rules where the user chose none.
pub const DEFAULT_OUTPUT_PATH: &'static str = "./rule_output";

/// The folder that takes the rules: the one the user chose, else
/// [`DEFAULT_OUTPUT_PATH`].
pub fn output_path(custom_path: &Option<String>) -> (path: String)
    ensures
        path@ == match custom_path {
            Some(p) => p@,
            None => DEFAULT_OUTPUT_PATH@,
        },
{
    match custom_path {
        Some(p) => p.clone(),
        None => String::from_str(DEFAULT_OUTPUT_PATH),
    }
}

/// The number of sources that the tool of this name stands for in the total
/// of a run. A name that is no tool stands for none.
pub open spec fn sources_of(name: Seq<char>) -> nat {
    if name == "Yara"@ {
        yara::repo_catalog().len() + yara::page_catalog().len()
    } else if name == "Suricata"@ {
        suricata::repo_catalog().len() + nonempty_count(suricata::page_catalog())
    } else if name == "Sigma"@ {
        sigma::repo_catalog().len() + sigma::page_catalog().len()
    } else if name == "Splunk"@ {
        splunk::repo_catalog().len() + splunk::page_catalog().len()
    } else if name == "QRadar"@ {
        qradar::repo_catalog().len() + qradar::page_catalog().len()
    } else if name == "Sysmon"@ {
        sysmon::repo_catalog().len() + sysmon::page_catalog().len()
    } else {
        0
    }
}

/// The sources of the first `n` of `names` together.
pub open spec fn work_of(names: Seq<Seq<char>>, n: int) -> nat
    decreases n,
{
    if n <= 0 {
        0
    } else {
        work_of(names, n - 1) + sources_of(names[n - 1])
    }
}

/// Counts the sources of the tool of this name.
pub fn tool_sources(name: &str) -> (n: usize)
    ensures
        n == sources_of(name@),
        n <= 100,
{
    if str_eq(name, "Yara") {
        yara::yara_total_sources()
    } else if str_eq(name, "Suricata") {
        suricata::suricata_total_sources()
    } else if str_eq(name, "Sigma") {
        sigma::sigma_total_sources()
    } else if str_eq(name, "Splunk") {
        splunk::splunk_total_sources()
    } else if str_eq(name, "QRadar") {
        qradar::qradar_total_sources()
    } else if str_eq(name, "Sysmon") {
        sysmon::sysmon_total_sources()
    } else {
        0
    }
}

/// Counts the sources of all of `tools`: the total of the tracker that their
/// runs share.
pub fn estimate_work(tools: &[&str]) -> (n: usize)
    requires
        100 * tools@.len() <= usize::MAX,
    ensures
        n == work_of(strs(tools@), tools@.len() as int),
{
    let mut n: usize = 0;
    let mut i: usize = 0;
    while i < tools.len()
        invariant
            i <= tools.len(),
            100 * tools@.len() <= usize::MAX,
            n == work_of(strs(tools@), i as int),
            n <= 100 * i,
        decreases tools.len() - i,
    {
        n = n + tool_sources(tools[i]);
        i += 1;
    }
    n
}

/// What is done for one tool.
#[derive(Debug)]
pub enum ToolPlan {
    /// A run over the tool's catalog, into the tool's folder below the output
    /// folder, which can be cancelled between two sources.
    Run(ToolSpec),
    /// A list of jobs that put the tool's files into the output folder itself.
    Jobs(Vec<Job>),
}

pub enum ToolPlanView {
    Run(ToolSpecView),
    Jobs(Seq<JobView>),
}

impl View for ToolPlan {
    type V = ToolPlanView;

    open spec fn view(&self) -> ToolPlanView {
        match self {
            ToolPlan::Run(spec) => ToolPlanView::Run(spec@),
            ToolPlan::Jobs(jobs) => ToolPlanView::Jobs(job_views(jobs@)),
        }
    }
}

/// What is done for the tool of this name with the output folder
/// `output_path`: a list of jobs for the YARA, Suricata and Sigma rules, a
/// run over the catalog for Splunk, QRadar and Sysmon, and nothing for a name
/// that is no tool.
pub open spec fn tool_plan(name: Seq<char>, output_path: Seq<char>) -> Option<ToolPlanView> {
    if name == "Yara"@ {
        Some(ToolPlanView::Jobs(yara::run_plan(output_path)))
    } else if name == "Suricata"@ {
        Some(ToolPlanView::Jobs(suricata::run_plan(output_path)))
    } else if name == "Sigma"@ {
        Some(ToolPlanView::Jobs(sigma::run_plan(output_path)))
    } else if name == "Splunk"@ {
        Some(ToolPlanView::Run(splunk::catalog()))
    } else if name == "QRadar"@ {
        Some(ToolPlanView::Run(qradar::catalog()))
    } else if name == "Sysmon"@ {
        Some(ToolPlanView::Run(sysmon::catalog()))
    } else {
        None
    }
}

/// The view of an optional plan.
pub open spec fn plan_view(plan: Option<ToolPlan>) -> Option<ToolPlanView> {
    match plan {
        Some(p) => Some(p@),
        None => None,
    }
}

/// Says what is done for the tool of this name with the output folder
/// `output_path`.
pub fn plan_tool(name: &str, output_path: &str) -> (plan: Option<ToolPlan>)
    ensures
        plan_view(plan) == tool_plan(name@, output_path@),
{
    if str_eq(name, "Yara") {
        Some(ToolPlan::Jobs(yara::process_yara(output_path)))
    } else if str_eq(name, "Suricata") {
        Some(ToolPlan::Jobs(suricata::process_suricata(output_path)))
    } else if str_eq(name, "Sigma") {
        Some(ToolPlan::Jobs(sigma::process_sigma(output_path)))
    } else if str_eq(name, "Splunk") {
        Some(ToolPlan::Run(splunk::splunk_spec()))
    } else if str_eq(name, "QRadar") {
        Some(ToolPlan::Run(qradar::qradar_spec()))
    } else if str_eq(name, "Sysmon") {
        Some(ToolPlan::Run(sysmon::sysmon_spec()))
    } else {
        None
    }
}

} // verus!
