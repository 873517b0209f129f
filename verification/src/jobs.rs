//! Runs that go through their sources without a cancel flag: the whole run is
//! laid out beforehand as a list of jobs, which the host works off in order.

use vstd::prelude::*;
use vstd::string::StringExecFns;
use crate::naming::{strip_dots, trim_start};
use crate::progress::{advanced, begun, finished, ProgressState, ProgressView};
use crate::text::{clone_strings, strings, strs};

verus! {

/// One piece of work for the host.
#[derive(Clone, Debug, PartialEq, Eq)]
pub enum Job {
    /// Tell the observer that source number `current` of `total` is at work
    /// (with its URL as the label) or has been gone through (without one).
    Report { current: usize, total: usize, label: Option<String> },
    /// Clone the repository into a scratch folder and copy the files that
    /// `allowed` wants into `dest_dir`; give up after `timeout_secs` seconds
    /// where a limit is set.
    Clone { url: String, dest_dir: String, allowed: Vec<String>, timeout_secs: Option<u64> },
    /// Fetch the file behind the URL into `dest_dir` if `allowed` wants it.
    Download { url: String, dest_dir: String, allowed: Vec<String> },
}

pub enum JobView {
    Report { current: nat, total: nat, label: Option<Seq<char>> },
    Clone {
        url: Seq<char>,
        dest_dir: Seq<char>,
        allowed: Seq<Seq<char>>,
        timeout_secs: Option<u64>,
    },
    Download { url: Seq<char>, dest_dir: Seq<char>, allowed: Seq<Seq<char>> },
}

impl View for Job {
    type V = JobView;

    open spec fn view(&self) -> JobView {
        match self {
            Job::Report { current, total, label } => JobView::Report {
                current: *current as nat,
                total: *total as nat,
                label: match label {
                    Some(l) => Some(l@),
                    None => None,
                },
            },
            Job::Clone { url, dest_dir, allowed, timeout_secs } => JobView::Clone {
                url: url@,
                dest_dir: dest_dir@,
                allowed: strings(allowed@),
                timeout_secs: *timeout_secs,
            },
            Job::Download { url, dest_dir, allowed } => JobView::Download {
                url: url@,
                dest_dir: dest_dir@,
                allowed: strings(allowed@),
            },
        }
    }
}

/// The views of a list of jobs, in order.
pub open spec fn job_views(jobs: Seq<Job>) -> Seq<JobView> {
    Seq::new(jobs.len(), |i: int| jobs[i]@)
}

/// The views of a list of filters, in order.
pub open spec fn filter_views(filters: Seq<Vec<String>>) -> Seq<Seq<Seq<char>>> {
    Seq::new(filters.len(), |i: int| strings(filters[i]@))
}

/// Whether a source is a repository or a direct URL.
#[derive(Clone, Copy, Debug, PartialEq, Eq, Structural)]
pub enum SourceKind {
    Repo,
    Page,
}

/// When a run reports on a source.
#[derive(Clone, Copy, Debug, PartialEq, Eq, Structural)]
pub enum ReportStyle {
    /// Before the source is taken up, with its URL.
    Announce,
    /// After the source has been gone through, without a label.
    Count,
}

/// The filter that an optional extension stands for: none listed where none
/// is given, else the one extension without its leading dots.
pub open spec fn ext_filter_of(extension: Option<&str>) -> Seq<Seq<char>> {
    match extension {
        Some(e) => seq![trim_start(e@, '.')],
        None => seq![],
    }
}

/// The extensions of `allowed`, each without its leading dots.
pub open spec fn without_dots(allowed: Seq<Seq<char>>) -> Seq<Seq<char>> {
    Seq::new(allowed.len(), |i: int| trim_start(allowed[i], '.'))
}

/// A filter for each extension of `exts` alone.
pub open spec fn one_by_one(exts: Seq<Seq<char>>) -> Seq<Seq<Seq<char>>> {
    Seq::new(exts.len(), |i: int| seq![exts[i]])
}

/// The job that fetches from one source under one filter.
pub open spec fn fetch_job(
    kind: SourceKind,
    url: Seq<char>,
    dest_dir: Seq<char>,
    allowed: Seq<Seq<char>>,
    timeout_secs: Option<u64>,
) -> JobView {
    match kind {
        SourceKind::Repo => JobView::Clone { url, dest_dir, allowed, timeout_secs },
        SourceKind::Page => JobView::Download { url, dest_dir, allowed },
    }
}

/// The jobs for one source: one fetch for each of `filters`, in order, with
/// the report before them or after them as `style` has it.
pub open spec fn source_jobs(
    kind: SourceKind,
    url: Seq<char>,
    position: nat,
    total: nat,
    dest_dir: Seq<char>,
    filters: Seq<Seq<Seq<char>>>,
    timeout_secs: Option<u64>,
    style: ReportStyle,
) -> Seq<JobView> {
    let fetches = Seq::new(
        filters.len(),
        |i: int| fetch_job(kind, url, dest_dir, filters[i], timeout_secs),
    );
    match style {
        ReportStyle::Announce => seq![
            JobView::Report { current: position, total, label: Some(url) },
        ] + fetches,
        ReportStyle::Count => fetches + seq![
            JobView::Report { current: position, total, label: None },
        ],
    }
}

/// The jobs for the sources `urls`, in order; the first of them is source
/// number `done + 1` of the run.
pub open spec fn sources_jobs(
    kind: SourceKind,
    urls: Seq<Seq<char>>,
    done: nat,
    total: nat,
    dest_dir: Seq<char>,
    filters: Seq<Seq<Seq<char>>>,
    timeout_secs: Option<u64>,
    style: ReportStyle,
) -> Seq<JobView>
    decreases urls.len(),
{
    if urls.len() == 0 {
        seq![]
    } else {
        sources_jobs(kind, urls.drop_last(), done, total, dest_dir, filters, timeout_secs, style)
            + source_jobs(
            kind,
            urls.last(),
            done + urls.len(),
            total,
            dest_dir,
            filters,
            timeout_secs,
            style,
        )
    }
}

/// The jobs of a whole run: the repositories first, then the direct URLs,
/// each in the order given, numbered from 1 to the number of sources.
pub open spec fn plan_of(
    repos: Seq<Seq<char>>,
    pages: Seq<Seq<char>>,
    dest_dir: Seq<char>,
    repo_filters: Seq<Seq<Seq<char>>>,
    page_filters: Seq<Seq<Seq<char>>>,
    timeout_secs: Option<u64>,
    style: ReportStyle,
) -> Seq<JobView> {
    let total = repos.len() + pages.len();
    sources_jobs(
        SourceKind::Repo,
        repos,
        0,
        total,
        dest_dir,
        repo_filters,
        timeout_secs,
        style,
    ) + sources_jobs(
        SourceKind::Page,
        pages,
        repos.len(),
        total,
        dest_dir,
        page_filters,
        None,
        style,
    )
}

/// The extensions of `allowed_exts` as owned strings, each without its
/// leading dots.
pub fn strip_all(allowed_exts: &[&str]) -> (out: Vec<String>)
    ensures
        strings(out@) == without_dots(strs(allowed_exts@)),
{
    let mut out: Vec<String> = Vec::new();
    let mut i: usize = 0;
    while i < allowed_exts.len()
        invariant
            i <= allowed_exts.len(),
            out@.len() == i,
            forall|j: int| 0 <= j < i ==> #[trigger] out@[j]@ == trim_start(allowed_exts@[j]@, '.'),
        decreases allowed_exts.len() - i,
    {
        out.push(strip_dots(allowed_exts[i]));
        i += 1;
    }
    assert(strings(out@) =~= without_dots(strs(allowed_exts@)));
    out
}

/// The filter that an optional extension stands for.
pub fn ext_filter(extension: Option<&str>) -> (out: Vec<String>)
    ensures
        strings(out@) == ext_filter_of(extension),
{
    let mut out: Vec<String> = Vec::new();
    match extension {
        Some(e) => {
            out.push(strip_dots(e));
        },
        None => {},
    }
    assert(strings(out@) =~= ext_filter_of(extension));
    out
}

/// A filter for each of `exts` alone.
pub fn each_alone(exts: &Vec<String>) -> (out: Vec<Vec<String>>)
    ensures
        filter_views(out@) == one_by_one(strings(exts@)),
{
    let mut out: Vec<Vec<String>> = Vec::new();
    let mut i: usize = 0;
    while i < exts.len()
        invariant
            i <= exts.len(),
            out@.len() == i,
            forall|j: int| 0 <= j < i ==> strings(#[trigger] out@[j]@) == seq![exts@[j]@],
        decreases exts.len() - i,
    {
        let mut one: Vec<String> = Vec::new();
        one.push(exts[i].clone());
        assert(strings(one@) =~= seq![exts@[i as int]@]);
        out.push(one);
        i += 1;
    }
    assert(filter_views(out@) =~= one_by_one(strings(exts@)));
    out
}

fn push_job(plan: &mut Vec<Job>, job: Job)
    ensures
        job_views(final(plan)@) == job_views(old(plan)@).push(job@),
{
    plan.push(job);
    assert(job_views(plan@) =~= job_views(old(plan)@).push(job@));
}

fn make_fetch_job(
    kind: SourceKind,
    url: &str,
    dest_dir: &str,
    allowed: &Vec<String>,
    timeout_secs: Option<u64>,
) -> (job: Job)
    ensures
        job@ == fetch_job(kind, url@, dest_dir@, strings(allowed@), timeout_secs),
{
    match kind {
        SourceKind::Repo => Job::Clone {
            url: String::from_str(url),
            dest_dir: String::from_str(dest_dir),
            allowed: clone_strings(allowed),
            timeout_secs,
        },
        SourceKind::Page => Job::Download {
            url: String::from_str(url),
            dest_dir: String::from_str(dest_dir),
            allowed: clone_strings(allowed),
        },
    }
}

/// Appends the jobs for one source to `plan`.
fn push_source_jobs(
    plan: &mut Vec<Job>,
    kind: SourceKind,
    url: &str,
    position: usize,
    total: usize,
    dest_dir: &str,
    filters: &Vec<Vec<String>>,
    timeout_secs: Option<u64>,
    style: ReportStyle,
)
    ensures
        job_views(final(plan)@) == job_views(old(plan)@) + source_jobs(
            kind,
            url@,
            position as nat,
            total as nat,
            dest_dir@,
            filter_views(filters@),
            timeout_secs,
            style,
        ),
{
    let ghost before = job_views(plan@);
    let ghost fs = filter_views(filters@);
    let ghost fetches = Seq::new(
        fs.len(),
        |i: int| fetch_job(kind, url@, dest_dir@, fs[i], timeout_secs),
    );
    if style == ReportStyle::Announce {
        push_job(
            plan,
            Job::Report { current: position, total, label: Some(String::from_str(url)) },
        );
    }
    let ghost mid = job_views(plan@);
    let mut i: usize = 0;
    while i < filters.len()
        invariant
            i <= filters.len(),
            fs == filter_views(filters@),
            fetches == Seq::new(
                fs.len(),
                |i: int| fetch_job(kind, url@, dest_dir@, fs[i], timeout_secs),
            ),
            job_views(plan@) == mid + fetches.take(i as int),
        decreases filters.len() - i,
    {
        let job = make_fetch_job(kind, url, dest_dir, &filters[i], timeout_secs);
        assert(job@ == fetches[i as int]);
        assert(fetches.take(i + 1) == fetches.take(i as int).push(fetches[i as int]));
        push_job(plan, job);
        i += 1;
    }
    assert(fetches.take(filters.len() as int) == fetches);
    if style == ReportStyle::Count {
        push_job(plan, Job::Report { current: position, total, label: None });
    }
    assert(job_views(plan@) =~= before + source_jobs(
        kind,
        url@,
        position as nat,
        total as nat,
        dest_dir@,
        fs,
        timeout_secs,
        style,
    ));
}

/// Appends the jobs for the sources `urls` to `plan`.
fn push_sources_jobs(
    plan: &mut Vec<Job>,
    kind: SourceKind,
    urls: &[&str],
    done: usize,
    total: usize,
    dest_dir: &str,
    filters: &Vec<Vec<String>>,
    timeout_secs: Option<u64>,
    style: ReportStyle,
)
    requires
        done + urls.len() <= usize::MAX,
    ensures
        job_views(final(plan)@) == job_views(old(plan)@) + sources_jobs(
            kind,
            strs(urls@),
            done as nat,
            total as nat,
            dest_dir@,
            filter_views(filters@),
            timeout_secs,
            style,
        ),
{
    let ghost before = job_views(plan@);
    let ghost all = strs(urls@);
    let ghost fs = filter_views(filters@);
    let mut i: usize = 0;
    assert(job_views(plan@) =~= before + sources_jobs(
        kind,
        all.take(0),
        done as nat,
        total as nat,
        dest_dir@,
        fs,
        timeout_secs,
        style,
    ));
    while i < urls.len()
        invariant
            i <= urls.len(),
            done + urls.len() <= usize::MAX,
            all == strs(urls@),
            fs == filter_views(filters@),
            job_views(plan@) == before + sources_jobs(
                kind,
                all.take(i as int),
                done as nat,
                total as nat,
                dest_dir@,
                fs,
                timeout_secs,
                style,
            ),
        decreases urls.len() - i,
    {
        proof {
            assert(all.take(i + 1).drop_last() == all.take(i as int));
            assert(all.take(i + 1).last() == urls@[i as int]@);
        }
        let ghost so_far = job_views(plan@);
        push_source_jobs(
            plan,
            kind,
            urls[i],
            done + i + 1,
            total,
            dest_dir,
            filters,
            timeout_secs,
            style,
        );
        assert(job_views(plan@) =~= before + sources_jobs(
            kind,
            all.take(i + 1),
            done as nat,
            total as nat,
            dest_dir@,
            fs,
            timeout_secs,
            style,
        ));
        i += 1;
    }
    assert(all.take(urls.len() as int) == all);
}

/// Lays out a run over `repos` and `pages`: for every source one fetch under
/// each filter, and a report in the given style.
pub fn plan_run(
    repos: &[&str],
    pages: &[&str],
    dest_dir: &str,
    repo_filters: &Vec<Vec<String>>,
    page_filters: &Vec<Vec<String>>,
    timeout_secs: Option<u64>,
    style: ReportStyle,
) -> (plan: Vec<Job>)
    requires
        repos@.len() + pages@.len() <= usize::MAX,
    ensures
        job_views(plan@) == plan_of(
            strs(repos@),
            strs(pages@),
            dest_dir@,
            filter_views(repo_filters@),
            filter_views(page_filters@),
            timeout_secs,
            style,
        ),
{
    let total = repos.len() + pages.len();
    let mut plan: Vec<Job> = Vec::new();
    assert(job_views(plan@) =~= Seq::<JobView>::empty());
    push_sources_jobs(
        &mut plan,
        SourceKind::Repo,
        repos,
        0,
        total,
        dest_dir,
        repo_filters,
        timeout_secs,
        style,
    );
    push_sources_jobs(
        &mut plan,
        SourceKind::Page,
        pages,
        repos.len(),
        total,
        dest_dir,
        page_filters,
        None,
        style,
    );
    assert(job_views(plan@) =~= plan_of(
        strs(repos@),
        strs(pages@),
        dest_dir@,
        filter_views(repo_filters@),
        filter_views(page_filters@),
        timeout_secs,
        style,
    ));
    plan
}

/// The job that clones `repo_url` and copies into `output_path` the files
/// with the given extension, or all files where none is given. The extension
/// may be written with or without its dot.
pub fn download_and_extract_git_repo(
    repo_url: &str,
    output_path: &str,
    extension: Option<&str>,
) -> (job: Job)
    ensures
        job@ == (JobView::Clone {
            url: repo_url@,
            dest_dir: output_path@,
            allowed: ext_filter_of(extension),
            timeout_secs: None,
        }),
{
    Job::Clone {
        url: String::from_str(repo_url),
        dest_dir: String::from_str(output_path),
        allowed: ext_filter(extension),
        timeout_secs: None,
    }
}

/// The jobs that fetch each of `urls` into `output_path`, in order, under the
/// filter that `extension_filter` stands for.
pub fn download_files_with_progress(
    urls: &[&str],
    output_path: &str,
    _label: &str,
    extension_filter: Option<&str>,
) -> (jobs: Vec<Job>)
    ensures
        job_views(jobs@) == Seq::new(
            urls@.len(),
            |i: int|
                JobView::Download {
                    url: urls@[i]@,
                    dest_dir: output_path@,
                    allowed: ext_filter_of(extension_filter),
                },
        ),
{
    let allowed = ext_filter(extension_filter);
    let mut jobs: Vec<Job> = Vec::new();
    let mut i: usize = 0;
    while i < urls.len()
        invariant
            i <= urls.len(),
            strings(allowed@) == ext_filter_of(extension_filter),
            jobs@.len() == i,
            forall|j: int|
                0 <= j < i ==> #[trigger] jobs@[j]@ == (JobView::Download {
                    url: urls@[j]@,
                    dest_dir: output_path@,
                    allowed: ext_filter_of(extension_filter),
                }),
        decreases urls.len() - i,
    {
        jobs.push(
            Job::Download {
                url: String::from_str(urls[i]),
                dest_dir: String::from_str(output_path),
                allowed: clone_strings(&allowed),
            },
        );
        i += 1;
    }
    assert(job_views(jobs@) =~= Seq::new(
        urls@.len(),
        |i: int|
            JobView::Download {
                url: urls@[i]@,
                dest_dir: output_path@,
                allowed: ext_filter_of(extension_filter),
            },
    ));
    jobs
}

/// Lays out the run that is common to all rule sets.
///
/// Each repository is announced, then cloned and searched for files of any
/// of the extensions, within `repo_timeout_secs` seconds where a limit is
/// given. Each direct URL is announced, then fetched once if its file has
/// any of the extensions. With no extension listed every file is wanted,
/// from repositories and from direct URLs alike. The extensions may be
/// written with or without their dot.
pub fn process_sources(
    repos: &[&str],
    pages: &[&str],
    allowed_exts: &[&str],
    dest_dir: &str,
    repo_timeout_secs: Option<u64>,
) -> (plan: Vec<Job>)
    requires
        repos@.len() + pages@.len() <= usize::MAX,
    ensures
        job_views(plan@) == plan_of(
            strs(repos@),
            strs(pages@),
            dest_dir@,
            seq![without_dots(strs(allowed_exts@))],
            seq![without_dots(strs(allowed_exts@))],
            repo_timeout_secs,
            ReportStyle::Announce,
        ),
{
    let exts = strip_all(allowed_exts);
    let mut filters: Vec<Vec<String>> = Vec::new();
    filters.push(exts);
    assert(filter_views(filters@) =~= seq![without_dots(strs(allowed_exts@))]);
    plan_run(repos, pages, dest_dir, &filters, &filters, repo_timeout_secs, ReportStyle::Announce)
}

/// Under one filter for all fetches, a source that is announced has two
/// jobs: its announcement, and one fetch under that filter. So in the run that
/// is common to all rule sets a direct URL is fetched once, under the whole
/// list of extensions, and under the empty list where none is given.
pub proof fn lemma_one_fetch_per_source(
    kind: SourceKind,
    url: Seq<char>,
    position: nat,
    total: nat,
    dest_dir: Seq<char>,
    allowed: Seq<Seq<char>>,
    timeout_secs: Option<u64>,
)
    ensures
        source_jobs(
            kind,
            url,
            position,
            total,
            dest_dir,
            seq![allowed],
            timeout_secs,
            ReportStyle::Announce,
        ) == seq![
            JobView::Report { current: position, total, label: Some(url) },
            fetch_job(kind, url, dest_dir, allowed, timeout_secs),
        ],
{
    assert(source_jobs(
        kind,
        url,
        position,
        total,
        dest_dir,
        seq![allowed],
        timeout_secs,
        ReportStyle::Announce,
    ) =~= seq![
        JobView::Report { current: position, total, label: Some(url) },
        fetch_job(kind, url, dest_dir, allowed, timeout_secs),
    ]);
}

/// Lays out a run in which every source is tried once for each of
/// `extensions` on its own, repositories and direct URLs alike.
pub fn plan_by_extension(
    repos: &[&str],
    pages: &[&str],
    dest_dir: &str,
    extensions: &[&str],
    style: ReportStyle,
) -> (plan: Vec<Job>)
    requires
        repos@.len() + pages@.len() <= usize::MAX,
    ensures
        job_views(plan@) == plan_of(
            strs(repos@),
            strs(pages@),
            dest_dir@,
            one_by_one(without_dots(strs(extensions@))),
            one_by_one(without_dots(strs(extensions@))),
            None,
            style,
        ),
{
    let exts = strip_all(extensions);
    let filters = each_alone(&exts);
    plan_run(repos, pages, dest_dir, &filters, &filters, None, style)
}

/// The tracker once a report has been marked in it, `open` saying whether a
/// source has been announced and not counted yet. An announcement counts the
/// source that was open before it and names the new one; a count counts one
/// source.
pub open spec fn marked(p: ProgressView, label: Option<&str>, open: bool) -> ProgressView {
    match label {
        Some(l) => begun(
            if open {
                advanced(p)
            } else {
                p
            },
            l@,
        ),
        None => advanced(p),
    }
}

/// Marks the report of a job list in a tracker that its run shares with
/// others, and says whether a source is open after it.
pub fn mark_report(progress: &mut ProgressState, label: Option<&str>, open: bool) -> (now_open:
    bool)
    ensures
        final(progress)@ == marked(old(progress)@, label, open),
        now_open == label is Some,
{
    match label {
        Some(l) => {
            if open {
                progress.complete_item();
            }
            progress.begin_item(l);
            true
        },
        None => {
            progress.complete_item();
            false
        },
    }
}

/// Marks the end of a job list: a source that is still open is counted, and
/// the label is cleared.
pub fn mark_end(progress: &mut ProgressState, open: bool)
    ensures
        final(progress)@ == finished(
            if open {
                advanced(old(progress)@)
            } else {
                old(progress)@
            },
        ),
{
    if open {
        progress.complete_item();
    }
    progress.finish();
}

/// How many of `jobs` are reports.
pub open spec fn report_count(jobs: Seq<JobView>) -> nat
    decreases jobs.len(),
{
    if jobs.len() == 0 {
        0
    } else {
        report_count(jobs.drop_last()) + if jobs.last() is Report {
            1nat
        } else {
            0nat
        }
    }
}

/// The reports of two lists in a row are those of the one and those of the
/// other.
pub proof fn lemma_report_count_adds(a: Seq<JobView>, b: Seq<JobView>)
    ensures
        report_count(a + b) == report_count(a) + report_count(b),
    decreases b.len(),
{
    if b.len() == 0 {
        assert(a + b =~= a);
    } else {
        lemma_report_count_adds(a, b.drop_last());
        assert((a + b).drop_last() =~= a + b.drop_last());
        assert((a + b).last() == b.last());
    }
}

/// Fetch jobs are no reports.
proof fn lemma_fetches_report_nothing(
    kind: SourceKind,
    url: Seq<char>,
    dest_dir: Seq<char>,
    filters: Seq<Seq<Seq<char>>>,
    timeout_secs: Option<u64>,
    n: nat,
)
    requires
        n <= filters.len(),
    ensures
        report_count(
            Seq::new(n, |i: int| fetch_job(kind, url, dest_dir, filters[i], timeout_secs)),
        ) == 0,
    decreases n,
{
    let fetches = Seq::new(n, |i: int| fetch_job(kind, url, dest_dir, filters[i], timeout_secs));
    if n > 0 {
        lemma_fetches_report_nothing(kind, url, dest_dir, filters, timeout_secs, (n - 1) as nat);
        assert(fetches.drop_last() =~= Seq::new(
            (n - 1) as nat,
            |i: int| fetch_job(kind, url, dest_dir, filters[i], timeout_secs),
        ));
    }
}

/// The jobs for sources hold one report for each source.
proof fn lemma_sources_report_once(
    kind: SourceKind,
    urls: Seq<Seq<char>>,
    done: nat,
    total: nat,
    dest_dir: Seq<char>,
    filters: Seq<Seq<Seq<char>>>,
    timeout_secs: Option<u64>,
    style: ReportStyle,
)
    ensures
        report_count(
            sources_jobs(kind, urls, done, total, dest_dir, filters, timeout_secs, style),
        ) == urls.len(),
    decreases urls.len(),
{
    if urls.len() > 0 {
        lemma_sources_report_once(
            kind,
            urls.drop_last(),
            done,
            total,
            dest_dir,
            filters,
            timeout_secs,
            style,
        );
        let before = sources_jobs(
            kind,
            urls.drop_last(),
            done,
            total,
            dest_dir,
            filters,
            timeout_secs,
            style,
        );
        let fetches = Seq::new(
            filters.len(),
            |i: int| fetch_job(kind, urls.last(), dest_dir, filters[i], timeout_secs),
        );
        lemma_fetches_report_nothing(
            kind,
            urls.last(),
            dest_dir,
            filters,
            timeout_secs,
            filters.len(),
        );
        let position = done + urls.len();
        let announce = seq![JobView::Report { current: position, total, label: Some(urls.last()) }];
        let count = seq![JobView::Report { current: position, total, label: None }];
        assert(report_count(announce) == 1) by {
            assert(announce.drop_last() =~= Seq::<JobView>::empty());
            assert(report_count(announce.drop_last()) == 0);
            assert(announce.last() is Report);
        }
        assert(report_count(count) == 1) by {
            assert(count.drop_last() =~= Seq::<JobView>::empty());
            assert(report_count(count.drop_last()) == 0);
            assert(count.last() is Report);
        }
        lemma_report_count_adds(announce, fetches);
        lemma_report_count_adds(fetches, count);
        lemma_report_count_adds(
            before,
            source_jobs(
                kind,
                urls.last(),
                position,
                total,
                dest_dir,
                filters,
                timeout_secs,
                style,
            ),
        );
    }
}

/// A laid-out run reports on every source once, whatever the filters and
/// however the source is fetched: its jobs hold as many reports as there are
/// repositories and direct URLs together.
pub proof fn lemma_plan_reports_every_source(
    repos: Seq<Seq<char>>,
    pages: Seq<Seq<char>>,
    dest_dir: Seq<char>,
    repo_filters: Seq<Seq<Seq<char>>>,
    page_filters: Seq<Seq<Seq<char>>>,
    timeout_secs: Option<u64>,
    style: ReportStyle,
)
    ensures
        report_count(
            plan_of(repos, pages, dest_dir, repo_filters, page_filters, timeout_secs, style),
        ) == repos.len() + pages.len(),
{
    let total = repos.len() + pages.len();
    lemma_sources_report_once(
        SourceKind::Repo,
        repos,
        0,
        total,
        dest_dir,
        repo_filters,
        timeout_secs,
        style,
    );
    lemma_sources_report_once(
        SourceKind::Page,
        pages,
        repos.len(),
        total,
        dest_dir,
        page_filters,
        None,
        style,
    );
    lemma_report_count_adds(
        sources_jobs(
            SourceKind::Repo,
            repos,
            0,
            total,
            dest_dir,
            repo_filters,
            timeout_secs,
            style,
        ),
        sources_jobs(
            SourceKind::Page,
            pages,
            repos.len(),
            total,
            dest_dir,
            page_filters,
            None,
            style,
        ),
    );
}

/// Whether the job at place `i` is the first job of a source: the first job
/// of the list, an announcement, or the job after a count.
pub open spec fn begins_source(jobs: Seq<JobView>, i: int) -> bool {
    &&& 0 <= i < jobs.len()
    &&& {
        ||| i == 0
        ||| jobs[i] matches JobView::Report { label: Some(_), .. }
        ||| jobs[i - 1] matches JobView::Report { label: None, .. }
    }
}

/// Says whether the job at place `i` is the first job of a source. It is
/// before such a job that a run looks at its cancel flag: a source that has
/// been taken up is gone through to its end.
pub fn starts_source(jobs: &Vec<Job>, i: usize) -> (first: bool)
    ensures
        first == begins_source(job_views(jobs@), i as int),
{
    if i >= jobs.len() {
        return false;
    }
    if i == 0 {
        return true;
    }
    let announced = match &jobs[i] {
        Job::Report { label: Some(_), .. } => true,
        _ => false,
    };
    let after_count = match &jobs[i - 1] {
        Job::Report { label: None, .. } => true,
        _ => false,
    };
    announced || after_count
}

} // verus!
