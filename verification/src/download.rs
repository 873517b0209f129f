//! A run over the sources of one tool: repositories first, then direct URLs,
//! each in the order of the catalog.

use vstd::prelude::*;
use crate::fetch::FetchError;
use crate::progress::{advanced, begun, finished, ProgressState, ProgressView};
use crate::text::strs;

verus! {

/// The format in which indicator lists are gathered.
#[derive(Clone, Copy, Debug, PartialEq, Eq, Structural)]
pub enum DownloadFormat {
    Txt,
    Csv,
}

/// The sources of one tool and where their files go.
#[derive(Clone, Debug, PartialEq, Eq)]
pub struct ToolSpec {
    pub name: &'static str,
    /// The folder below the output root that takes the tool's files.
    pub dest_subfolder: &'static str,
    /// Repositories to clone.
    pub repo_urls: Vec<&'static str>,
    /// Files to fetch by URL.
    pub page_urls: Vec<&'static str>,
    /// The extensions wanted, without their dot; none listed means all.
    pub allowed_exts: Vec<&'static str>,
}

pub struct ToolSpecView {
    pub name: Seq<char>,
    pub dest_subfolder: Seq<char>,
    pub repo_urls: Seq<Seq<char>>,
    pub page_urls: Seq<Seq<char>>,
    pub allowed_exts: Seq<Seq<char>>,
}

impl View for ToolSpec {
    type V = ToolSpecView;

    open spec fn view(&self) -> ToolSpecView {
        ToolSpecView {
            name: self.name@,
            dest_subfolder: self.dest_subfolder@,
            repo_urls: strs(self.repo_urls@),
            page_urls: strs(self.page_urls@),
            allowed_exts: strs(self.allowed_exts@),
        }
    }
}

impl ToolSpecView {
    /// The number of sources: repositories and direct URLs together.
    pub open spec fn total(self) -> nat {
        self.repo_urls.len() + self.page_urls.len()
    }

    /// The source that is taken up as the `i`-th.
    pub open spec fn step(self, i: int) -> StepView {
        if i < self.repo_urls.len() {
            StepView::CloneRepo(self.repo_urls[i])
        } else {
            StepView::FetchPage(self.page_urls[i - self.repo_urls.len()])
        }
    }

    /// The URL of that source.
    pub open spec fn label(self, i: int) -> Seq<char> {
        if i < self.repo_urls.len() {
            self.repo_urls[i]
        } else {
            self.page_urls[i - self.repo_urls.len()]
        }
    }
}

impl ToolSpec {
    /// The number of sources of the tool.
    pub fn total_sources(&self) -> (n: usize)
        requires
            self@.total() <= usize::MAX,
        ensures
            n == self@.total(),
    {
        self.repo_urls.len() + self.page_urls.len()
    }

    /// The tracker of a run over this tool alone, as the run begins: nothing
    /// is done, the total is the number of the tool's repositories and
    /// direct URLs together, and no source is at work.
    pub fn fresh_progress(&self) -> (progress: ProgressState)
        requires
            self@.total() <= usize::MAX,
        ensures
            progress@ == (ProgressView {
                completed: 0,
                total: self@.repo_urls.len() + self@.page_urls.len(),
                label: Seq::empty(),
            }),
    {
        ProgressState::new(self.total_sources())
    }
}

/// What a run does next.
#[derive(Clone, Copy, Debug, PartialEq, Eq)]
pub enum RunStep {
    /// Clone the repository and copy the wanted files out of it.
    CloneRepo(&'static str),
    /// Fetch the file behind the URL.
    FetchPage(&'static str),
    /// Nothing: no further source is started.
    Done,
}

pub enum StepView {
    CloneRepo(Seq<char>),
    FetchPage(Seq<char>),
    Done,
}

impl View for RunStep {
    type V = StepView;

    open spec fn view(&self) -> StepView {
        match self {
            RunStep::CloneRepo(url) => StepView::CloneRepo(url@),
            RunStep::FetchPage(url) => StepView::FetchPage(url@),
            RunStep::Done => StepView::Done,
        }
    }
}

/// Where a run stands.
#[derive(Clone, Copy, Debug, PartialEq, Eq, Structural)]
pub enum RunPhase {
    /// Between two sources.
    Idle,
    /// A source is at work.
    Busy,
    /// No further source will be started.
    Finished,
}

/// A run over the sources of one tool.
#[derive(Debug)]
pub struct ToolRun {
    spec: ToolSpec,
    repo_timeout_secs: Option<u64>,
    next: usize,
    phase: RunPhase,
}

pub struct RunView {
    pub spec: ToolSpecView,
    /// The seconds a clone may take, where a limit is set.
    pub repo_timeout_secs: Option<u64>,
    /// How many sources have been gone through.
    pub next: nat,
    pub phase: RunPhase,
}

impl RunView {
    /// The run of `spec` before its first source.
    pub open spec fn fresh(spec: ToolSpecView, repo_timeout_secs: Option<u64>) -> RunView {
        RunView { spec, repo_timeout_secs, next: 0, phase: RunPhase::Idle }
    }

    /// Whether a further source is started: the run is between two sources,
    /// one is left, and the run has not been cancelled.
    pub open spec fn starts(self, cancelled: bool) -> bool {
        self.phase == RunPhase::Idle && !cancelled && self.next < self.spec.total()
    }

    /// The run after it was asked for its next step.
    pub open spec fn begin(self, cancelled: bool) -> RunView {
        match self.phase {
            RunPhase::Idle => if self.starts(cancelled) {
                RunView { phase: RunPhase::Busy, ..self }
            } else {
                RunView { phase: RunPhase::Finished, ..self }
            },
            _ => self,
        }
    }

    /// The step it answered with: the next source where one is started, the
    /// source at work where one is, and `Done` otherwise.
    pub open spec fn begin_step(self, cancelled: bool) -> StepView {
        match self.phase {
            RunPhase::Idle => if self.starts(cancelled) {
                self.spec.step(self.next as int)
            } else {
                StepView::Done
            },
            RunPhase::Busy => self.spec.step(self.next as int),
            RunPhase::Finished => StepView::Done,
        }
    }

    /// The progress after that: a source that is started gives its URL as the
    /// label, and a run that ends clears the label.
    pub open spec fn begin_progress(self, cancelled: bool, p: ProgressView) -> ProgressView {
        match self.phase {
            RunPhase::Idle => if self.starts(cancelled) {
                begun(p, self.spec.label(self.next as int))
            } else {
                finished(p)
            },
            _ => p,
        }
    }

    /// The run after the source at work was reported as gone through.
    pub open spec fn complete(self) -> RunView {
        match self.phase {
            RunPhase::Busy => RunView { phase: RunPhase::Idle, next: self.next + 1, ..self },
            _ => self,
        }
    }

    /// The progress after that: one more source is counted, however it ended.
    pub open spec fn complete_progress(self, p: ProgressView) -> ProgressView {
        match self.phase {
            RunPhase::Busy => advanced(p),
            _ => p,
        }
    }
}

impl View for ToolRun {
    type V = RunView;

    closed spec fn view(&self) -> RunView {
        RunView {
            spec: self.spec@,
            repo_timeout_secs: self.repo_timeout_secs,
            next: self.next as nat,
            phase: self.phase,
        }
    }
}

impl ToolRun {
    #[verifier::type_invariant]
    spec fn within(self) -> bool {
        &&& self.spec@.total() <= usize::MAX
        &&& self.next <= self.spec@.total()
        &&& self.phase == RunPhase::Busy ==> self.next < self.spec@.total()
    }

    /// The sources of the run.
    pub fn spec(&self) -> (spec: &ToolSpec)
        ensures
            spec@ == self@.spec,
    {
        &self.spec
    }

    /// The seconds a clone of this run may take, where a limit is set. A
    /// clone that takes longer fails, and its source counts as gone through.
    pub fn repo_timeout_secs(&self) -> (limit: Option<u64>)
        ensures
            limit == self@.repo_timeout_secs,
    {
        self.repo_timeout_secs
    }

    /// How many sources the run has gone through.
    pub fn started(&self) -> (n: usize)
        ensures
            n == self@.next,
            n <= self@.spec.total(),
    {
        proof {
            use_type_invariant(self);
        }
        self.next
    }

    pub fn phase(&self) -> (phase: RunPhase)
        ensures
            phase == self@.phase,
    {
        self.phase
    }

    /// Says what the run does next, and marks it in `progress`.
    ///
    /// Between two sources the cancel flag is looked at: with the flag set, or
    /// with no source left, the run ends, the label is cleared and the answer
    /// is `Done`. Otherwise the next source is started, repositories before
    /// direct URLs, each in catalog order, and its URL becomes the label.
    /// While a source is at work the answer is that source again, and once the
    /// run has ended it stays `Done`; neither touches `progress`.
    pub fn start_next(&mut self, cancelled: bool, progress: &mut ProgressState) -> (step: RunStep)
        ensures
            final(self)@ == old(self)@.begin(cancelled),
            step@ == old(self)@.begin_step(cancelled),
            final(progress)@ == old(self)@.begin_progress(cancelled, old(progress)@),
    {
        proof {
            use_type_invariant(&*self);
        }
        match self.phase {
            RunPhase::Idle => {
                let total = self.spec.repo_urls.len() + self.spec.page_urls.len();
                if cancelled || self.next >= total {
                    self.phase = RunPhase::Finished;
                    progress.finish();
                    RunStep::Done
                } else {
                    let step = self.current();
                    self.phase = RunPhase::Busy;
                    match step {
                        RunStep::CloneRepo(url) => progress.begin_item(url),
                        RunStep::FetchPage(url) => progress.begin_item(url),
                        RunStep::Done => {},
                    }
                    step
                }
            },
            RunPhase::Busy => self.current(),
            RunPhase::Finished => RunStep::Done,
        }
    }

    /// The source that is next in line.
    fn current(&self) -> (step: RunStep)
        requires
            self.next < self.spec@.total(),
        ensures
            step@ == self@.spec.step(self@.next as int),
            step@ is CloneRepo ==> step@->CloneRepo_0 == self@.spec.label(self@.next as int),
            step@ is FetchPage ==> step@->FetchPage_0 == self@.spec.label(self@.next as int),
            !(step@ is Done),
    {
        if self.next < self.spec.repo_urls.len() {
            RunStep::CloneRepo(self.spec.repo_urls[self.next])
        } else {
            RunStep::FetchPage(self.spec.page_urls[self.next - self.spec.repo_urls.len()])
        }
    }

    /// Takes the report that the source at work has been gone through, and
    /// counts it in `progress`: success, skip and failure count alike. Without
    /// a source at work nothing changes.
    pub fn item_done(&mut self, progress: &mut ProgressState)
        ensures
            final(self)@ == old(self)@.complete(),
            final(progress)@ == old(self)@.complete_progress(old(progress)@),
    {
        proof {
            use_type_invariant(&*self);
        }
        match self.phase {
            RunPhase::Busy => {
                self.phase = RunPhase::Idle;
                self.next = self.next + 1;
                progress.complete_item();
            },
            _ => {},
        }
    }
}

/// Opens the run over the sources of `spec`, once the host has tried to make
/// the tool's folder below the output root. Without that folder there is no
/// run: the failure is final for this tool and touches no other.
/// `repo_timeout_secs` is the time each clone of the run may take.
pub fn process_tool(spec: ToolSpec, dir_ready: bool, repo_timeout_secs: Option<u64>) -> (r: Result<
    ToolRun,
    FetchError,
>)
    requires
        spec@.total() <= usize::MAX,
    ensures
        dir_ready ==> r is Ok && r->Ok_0@ == RunView::fresh(spec@, repo_timeout_secs),
        !dir_ready ==> r == Err::<ToolRun, FetchError>(FetchError::DirectoryCreate),
{
    if dir_ready {
        Ok(ToolRun { spec, repo_timeout_secs, next: 0, phase: RunPhase::Idle })
    } else {
        Err(FetchError::DirectoryCreate)
    }
}

/// The number of sources of several tools together: the total of a tracker
/// that their runs share.
pub open spec fn total_of(specs: Seq<ToolSpecView>) -> nat
    decreases specs.len(),
{
    if specs.len() == 0 {
        0
    } else {
        total_of(specs.drop_last()) + specs.last().total()
    }
}

/// The views of a list of tool descriptions.
pub open spec fn spec_views(specs: Seq<ToolSpec>) -> Seq<ToolSpecView> {
    Seq::new(specs.len(), |i: int| specs[i]@)
}

/// Counts the sources of all of `specs`, for a tracker that their runs share.
pub fn total_work(specs: &[ToolSpec]) -> (n: usize)
    requires
        total_of(spec_views(specs@)) <= usize::MAX,
    ensures
        n == total_of(spec_views(specs@)),
{
    let ghost all = spec_views(specs@);
    let mut n: usize = 0;
    let mut i: usize = 0;
    assert(all.take(specs.len() as int) == all);
    while i < specs.len()
        invariant
            i <= specs.len(),
            all == spec_views(specs@),
            n == total_of(all.take(i as int)),
            total_of(all.take(specs.len() as int)) <= usize::MAX,
        decreases specs.len() - i,
    {
        let spec = &specs[i];
        proof {
            assert(all.take(i + 1).drop_last() == all.take(i as int));
            assert(all.take(i + 1).last() == spec@);
            assert(total_of(all.take(i + 1)) == n + spec@.total());
            assert(all.take(specs.len() as int) == all);
            lemma_total_of_grows(all, i + 1);
        }
        n = n + spec.repo_urls.len() + spec.page_urls.len();
        i += 1;
    }
    n
}

/// The sources of the first `k` tools are among the sources of all.
pub proof fn lemma_total_of_grows(specs: Seq<ToolSpecView>, k: int)
    requires
        0 <= k <= specs.len(),
    ensures
        total_of(specs.take(k)) <= total_of(specs),
    decreases specs.len(),
{
    if k < specs.len() {
        assert(specs.drop_last().take(k) == specs.take(k));
        lemma_total_of_grows(specs.drop_last(), k);
    } else {
        assert(specs.take(k) == specs);
    }
}

/// The run and its progress after `k` further sources were started and gone
/// through, the cancel flag staying unset.
pub open spec fn after_sources(run: RunView, p: ProgressView, k: nat) -> (RunView, ProgressView)
    decreases k,
{
    if k == 0 {
        (run, p)
    } else {
        let (r, q) = after_sources(run, p, (k - 1) as nat);
        let begun_run = r.begin(false);
        (begun_run.complete(), begun_run.complete_progress(r.begin_progress(false, q)))
    }
}

/// Every source counts once. A run that is not cancelled takes its sources in
/// order, and with each one gone through, whatever came of it, `completed`
/// rises by exactly one; `total` stays as it was set when the run began. This
/// holds on a tracker of the run's own and on one shared with other runs, as
/// long as the tracker has room for the run's sources.
pub proof fn lemma_every_source_counts(
    spec: ToolSpecView,
    limit: Option<u64>,
    p: ProgressView,
    k: nat,
)
    requires
        k <= spec.total(),
        p.completed + spec.total() <= p.total,
    ensures
        after_sources(RunView::fresh(spec, limit), p, k).0 == (RunView {
            spec,
            repo_timeout_secs: limit,
            next: k,
            phase: RunPhase::Idle,
        }),
        after_sources(RunView::fresh(spec, limit), p, k).1.completed == p.completed + k,
        after_sources(RunView::fresh(spec, limit), p, k).1.total == p.total,
        k > 0 ==> after_sources(RunView::fresh(spec, limit), p, k).1.label == spec.label(k - 1),
        k < spec.total() ==> after_sources(RunView::fresh(spec, limit), p, k).0.begin_step(false)
            == spec.step(k as int),
    decreases k,
{
    if k > 0 {
        lemma_every_source_counts(spec, limit, p, (k - 1) as nat);
    }
}

/// A run on a tracker of its own ends with `completed == total`, the total
/// being the number of its repositories and direct URLs together, and with an
/// empty label; after that it starts nothing.
pub proof fn lemma_run_completes(spec: ToolSpecView, limit: Option<u64>)
    ensures
        ({
            let fresh = ProgressView { completed: 0, total: spec.total(), label: Seq::empty() };
            let (run, p) = after_sources(RunView::fresh(spec, limit), fresh, spec.total());
            &&& run.begin_step(false) == StepView::Done
            &&& run.begin(false).phase == RunPhase::Finished
            &&& run.begin_progress(false, p) == (ProgressView {
                completed: spec.total(),
                total: spec.total(),
                label: Seq::empty(),
            })
        }),
{
    let fresh = ProgressView { completed: 0, total: spec.total(), label: Seq::empty() };
    lemma_every_source_counts(spec, limit, fresh, spec.total());
}

/// Cancelling is final. A cancelled run that stands between two sources ends
/// without starting another, and a run that has ended starts nothing and
/// counts nothing, whatever the flag says later.
pub proof fn lemma_cancel_stops(run: RunView, p: ProgressView, later: bool)
    requires
        run.phase != RunPhase::Busy,
    ensures
        run.begin(true).phase == RunPhase::Finished,
        run.begin_step(true) == StepView::Done,
        run.begin_progress(true, p).completed == p.completed,
        run.begin(true).begin(later) == run.begin(true),
        run.begin(true).begin_step(later) == StepView::Done,
        run.begin(true).complete() == run.begin(true),
        run.begin(true).complete_progress(p) == p,
{
}

} // verus!
