//! Fetching one file: the steps from a source to a file in the destination
//! folder, and what each report of the host leads to.
//!
//! The host does the work (the GET, the look at the folder, the question to the
//! user, the write) and reports what came of it; a [`Fetch`] says what is to be
//! done next. A failure ends the fetch of that one file and nothing else.

use vstd::prelude::*;
use crate::filter::{admits, ext_allowed};
use crate::naming::{last_segment, unique_name, unique_name_of, url_file_name};
use crate::overwrite::{proceeds, standing_of, OverwriteAction, OverwritePolicy, PolicyState};
use crate::staging::{
    apply_first, effects_from, failed_write, lemma_failed_write_leaves_nothing,
    lemma_interrupted_write_is_safe, lemma_steps_make_the_failed_write,
    lemma_steps_make_the_staged_write, lemma_write_round_trip, staged_write, Course, Disk,
    WriteStepView,
};
use crate::text::strs;

verus! {

/// Why a fetch failed.
#[derive(Clone, Copy, Debug, PartialEq, Eq, Structural)]
pub enum FetchError {
    /// The destination folder could not be made.
    DirectoryCreate,
    /// The repository could not be cloned.
    Clone,
    /// The clone took longer than the time allowed.
    CloneTimeout,
    /// The request did not reach the server.
    HttpTransport,
    /// The server answered with a status outside 200..=299.
    HttpStatus(u16),
    /// The body of the answer could not be read.
    ReadBody,
    /// The file could not be written.
    Write,
}

/// Why nothing was written although nothing failed.
#[derive(Clone, Copy, Debug, PartialEq, Eq, Structural)]
pub enum SkipReason {
    /// The file's extension is not wanted.
    Filtered,
    /// The file exists already and is to stay.
    Overwrite,
}

/// How the fetch of one file ended.
#[derive(Clone, Debug, PartialEq, Eq)]
pub enum FetchOutcome {
    /// The file was written under this name.
    Written(String),
    Skipped(SkipReason),
    Failed(FetchError),
}

pub enum OutcomeView {
    Written(Seq<char>),
    Skipped(SkipReason),
    Failed(FetchError),
}

impl View for FetchOutcome {
    type V = OutcomeView;

    open spec fn view(&self) -> OutcomeView {
        match self {
            FetchOutcome::Written(name) => OutcomeView::Written(name@),
            FetchOutcome::Skipped(reason) => OutcomeView::Skipped(*reason),
            FetchOutcome::Failed(error) => OutcomeView::Failed(*error),
        }
    }
}

/// What a GET came to.
#[derive(Clone, Copy, Debug, PartialEq, Eq, Structural)]
pub enum HttpReply {
    /// No answer arrived.
    Unreachable,
    /// An answer arrived; `body_read` says whether its body could be read.
    Answered { status: u16, body_read: bool },
}

/// What a clone came to.
#[derive(Clone, Copy, Debug, PartialEq, Eq, Structural)]
pub enum CloneReport {
    Cloned,
    Failed,
    TimedOut,
}

/// A status that stands for success.
pub open spec fn is_success(status: u16) -> bool {
    200 <= status <= 299
}

/// What is to be done next for one file. The name is that of the file within
/// the destination folder.
#[derive(Clone, Debug, PartialEq, Eq)]
pub enum Fetch {
    /// Issue the GET.
    Get { name: String },
    /// Look whether the file exists already.
    Check { name: String },
    /// Ask the user whether the file may be replaced.
    Ask { name: String },
    /// Write the content: stage it, then move it into place.
    Write { name: String },
    /// Nothing: the fetch has ended.
    Done(FetchOutcome),
}

pub enum FetchView {
    Get(Seq<char>),
    Check(Seq<char>),
    Ask(Seq<char>),
    Write(Seq<char>),
    Done(OutcomeView),
}

impl View for Fetch {
    type V = FetchView;

    open spec fn view(&self) -> FetchView {
        match self {
            Fetch::Get { name } => FetchView::Get(name@),
            Fetch::Check { name } => FetchView::Check(name@),
            Fetch::Ask { name } => FetchView::Ask(name@),
            Fetch::Write { name } => FetchView::Write(name@),
            Fetch::Done(outcome) => FetchView::Done(outcome@),
        }
    }
}

/// The first step for a direct URL: a file that is not wanted is skipped
/// before anything is requested.
pub open spec fn direct_start(url: Seq<char>, allowed: Seq<Seq<char>>) -> FetchView {
    if admits(last_segment(url), allowed) {
        FetchView::Get(last_segment(url))
    } else {
        FetchView::Done(OutcomeView::Skipped(SkipReason::Filtered))
    }
}

/// The first step for a file found in a clone whose top directory is `repo_top`.
pub open spec fn copy_start(
    repo_top: Seq<char>,
    file_name: Seq<char>,
    allowed: Seq<Seq<char>>,
) -> FetchView {
    if admits(file_name, allowed) {
        FetchView::Check(unique_name_of(repo_top, file_name))
    } else {
        FetchView::Done(OutcomeView::Skipped(SkipReason::Filtered))
    }
}

/// The step after the GET was reported. Any other step stays as it is.
pub open spec fn after_reply(fetch: FetchView, reply: HttpReply) -> FetchView {
    match fetch {
        FetchView::Get(name) => match reply {
            HttpReply::Unreachable => FetchView::Done(
                OutcomeView::Failed(FetchError::HttpTransport),
            ),
            HttpReply::Answered { status, body_read } => if !is_success(status) {
                FetchView::Done(OutcomeView::Failed(FetchError::HttpStatus(status)))
            } else if !body_read {
                FetchView::Done(OutcomeView::Failed(FetchError::ReadBody))
            } else {
                FetchView::Check(name)
            },
        },
        _ => fetch,
    }
}

/// The step after the look at the folder. A file that is not there is written;
/// one that is there goes by the arbiter's standing, and to the user where
/// there is none.
pub open spec fn after_check(fetch: FetchView, exists: bool, state: PolicyState) -> FetchView {
    match fetch {
        FetchView::Check(name) => if !exists {
            FetchView::Write(name)
        } else {
            match standing_of(state) {
                Some(true) => FetchView::Write(name),
                Some(false) => FetchView::Done(OutcomeView::Skipped(SkipReason::Overwrite)),
                None => FetchView::Ask(name),
            }
        },
        _ => fetch,
    }
}

/// The step after the user's decision.
pub open spec fn after_answer(
    fetch: FetchView,
    action: OverwriteAction,
    state: PolicyState,
) -> FetchView {
    match fetch {
        FetchView::Ask(name) => if proceeds(state, action) {
            FetchView::Write(name)
        } else {
            FetchView::Done(OutcomeView::Skipped(SkipReason::Overwrite))
        },
        _ => fetch,
    }
}

/// The step after the write was reported.
pub open spec fn after_write(fetch: FetchView, written: bool) -> FetchView {
    match fetch {
        FetchView::Write(name) => if written {
            FetchView::Done(OutcomeView::Written(name))
        } else {
            FetchView::Done(OutcomeView::Failed(FetchError::Write))
        },
        _ => fetch,
    }
}

/// What a clone report means for its source: only a finished clone is walked.
pub fn judge_clone(report: CloneReport) -> (r: Result<(), FetchError>)
    ensures
        r == match report {
            CloneReport::Cloned => Ok::<(), FetchError>(()),
            CloneReport::Failed => Err(FetchError::Clone),
            CloneReport::TimedOut => Err(FetchError::CloneTimeout),
        },
{
    match report {
        CloneReport::Cloned => Ok(()),
        CloneReport::Failed => Err(FetchError::Clone),
        CloneReport::TimedOut => Err(FetchError::CloneTimeout),
    }
}

/// Whether `status` stands for success.
pub fn status_is_success(status: u16) -> (ok: bool)
    ensures
        ok == is_success(status),
{
    200 <= status && status <= 299
}

/// Begins the fetch of the file behind `url`. The file is named by the last
/// segment of the URL; where the filter does not want it, the fetch ends at
/// once and nothing is requested.
pub fn download_url_to_dir(url: &str, allowed_exts: &[&str]) -> (fetch: Fetch)
    ensures
        fetch@ == direct_start(url@, strs(allowed_exts@)),
{
    let name = url_file_name(url);
    if ext_allowed(name.as_str(), allowed_exts) {
        Fetch::Get { name }
    } else {
        Fetch::Done(FetchOutcome::Skipped(SkipReason::Filtered))
    }
}

/// Begins the copy of a file named `file_name`, found in a clone whose top
/// directory is `repo_top`. A file that the filter does not want is skipped.
pub fn copy_filtered_file(repo_top: &str, file_name: &str, allowed_exts: &[&str]) -> (fetch: Fetch)
    ensures
        fetch@ == copy_start(repo_top@, file_name@, strs(allowed_exts@)),
{
    if ext_allowed(file_name, allowed_exts) {
        Fetch::Check { name: unique_name(repo_top, file_name) }
    } else {
        Fetch::Done(FetchOutcome::Skipped(SkipReason::Filtered))
    }
}

/// The views of a list of fetches.
pub open spec fn fetch_views(fetches: Seq<Fetch>) -> Seq<FetchView> {
    Seq::new(fetches.len(), |i: int| fetches[i]@)
}

/// The copies that are begun for a repository whose clone was reported as
/// `report`, `file_names` being the files found in it: one for each file of a
/// clone that finished, and none at all for a clone that failed or ran out
/// of time.
pub open spec fn copies_of(
    report: CloneReport,
    repo_top: Seq<char>,
    file_names: Seq<Seq<char>>,
    allowed: Seq<Seq<char>>,
) -> Seq<FetchView> {
    if report == CloneReport::Cloned {
        Seq::new(file_names.len(), |i: int| copy_start(repo_top, file_names[i], allowed))
    } else {
        seq![]
    }
}

/// Begins the copies for a repository once its clone has been reported:
/// one for each file found in a clone that finished, in order. A clone that
/// failed or ran out of time is an error of its kind, and nothing of it is
/// looked at, asked about, staged or written.
pub fn copy_filtered_files(
    report: CloneReport,
    repo_top: &str,
    file_names: &Vec<String>,
    allowed_exts: &[&str],
) -> (r: Result<Vec<Fetch>, FetchError>)
    ensures
        r is Ok <==> report == CloneReport::Cloned,
        r matches Ok(fetches) ==> fetch_views(fetches@) == copies_of(
            report,
            repo_top@,
            crate::text::strings(file_names@),
            strs(allowed_exts@),
        ),
        r matches Err(e) ==> e == (if report == CloneReport::TimedOut {
            FetchError::CloneTimeout
        } else {
            FetchError::Clone
        }),
{
    match judge_clone(report) {
        Err(e) => Err(e),
        Ok(()) => {
            let mut fetches: Vec<Fetch> = Vec::new();
            let mut i: usize = 0;
            while i < file_names.len()
                invariant
                    i <= file_names.len(),
                    fetches@.len() == i,
                    forall|j: int|
                        0 <= j < i ==> #[trigger] fetches@[j]@ == copy_start(
                            repo_top@,
                            file_names@[j]@,
                            strs(allowed_exts@),
                        ),
                decreases file_names.len() - i,
            {
                fetches.push(copy_filtered_file(repo_top, file_names[i].as_str(), allowed_exts));
                i += 1;
            }
            assert(fetch_views(fetches@) =~= copies_of(
                report,
                repo_top@,
                crate::text::strings(file_names@),
                strs(allowed_exts@),
            ));
            Ok(fetches)
        },
    }
}

/// A clone that did not finish leaves nothing behind: no copy is begun for
/// it, whatever files it may hold, so no file of the destination folder
/// comes from it.
pub proof fn lemma_unfinished_clone_copies_nothing(
    report: CloneReport,
    repo_top: Seq<char>,
    file_names: Seq<Seq<char>>,
    allowed: Seq<Seq<char>>,
)
    requires
        report != CloneReport::Cloned,
    ensures
        copies_of(report, repo_top, file_names, allowed).len() == 0,
{
}

impl Fetch {
    /// Whether the fetch has ended.
    pub fn is_done(&self) -> (done: bool)
        ensures
            done == (self@ is Done),
    {
        match self {
            Fetch::Done(_) => true,
            _ => false,
        }
    }

    /// Takes the report of the GET.
    pub fn replied(self, reply: HttpReply) -> (next: Fetch)
        ensures
            next@ == after_reply(self@, reply),
    {
        match self {
            Fetch::Get { name } => match reply {
                HttpReply::Unreachable => Fetch::Done(
                    FetchOutcome::Failed(FetchError::HttpTransport),
                ),
                HttpReply::Answered { status, body_read } => {
                    if !status_is_success(status) {
                        Fetch::Done(FetchOutcome::Failed(FetchError::HttpStatus(status)))
                    } else if !body_read {
                        Fetch::Done(FetchOutcome::Failed(FetchError::ReadBody))
                    } else {
                        Fetch::Check { name }
                    }
                },
            },
            other => other,
        }
    }

    /// Takes the report of whether the file exists already.
    pub fn checked(self, exists: bool, policy: &OverwritePolicy) -> (next: Fetch)
        ensures
            next@ == after_check(self@, exists, policy.state()),
    {
        match self {
            Fetch::Check { name } => {
                if !exists {
                    Fetch::Write { name }
                } else {
                    match policy.standing() {
                        Some(true) => Fetch::Write { name },
                        Some(false) => Fetch::Done(FetchOutcome::Skipped(SkipReason::Overwrite)),
                        None => Fetch::Ask { name },
                    }
                }
            },
            other => other,
        }
    }

    /// Takes the user's decision on the conflict and has the arbiter keep it
    /// where it is one for all conflicts. Outside a conflict the arbiter is
    /// left alone.
    pub fn answered(self, action: OverwriteAction, policy: &mut OverwritePolicy) -> (next: Fetch)
        ensures
            next@ == after_answer(self@, action, old(policy).state()),
            final(policy).state() == if self@ is Ask {
                crate::overwrite::next_state(old(policy).state(), action)
            } else {
                old(policy).state()
            },
    {
        match self {
            Fetch::Ask { name } => {
                if policy.should_overwrite(action) {
                    Fetch::Write { name }
                } else {
                    Fetch::Done(FetchOutcome::Skipped(SkipReason::Overwrite))
                }
            },
            other => other,
        }
    }

    /// Takes the report of the write.
    pub fn written(self, ok: bool) -> (next: Fetch)
        ensures
            next@ == after_write(self@, ok),
    {
        match self {
            Fetch::Write { name } => {
                if ok {
                    Fetch::Done(FetchOutcome::Written(name))
                } else {
                    Fetch::Done(FetchOutcome::Failed(FetchError::Write))
                }
            },
            other => other,
        }
    }
}

/// What the host would report at each step, were it asked.
pub struct HostReports {
    pub reply: HttpReply,
    pub exists: bool,
    pub action: OverwriteAction,
    pub written: bool,
}

/// How many steps can still follow.
pub open spec fn steps_left(fetch: FetchView) -> nat {
    match fetch {
        FetchView::Get(_) => 4,
        FetchView::Check(_) => 3,
        FetchView::Ask(_) => 2,
        FetchView::Write(_) => 1,
        FetchView::Done(_) => 0,
    }
}

/// The outcome that is reached from `fetch` when each step is done as asked
/// and reported as `host` has it, the arbiter standing at `state`.
pub open spec fn outcome_of(fetch: FetchView, host: HostReports, state: PolicyState) -> OutcomeView
    decreases steps_left(fetch),
{
    match fetch {
        FetchView::Get(_) => outcome_of(after_reply(fetch, host.reply), host, state),
        FetchView::Check(_) => outcome_of(after_check(fetch, host.exists, state), host, state),
        FetchView::Ask(_) => outcome_of(after_answer(fetch, host.action, state), host, state),
        FetchView::Write(_) => outcome_of(after_write(fetch, host.written), host, state),
        FetchView::Done(outcome) => outcome,
    }
}

/// How the landing of a file named `name` ends: an existing file stays unless
/// the arbiter or the user lets it go, and a write that fails is a failure.
pub open spec fn landing(name: Seq<char>, host: HostReports, state: PolicyState) -> OutcomeView {
    if host.exists && !proceeds(state, host.action) {
        OutcomeView::Skipped(SkipReason::Overwrite)
    } else if host.written {
        OutcomeView::Written(name)
    } else {
        OutcomeView::Failed(FetchError::Write)
    }
}

/// A file is landed as [`landing`] says, by whichever steps it takes.
pub proof fn lemma_landing(name: Seq<char>, host: HostReports, state: PolicyState)
    ensures
        outcome_of(FetchView::Check(name), host, state) == landing(name, host, state),
{
    reveal_with_fuel(outcome_of, 4);
}

/// The fetch of a direct URL, from its first step to its end: a file that is
/// not wanted is skipped, a request that fails is a failure of its kind, and
/// what arrives is landed under the last segment of the URL.
pub proof fn lemma_direct_fetch(
    url: Seq<char>,
    allowed: Seq<Seq<char>>,
    host: HostReports,
    state: PolicyState,
)
    ensures
        outcome_of(direct_start(url, allowed), host, state) == if !admits(
            last_segment(url),
            allowed,
        ) {
            OutcomeView::Skipped(SkipReason::Filtered)
        } else {
            match host.reply {
                HttpReply::Unreachable => OutcomeView::Failed(FetchError::HttpTransport),
                HttpReply::Answered { status, body_read } => if !is_success(status) {
                    OutcomeView::Failed(FetchError::HttpStatus(status))
                } else if !body_read {
                    OutcomeView::Failed(FetchError::ReadBody)
                } else {
                    landing(last_segment(url), host, state)
                },
            }
        },
{
    reveal_with_fuel(outcome_of, 5);
}

/// The copy of a file out of a clone, from its first step to its end: a file
/// that is not wanted is skipped, any other is landed under its unique name.
pub proof fn lemma_copy(
    repo_top: Seq<char>,
    file_name: Seq<char>,
    allowed: Seq<Seq<char>>,
    host: HostReports,
    state: PolicyState,
)
    ensures
        outcome_of(copy_start(repo_top, file_name, allowed), host, state) == if admits(
            file_name,
            allowed,
        ) {
            landing(unique_name_of(repo_top, file_name), host, state)
        } else {
            OutcomeView::Skipped(SkipReason::Filtered)
        },
{
    reveal_with_fuel(outcome_of, 4);
}

/// The file that the fetch comes to write when each step is done as asked
/// and reported as `host` has it; none where the fetch ends before.
pub open spec fn write_target(fetch: FetchView, host: HostReports, state: PolicyState) -> Option<
    Seq<char>,
>
    decreases steps_left(fetch),
{
    match fetch {
        FetchView::Get(_) => write_target(after_reply(fetch, host.reply), host, state),
        FetchView::Check(_) => write_target(after_check(fetch, host.exists, state), host, state),
        FetchView::Ask(_) => write_target(after_answer(fetch, host.action, state), host, state),
        FetchView::Write(name) => Some(name),
        FetchView::Done(_) => None,
    }
}

/// Whether a GET brought the whole body of a success.
pub open spec fn arrived(reply: HttpReply) -> bool {
    reply matches HttpReply::Answered { status, body_read } && is_success(status) && body_read
}

/// A direct fetch comes to write only when the file is wanted, the request
/// brought a body, and no existing file is to stay; what it then writes is
/// the file named by the last segment of the URL. A request that fails in any
/// way ends the fetch before anything is staged or written.
pub proof fn lemma_failed_request_writes_nothing(
    url: Seq<char>,
    allowed: Seq<Seq<char>>,
    host: HostReports,
    state: PolicyState,
)
    ensures
        write_target(direct_start(url, allowed), host, state) == if {
            &&& admits(last_segment(url), allowed)
            &&& arrived(host.reply)
            &&& (!host.exists || proceeds(state, host.action))
        } {
            Some(last_segment(url))
        } else {
            None
        },
        outcome_of(direct_start(url, allowed), host, state) is Written <==> write_target(
            direct_start(url, allowed),
            host,
            state,
        ) is Some && host.written,
{
    reveal_with_fuel(write_target, 5);
    reveal_with_fuel(outcome_of, 5);
}

/// The disk after a fetch of `content`: where the fetch comes to write, the
/// staged write has been gone through as `course` has it, and otherwise the
/// disk is as it was.
pub open spec fn disk_after(
    disk: Disk,
    fetch: FetchView,
    host: HostReports,
    state: PolicyState,
    content: Seq<u8>,
    course: Course,
) -> Disk {
    match write_target(fetch, host, state) {
        Some(name) => {
            let effects = effects_from(WriteStepView::MakeDir, name, content, course);
            apply_first(disk, effects, effects.len())
        },
        None => disk,
    }
}

/// A direct fetch leaves whole files only. Where it ends with the file
/// written, the destination folder holds the content under the last segment
/// of the URL and is otherwise as it was. Where it ends in any other way, by
/// a skip, a request that failed or a write that failed at whatever move,
/// the destination folder is as it was. In either case no staged file is
/// left.
pub proof fn lemma_fetch_leaves_whole_files(
    disk: Disk,
    url: Seq<char>,
    allowed: Seq<Seq<char>>,
    host: HostReports,
    state: PolicyState,
    content: Seq<u8>,
    course: Course,
)
    requires
        disk.scratch == Map::<Seq<char>, Seq<u8>>::empty(),
        host.written == (course.failure is None),
    ensures
        ({
            let start = direct_start(url, allowed);
            let after = disk_after(disk, start, host, state, content, course);
            &&& outcome_of(start, host, state) is Written ==> after.dest == disk.dest.insert(
                last_segment(url),
                content,
            )
            &&& !(outcome_of(start, host, state) is Written) ==> after.dest == disk.dest
            &&& after.scratch == Map::<Seq<char>, Seq<u8>>::empty()
        }),
{
    let start = direct_start(url, allowed);
    lemma_failed_request_writes_nothing(url, allowed, host, state);
    match write_target(start, host, state) {
        Some(name) => {
            match course.failure {
                None => {
                    lemma_steps_make_the_staged_write(name, content, course.pieces);
                    lemma_write_round_trip(disk, name, content);
                    lemma_interrupted_write_is_safe(
                        disk,
                        name,
                        content,
                        staged_write(name, content).len(),
                    );
                    assert(course == Course { failure: None, pieces: course.pieces });
                },
                Some(failure) => {
                    lemma_steps_make_the_failed_write(name, content, failure, course.pieces);
                    let effects = failed_write(name, content, failure, course.pieces);
                    lemma_failed_write_leaves_nothing(
                        disk,
                        name,
                        content,
                        failure,
                        course.pieces,
                        effects.len(),
                    );
                    assert(course == Course { failure: Some(failure), pieces: course.pieces });
                },
            }
        },
        None => {},
    }
}

/// The copy of a file out of a clone leaves whole files only: where it ends
/// with the file written, the destination folder holds the content under the
/// file's unique name; where it ends in any other way the folder is as it
/// was; and no staged file is left.
pub proof fn lemma_copy_leaves_whole_files(
    disk: Disk,
    repo_top: Seq<char>,
    file_name: Seq<char>,
    allowed: Seq<Seq<char>>,
    host: HostReports,
    state: PolicyState,
    content: Seq<u8>,
    course: Course,
)
    requires
        disk.scratch == Map::<Seq<char>, Seq<u8>>::empty(),
        host.written == (course.failure is None),
    ensures
        ({
            let start = copy_start(repo_top, file_name, allowed);
            let after = disk_after(disk, start, host, state, content, course);
            &&& outcome_of(start, host, state) is Written ==> after.dest == disk.dest.insert(
                unique_name_of(repo_top, file_name),
                content,
            )
            &&& !(outcome_of(start, host, state) is Written) ==> after.dest == disk.dest
            &&& after.scratch == Map::<Seq<char>, Seq<u8>>::empty()
        }),
{
    let start = copy_start(repo_top, file_name, allowed);
    reveal_with_fuel(write_target, 4);
    reveal_with_fuel(outcome_of, 4);
    match write_target(start, host, state) {
        Some(name) => {
            match course.failure {
                None => {
                    lemma_steps_make_the_staged_write(name, content, course.pieces);
                    lemma_write_round_trip(disk, name, content);
                    lemma_interrupted_write_is_safe(
                        disk,
                        name,
                        content,
                        staged_write(name, content).len(),
                    );
                    assert(course == Course { failure: None, pieces: course.pieces });
                },
                Some(failure) => {
                    lemma_steps_make_the_failed_write(name, content, failure, course.pieces);
                    let effects = failed_write(name, content, failure, course.pieces);
                    lemma_failed_write_leaves_nothing(
                        disk,
                        name,
                        content,
                        failure,
                        course.pieces,
                        effects.len(),
                    );
                    assert(course == Course { failure: Some(failure), pieces: course.pieces });
                },
            }
        },
        None => {},
    }
}

/// Under a standing of `OverwriteAll` an existing file is replaced, under one
/// of `SkipAll` it stays, and in neither case is the user asked.
pub proof fn lemma_standing_settles_conflicts(name: Seq<char>, state: PolicyState)
    requires
        state != PolicyState::NoPolicy,
    ensures
        !(after_check(FetchView::Check(name), true, state) is Ask),
        state == PolicyState::OverwriteAll ==> after_check(FetchView::Check(name), true, state)
            == FetchView::Write(name),
        state == PolicyState::SkipAll ==> after_check(FetchView::Check(name), true, state)
            == FetchView::Done(OutcomeView::Skipped(SkipReason::Overwrite)),
{
}

} // verus!
