//! The progress of a run: how many sources are done, out of how many, and
//! which one is at work.

use vstd::prelude::*;
use vstd::string::StringExecFns;

verus! {

/// The progress triple as observers get it.
pub struct ProgressView {
    pub completed: nat,
    pub total: nat,
    pub label: Seq<char>,
}

/// The triple once `label` is taken up: the counts stay.
pub open spec fn begun(p: ProgressView, label: Seq<char>) -> ProgressView {
    ProgressView { label, ..p }
}

/// The triple once one more source has been gone through: the count rises by
/// one, unless the run is done already.
pub open spec fn advanced(p: ProgressView) -> ProgressView {
    ProgressView {
        completed: if p.completed < p.total {
            p.completed + 1
        } else {
            p.completed
        },
        ..p
    }
}

/// The triple once nothing is at work any more: the label is empty.
pub open spec fn finished(p: ProgressView) -> ProgressView {
    ProgressView { label: Seq::empty(), ..p }
}

/// The progress of a run. `completed` never exceeds `total`.
#[derive(Debug)]
pub struct ProgressState {
    completed: usize,
    total: usize,
    current_label: String,
}

impl View for ProgressState {
    type V = ProgressView;

    closed spec fn view(&self) -> ProgressView {
        ProgressView {
            completed: self.completed as nat,
            total: self.total as nat,
            label: self.current_label@,
        }
    }
}

impl ProgressState {
    #[verifier::type_invariant]
    spec fn bounded(self) -> bool {
        self.completed <= self.total
    }

    /// The progress at the start of a run over `total` sources.
    pub fn new(total: usize) -> (p: Self)
        ensures
            p@ == (ProgressView { completed: 0, total: total as nat, label: Seq::empty() }),
    {
        ProgressState { completed: 0, total, current_label: String::new() }
    }

    pub fn completed(&self) -> (n: usize)
        ensures
            n == self@.completed,
            n <= self@.total,
    {
        proof {
            use_type_invariant(self);
        }
        self.completed
    }

    pub fn total(&self) -> (n: usize)
        ensures
            n == self@.total,
    {
        self.total
    }

    pub fn current_label(&self) -> (label: &str)
        ensures
            label@ == self@.label,
    {
        self.current_label.as_str()
    }

    /// Whether every source of the run has been gone through.
    pub fn is_done(&self) -> (done: bool)
        ensures
            done == (self@.completed == self@.total),
    {
        self.completed == self.total
    }

    /// Names the source that is taken up now. The counts stay.
    pub fn begin_item(&mut self, label: &str)
        ensures
            final(self)@ == begun(old(self)@, label@),
            final(self)@.completed <= final(self)@.total,
    {
        proof {
            use_type_invariant(&*self);
        }
        self.current_label = String::from_str(label);
    }

    /// Counts one more source as gone through, however it ended. A run that is
    /// done already stays as it is.
    pub fn complete_item(&mut self)
        ensures
            final(self)@ == advanced(old(self)@),
            final(self)@.completed <= final(self)@.total,
    {
        proof {
            use_type_invariant(&*self);
        }
        if self.completed < self.total {
            self.completed = self.completed + 1;
        }
    }

    /// Clears the label once nothing is at work any more. The counts stay.
    pub fn finish(&mut self)
        ensures
            final(self)@ == finished(old(self)@),
            final(self)@.completed <= final(self)@.total,
    {
        proof {
            use_type_invariant(&*self);
        }
        self.current_label = String::new();
    }
}

/// One thing that is done to a tracker.
pub enum Mark {
    /// A source is taken up under this label.
    Begin(Seq<char>),
    /// A source has been gone through.
    Count,
    /// Nothing is at work any more.
    Finish,
}

/// The triple after `mark`.
pub open spec fn after_mark(p: ProgressView, mark: Mark) -> ProgressView {
    match mark {
        Mark::Begin(label) => begun(p, label),
        Mark::Count => advanced(p),
        Mark::Finish => finished(p),
    }
}

/// The triple after the first `n` of `marks`, in their order.
pub open spec fn after_marks(p: ProgressView, marks: Seq<Mark>, n: nat) -> ProgressView
    decreases n,
{
    if n == 0 {
        p
    } else {
        after_mark(after_marks(p, marks, (n - 1) as nat), marks[n - 1])
    }
}

/// How many of the first `n` of `marks` count a source.
pub open spec fn counts_in(marks: Seq<Mark>, n: nat) -> nat
    decreases n,
{
    if n == 0 {
        0
    } else {
        counts_in(marks, (n - 1) as nat) + if marks[n - 1] is Count {
            1nat
        } else {
            0nat
        }
    }
}

/// No mark takes a count back, changes the total or lets `completed` pass
/// it.
pub proof fn lemma_completed_never_falls(p: ProgressView, mark: Mark)
    requires
        p.completed <= p.total,
    ensures
        p.completed <= after_mark(p, mark).completed <= p.total,
        after_mark(p, mark).total == p.total,
{
}

/// However the marks of several runs fall in with each other on a tracker
/// they share, no count is lost: as long as the tracker has room, `completed`
/// has risen by the number of sources counted, and `total` is as it was.
pub proof fn lemma_no_count_is_lost(p: ProgressView, marks: Seq<Mark>, n: nat)
    requires
        n <= marks.len(),
        p.completed + counts_in(marks, n) <= p.total,
    ensures
        after_marks(p, marks, n).completed == p.completed + counts_in(marks, n),
        after_marks(p, marks, n).total == p.total,
    decreases n,
{
    if n > 0 {
        lemma_no_count_is_lost(p, marks, (n - 1) as nat);
    }
}

} // verus!
