//! The overwrite arbiter: what happens when a destination file already exists.
//!
//! A conflict is put to the user as two questions, "overwrite this file?" and
//! "apply this to all remaining conflicts?". An answer given for all remaining
//! conflicts sticks for the rest of the run, and no further question is asked.

use vstd::prelude::*;

verus! {

/// What came back from one yes/no question.
#[derive(Clone, Copy, Debug, PartialEq, Eq, Structural)]
pub enum Answer {
    Yes,
    No,
    /// The question could not be put, or was closed without a yes or a no.
    Unanswered,
}

/// The user's decision on one conflict.
#[derive(Clone, Copy, Debug, PartialEq, Eq, Structural)]
pub enum OverwriteAction {
    Overwrite,
    Skip,
    OverwriteAll,
    SkipAll,
}

/// The standing of the arbiter within a run.
#[derive(Clone, Copy, Debug, PartialEq, Eq, Structural)]
pub enum PolicyState {
    NoPolicy,
    OverwriteAll,
    SkipAll,
}

/// The two answers taken together: the first says what happens to this file,
/// the second whether that holds for all remaining conflicts. Where either
/// question went unanswered the file is skipped, and nothing is set for the rest.
pub open spec fn combined(first: Answer, second: Answer) -> OverwriteAction {
    match (first, second) {
        (Answer::Yes, Answer::Yes) => OverwriteAction::OverwriteAll,
        (Answer::Yes, Answer::No) => OverwriteAction::Overwrite,
        (Answer::No, Answer::Yes) => OverwriteAction::SkipAll,
        (Answer::No, Answer::No) => OverwriteAction::Skip,
        (_, _) => OverwriteAction::Skip,
    }
}

/// The standing after `action` was given in standing `state`: a standing that
/// is set stays, and only an answer for all conflicts sets one.
pub open spec fn next_state(state: PolicyState, action: OverwriteAction) -> PolicyState {
    match state {
        PolicyState::NoPolicy => match action {
            OverwriteAction::OverwriteAll => PolicyState::OverwriteAll,
            OverwriteAction::SkipAll => PolicyState::SkipAll,
            _ => PolicyState::NoPolicy,
        },
        _ => state,
    }
}

/// Whether the file is replaced when `action` is given in standing `state`.
pub open spec fn proceeds(state: PolicyState, action: OverwriteAction) -> bool {
    match state {
        PolicyState::OverwriteAll => true,
        PolicyState::SkipAll => false,
        PolicyState::NoPolicy => action == OverwriteAction::Overwrite || action
            == OverwriteAction::OverwriteAll,
    }
}

/// What a standing decides without a question: nothing where none is set.
pub open spec fn standing_of(state: PolicyState) -> Option<bool> {
    match state {
        PolicyState::NoPolicy => None,
        PolicyState::OverwriteAll => Some(true),
        PolicyState::SkipAll => Some(false),
    }
}

/// Says whether the second question is worth putting: after a first question
/// that went unanswered the file is skipped whatever the second brings.
pub fn second_question_due(first: Answer) -> (due: bool)
    ensures
        due == (first != Answer::Unanswered),
        !due ==> forall|second: Answer| combined(first, second) == OverwriteAction::Skip,
{
    match first {
        Answer::Unanswered => false,
        _ => true,
    }
}

/// Puts the answers to the two questions together.
pub fn combine_answers(first: Answer, second: Answer) -> (action: OverwriteAction)
    ensures
        action == combined(first, second),
{
    match first {
        Answer::Unanswered => OverwriteAction::Skip,
        Answer::Yes => match second {
            Answer::Yes => OverwriteAction::OverwriteAll,
            Answer::No => OverwriteAction::Overwrite,
            Answer::Unanswered => OverwriteAction::Skip,
        },
        Answer::No => match second {
            Answer::Yes => OverwriteAction::SkipAll,
            _ => OverwriteAction::Skip,
        },
    }
}

/// The sticky part of the arbiter. At most one of the two marks is set.
#[derive(Debug)]
pub struct OverwritePolicy {
    overwrite_all: bool,
    skip_all: bool,
}

impl OverwritePolicy {
    #[verifier::type_invariant]
    spec fn exclusive(self) -> bool {
        !(self.overwrite_all && self.skip_all)
    }

    /// The standing this policy holds.
    pub closed spec fn state(self) -> PolicyState {
        if self.overwrite_all {
            PolicyState::OverwriteAll
        } else if self.skip_all {
            PolicyState::SkipAll
        } else {
            PolicyState::NoPolicy
        }
    }

    /// The policy at the start of a run: nothing is decided.
    pub fn new() -> (policy: Self)
        ensures
            policy.state() == PolicyState::NoPolicy,
    {
        OverwritePolicy { overwrite_all: false, skip_all: false }
    }

    /// The standing of this policy.
    pub fn current(&self) -> (state: PolicyState)
        ensures
            state == self.state(),
    {
        if self.overwrite_all {
            PolicyState::OverwriteAll
        } else if self.skip_all {
            PolicyState::SkipAll
        } else {
            PolicyState::NoPolicy
        }
    }

    /// What the policy decides on its own: `Some(true)` to overwrite,
    /// `Some(false)` to skip, `None` where the user has to be asked.
    pub fn standing(&self) -> (decided: Option<bool>)
        ensures
            decided == standing_of(self.state()),
    {
        if self.overwrite_all {
            Some(true)
        } else if self.skip_all {
            Some(false)
        } else {
            None
        }
    }

    /// Settles one conflict with the user's decision `action` and says whether
    /// the file is to be replaced. A decision for all conflicts is kept before
    /// the call returns; where a standing is already set it prevails and
    /// `action` changes nothing.
    pub fn should_overwrite(&mut self, action: OverwriteAction) -> (overwrite: bool)
        ensures
            final(self).state() == next_state(old(self).state(), action),
            overwrite == proceeds(old(self).state(), action),
    {
        proof {
            use_type_invariant(&*self);
        }
        if self.overwrite_all {
            return true;
        }
        if self.skip_all {
            return false;
        }
        match action {
            OverwriteAction::Overwrite => true,
            OverwriteAction::Skip => false,
            OverwriteAction::OverwriteAll => {
                self.overwrite_all = true;
                true
            },
            OverwriteAction::SkipAll => {
                self.skip_all = true;
                false
            },
        }
    }
}

impl Default for OverwritePolicy {
    fn default() -> (policy: Self)
        ensures
            policy.state() == PolicyState::NoPolicy,
    {
        OverwritePolicy::new()
    }
}

/// The standing after the conflicts of a run were settled one after the other,
/// `answers[i]` being what the user says to the i-th conflict when asked.
pub open spec fn state_after(state: PolicyState, answers: Seq<OverwriteAction>) -> PolicyState
    decreases answers.len(),
{
    if answers.len() == 0 {
        state
    } else {
        state_after(next_state(state, answers.first()), answers.drop_first())
    }
}

/// The decisions on those conflicts, in their order.
pub open spec fn decisions(state: PolicyState, answers: Seq<OverwriteAction>) -> Seq<bool>
    decreases answers.len(),
{
    if answers.len() == 0 {
        Seq::empty()
    } else {
        seq![proceeds(state, answers.first())] + decisions(
            next_state(state, answers.first()),
            answers.drop_first(),
        )
    }
}

/// How many of those conflicts are put to the user: the ones met while no
/// standing is set.
pub open spec fn prompts(state: PolicyState, answers: Seq<OverwriteAction>) -> nat
    decreases answers.len(),
{
    if answers.len() == 0 {
        0
    } else {
        let asked: nat = if state == PolicyState::NoPolicy {
            1
        } else {
            0
        };
        asked + prompts(next_state(state, answers.first()), answers.drop_first())
    }
}

/// An answer given for all remaining conflicts.
pub open spec fn is_sticky(action: OverwriteAction) -> bool {
    action == OverwriteAction::OverwriteAll || action == OverwriteAction::SkipAll
}

/// Once a standing is set, every later conflict is settled by it, whatever the
/// user would have said: none is asked, the standing stays, and all of them
/// are overwritten under `OverwriteAll` and skipped under `SkipAll`.
pub proof fn lemma_standing_is_sticky(state: PolicyState, answers: Seq<OverwriteAction>)
    requires
        state != PolicyState::NoPolicy,
    ensures
        prompts(state, answers) == 0,
        state_after(state, answers) == state,
        decisions(state, answers).len() == answers.len(),
        forall|i: int|
            0 <= i < answers.len() ==> #[trigger] decisions(state, answers)[i] == (state
                == PolicyState::OverwriteAll),
    decreases answers.len(),
{
    if answers.len() > 0 {
        lemma_standing_is_sticky(state, answers.drop_first());
        let rest = decisions(state, answers.drop_first());
        assert forall|i: int| 0 <= i < answers.len() implies #[trigger] decisions(
            state,
            answers,
        )[i] == (state == PolicyState::OverwriteAll) by {
            if i > 0 {
                assert(decisions(state, answers)[i] == rest[i - 1]);
            }
        }
    }
}

/// Starting with no standing, the user is asked about each conflict up to and
/// including the first that gets an answer for all, and about none after it.
pub proof fn lemma_asked_until_sticky(answers: Seq<OverwriteAction>, first_sticky: int)
    requires
        0 <= first_sticky <= answers.len(),
        forall|i: int| 0 <= i < first_sticky ==> !is_sticky(#[trigger] answers[i]),
        first_sticky < answers.len() ==> is_sticky(answers[first_sticky]),
    ensures
        prompts(PolicyState::NoPolicy, answers) == if first_sticky < answers.len() {
            first_sticky + 1
        } else {
            first_sticky
        },
    decreases answers.len(),
{
    if answers.len() > 0 {
        let rest = answers.drop_first();
        if first_sticky == 0 {
            lemma_standing_is_sticky(next_state(PolicyState::NoPolicy, answers.first()), rest);
        } else {
            assert(!is_sticky(answers[0]));
            assert forall|i: int| 0 <= i < first_sticky - 1 implies !is_sticky(
                #[trigger] rest[i],
            ) by {
                assert(rest[i] == answers[i + 1]);
            }
            lemma_asked_until_sticky(rest, first_sticky - 1);
        }
    }
}

} // verus!
