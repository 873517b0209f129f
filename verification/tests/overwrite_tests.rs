use detection_wizard::overwrite::{
    combine_answers, second_question_due, Answer, OverwriteAction, OverwritePolicy, PolicyState,
};

#[test]
fn two_answers_make_one_decision() {
    assert_eq!(combine_answers(Answer::Yes, Answer::Yes), OverwriteAction::OverwriteAll);
    assert_eq!(combine_answers(Answer::Yes, Answer::No), OverwriteAction::Overwrite);
    assert_eq!(combine_answers(Answer::No, Answer::Yes), OverwriteAction::SkipAll);
    assert_eq!(combine_answers(Answer::No, Answer::No), OverwriteAction::Skip);
}

#[test]
fn an_unanswered_question_means_skip() {
    for other in [Answer::Yes, Answer::No, Answer::Unanswered] {
        assert_eq!(combine_answers(Answer::Unanswered, other), OverwriteAction::Skip);
        assert_eq!(combine_answers(other, Answer::Unanswered), OverwriteAction::Skip);
    }
}

#[test]
fn the_second_question_follows_an_answer_only() {
    assert!(second_question_due(Answer::Yes));
    assert!(second_question_due(Answer::No));
    assert!(!second_question_due(Answer::Unanswered));
}

#[test]
fn a_new_policy_decides_nothing() {
    let policy = OverwritePolicy::new();
    assert_eq!(policy.current(), PolicyState::NoPolicy);
    assert_eq!(policy.standing(), None);
    assert_eq!(OverwritePolicy::default().current(), PolicyState::NoPolicy);
}

#[test]
fn single_decisions_do_not_stick() {
    let mut policy = OverwritePolicy::new();
    assert!(policy.should_overwrite(OverwriteAction::Overwrite));
    assert_eq!(policy.standing(), None);
    assert!(!policy.should_overwrite(OverwriteAction::Skip));
    assert_eq!(policy.standing(), None);
    assert!(policy.should_overwrite(OverwriteAction::Overwrite));
    assert_eq!(policy.current(), PolicyState::NoPolicy);
}

#[test]
fn overwrite_all_sticks() {
    let mut policy = OverwritePolicy::new();
    assert!(policy.should_overwrite(OverwriteAction::OverwriteAll));
    assert_eq!(policy.current(), PolicyState::OverwriteAll);
    assert_eq!(policy.standing(), Some(true));
    for action in [
        OverwriteAction::Skip,
        OverwriteAction::SkipAll,
        OverwriteAction::Overwrite,
        OverwriteAction::OverwriteAll,
    ] {
        assert!(policy.should_overwrite(action));
        assert_eq!(policy.current(), PolicyState::OverwriteAll);
        assert_eq!(policy.standing(), Some(true));
    }
}

#[test]
fn skip_all_sticks() {
    let mut policy = OverwritePolicy::new();
    assert!(!policy.should_overwrite(OverwriteAction::SkipAll));
    assert_eq!(policy.current(), PolicyState::SkipAll);
    assert_eq!(policy.standing(), Some(false));
    for action in [
        OverwriteAction::Skip,
        OverwriteAction::SkipAll,
        OverwriteAction::Overwrite,
        OverwriteAction::OverwriteAll,
    ] {
        assert!(!policy.should_overwrite(action));
        assert_eq!(policy.current(), PolicyState::SkipAll);
        assert_eq!(policy.standing(), Some(false));
    }
}

/// Settles the conflicts over `paths` in order, asking the scripted user only
/// where the policy has no standing, and returns the paths asked about and
/// the decisions.
fn settle(paths: &[&str], script: &[OverwriteAction]) -> (Vec<String>, Vec<bool>) {
    let mut policy = OverwritePolicy::new();
    let mut asked = Vec::new();
    let mut decisions = Vec::new();
    let mut answers = script.iter();
    for path in paths {
        let decision = match policy.standing() {
            Some(decided) => decided,
            None => {
                asked.push(path.to_string());
                policy.should_overwrite(*answers.next().expect("the script ran out"))
            }
        };
        decisions.push(decision);
    }
    (asked, decisions)
}

#[test]
fn one_prompt_per_conflict_until_a_sticky_choice() {
    let paths = ["out/a.yml", "out/b.yml", "out/c.yml", "out/d.yml", "out/e.yml"];
    let script = [OverwriteAction::Overwrite, OverwriteAction::Skip, OverwriteAction::SkipAll];
    let (asked, decisions) = settle(&paths, &script);
    assert_eq!(asked, vec!["out/a.yml", "out/b.yml", "out/c.yml"]);
    assert_eq!(decisions, vec![true, false, false, false, false]);
}

#[test]
fn every_conflict_is_asked_about_without_a_sticky_choice() {
    let paths = ["a", "b", "c"];
    let script = [OverwriteAction::Skip, OverwriteAction::Overwrite, OverwriteAction::Skip];
    let (asked, decisions) = settle(&paths, &script);
    assert_eq!(asked, vec!["a", "b", "c"]);
    assert_eq!(decisions, vec![false, true, false]);
}

#[test]
fn overwrite_all_at_the_first_conflict_silences_the_rest() {
    let paths = ["a", "b", "c"];
    let (asked, decisions) = settle(&paths, &[OverwriteAction::OverwriteAll]);
    assert_eq!(asked, vec!["a"]);
    assert_eq!(decisions, vec![true, true, true]);
}
