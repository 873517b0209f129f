use detection_wizard::fetch::{
    copy_filtered_file, download_url_to_dir, judge_clone, status_is_success, CloneReport, Fetch,
    FetchError, FetchOutcome, HttpReply, SkipReason,
};
use detection_wizard::overwrite::{OverwriteAction, OverwritePolicy, PolicyState};

fn name(s: &str) -> String {
    s.to_string()
}

const OK: HttpReply = HttpReply::Answered { status: 200, body_read: true };

#[test]
fn an_unwanted_url_is_skipped_before_any_request() {
    let fetch = download_url_to_dir("https://example.com/feeds/list.txt", &["rules"]);
    assert_eq!(fetch, Fetch::Done(FetchOutcome::Skipped(SkipReason::Filtered)));
    assert!(fetch.is_done());
    let fetch = download_url_to_dir("https://urlhaus.abuse.ch/downloads/ids/", &["rules"]);
    assert_eq!(fetch, Fetch::Done(FetchOutcome::Skipped(SkipReason::Filtered)));
}

#[test]
fn a_wanted_url_is_requested_under_its_last_segment() {
    let fetch = download_url_to_dir("https://example.com/feeds/local.rules", &["rules"]);
    assert_eq!(fetch, Fetch::Get { name: name("local.rules") });
    assert!(!fetch.is_done());
    let none: [&str; 0] = [];
    let fetch = download_url_to_dir("https://example.com/feeds/ids", &none);
    assert_eq!(fetch, Fetch::Get { name: name("ids") });
}

#[test]
fn a_request_that_fails_ends_the_fetch() {
    let get = || Fetch::Get { name: name("a.rules") };
    assert_eq!(
        get().replied(HttpReply::Unreachable),
        Fetch::Done(FetchOutcome::Failed(FetchError::HttpTransport))
    );
    for status in [404u16, 500, 199, 300, 301, 0, 999] {
        assert_eq!(
            get().replied(HttpReply::Answered { status, body_read: true }),
            Fetch::Done(FetchOutcome::Failed(FetchError::HttpStatus(status)))
        );
    }
    assert_eq!(
        get().replied(HttpReply::Answered { status: 200, body_read: false }),
        Fetch::Done(FetchOutcome::Failed(FetchError::ReadBody))
    );
}

#[test]
fn every_2xx_status_is_a_success() {
    for status in [200u16, 201, 204, 250, 299] {
        assert!(status_is_success(status));
        assert_eq!(
            Fetch::Get { name: name("a.rules") }.replied(HttpReply::Answered { status, body_read: true }),
            Fetch::Check { name: name("a.rules") }
        );
    }
    for status in [0u16, 100, 199, 300, 404, 65535] {
        assert!(!status_is_success(status));
    }
}

#[test]
fn a_file_that_is_not_there_is_written_without_a_question() {
    for policy_after in [OverwriteAction::Skip, OverwriteAction::SkipAll, OverwriteAction::OverwriteAll] {
        let mut policy = OverwritePolicy::new();
        policy.should_overwrite(policy_after);
        let fetch = Fetch::Check { name: name("a.rules") }.checked(false, &policy);
        assert_eq!(fetch, Fetch::Write { name: name("a.rules") });
    }
}

#[test]
fn a_conflict_goes_to_the_user_while_nothing_is_decided() {
    let policy = OverwritePolicy::new();
    let fetch = Fetch::Check { name: name("a.rules") }.checked(true, &policy);
    assert_eq!(fetch, Fetch::Ask { name: name("a.rules") });
}

#[test]
fn a_conflict_is_settled_by_a_standing_policy() {
    let mut policy = OverwritePolicy::new();
    policy.should_overwrite(OverwriteAction::OverwriteAll);
    let fetch = Fetch::Check { name: name("a.rules") }.checked(true, &policy);
    assert_eq!(fetch, Fetch::Write { name: name("a.rules") });

    let mut policy = OverwritePolicy::new();
    policy.should_overwrite(OverwriteAction::SkipAll);
    let fetch = Fetch::Check { name: name("a.rules") }.checked(true, &policy);
    assert_eq!(fetch, Fetch::Done(FetchOutcome::Skipped(SkipReason::Overwrite)));
}

#[test]
fn the_answer_decides_and_sticky_answers_are_kept() {
    let ask = || Fetch::Ask { name: name("a.rules") };
    let cases = [
        (OverwriteAction::Overwrite, true, PolicyState::NoPolicy),
        (OverwriteAction::Skip, false, PolicyState::NoPolicy),
        (OverwriteAction::OverwriteAll, true, PolicyState::OverwriteAll),
        (OverwriteAction::SkipAll, false, PolicyState::SkipAll),
    ];
    for (action, write, state) in cases {
        let mut policy = OverwritePolicy::new();
        let next = ask().answered(action, &mut policy);
        if write {
            assert_eq!(next, Fetch::Write { name: name("a.rules") });
        } else {
            assert_eq!(next, Fetch::Done(FetchOutcome::Skipped(SkipReason::Overwrite)));
        }
        assert_eq!(policy.current(), state);
    }
}

#[test]
fn an_answer_outside_a_conflict_changes_nothing() {
    let mut policy = OverwritePolicy::new();
    let fetch = Fetch::Write { name: name("a.rules") }.answered(OverwriteAction::SkipAll, &mut policy);
    assert_eq!(fetch, Fetch::Write { name: name("a.rules") });
    assert_eq!(policy.current(), PolicyState::NoPolicy);
}

#[test]
fn the_write_report_ends_the_fetch() {
    assert_eq!(
        Fetch::Write { name: name("a.rules") }.written(true),
        Fetch::Done(FetchOutcome::Written(name("a.rules")))
    );
    assert_eq!(
        Fetch::Write { name: name("a.rules") }.written(false),
        Fetch::Done(FetchOutcome::Failed(FetchError::Write))
    );
}

#[test]
fn reports_that_do_not_fit_the_step_are_ignored() {
    let policy = OverwritePolicy::new();
    let done = || Fetch::Done(FetchOutcome::Failed(FetchError::ReadBody));
    assert_eq!(done().replied(OK), done());
    assert_eq!(done().checked(true, &policy), done());
    assert_eq!(done().written(true), done());
    let get = || Fetch::Get { name: name("a") };
    assert_eq!(get().checked(false, &policy), get());
    assert_eq!(get().written(true), get());
    let check = || Fetch::Check { name: name("a") };
    assert_eq!(check().replied(HttpReply::Unreachable), check());
    assert_eq!(check().written(true), check());
}

#[test]
fn a_direct_fetch_runs_from_request_to_file() {
    let policy = OverwritePolicy::new();
    let fetch = download_url_to_dir("https://example.com/x/pii.rules", &["rules", "rule"]);
    let fetch = fetch.replied(OK);
    let fetch = fetch.checked(false, &policy);
    let fetch = fetch.written(true);
    assert_eq!(fetch, Fetch::Done(FetchOutcome::Written(name("pii.rules"))));
}

#[test]
fn a_file_from_a_clone_gets_its_unique_name() {
    let fetch = copy_filtered_file(".tmpX9", "win_susp.YML", &["yml", "yaml"]);
    assert_eq!(fetch, Fetch::Check { name: name("_tmpX9_win_susp.YML") });
    let fetch = copy_filtered_file(".tmpX9", "README.md", &["yml", "yaml"]);
    assert_eq!(fetch, Fetch::Done(FetchOutcome::Skipped(SkipReason::Filtered)));
    let none: [&str; 0] = [];
    let fetch = copy_filtered_file("repo", "LICENSE", &none);
    assert_eq!(fetch, Fetch::Check { name: name("repo_LICENSE") });
}

#[test]
fn only_a_finished_clone_is_walked() {
    assert_eq!(judge_clone(CloneReport::Cloned), Ok(()));
    assert_eq!(judge_clone(CloneReport::Failed), Err(FetchError::Clone));
    assert_eq!(judge_clone(CloneReport::TimedOut), Err(FetchError::CloneTimeout));
}

#[test]
fn a_standing_that_came_in_the_meantime_prevails_over_the_answer() {
    let mut policy = OverwritePolicy::new();
    policy.should_overwrite(OverwriteAction::OverwriteAll);
    let next = Fetch::Ask { name: name("a.rules") }.answered(OverwriteAction::Skip, &mut policy);
    assert_eq!(next, Fetch::Write { name: name("a.rules") });
    assert_eq!(policy.current(), PolicyState::OverwriteAll);

    let mut policy = OverwritePolicy::new();
    policy.should_overwrite(OverwriteAction::SkipAll);
    let next = Fetch::Ask { name: name("a.rules") }.answered(OverwriteAction::OverwriteAll, &mut policy);
    assert_eq!(next, Fetch::Done(FetchOutcome::Skipped(SkipReason::Overwrite)));
    assert_eq!(policy.current(), PolicyState::SkipAll);
}
