use detection_wizard::download::{process_tool, total_work, RunPhase, RunStep, ToolRun, ToolSpec};
use detection_wizard::fetch::{
    copy_filtered_file, download_url_to_dir, judge_clone, CloneReport, Fetch, FetchError,
    FetchOutcome, HttpReply,
};
use detection_wizard::overwrite::{OverwriteAction, OverwritePolicy};
use detection_wizard::progress::ProgressState;

fn spec(repos: Vec<&'static str>, pages: Vec<&'static str>, exts: Vec<&'static str>) -> ToolSpec {
    ToolSpec {
        name: "Sigma",
        dest_subfolder: "sigma",
        repo_urls: repos,
        page_urls: pages,
        allowed_exts: exts,
    }
}

/// A host that lives in memory: what each repository holds, how each clone
/// and each request ends, what the user answers, and the destination folder.
struct Host {
    repos: Vec<(&'static str, CloneReport, Vec<&'static str>)>,
    replies: Vec<(&'static str, HttpReply)>,
    answers: Vec<OverwriteAction>,
    dest: Vec<String>,
    asked: Vec<String>,
    failures: Vec<(String, FetchError)>,
    requests: usize,
}

impl Host {
    fn new() -> Host {
        Host {
            repos: Vec::new(),
            replies: Vec::new(),
            answers: Vec::new(),
            dest: Vec::new(),
            asked: Vec::new(),
            failures: Vec::new(),
            requests: 0,
        }
    }

    /// Lands one file by doing what each step asks for.
    fn land(&mut self, mut fetch: Fetch, url: &str, policy: &mut OverwritePolicy) -> FetchOutcome {
        loop {
            fetch = match fetch {
                Fetch::Get { .. } => {
                    self.requests += 1;
                    let reply = self
                        .replies
                        .iter()
                        .find(|(u, _)| *u == url)
                        .map(|(_, r)| *r)
                        .unwrap_or(HttpReply::Unreachable);
                    fetch.replied(reply)
                }
                Fetch::Check { ref name } => {
                    let exists = self.dest.contains(name);
                    fetch.checked(exists, policy)
                }
                Fetch::Ask { ref name } => {
                    self.asked.push(name.clone());
                    let action = self.answers.remove(0);
                    fetch.answered(action, policy)
                }
                Fetch::Write { ref name } => {
                    if !self.dest.contains(name) {
                        self.dest.push(name.clone());
                    }
                    fetch.written(true)
                }
                Fetch::Done(outcome) => return outcome,
            };
        }
    }

    /// Works a run off to its end.
    fn drive(
        &mut self,
        run: &mut ToolRun,
        progress: &mut ProgressState,
        policy: &mut OverwritePolicy,
        cancel_after: Option<usize>,
    ) -> Vec<(usize, usize, String)> {
        let mut seen = Vec::new();
        let mut started = 0;
        loop {
            let cancelled = cancel_after.map_or(false, |n| started >= n);
            let step = run.start_next(cancelled, progress);
            seen.push((progress.completed(), progress.total(), progress.current_label().to_string()));
            let allowed = run.spec().allowed_exts.clone();
            match step {
                RunStep::Done => return seen,
                RunStep::CloneRepo(url) => {
                    started += 1;
                    let (report, files) = self
                        .repos
                        .iter()
                        .find(|(u, _, _)| *u == url)
                        .map(|(_, r, f)| (*r, f.clone()))
                        .unwrap_or((CloneReport::Failed, Vec::new()));
                    match judge_clone(report) {
                        Ok(()) => {
                            for file in files {
                                let fetch = copy_filtered_file("clone", file, &allowed);
                                if let FetchOutcome::Failed(e) = self.land(fetch, url, policy) {
                                    self.failures.push((url.to_string(), e));
                                }
                            }
                        }
                        Err(e) => self.failures.push((url.to_string(), e)),
                    }
                }
                RunStep::FetchPage(url) => {
                    started += 1;
                    let fetch = download_url_to_dir(url, &allowed);
                    if let FetchOutcome::Failed(e) = self.land(fetch, url, policy) {
                        self.failures.push((url.to_string(), e));
                    }
                }
            }
            run.item_done(progress);
            seen.push((progress.completed(), progress.total(), progress.current_label().to_string()));
        }
    }
}

const REPO: &str = "https://example.com/org/rules.git";
const PAGE: &str = "https://example.com/raw/smuggle.yml";

#[test]
fn total_is_the_number_of_repositories_and_urls() {
    let s = spec(vec![REPO, "repo-b", "repo-c"], vec![PAGE, "page-b"], vec!["yml"]);
    assert_eq!(s.total_sources(), 5);
    let progress = s.fresh_progress();
    assert_eq!((progress.completed(), progress.total()), (0, 5));
    assert_eq!(progress.current_label(), "");
    assert_eq!(spec(vec![], vec![], vec![]).total_sources(), 0);
}

#[test]
fn a_shared_tracker_counts_the_sources_of_all_tools() {
    let specs = vec![
        spec(vec![REPO, "repo-b"], vec![PAGE], vec!["yml"]),
        spec(vec![], vec![], vec![]),
        spec(vec!["repo"], vec!["page-a", "page-b", "page-c"], vec![]),
    ];
    assert_eq!(total_work(&specs), 7);
    assert_eq!(total_work(&[]), 0);
}

#[test]
fn one_repository_with_two_wanted_files_and_one_wanted_url() {
    let s = spec(vec![REPO], vec![PAGE], vec!["yml", "yaml"]);
    let mut progress = ProgressState::new(s.total_sources());
    let mut run = process_tool(s, true, None).unwrap();
    let mut policy = OverwritePolicy::new();
    let mut host = Host::new();
    host.repos.push((REPO, CloneReport::Cloned, vec!["a.yml", "notes.txt", "b.YAML"]));
    host.replies.push((PAGE, HttpReply::Answered { status: 200, body_read: true }));

    let seen = host.drive(&mut run, &mut progress, &mut policy, None);

    let mut files = host.dest.clone();
    files.sort();
    assert_eq!(files, vec!["clone_a.yml", "clone_b.YAML", "smuggle.yml"]);
    assert_eq!((progress.completed(), progress.total()), (2, 2));
    assert_eq!(progress.current_label(), "");
    assert!(progress.is_done());
    assert!(host.failures.is_empty());
    assert!(host.asked.is_empty());
    assert_eq!(
        seen,
        vec![
            (0, 2, REPO.to_string()),
            (1, 2, REPO.to_string()),
            (1, 2, PAGE.to_string()),
            (2, 2, PAGE.to_string()),
            (2, 2, String::new()),
        ]
    );
    assert_eq!(run.phase(), RunPhase::Finished);
    assert_eq!(run.started(), 2);
}

#[test]
fn repositories_come_before_urls_in_catalog_order() {
    let s = spec(vec!["repo-a", "repo-b"], vec!["page-a", "page-b", "page-c"], vec![]);
    let mut progress = ProgressState::new(s.total_sources());
    let mut run = process_tool(s, true, None).unwrap();
    let mut steps = Vec::new();
    loop {
        let step = run.start_next(false, &mut progress);
        if step == RunStep::Done {
            break;
        }
        steps.push(step);
        run.item_done(&mut progress);
    }
    assert_eq!(
        steps,
        vec![
            RunStep::CloneRepo("repo-a"),
            RunStep::CloneRepo("repo-b"),
            RunStep::FetchPage("page-a"),
            RunStep::FetchPage("page-b"),
            RunStep::FetchPage("page-c"),
        ]
    );
    assert_eq!((progress.completed(), progress.total()), (5, 5));
}

#[test]
fn a_clone_that_times_out_still_counts_and_leaves_no_file() {
    let s = spec(vec![REPO], vec![PAGE], vec!["yml"]);
    let mut progress = ProgressState::new(s.total_sources());
    let mut run = process_tool(s, true, None).unwrap();
    let mut policy = OverwritePolicy::new();
    let mut host = Host::new();
    host.repos.push((REPO, CloneReport::TimedOut, vec!["a.yml", "b.yml"]));
    host.replies.push((PAGE, HttpReply::Answered { status: 200, body_read: true }));

    let seen = host.drive(&mut run, &mut progress, &mut policy, None);

    assert_eq!(host.failures, vec![(REPO.to_string(), FetchError::CloneTimeout)]);
    assert_eq!(seen[1], (1, 2, REPO.to_string()));
    assert_eq!(host.dest, vec!["smuggle.yml"]);
    assert_eq!((progress.completed(), progress.total()), (2, 2));
}

#[test]
fn progress_reaches_total_when_everything_fails() {
    let s = spec(vec!["repo-a", "repo-b"], vec!["https://example.com/a.yml", "https://example.com/b.yml"], vec!["yml"]);
    let mut progress = ProgressState::new(s.total_sources());
    let mut run = process_tool(s, true, None).unwrap();
    let mut policy = OverwritePolicy::new();
    let mut host = Host::new();
    host.replies.push(("https://example.com/b.yml", HttpReply::Answered { status: 503, body_read: false }));

    host.drive(&mut run, &mut progress, &mut policy, None);

    assert_eq!(
        host.failures,
        vec![
            ("repo-a".to_string(), FetchError::Clone),
            ("repo-b".to_string(), FetchError::Clone),
            ("https://example.com/a.yml".to_string(), FetchError::HttpTransport),
            ("https://example.com/b.yml".to_string(), FetchError::HttpStatus(503)),
        ]
    );
    assert!(host.dest.is_empty());
    assert_eq!((progress.completed(), progress.total()), (4, 4));
    assert!(progress.is_done());
}

#[test]
fn an_unwanted_url_counts_without_a_request() {
    let s = spec(vec![], vec!["https://example.com/list.txt", PAGE], vec!["yml"]);
    let mut progress = ProgressState::new(s.total_sources());
    let mut run = process_tool(s, true, None).unwrap();
    let mut policy = OverwritePolicy::new();
    let mut host = Host::new();
    host.replies.push((PAGE, HttpReply::Answered { status: 200, body_read: true }));

    host.drive(&mut run, &mut progress, &mut policy, None);

    assert_eq!(host.requests, 1);
    assert_eq!(host.dest, vec!["smuggle.yml"]);
    assert_eq!((progress.completed(), progress.total()), (2, 2));
}

#[test]
fn conflicts_are_asked_about_in_order_until_a_sticky_answer() {
    let s = spec(vec![REPO], vec![PAGE], vec!["yml"]);
    let mut progress = ProgressState::new(s.total_sources());
    let mut run = process_tool(s, true, None).unwrap();
    let mut policy = OverwritePolicy::new();
    let mut host = Host::new();
    host.repos.push((REPO, CloneReport::Cloned, vec!["a.yml", "new.yml", "b.yml", "c.yml"]));
    host.replies.push((PAGE, HttpReply::Answered { status: 200, body_read: true }));
    for existing in ["clone_a.yml", "clone_b.yml", "clone_c.yml", "smuggle.yml"] {
        host.dest.push(existing.to_string());
    }
    host.answers = vec![OverwriteAction::Overwrite, OverwriteAction::SkipAll];

    host.drive(&mut run, &mut progress, &mut policy, None);

    assert_eq!(host.asked, vec!["clone_a.yml", "clone_b.yml"]);
    assert!(host.answers.is_empty());
    assert_eq!(policy.standing(), Some(false));
    assert!(host.dest.contains(&"clone_new.yml".to_string()));
    assert_eq!(host.dest.len(), 5);
    assert_eq!((progress.completed(), progress.total()), (2, 2));
}

#[test]
fn a_cancelled_run_starts_nothing_more() {
    let s = spec(vec!["repo-a", "repo-b", "repo-c"], vec![PAGE], vec!["yml"]);
    let mut progress = ProgressState::new(s.total_sources());
    let mut run = process_tool(s, true, None).unwrap();
    let mut policy = OverwritePolicy::new();
    let mut host = Host::new();

    let seen = host.drive(&mut run, &mut progress, &mut policy, Some(2));

    assert_eq!(host.failures.len(), 2);
    assert_eq!((progress.completed(), progress.total()), (2, 4));
    assert_eq!(progress.current_label(), "");
    assert!(!progress.is_done());
    assert_eq!(seen.last(), Some(&(2, 4, String::new())));
    assert_eq!(run.phase(), RunPhase::Finished);
    assert_eq!(run.start_next(false, &mut progress), RunStep::Done);
    run.item_done(&mut progress);
    assert_eq!((progress.completed(), progress.total()), (2, 4));
}

#[test]
fn a_source_at_work_is_named_again_and_counted_once() {
    let s = spec(vec!["repo-a"], vec!["page-a"], vec![]);
    let mut progress = ProgressState::new(s.total_sources());
    let mut run = process_tool(s, true, None).unwrap();
    assert_eq!(run.phase(), RunPhase::Idle);
    run.item_done(&mut progress);
    assert_eq!(progress.completed(), 0);
    assert_eq!(run.start_next(false, &mut progress), RunStep::CloneRepo("repo-a"));
    assert_eq!(run.phase(), RunPhase::Busy);
    assert_eq!(run.start_next(true, &mut progress), RunStep::CloneRepo("repo-a"));
    assert_eq!(progress.current_label(), "repo-a");
    run.item_done(&mut progress);
    run.item_done(&mut progress);
    assert_eq!(progress.completed(), 1);
    assert_eq!(run.started(), 1);
}

#[test]
fn a_run_keeps_its_time_limit() {
    let run = process_tool(spec(vec![REPO], vec![], vec![]), true, Some(45)).unwrap();
    assert_eq!(run.repo_timeout_secs(), Some(45));
    let run = process_tool(spec(vec![REPO], vec![], vec![]), true, None).unwrap();
    assert_eq!(run.repo_timeout_secs(), None);
}

#[test]
fn without_the_folder_there_is_no_run() {
    let s = spec(vec![REPO], vec![PAGE], vec!["yml"]);
    match process_tool(s, false, Some(30)) {
        Err(e) => assert_eq!(e, FetchError::DirectoryCreate),
        Ok(_) => panic!("a run was opened without its folder"),
    }
}

#[test]
fn two_runs_on_one_tracker_lose_no_count() {
    let first = spec(vec!["repo-a", "repo-b"], vec!["page-a"], vec![]);
    let second = spec(vec!["repo-c"], vec!["page-b", "page-c"], vec![]);
    let mut progress = ProgressState::new(total_work(&[first.clone(), second.clone()]));
    let mut one = process_tool(first, true, None).unwrap();
    let mut two = process_tool(second, true, None).unwrap();
    assert_eq!(one.start_next(false, &mut progress), RunStep::CloneRepo("repo-a"));
    assert_eq!(two.start_next(false, &mut progress), RunStep::CloneRepo("repo-c"));
    assert_eq!(progress.current_label(), "repo-c");
    two.item_done(&mut progress);
    assert_eq!(two.start_next(false, &mut progress), RunStep::FetchPage("page-b"));
    one.item_done(&mut progress);
    assert_eq!((progress.completed(), progress.total()), (2, 6));
    assert_eq!(one.start_next(false, &mut progress), RunStep::CloneRepo("repo-b"));
    one.item_done(&mut progress);
    two.item_done(&mut progress);
    assert_eq!(two.start_next(false, &mut progress), RunStep::FetchPage("page-c"));
    assert_eq!(one.start_next(false, &mut progress), RunStep::FetchPage("page-a"));
    two.item_done(&mut progress);
    assert_eq!(two.start_next(false, &mut progress), RunStep::Done);
    assert!(!progress.is_done());
    one.item_done(&mut progress);
    assert_eq!(one.start_next(false, &mut progress), RunStep::Done);
    assert_eq!((progress.completed(), progress.total()), (6, 6));
    assert!(progress.is_done());
}
