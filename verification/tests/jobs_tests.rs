use detection_wizard::jobs::{
    download_and_extract_git_repo, download_files_with_progress, ext_filter, mark_end, mark_report,
    plan_by_extension, process_sources, starts_source, strip_all, Job, ReportStyle,
};
use detection_wizard::progress::ProgressState;

fn s(x: &str) -> String {
    x.to_string()
}

fn report(current: usize, total: usize, label: &str) -> Job {
    Job::Report { current, total, label: Some(s(label)) }
}

fn count(current: usize, total: usize) -> Job {
    Job::Report { current, total, label: None }
}

fn clone_job(url: &str, dest: &str, allowed: &[&str], timeout_secs: Option<u64>) -> Job {
    Job::Clone {
        url: s(url),
        dest_dir: s(dest),
        allowed: allowed.iter().map(|a| s(a)).collect(),
        timeout_secs,
    }
}

fn download(url: &str, dest: &str, allowed: &[&str]) -> Job {
    Job::Download { url: s(url), dest_dir: s(dest), allowed: allowed.iter().map(|a| s(a)).collect() }
}

#[test]
fn an_extension_may_come_with_or_without_its_dot() {
    assert_eq!(ext_filter(Some(".rules")), vec!["rules"]);
    assert_eq!(ext_filter(Some("rules")), vec!["rules"]);
    assert_eq!(ext_filter(Some("..x")), vec!["x"]);
    assert_eq!(ext_filter(Some("")), vec![""]);
    assert_eq!(ext_filter(None), Vec::<String>::new());
    assert_eq!(strip_all(&[".yml", "yaml", "."]), vec!["yml", "yaml", ""]);
}

#[test]
fn a_clone_job_for_one_extension() {
    assert_eq!(
        download_and_extract_git_repo("https://github.com/o/r.git", "out/suricata", Some(".rules")),
        clone_job("https://github.com/o/r.git", "out/suricata", &["rules"], None)
    );
    assert_eq!(
        download_and_extract_git_repo("https://github.com/o/r.git", "out", None),
        clone_job("https://github.com/o/r.git", "out", &[], None)
    );
}

#[test]
fn one_download_job_per_url() {
    assert_eq!(
        download_files_with_progress(&["u1", "u2"], "out", "Suricata", Some(".rules")),
        vec![download("u1", "out", &["rules"]), download("u2", "out", &["rules"])]
    );
    assert_eq!(download_files_with_progress(&[], "out", "x", None), Vec::<Job>::new());
    assert_eq!(
        download_files_with_progress(&["u"], "out", "x", None),
        vec![download("u", "out", &[])]
    );
}

#[test]
fn the_common_run_announces_then_fetches() {
    let plan = process_sources(&["repo-a", "repo-b"], &["page-a"], &[".yml", "yaml"], "out", Some(30));
    assert_eq!(
        plan,
        vec![
            report(1, 3, "repo-a"),
            clone_job("repo-a", "out", &["yml", "yaml"], Some(30)),
            report(2, 3, "repo-b"),
            clone_job("repo-b", "out", &["yml", "yaml"], Some(30)),
            report(3, 3, "page-a"),
            download("page-a", "out", &["yml", "yaml"]),
        ]
    );
}

#[test]
fn extensions_that_differ_in_case_fetch_a_page_once() {
    let plan = process_sources(&[], &["https://example.com/a.YML"], &["yml", "YML"], "out", None);
    assert_eq!(
        plan,
        vec![
            report(1, 1, "https://example.com/a.YML"),
            download("https://example.com/a.YML", "out", &["yml", "YML"]),
        ]
    );
}

#[test]
fn the_common_run_without_limit_and_without_extensions() {
    let plan = process_sources(&["repo-a"], &["page-a", "page-b"], &[], "out", None);
    assert_eq!(
        plan,
        vec![
            report(1, 3, "repo-a"),
            clone_job("repo-a", "out", &[], None),
            report(2, 3, "page-a"),
            download("page-a", "out", &[]),
            report(3, 3, "page-b"),
            download("page-b", "out", &[]),
        ]
    );
    assert_eq!(process_sources(&[], &[], &["x"], "out", None), Vec::<Job>::new());
}

#[test]
fn a_run_by_extension_that_counts_afterwards() {
    let plan = plan_by_extension(&["repo-a"], &["page-a"], "out", &[".yml", ".yaml"], ReportStyle::Count);
    assert_eq!(
        plan,
        vec![
            clone_job("repo-a", "out", &["yml"], None),
            clone_job("repo-a", "out", &["yaml"], None),
            count(1, 2),
            download("page-a", "out", &["yml"]),
            download("page-a", "out", &["yaml"]),
            count(2, 2),
        ]
    );
}

#[test]
fn a_run_by_extension_that_announces() {
    let plan = plan_by_extension(&["repo-a", "repo-b"], &[], "out", &[".yar"], ReportStyle::Announce);
    assert_eq!(
        plan,
        vec![
            report(1, 2, "repo-a"),
            clone_job("repo-a", "out", &["yar"], None),
            report(2, 2, "repo-b"),
            clone_job("repo-b", "out", &["yar"], None),
        ]
    );
}

fn state(p: &ProgressState) -> (usize, usize, String) {
    (p.completed(), p.total(), p.current_label().to_string())
}

#[test]
fn announcements_count_the_source_before_them() {
    let mut p = ProgressState::new(3);
    let mut open = false;
    open = mark_report(&mut p, Some("repo-a"), open);
    assert!(open);
    assert_eq!(state(&p), (0, 3, s("repo-a")));
    open = mark_report(&mut p, Some("repo-b"), open);
    assert_eq!(state(&p), (1, 3, s("repo-b")));
    open = mark_report(&mut p, Some("page-a"), open);
    assert_eq!(state(&p), (2, 3, s("page-a")));
    mark_end(&mut p, open);
    assert_eq!(state(&p), (3, 3, s("")));
}

#[test]
fn counts_count_one_source_each() {
    let mut p = ProgressState::new(2);
    let mut open = false;
    open = mark_report(&mut p, None, open);
    assert!(!open);
    assert_eq!(state(&p), (1, 2, s("")));
    open = mark_report(&mut p, None, open);
    mark_end(&mut p, open);
    assert_eq!(state(&p), (2, 2, s("")));
}

#[test]
fn sources_begin_at_announcements_and_after_counts() {
    let announced = plan_by_extension(&["repo-a"], &["page-a"], "out", &["x", "y"], ReportStyle::Announce);
    let firsts: Vec<bool> = (0..announced.len() + 1).map(|i| starts_source(&announced, i)).collect();
    assert_eq!(firsts, vec![true, false, false, true, false, false, false]);
    let counted = plan_by_extension(&["repo-a"], &["page-a"], "out", &["x", "y"], ReportStyle::Count);
    let firsts: Vec<bool> = (0..counted.len() + 1).map(|i| starts_source(&counted, i)).collect();
    assert_eq!(firsts, vec![true, false, false, true, false, false, false]);
    let bare = plan_by_extension(&["repo-a", "repo-b"], &[], "out", &[], ReportStyle::Count);
    assert_eq!(bare.len(), 2);
    assert!(starts_source(&bare, 0));
    assert!(starts_source(&bare, 1));
    assert!(!starts_source(&Vec::new(), 0));
}
