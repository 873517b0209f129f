use detection_wizard::fetch::{
    copy_filtered_files, CloneReport, Fetch, FetchError, FetchOutcome, SkipReason,
};
use detection_wizard::log::{failure_record, RunLog};

fn names(list: &[&str]) -> Vec<String> {
    list.iter().map(|n| n.to_string()).collect()
}

#[test]
fn every_kind_of_failure_has_its_line() {
    let url = "https://example.com/x";
    assert_eq!(
        failure_record(url, FetchError::DirectoryCreate),
        "could not make the folder for https://example.com/x"
    );
    assert_eq!(failure_record(url, FetchError::Clone), "could not clone https://example.com/x");
    assert_eq!(
        failure_record(url, FetchError::CloneTimeout),
        "timed out cloning https://example.com/x"
    );
    assert_eq!(failure_record(url, FetchError::HttpTransport), "could not reach https://example.com/x");
    assert_eq!(
        failure_record(url, FetchError::HttpStatus(404)),
        "status 404 from https://example.com/x"
    );
    assert_eq!(failure_record(url, FetchError::HttpStatus(0)), "status 0 from https://example.com/x");
    assert_eq!(
        failure_record(url, FetchError::ReadBody),
        "could not read the answer of https://example.com/x"
    );
    assert_eq!(
        failure_record(url, FetchError::Write),
        "could not write the file of https://example.com/x"
    );
    assert_eq!(failure_record("", FetchError::Clone), "could not clone ");
}

#[test]
fn only_failures_are_recorded() {
    let mut log = RunLog::new();
    assert_eq!(log.len(), 0);
    assert_eq!(log.note("repo-a", None), None);
    assert_eq!(
        log.note("repo-b", Some(FetchError::CloneTimeout)),
        Some("timed out cloning repo-b".to_string())
    );
    assert_eq!(log.note("page-a", None), None);
    assert_eq!(
        log.note("page-b", Some(FetchError::HttpStatus(503))),
        Some("status 503 from page-b".to_string())
    );
    assert_eq!(log.len(), 2);
    assert_eq!(log.lines(), vec!["timed out cloning repo-b", "status 503 from page-b"]);
}

#[test]
fn one_clone_out_of_time_leaves_one_record_and_no_copy() {
    let sources = [
        ("repo-a", CloneReport::Cloned),
        ("repo-b", CloneReport::TimedOut),
        ("repo-c", CloneReport::Cloned),
    ];
    let files = names(&["a.yml", "b.txt"]);
    let mut log = RunLog::new();
    let mut begun = Vec::new();
    for (url, report) in sources {
        match copy_filtered_files(report, url, &files, &["yml"]) {
            Ok(copies) => {
                begun.push((url, copies.len()));
                log.note(url, None);
            }
            Err(error) => {
                log.note(url, Some(error));
            }
        }
    }
    assert_eq!(begun, vec![("repo-a", 2), ("repo-c", 2)]);
    assert_eq!(log.lines(), vec!["timed out cloning repo-b"]);
}

#[test]
fn a_finished_clone_begins_one_copy_for_each_file() {
    let files = names(&["a.yml", "notes.txt", "b.YAML"]);
    assert_eq!(
        copy_filtered_files(CloneReport::Cloned, "sigma", &files, &["yml", "yaml"]),
        Ok(vec![
            Fetch::Check { name: "sigma_a.yml".to_string() },
            Fetch::Done(FetchOutcome::Skipped(SkipReason::Filtered)),
            Fetch::Check { name: "sigma_b.YAML".to_string() },
        ])
    );
    assert_eq!(copy_filtered_files(CloneReport::Cloned, "sigma", &vec![], &["yml"]), Ok(vec![]));
}

#[test]
fn a_clone_that_did_not_finish_begins_no_copy() {
    let files = names(&["a.yml", "b.yml"]);
    assert_eq!(
        copy_filtered_files(CloneReport::TimedOut, "sigma", &files, &["yml"]),
        Err(FetchError::CloneTimeout)
    );
    assert_eq!(
        copy_filtered_files(CloneReport::Failed, "sigma", &files, &[]),
        Err(FetchError::Clone)
    );
}
