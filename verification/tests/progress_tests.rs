use detection_wizard::progress::ProgressState;

#[test]
fn a_new_tracker_has_nothing_done() {
    let p = ProgressState::new(7);
    assert_eq!(p.completed(), 0);
    assert_eq!(p.total(), 7);
    assert_eq!(p.current_label(), "");
    assert!(!p.is_done());
}

#[test]
fn an_empty_run_is_done_at_once() {
    let p = ProgressState::new(0);
    assert!(p.is_done());
}

#[test]
fn each_item_counts_once() {
    let mut p = ProgressState::new(3);
    for expected in 1..=3 {
        p.begin_item("https://example.com/source");
        assert_eq!(p.completed(), expected - 1);
        assert_eq!(p.current_label(), "https://example.com/source");
        p.complete_item();
        assert_eq!(p.completed(), expected);
        assert_eq!(p.total(), 3);
    }
    assert!(p.is_done());
}

#[test]
fn completed_never_exceeds_total() {
    let mut p = ProgressState::new(2);
    for _ in 0..5 {
        p.complete_item();
        assert!(p.completed() <= p.total());
    }
    assert_eq!(p.completed(), 2);
    assert_eq!(p.total(), 2);
}

#[test]
fn finish_clears_the_label_only() {
    let mut p = ProgressState::new(2);
    p.begin_item("one");
    p.complete_item();
    p.finish();
    assert_eq!(p.current_label(), "");
    assert_eq!(p.completed(), 1);
    assert_eq!(p.total(), 2);
}
