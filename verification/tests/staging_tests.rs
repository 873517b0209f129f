use detection_wizard::staging::{begin_write, WriteFailure, WriteStep};

#[test]
fn a_write_goes_through_its_four_moves() {
    let step = begin_write();
    assert_eq!(step, WriteStep::MakeDir);
    let step = step.moved("rule.yml", true);
    assert_eq!(step, WriteStep::MakeScratch);
    let step = step.moved("rule.yml", true);
    assert_eq!(step, WriteStep::Stage { staged: "rule.yml.part".to_string() });
    let step = step.moved("rule.yml", true);
    assert_eq!(
        step,
        WriteStep::Promote { staged: "rule.yml.part".to_string(), name: "rule.yml".to_string() }
    );
    let step = step.moved("rule.yml", true);
    assert_eq!(step, WriteStep::Done(Ok(())));
    assert_eq!(step.moved("rule.yml", false), WriteStep::Done(Ok(())));
}

fn after(successes: usize) -> WriteStep {
    let mut step = begin_write();
    for _ in 0..successes {
        step = step.moved("a.rules", true);
    }
    step.moved("a.rules", false)
}

#[test]
fn a_move_that_fails_ends_the_write() {
    assert_eq!(after(0), WriteStep::Done(Err(WriteFailure::Directory)));
    assert_eq!(after(1), WriteStep::Done(Err(WriteFailure::Scratch)));
    assert_eq!(after(2), WriteStep::Done(Err(WriteFailure::Stage)));
    assert_eq!(after(3), WriteStep::Done(Err(WriteFailure::Rename)));
    assert_eq!(
        after(0).moved("a.rules", true),
        WriteStep::Done(Err(WriteFailure::Directory))
    );
}
