use ebpf_examples::lifecycle::Slot;
use ebpf_examples::lifecycle::{Action, Session, Step};
use ebpf_examples::{attach, load, run};

fn drive(mut s: Session, outcomes: &[bool]) -> Vec<Action> {
    let mut seen = Vec::new();
    for ok in outcomes {
        seen.push(s.action());
        s.advance(*ok);
    }
    seen.push(s.action());
    seen
}

#[test]
fn run_sequence_on_success() {
    let seen = drive(run(true), &[true, true, true, true]);
    assert_eq!(
        seen,
        vec![
            Action::OpenSkeleton { debug: true },
            Action::LoadSkeleton,
            Action::StoreSkeleton,
            Action::AttachProgram { index: 0 },
            Action::Finish,
        ]
    );
}

#[test]
fn attach_matches_run() {
    let a = drive(attach(false), &[true, true, true, true, true]);
    let r = drive(run(false), &[true, true, true, true, true]);
    assert_eq!(a, r);
    assert_eq!(a[0], Action::OpenSkeleton { debug: false });
}

#[test]
fn load_sequence_on_success() {
    let seen = drive(load(false), &[true, true, true]);
    assert_eq!(
        seen,
        vec![
            Action::OpenSkeleton { debug: false },
            Action::LoadSkeleton,
            Action::StoreSkeleton,
            Action::Finish,
        ]
    );
}

#[test]
fn each_failed_step_aborts() {
    assert_eq!(drive(run(true), &[false])[1], Action::Abort { step: Step::Open });
    assert_eq!(drive(run(true), &[true, false])[2], Action::Abort { step: Step::Load });
    assert_eq!(drive(run(true), &[true, true, false])[3], Action::Abort { step: Step::Store });
    assert_eq!(
        drive(run(true), &[true, true, true, false])[4],
        Action::Abort { step: Step::Attach }
    );
}

#[test]
fn finished_and_aborted_sessions_stay_put() {
    let seen = drive(run(true), &[false, true, true, false]);
    assert!(seen[1..].iter().all(|a| *a == Action::Abort { step: Step::Open }));
    let done = drive(load(true), &[true, true, true, true, false]);
    assert_eq!(done[3], Action::Finish);
    assert_eq!(done[5], Action::Finish);
}

#[test]
fn standalone_session_skips_the_slot() {
    let seen = drive(Session::new(true, false, 2, true), &[true, true, true, true]);
    assert_eq!(
        seen,
        vec![
            Action::OpenSkeleton { debug: true },
            Action::LoadSkeleton,
            Action::AttachProgram { index: 0 },
            Action::AttachProgram { index: 1 },
            Action::Finish,
        ]
    );
}

#[test]
fn optional_attachment_failure_is_passed_over() {
    let seen = drive(Session::new(false, false, 1, false), &[true, true, false]);
    assert_eq!(seen[3], Action::Finish);
    let strict = drive(Session::new(false, false, 1, true), &[true, true, false]);
    assert_eq!(strict[3], Action::Abort { step: Step::Attach });
}

#[test]
fn session_without_attachments_finishes_after_load() {
    let seen = drive(Session::new(false, false, 0, true), &[true, true]);
    assert_eq!(seen, vec![Action::OpenSkeleton { debug: false }, Action::LoadSkeleton, Action::Finish]);
}

fn run_into(slot: &mut Slot<u32>, skel: u32) -> Option<u32> {
    let mut s = run(false);
    s.advance(true);
    s.advance(true);
    let replaced = s.store(slot, skel);
    s.record_slot_attach(slot, true);
    assert_eq!(s.action(), Action::Finish);
    replaced
}

#[test]
fn store_replaces_slot_contents() {
    let mut slot: Slot<u32> = Slot::new();
    assert_eq!(run_into(&mut slot, 1), None);
    assert_eq!(slot.held, Some(1));
    assert!(slot.attached);
    assert_eq!(run_into(&mut slot, 2), Some(1));
    assert_eq!(slot.held, Some(2));
    assert!(slot.attached);
}

#[test]
fn load_leaves_slot_unattached() {
    let mut slot: Slot<u32> = Slot::new();
    run_into(&mut slot, 1);
    let mut s = load(true);
    s.advance(true);
    s.advance(true);
    assert_eq!(s.store(&mut slot, 7), Some(1));
    assert_eq!(s.action(), Action::Finish);
    assert_eq!(slot.held, Some(7));
    assert!(!slot.attached);
}

#[test]
fn failed_slot_attachment_aborts() {
    let mut slot: Slot<u32> = Slot::new();
    let mut s = run(false);
    s.advance(true);
    s.advance(true);
    s.store(&mut slot, 3);
    s.record_slot_attach(&mut slot, false);
    assert_eq!(s.action(), Action::Abort { step: Step::Attach });
    assert!(!slot.attached);
}
