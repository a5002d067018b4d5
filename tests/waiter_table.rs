use b7::errors::{Runner, SolverError};
use b7::finish::{Finish, FinishAction};
use b7::waiter::{ChildStatus, SignalWait, WaitEvent, WaitResult, WaitTable};

const SECOND_NS: u64 = 1_000_000_000;

fn exited(pid: i32, code: i32) -> WaitEvent {
    WaitEvent { pid, status: ChildStatus::Exited(code) }
}

#[test]
fn trivial_exit_finishes_with_pid() {
    let mut table = WaitTable::new();
    assert!(table.register_spawn(Ok(41)).is_ok());
    assert!(table.reap(WaitResult::Changed(41, ChildStatus::Exited(0))));
    let ev = table.next_event(41);
    assert_eq!(ev, Some(exited(41, 0)));
    let f = Finish::new(41, false, SECOND_NS);
    assert_eq!(f.step(&mut table, 1_000, ev), FinishAction::Exited(41));
    assert_eq!(table.len(), 0);
    assert!(!table.contains(41));
}

#[test]
fn timeout_on_sleeping_child() {
    let mut table = WaitTable::new();
    table.register_spawn(Ok(9)).unwrap();
    let f = Finish::new(9, false, 200_000_000);
    assert_eq!(table.next_event(9), None);
    assert_eq!(f.step(&mut table, 200_000_000, None), FinishAction::TimedOut);
    assert!(table.contains(9));
}

#[test]
fn stop_after_deadline_times_out() {
    let mut table = WaitTable::new();
    table.register_spawn(Ok(9)).unwrap();
    table.deliver(9, ChildStatus::Stopped(19));
    let ev = table.next_event(9);
    let f = Finish::new(9, true, 200_000_000);
    assert_eq!(f.step(&mut table, 300_000_000, ev), FinishAction::TimedOut);
}

#[test]
fn traced_stop_is_continued_with_time_left() {
    let mut table = WaitTable::new();
    table.register_spawn(Ok(12)).unwrap();
    table.deliver(12, ChildStatus::Stopped(5));
    let ev = table.next_event(12);
    let traced = Finish::new(12, true, 5 * SECOND_NS);
    assert_eq!(
        traced.step(&mut table, SECOND_NS, ev),
        FinishAction::Resume { cont: true, time_left_ns: 4 * SECOND_NS }
    );
    let plain = Finish::new(12, false, 5 * SECOND_NS);
    assert_eq!(
        plain.step(&mut table, 2 * SECOND_NS, Some(WaitEvent { pid: 12, status: ChildStatus::Continued })),
        FinishAction::Resume { cont: false, time_left_ns: 3 * SECOND_NS }
    );
    assert!(table.contains(12));
}

#[test]
fn zero_timeout_never_waits() {
    let mut table = WaitTable::new();
    table.register_spawn(Ok(3)).unwrap();
    let f = Finish::new(3, true, 0);
    let stop = Some(WaitEvent { pid: 3, status: ChildStatus::Stopped(5) });
    assert_eq!(f.step(&mut table, 0, stop), FinishAction::Resume { cont: true, time_left_ns: 0 });
    assert_eq!(f.step(&mut table, 1, stop), FinishAction::TimedOut);
    assert_eq!(f.step(&mut table, 0, None), FinishAction::TimedOut);
}

#[test]
fn fast_exit_race_many_children() {
    let mut table = WaitTable::new();
    // The reaper sees every child exit before its spawner registers it.
    for pid in 1000..1200 {
        assert!(table.reap(WaitResult::Changed(pid, ChildStatus::Exited(0))));
    }
    assert!(!table.reap(WaitResult::NothingReady));
    assert_eq!(table.len(), 200);
    for pid in 1000..1200 {
        assert_eq!(table.register_spawn(Ok(pid)).unwrap(), pid);
        let ev = table.next_event(pid);
        assert_eq!(ev, Some(exited(pid, 0)));
        let f = Finish::new(pid, false, 2 * SECOND_NS);
        assert_eq!(f.step(&mut table, 0, ev), FinishAction::Exited(pid));
    }
    assert_eq!(table.len(), 0);
}

#[test]
fn exit_seen_whether_claimed_before_or_after() {
    let mut early = WaitTable::new();
    early.deliver(77, ChildStatus::Exited(3));
    early.claim(77).unwrap();
    let mut late = WaitTable::new();
    late.claim(77).unwrap();
    late.deliver(77, ChildStatus::Exited(3));
    assert_eq!(early.next_event(77), Some(exited(77, 3)));
    assert_eq!(late.next_event(77), Some(exited(77, 3)));
}

#[test]
fn events_stay_with_their_pid() {
    let mut table = WaitTable::new();
    table.deliver(5, ChildStatus::Stopped(5));
    table.deliver(6, ChildStatus::Exited(1));
    table.deliver(5, ChildStatus::Exited(0));
    assert_eq!(table.next_event(6), Some(exited(6, 1)));
    assert_eq!(table.next_event(6), None);
    assert_eq!(table.next_event(5), Some(WaitEvent { pid: 5, status: ChildStatus::Stopped(5) }));
    assert_eq!(table.next_event(5), Some(exited(5, 0)));
    assert_eq!(table.next_event(5), None);
    assert_eq!(table.next_event(8), None);
    assert!(!table.contains(8));
}

#[test]
fn failed_spawn_leaves_table_untouched() {
    let mut table = WaitTable::new();
    table.deliver(4, ChildStatus::Exited(0));
    let r = table.register_spawn(Err(SolverError::new(Runner::IoError, "No such file or directory")));
    let e = r.unwrap_err();
    assert_eq!(e.runner(), Runner::IoError);
    assert_eq!(e.description(), "No such file or directory");
    assert_eq!(table.len(), 1);
    assert!(table.contains(4));
}

#[test]
fn second_claim_is_refused() {
    let mut table = WaitTable::new();
    table.claim(10).unwrap();
    let e = table.claim(10).unwrap_err();
    assert_eq!(e.runner, Runner::Unknown);
    assert_eq!(table.register_spawn(Ok(10)).unwrap_err().runner(), Runner::Unknown);
    assert!(table.contains(10));
}

#[test]
fn release_drops_entry_and_queue() {
    let mut table = WaitTable::new();
    table.deliver(2, ChildStatus::Stopped(5));
    table.claim(2).unwrap();
    table.release(2);
    assert!(!table.contains(2));
    assert_eq!(table.next_event(2), None);
}

#[test]
fn drain_stops_when_nothing_is_ready() {
    let mut table = WaitTable::new();
    assert!(!table.reap(WaitResult::NothingReady));
    assert!(!table.reap(WaitResult::NoChildren));
    assert!(!table.reap(WaitResult::Failed(22)));
    assert!(!table.reap(WaitResult::Changed(3, ChildStatus::StillAlive)));
    assert_eq!(table.len(), 0);
    assert!(table.reap(WaitResult::Changed(3, ChildStatus::Signaled(9, false))));
    assert_eq!(table.next_event(3), Some(WaitEvent { pid: 3, status: ChildStatus::Signaled(9, false) }));
}

#[test]
fn only_a_received_signal_drains() {
    assert!(SignalWait::Received.drains());
    assert!(!SignalWait::TimedOut.drains());
    assert!(!SignalWait::Interrupted.drains());
    assert!(!SignalWait::Failed(4).drains());
}
