use vstd::prelude::*;

use crate::waiter::{ChildStatus, WaitEvent, WaitTable};

verus! {

/// What the waiter of one child does after one receive.
#[derive(Debug, Clone, Copy, PartialEq, Eq, Structural)]
pub enum FinishAction {
    /// The child exited: its entry has been released and `finish` returns its pid.
    Exited(i32),
    /// The deadline passed: `finish` kills the child and reports a timeout.
    TimedOut,
    /// The child stopped or resumed: continue it if `cont` holds, then receive
    /// again for at most `time_left_ns` nanoseconds.
    Resume { cont: bool, time_left_ns: u64 },
}

/// The waiting side of one spawned child: its pid, whether it is traced, and how
/// long `finish` may wait for it, in nanoseconds.
#[derive(Debug, Clone, Copy, PartialEq, Eq, Structural)]
pub struct Finish {
    pub pid: i32,
    pub ptrace: bool,
    pub timeout_ns: u64,
}

/// The decision after one receive. `received` is the event taken from the queue
/// of the child, or none where the receive ran out of time; `elapsed_ns` is the
/// time since `finish` began.
pub open spec fn finish_action(f: Finish, elapsed_ns: u64, received: Option<WaitEvent>) -> FinishAction {
    match received {
        None => FinishAction::TimedOut,
        Some(ev) => match ev.status {
            ChildStatus::Exited(_) => FinishAction::Exited(ev.pid),
            _ => if elapsed_ns > f.timeout_ns {
                FinishAction::TimedOut
            } else {
                FinishAction::Resume {
                    cont: f.ptrace,
                    time_left_ns: (f.timeout_ns - elapsed_ns) as u64,
                }
            },
        },
    }
}

impl Finish {
    /// A waiter for the child `pid`, spawned traced or not, allowed `timeout_ns`.
    pub fn new(pid: i32, ptrace: bool, timeout_ns: u64) -> (r: Finish)
        ensures
            r == (Finish { pid, ptrace, timeout_ns }),
    {
        Finish { pid, ptrace, timeout_ns }
    }

    /// Decides what follows one receive, and releases the child's entry from the
    /// table once its exit has been seen.
    pub fn step(&self, table: &mut WaitTable, elapsed_ns: u64, received: Option<WaitEvent>) -> (r:
        FinishAction)
        requires
            old(table).wf(),
            received is Some ==> received->Some_0.pid == self.pid,
        ensures
            final(table).wf(),
            r == finish_action(*self, elapsed_ns, received),
            r is Exited ==> final(table)@ == old(table)@.remove(self.pid),
            !(r is Exited) ==> final(table)@ == old(table)@,
    {
        match received {
            None => FinishAction::TimedOut,
            Some(ev) => match ev.status {
                ChildStatus::Exited(_) => {
                    table.release(ev.pid);
                    FinishAction::Exited(ev.pid)
                },
                _ => {
                    if elapsed_ns > self.timeout_ns {
                        FinishAction::TimedOut
                    } else {
                        FinishAction::Resume {
                            cont: self.ptrace,
                            time_left_ns: self.timeout_ns - elapsed_ns,
                        }
                    }
                },
            },
        }
    }
}

/// Every step of `finish` ends it with the exit or a timeout, or resumes with no
/// more time than is left before the deadline; once the deadline has passed,
/// nothing resumes.
pub proof fn law_finish_ends_by_deadline(f: Finish, elapsed_ns: u64, received: Option<WaitEvent>)
    ensures
        finish_action(f, elapsed_ns, received) is Resume ==> elapsed_ns <= f.timeout_ns
            && finish_action(f, elapsed_ns, received)->time_left_ns == f.timeout_ns - elapsed_ns,
        elapsed_ns > f.timeout_ns ==> !(finish_action(f, elapsed_ns, received) is Resume),
        received is None ==> finish_action(f, elapsed_ns, received) == FinishAction::TimedOut,
{
}

/// With a zero timeout, a child that never exits is never waited for: each step
/// reports a timeout or resumes with no time left, so the next receive ends it.
pub proof fn law_zero_timeout_never_waits(f: Finish, elapsed_ns: u64, received: Option<WaitEvent>)
    requires
        f.timeout_ns == 0,
        received is Some ==> !(received->Some_0.status is Exited),
    ensures
        finish_action(f, elapsed_ns, received) == FinishAction::TimedOut || finish_action(
            f,
            elapsed_ns,
            received,
        ) == (FinishAction::Resume { cont: f.ptrace, time_left_ns: 0 }),
        finish_action(f, elapsed_ns, None) == FinishAction::TimedOut,
{
}

} // verus!
