use std::collections::HashMap;
use vstd::prelude::*;

use crate::errors::{Runner, SolverError};

verus! {

broadcast use vstd::std_specs::hash::group_hash_axioms;

/// A state change of a child, as the kernel's wait call reports it.
#[derive(Debug, Clone, Copy, PartialEq, Eq, Structural)]
pub enum ChildStatus {
    /// The child exited with this code.
    Exited(i32),
    /// The child was ended by this signal; the flag tells whether it dumped core.
    Signaled(i32, bool),
    /// The child was stopped by this signal.
    Stopped(i32),
    /// A traced child stopped at a tracing event: the signal and the event.
    PtraceEvent(i32, i32),
    /// A traced child stopped at a system call.
    PtraceSyscall,
    /// The child was resumed.
    Continued,
    /// No child has changed state.
    StillAlive,
}

/// One state change of the child `pid`.
#[derive(Debug, Clone, Copy, PartialEq, Eq, Structural)]
pub struct WaitEvent {
    pub pid: i32,
    pub status: ChildStatus,
}

/// The events queued for one child, and whether its spawner has claimed them.
pub struct ChanPair {
    events: Vec<WaitEvent>,
    claimed: bool,
}

/// The routing table of the reaper: for each pid, the queue of its events.
///
/// An entry exists for a pid once its spawner has claimed it or the reaper has
/// delivered an event for it, and until the spawner releases it.
pub struct WaitTable {
    chans: HashMap<i32, ChanPair>,
}

/// What the table holds for each pid: its queued events and whether it is claimed.
pub type TableView = Map<i32, (Seq<WaitEvent>, bool)>;

/// The entry of `pid`, or an empty unclaimed one where there is none.
pub open spec fn chan_of(m: TableView, pid: i32) -> (Seq<WaitEvent>, bool) {
    if m.contains_key(pid) {
        m[pid]
    } else {
        (Seq::empty(), false)
    }
}

/// Every queued event belongs to the pid it is queued under.
pub open spec fn routes_by_pid(m: TableView) -> bool {
    forall|p: i32, i: int|
        #![trigger m[p].0[i]]
        m.contains_key(p) && 0 <= i < m[p].0.len() ==> m[p].0[i].pid == p
}

/// The table after an event of `pid` is appended to its queue.
pub open spec fn delivered(m: TableView, pid: i32, status: ChildStatus) -> TableView {
    m.insert(pid, (chan_of(m, pid).0.push(WaitEvent { pid, status }), chan_of(m, pid).1))
}

/// The table after the spawner of `pid` claims its queue.
pub open spec fn claimed(m: TableView, pid: i32) -> TableView {
    m.insert(pid, (chan_of(m, pid).0, true))
}

/// The oldest event queued for `pid`.
pub open spec fn front(m: TableView, pid: i32) -> Option<WaitEvent> {
    if chan_of(m, pid).0.len() > 0 {
        Some(chan_of(m, pid).0[0])
    } else {
        None
    }
}

/// The table after the oldest event of `pid` is taken.
pub open spec fn popped(m: TableView, pid: i32) -> TableView {
    if chan_of(m, pid).0.len() > 0 {
        m.insert(pid, (chan_of(m, pid).0.drop_first(), chan_of(m, pid).1))
    } else {
        m
    }
}

/// What one non-blocking wait call on any child returned.
#[derive(Debug, Clone, Copy, PartialEq, Eq, Structural)]
pub enum WaitResult {
    /// The child with this pid changed state.
    Changed(i32, ChildStatus),
    /// No child has changed state since the last call.
    NothingReady,
    /// The process has no children left to wait for.
    NoChildren,
    /// The call failed with this error number.
    Failed(i32),
}

/// What one timed wait for the child-exit signal returned.
#[derive(Debug, Clone, Copy, PartialEq, Eq, Structural)]
pub enum SignalWait {
    /// The signal was dequeued.
    Received,
    /// No signal came within the wait's timeout.
    TimedOut,
    /// The wait was interrupted by another signal.
    Interrupted,
    /// The wait failed with this error number.
    Failed(i32),
}

impl SignalWait {
    /// Whether the reaper must now drain the reported child changes. On a
    /// timeout, an interruption or a failure it waits again.
    pub fn drains(&self) -> (r: bool)
        ensures
            r <==> *self is Received,
    {
        match self {
            SignalWait::Received => true,
            _ => false,
        }
    }
}

impl View for WaitTable {
    type V = TableView;

    closed spec fn view(&self) -> TableView {
        Map::new(
            |p: i32| self.chans@.contains_key(p),
            |p: i32| (self.chans@[p].events@, self.chans@[p].claimed),
        )
    }
}

impl WaitTable {
    pub open spec fn wf(&self) -> bool {
        routes_by_pid(self@)
    }

    /// An empty table.
    pub fn new() -> (r: WaitTable)
        ensures
            r@ == Map::<i32, (Seq<WaitEvent>, bool)>::empty(),
            r.wf(),
    {
        let r = WaitTable { chans: HashMap::new() };
        assert(r@ =~= Map::<i32, (Seq<WaitEvent>, bool)>::empty());
        r
    }

    /// Takes the entry of `pid` out of the map, or makes an empty one.
    fn take_chan(&mut self, pid: i32) -> (c: ChanPair)
        ensures
            c.events@ == chan_of(old(self)@, pid).0,
            c.claimed == chan_of(old(self)@, pid).1,
            final(self)@ == old(self)@.remove(pid),
    {
        let c = match self.chans.remove(&pid) {
            Some(c) => c,
            None => ChanPair { events: Vec::new(), claimed: false },
        };
        assert(self@ =~= old(self)@.remove(pid));
        c
    }

    /// Puts the entry of `pid` back into the map.
    fn put_chan(&mut self, pid: i32, c: ChanPair)
        ensures
            final(self)@ == old(self)@.insert(pid, (c.events@, c.claimed)),
    {
        self.chans.insert(pid, c);
        assert(self@ =~= old(self)@.insert(pid, (c.events@, c.claimed)));
    }

    /// Appends a state change of `pid` to its queue, creating the entry if the
    /// spawner has not claimed it yet.
    pub fn deliver(&mut self, pid: i32, status: ChildStatus)
        requires
            old(self).wf(),
        ensures
            final(self)@ == delivered(old(self)@, pid, status),
            final(self).wf(),
    {
        let mut c = self.take_chan(pid);
        c.events.push(WaitEvent { pid, status });
        self.put_chan(pid, c);
        assert(self@ =~= delivered(old(self)@, pid, status));
    }

    /// Claims the queue of `pid` for its spawner, creating the entry if the
    /// reaper has not seen the child yet. A second claim is refused.
    pub fn claim(&mut self, pid: i32) -> (r: Result<(), SolverError>)
        requires
            old(self).wf(),
        ensures
            final(self).wf(),
            chan_of(old(self)@, pid).1 <==> r is Err,
            r is Ok ==> final(self)@ == claimed(old(self)@, pid),
            r is Err ==> final(self)@ == old(self)@ && r->Err_0.runner == Runner::Unknown,
    {
        if let Some(c) = self.chans.get(&pid) {
            if c.claimed {
                return Err(SolverError::new(Runner::Unknown, "already took receiver"));
            }
        }
        let mut c = self.take_chan(pid);
        c.claimed = true;
        self.put_chan(pid, c);
        assert(self@ =~= claimed(old(self)@, pid));
        Ok(())
    }

    /// Completes a spawn. Where the child started, claims its queue under its pid;
    /// where it did not, hands the error back and leaves the table untouched.
    pub fn register_spawn(&mut self, spawned: Result<i32, SolverError>) -> (r: Result<
        i32,
        SolverError,
    >)
        requires
            old(self).wf(),
        ensures
            final(self).wf(),
            spawned is Err ==> r == spawned && final(self)@ == old(self)@,
            spawned is Ok && !chan_of(old(self)@, spawned->Ok_0).1 ==> r == spawned
                && final(self)@ == claimed(old(self)@, spawned->Ok_0),
            spawned is Ok && chan_of(old(self)@, spawned->Ok_0).1 ==> r is Err && r->Err_0.runner
                == Runner::Unknown && final(self)@ == old(self)@,
    {
        match spawned {
            Ok(pid) => match self.claim(pid) {
                Ok(()) => Ok(pid),
                Err(e) => Err(e),
            },
            Err(e) => Err(e),
        }
    }

    /// One step of the reaper's drain: routes a reported state change to the
    /// queue of its pid, and says whether to call wait again. Draining stops
    /// when no child is ready, none is left, or the call failed.
    pub fn reap(&mut self, result: WaitResult) -> (more: bool)
        requires
            old(self).wf(),
        ensures
            final(self).wf(),
            more <==> (result is Changed && result->Changed_1 != ChildStatus::StillAlive),
            more ==> final(self)@ == delivered(old(self)@, result->Changed_0, result->Changed_1),
            !more ==> final(self)@ == old(self)@,
    {
        match result {
            WaitResult::Changed(pid, status) => {
                if let ChildStatus::StillAlive = status {
                    false
                } else {
                    self.deliver(pid, status);
                    true
                }
            },
            _ => false,
        }
    }

    /// Takes the oldest queued event of `pid`, if any.
    pub fn next_event(&mut self, pid: i32) -> (r: Option<WaitEvent>)
        requires
            old(self).wf(),
        ensures
            final(self).wf(),
            r == front(old(self)@, pid),
            final(self)@ == popped(old(self)@, pid),
            r is Some ==> r->Some_0.pid == pid,
    {
        let queued = match self.chans.get(&pid) {
            Some(c) => c.events.len() > 0,
            None => false,
        };
        if !queued {
            return None;
        }
        let mut c = self.take_chan(pid);
        let ev = c.events.remove(0);
        self.put_chan(pid, c);
        assert(self@ =~= popped(old(self)@, pid));
        assert(old(self)@[pid].0[0].pid == pid);
        Some(ev)
    }

    /// Drops the entry of `pid` and whatever is still queued in it.
    pub fn release(&mut self, pid: i32)
        requires
            old(self).wf(),
        ensures
            final(self).wf(),
            final(self)@ == old(self)@.remove(pid),
    {
        self.chans.remove(&pid);
        assert(self@ =~= old(self)@.remove(pid));
    }

    /// Whether the table has an entry for `pid`.
    pub fn contains(&self, pid: i32) -> (r: bool)
        ensures
            r == self@.contains_key(pid),
    {
        self.chans.contains_key(&pid)
    }

    /// The number of pids that have an entry.
    pub fn len(&self) -> (r: usize)
        ensures
            r == self@.len(),
    {
        assert(self@.dom() =~= self.chans@.dom());
        self.chans.len()
    }
}

/// Delivering an event of one pid keeps every event under its own pid and
/// leaves the entries of all other pids as they were.
pub proof fn law_delivery_stays_with_its_pid(m: TableView, pid: i32, status: ChildStatus)
    requires
        routes_by_pid(m),
    ensures
        routes_by_pid(delivered(m, pid, status)),
        forall|q: i32| q != pid ==> #[trigger] chan_of(delivered(m, pid, status), q) == chan_of(m, q),
{
}

/// A child that exits before its spawner claims it is still seen: the claim and
/// the delivery commute, and the exit is the first event the spawner takes.
pub proof fn law_early_exit_is_observed(m: TableView, pid: i32, code: i32)
    requires
        routes_by_pid(m),
        !m.contains_key(pid),
    ensures
        claimed(delivered(m, pid, ChildStatus::Exited(code)), pid) == delivered(
            claimed(m, pid),
            pid,
            ChildStatus::Exited(code),
        ),
        front(claimed(delivered(m, pid, ChildStatus::Exited(code)), pid), pid) == Some(
            WaitEvent { pid, status: ChildStatus::Exited(code) },
        ),
{
    let ev = WaitEvent { pid, status: ChildStatus::Exited(code) };
    assert(claimed(delivered(m, pid, ChildStatus::Exited(code)), pid) =~= delivered(
        claimed(m, pid),
        pid,
        ChildStatus::Exited(code),
    ));
    assert(chan_of(claimed(delivered(m, pid, ChildStatus::Exited(code)), pid), pid).0 =~= seq![ev]);
}

} // verus!
