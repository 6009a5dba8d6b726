//! The process handle registry: the state behind the supervisor's lock.
//!
//! At most one child process is supervised at a time. The host shell keeps a
//! [`SupervisorState`] behind a mutual-exclusion lock and, while holding the
//! lock, asks it for every start/stop decision: check-then-record for a start,
//! take-then-kill for a stop. Because every read-modify-write sequence on the
//! state happens under the lock, the runs modelled by [`spec_start`] and
//! [`SupervisorState::spec_stop`] are exactly the linearized histories the
//! lock admits.

use vstd::prelude::*;

verus! {

/// An opaque reference to one live child process, as the registry records it.
///
/// At most one `ProcessHandle` is recorded at any instant: the registry keeps
/// it in an `Option` and never overwrites a present handle.
#[derive(Clone, Copy, Debug, PartialEq, Eq, Structural)]
pub struct ProcessHandle {
    /// Operating-system process identifier, enough for the host to address a
    /// termination signal to the process.
    pub pid: u32,
    /// Position of this launch among all launches the registry has recorded;
    /// distinct for every launch, so a relaunched process gets a fresh handle.
    pub launch_seq: u64,
}

/// What a start request decides while the lock is held.
#[derive(Clone, Copy, Debug, PartialEq, Eq, Structural)]
pub enum StartDecision {
    /// A process is already recorded: the request is a no-op success and
    /// nothing is launched.
    AlreadyRunning,
    /// No process is recorded: the caller should launch the configured
    /// executable and, on success, record the new process.
    Launch,
}

/// What a stop request did.
#[derive(Clone, Copy, Debug, PartialEq, Eq, Structural)]
pub enum StopOutcome {
    /// This handle was recorded; it has been removed and the caller must send
    /// the process a hard termination signal.
    Terminated(ProcessHandle),
    /// Nothing was recorded; the request is a no-op success.
    WasNotRunning,
}

/// The decision a start request takes against a registry that records
/// `running`: launch exactly when nothing is recorded.
pub open spec fn decision_for(running: Option<ProcessHandle>) -> StartDecision {
    if running is Some {
        StartDecision::AlreadyRunning
    } else {
        StartDecision::Launch
    }
}

/// Registry state for the single supervised process.
///
/// Holds the one optional [`ProcessHandle`] plus the count of launches
/// recorded so far, which mints a fresh `launch_seq` for each launch.
///
/// The registry learns of the child's life only through its own operations:
/// a process that exits on its own — rather than through a stop request —
/// deliberately stays recorded, and a later start request will see it and
/// decline to relaunch until a stop request clears the entry.
pub struct SupervisorState {
    current: Option<ProcessHandle>,
    launches_made: u64,
}

impl SupervisorState {
    /// The handle of the recorded process, if one is recorded.
    pub closed spec fn running(self) -> Option<ProcessHandle> {
        self.current
    }

    /// How many launches this registry has recorded over its whole life.
    pub closed spec fn launches(self) -> u64 {
        self.launches_made
    }

    /// Well-formedness: a recorded handle was minted by one of the launches
    /// made so far.
    pub closed spec fn wf(self) -> bool {
        self.current matches Some(h) ==> h.launch_seq < self.launches_made
    }

    /// The state and the freshly minted handle after recording a successful
    /// launch of the process with identifier `pid`.
    pub closed spec fn spec_record(self, pid: u32) -> (SupervisorState, ProcessHandle) {
        let h = ProcessHandle { pid, launch_seq: self.launches_made };
        (
            SupervisorState {
                current: Some(h),
                launches_made: (self.launches_made + 1) as u64,
            },
            h,
        )
    }

    /// The state and the reported outcome after a stop request: the recorded
    /// handle, if any, is removed and returned for termination.
    pub closed spec fn spec_stop(self) -> (SupervisorState, StopOutcome) {
        match self.current {
            Some(h) => (
                SupervisorState { current: None, launches_made: self.launches_made },
                StopOutcome::Terminated(h),
            ),
            None => (self, StopOutcome::WasNotRunning),
        }
    }

    /// A fresh registry: no process recorded, no launch made yet.
    pub fn new() -> (s: SupervisorState)
        ensures
            s.wf(),
            s.running() is None,
            s.launches() == 0,
    {
        SupervisorState { current: None, launches_made: 0 }
    }

    /// The check half of a start request, taken while the lock is held:
    /// launch exactly when no process is recorded. Reads only, so a start
    /// whose launch then fails leaves the state exactly as it was.
    pub fn start_decision(&self) -> (d: StartDecision)
        ensures
            d == decision_for(self.running()),
    {
        match self.current {
            Some(_) => StartDecision::AlreadyRunning,
            None => StartDecision::Launch,
        }
    }

    /// The record half of a start request: store the handle of the process
    /// that was just launched, still under the same lock hold that saw the
    /// registry empty. Mints a handle distinct from every earlier one.
    pub fn record_launch(&mut self, pid: u32) -> (h: ProcessHandle)
        requires
            old(self).running() is None,
            old(self).launches() < u64::MAX,
        ensures
            (*final(self), h) == old(self).spec_record(pid),
            h.pid == pid,
            h.launch_seq == old(self).launches(),
            final(self).running() == Some(h),
            final(self).launches() == old(self).launches() + 1,
            old(self).wf() ==> final(self).wf(),
    {
        let h = ProcessHandle { pid, launch_seq: self.launches_made };
        self.current = Some(h);
        self.launches_made = self.launches_made + 1;
        h
    }

    /// A stop request: atomically remove the recorded handle, if any, and
    /// tell the caller which process to terminate. Idempotent — stopping a
    /// registry that records nothing reports `WasNotRunning` and is never an
    /// error. Also the whole shutdown-on-exit hook: the host's exit
    /// notification invokes exactly this logic.
    pub fn stop(&mut self) -> (o: StopOutcome)
        ensures
            (*final(self), o) == old(self).spec_stop(),
            final(self).running() is None,
            final(self).launches() == old(self).launches(),
            (o matches StopOutcome::Terminated(h) ==> old(self).running() == Some(h)),
            (o is WasNotRunning <==> old(self).running() is None),
            old(self).wf() ==> final(self).wf(),
    {
        match self.current.take() {
            Some(h) => StopOutcome::Terminated(h),
            None => StopOutcome::WasNotRunning,
        }
    }

    /// Whether a process is currently recorded.
    pub fn is_running(&self) -> (b: bool)
        ensures
            b == (self.running() is Some),
    {
        self.current.is_some()
    }

    /// How many launches this registry has recorded so far.
    pub fn launch_count(&self) -> (n: u64)
        ensures
            n == self.launches(),
    {
        self.launches_made
    }
}

/// One whole start request whose launch attempt, if made, succeeds: the
/// decision of [`SupervisorState::start_decision`] followed, on `Launch`, by
/// the recording of [`SupervisorState::spec_record`]. Returns the new state
/// and the handle of the launch this request made, if it made one.
pub open spec fn spec_start(s: SupervisorState, pid: u32) -> (SupervisorState, Option<
    ProcessHandle,
>) {
    if decision_for(s.running()) is Launch {
        let r = s.spec_record(pid);
        (r.0, Some(r.1))
    } else {
        (s, None)
    }
}

/// A run of start requests, one after the other, each launch succeeding:
/// the final state and how many launches the whole run made.
pub open spec fn run_starts(s: SupervisorState, pids: Seq<u32>) -> (SupervisorState, nat)
    decreases pids.len(),
{
    if pids.len() == 0 {
        (s, 0)
    } else {
        let first = spec_start(s, pids[0]);
        let rest = run_starts(first.0, pids.skip(1));
        (rest.0, (if first.1 is Some { 1nat } else { 0nat }) + rest.1)
    }
}

/// While a process is recorded, start requests launch nothing: a run of any
/// number of start requests from such a state makes no launch and leaves the
/// state exactly as it was.
pub proof fn lemma_no_launch_while_running(s: SupervisorState, pids: Seq<u32>)
    requires
        s.running() is Some,
    ensures
        run_starts(s, pids) == (s, 0nat),
    decreases pids.len(),
{
    if pids.len() > 0 {
        lemma_no_launch_while_running(s, pids.skip(1));
    }
}

/// Starting is idempotent: two start requests in succession with nothing
/// recorded in between launch exactly once — the second request launches
/// nothing, succeeds all the same, and leaves the state of the first intact,
/// so exactly one live process is ever recorded.
pub proof fn lemma_start_idempotent(s: SupervisorState, pid1: u32, pid2: u32)
    requires
        s.running() is None,
    ensures
        ({
            let once = spec_start(s, pid1);
            let twice = spec_start(once.0, pid2);
            &&& once.1 is Some
            &&& twice.1 is None
            &&& twice.0 == once.0
            &&& once.0.running() == once.1
        }),
{
}

/// Stopping is idempotent: a stop request against a registry that records no
/// process reports `WasNotRunning` and changes nothing, and is never an error.
pub proof fn lemma_stop_idempotent(s: SupervisorState)
    requires
        s.running() is None,
    ensures
        s.spec_stop() == (s, StopOutcome::WasNotRunning),
{
}

/// Mutual exclusion: however many start requests race, the registry's lock
/// serializes them into one run, and of a run of `n >= 1` start requests from
/// a state with no recorded process exactly the first launches — one process
/// is created in total, and one is recorded at the end.
pub proof fn lemma_mutual_exclusion(s: SupervisorState, pids: Seq<u32>)
    requires
        s.running() is None,
        pids.len() >= 1,
    ensures
        run_starts(s, pids).1 == 1,
        run_starts(s, pids).0.running() is Some,
{
    let first = spec_start(s, pids[0]);
    assert(first.0.running() is Some);
    lemma_no_launch_while_running(first.0, pids.skip(1));
}

/// A stop-then-start cycle relaunches: start, stop, start again makes two
/// launches; the stop terminates exactly the first process, and the handle
/// recorded after the second start is new — distinct from the first.
pub proof fn lemma_stop_then_start_relaunches(s: SupervisorState, pid1: u32, pid2: u32)
    requires
        s.running() is None,
        s.launches() < u64::MAX,
    ensures
        ({
            let first = spec_start(s, pid1);
            let stopped = first.0.spec_stop();
            let second = spec_start(stopped.0, pid2);
            &&& first.1 matches Some(h1)
            &&& stopped.1 == StopOutcome::Terminated(h1)
            &&& second.1 matches Some(h2)
            &&& h1 != h2
            &&& second.0.running() == Some(h2)
        }),
{
}

} // verus!
