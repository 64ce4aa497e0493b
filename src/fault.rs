use vstd::prelude::*;
use crate::process::State;

verus! {

/// What the kernel does with a process that faulted.
#[derive(Clone, Copy, Debug, PartialEq, Eq, Structural)]
pub enum FaultAction {
    /// Reset the process to its initial state and let it run again.
    Restart,
    /// Stop the process for good; other processes keep running.
    Panic,
}

/// Restarts a faulting process until it has been restarted `threshold`
/// times; the fault after that stops it permanently.
#[derive(Clone, Copy, Debug, PartialEq, Eq, Structural)]
pub struct ThresholdRestartThenPanic {
    pub threshold: usize,
}

/// The policy's decision for a process already restarted `restarts` times.
pub open spec fn threshold_action(threshold: nat, restarts: nat) -> FaultAction {
    if restarts < threshold {
        FaultAction::Restart
    } else {
        FaultAction::Panic
    }
}

/// Lifecycle state and restart count of a process after one fault.
pub open spec fn fault_transition(state: State, restarts: nat, threshold: nat) -> (State, nat) {
    if state == State::Panicked {
        (State::Panicked, restarts)
    } else if threshold_action(threshold, restarts) == FaultAction::Restart {
        (State::Unstarted, restarts + 1)
    } else {
        (State::Panicked, restarts)
    }
}

/// Lifecycle state and restart count after `n` faults of a process that
/// started runnable and never restarted.
pub open spec fn after_faults(n: nat, threshold: nat) -> (State, nat)
    decreases n,
{
    if n == 0 {
        (State::Running, 0)
    } else {
        let prev = after_faults((n - 1) as nat, threshold);
        fault_transition(prev.0, prev.1, threshold)
    }
}

impl ThresholdRestartThenPanic {
    pub fn new(threshold: usize) -> (r: ThresholdRestartThenPanic)
        ensures
            r.threshold == threshold,
    {
        ThresholdRestartThenPanic { threshold }
    }

    /// Restart while fewer than `threshold` restarts have happened.
    pub fn action(&self, restart_count: usize) -> (r: FaultAction)
        ensures
            r == threshold_action(self.threshold as nat, restart_count as nat),
    {
        if restart_count < self.threshold {
            FaultAction::Restart
        } else {
            FaultAction::Panic
        }
    }
}

/// A process that faults is restarted each of its first `threshold` faults,
/// and the next fault stops it for good: it is then never runnable again.
pub proof fn lemma_fault_threshold(threshold: nat, n: nat)
    ensures
        n <= threshold ==> after_faults(n, threshold) == (if n == 0 {
            State::Running
        } else {
            State::Unstarted
        }, n),
        n > threshold ==> after_faults(n, threshold) == (State::Panicked, threshold),
        n > threshold ==> !after_faults(n, threshold).0.spec_runnable(),
    decreases n,
{
    if n > 0 {
        lemma_fault_threshold(threshold, (n - 1) as nat);
    }
}

} // verus!
