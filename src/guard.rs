//! The identity guard: a worker's PID is signalled only while the process
//! holding that PID still has the creation time recorded for the worker.
use vstd::prelude::*;

use crate::error::ProcessFunError;

verus! {

/// What became of a request to send the kill signal.
#[derive(Debug, Clone, Copy, PartialEq, Eq, Structural)]
pub enum SignalOutcome {
    /// The signal was delivered.
    Delivered,
    /// No process holds the PID any more.
    NoSuchProcess,
    /// The OS refused with the given error number.
    Failed(i32),
}

/// What to do about a worker that must be stopped.
#[derive(Debug, Clone, Copy, PartialEq, Eq, Structural)]
pub enum KillStep {
    /// Send the kill signal to this PID.
    Signal(i32),
    /// The worker is already gone; nothing may be signalled.
    AlreadyStopped,
}

/// The PID still refers to the worker: its process is there and was created
/// at the recorded time.
pub open spec fn same_process(recorded: u64, current: Option<u64>) -> bool {
    current == Some(recorded)
}

/// Compares the creation time now found for a worker's PID (`None` when no
/// process holds it) with the one recorded when the worker was created.
pub fn is_same_process(recorded: u64, current: Option<u64>) -> (r: bool)
    ensures
        r == same_process(recorded, current),
{
    match current {
        Some(t) => t == recorded,
        None => false,
    }
}

/// The step that stopping the worker `pid` created at `recorded` takes.
pub open spec fn kill_step_of(pid: i32, recorded: u64, current: Option<u64>) -> KillStep {
    if same_process(recorded, current) {
        KillStep::Signal(pid)
    } else {
        KillStep::AlreadyStopped
    }
}

/// Decides whether the worker `pid` may be signalled.
pub fn plan_kill(pid: i32, recorded: u64, current: Option<u64>) -> (r: KillStep)
    ensures
        r == kill_step_of(pid, recorded, current),
{
    if is_same_process(recorded, current) {
        KillStep::Signal(pid)
    } else {
        KillStep::AlreadyStopped
    }
}

/// The result that a kill attempt reports.
pub open spec fn signal_result_of(outcome: SignalOutcome) -> Result<(), i32> {
    match outcome {
        SignalOutcome::Failed(e) => Err(e),
        _ => Ok(()),
    }
}

/// Turns what the kill signal met into the attempt's result: a worker that
/// is already gone counts as stopped.
pub fn signal_result(outcome: SignalOutcome) -> (r: Result<(), ProcessFunError>)
    ensures
        signal_result_of(outcome) is Ok ==> r is Ok,
        signal_result_of(outcome) is Err ==> r == Err::<(), ProcessFunError>(
            ProcessFunError::SignalFailure(signal_result_of(outcome)->Err_0),
        ),
{
    match outcome {
        SignalOutcome::Delivered => Ok(()),
        SignalOutcome::NoSuchProcess => Ok(()),
        SignalOutcome::Failed(e) => Err(ProcessFunError::SignalFailure(e)),
    }
}

/// A PID that now belongs to another process than the recorded worker is
/// never signalled: the worker counts as already stopped.
pub proof fn lemma_reused_pid_not_signalled(pid: i32, recorded: u64, current: Option<u64>)
    requires
        current != Some(recorded),
    ensures
        kill_step_of(pid, recorded, current) == KillStep::AlreadyStopped,
{
}

} // verus!
