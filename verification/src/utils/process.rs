//! The end of a process by force, for the two families of platforms: those
//! that take a signal, and those that take a handle.
//!
//! Nothing here waits for the process to be gone: the process is asked to
//! end, and that is all.

use crate::utils::browser::BrowserError;
use vstd::prelude::*;

verus! {

/// The signal that no process can refuse.
pub const KILL_SIGNAL: i32 = 9;

/// The exit code that a process ended by force is given.
pub const FORCED_EXIT_CODE: u32 = 0;

/// How a platform ends a process.
#[derive(Debug, Clone, Copy, PartialEq, Eq)]
pub enum ProcessModel {
    /// A signal is sent to the process id.
    Signal,
    /// A handle to the process is opened, used and closed.
    Handle,
}

/// One call that the caller is asked to make.
#[derive(Debug, Clone, Copy, PartialEq, Eq)]
pub enum KillAction {
    /// Send the signal to the process.
    SendSignal { pid: u32, signal: i32 },
    /// Open a handle to the process, with the right to terminate it and
    /// nothing more, not to be inherited.
    OpenProcess { pid: u32 },
    /// Terminate the process of the open handle, with this exit code.
    TerminateProcess { exit_code: u32 },
    /// Close the open handle.
    CloseHandle,
}

/// The call that is under way.
#[derive(Debug, Clone, Copy, PartialEq, Eq)]
pub enum KillTask {
    Signalling,
    Opening,
    Terminating,
    Closing,
}

/// What the caller does next: make a call and come back with its outcome, or
/// take the result.
#[derive(Debug, PartialEq, Eq)]
pub enum KillStep {
    Perform(KillAction, KillTask),
    Finished(Result<(), BrowserError>),
}

/// The first step of ending the process `pid`.
pub open spec fn kill_spec(pid: u32, model: ProcessModel) -> KillStep {
    match model {
        ProcessModel::Signal => KillStep::Perform(
            KillAction::SendSignal { pid, signal: KILL_SIGNAL },
            KillTask::Signalling,
        ),
        ProcessModel::Handle => KillStep::Perform(
            KillAction::OpenProcess { pid },
            KillTask::Opening,
        ),
    }
}

/// What follows from the outcome of a call. A signal is sent and not asked
/// after. With a handle, each call that fails ends the attempt with an error
/// of its own: the handle that cannot be opened, the process that cannot be
/// terminated, the handle that cannot be closed.
pub open spec fn kill_next(task: KillTask, succeeded: bool) -> KillStep {
    match task {
        KillTask::Signalling => KillStep::Finished(Ok(())),
        KillTask::Opening => if succeeded {
            KillStep::Perform(
                KillAction::TerminateProcess { exit_code: FORCED_EXIT_CODE },
                KillTask::Terminating,
            )
        } else {
            KillStep::Finished(Err(BrowserError::OpenProcess))
        },
        KillTask::Terminating => if succeeded {
            KillStep::Perform(KillAction::CloseHandle, KillTask::Closing)
        } else {
            KillStep::Finished(Err(BrowserError::TerminateProcess))
        },
        KillTask::Closing => if succeeded {
            KillStep::Finished(Ok(()))
        } else {
            KillStep::Finished(Err(BrowserError::CloseHandle))
        },
    }
}

/// Begins the end of the process `pid` on a platform of this family.
pub fn kill_process(pid: u32, model: ProcessModel) -> (step: KillStep)
    ensures
        step == kill_spec(pid, model),
{
    match model {
        ProcessModel::Signal => KillStep::Perform(
            KillAction::SendSignal { pid, signal: KILL_SIGNAL },
            KillTask::Signalling,
        ),
        ProcessModel::Handle => KillStep::Perform(
            KillAction::OpenProcess { pid },
            KillTask::Opening,
        ),
    }
}

/// What follows from the outcome of the call that was under way:
/// `succeeded` says whether the platform reported success.
pub fn kill_advance(task: KillTask, succeeded: bool) -> (step: KillStep)
    ensures
        step == kill_next(task, succeeded),
{
    match task {
        KillTask::Signalling => KillStep::Finished(Ok(())),
        KillTask::Opening => {
            if !succeeded {
                return KillStep::Finished(Err(BrowserError::OpenProcess));
            }
            KillStep::Perform(
                KillAction::TerminateProcess { exit_code: FORCED_EXIT_CODE },
                KillTask::Terminating,
            )
        },
        KillTask::Terminating => {
            if !succeeded {
                return KillStep::Finished(Err(BrowserError::TerminateProcess));
            }
            KillStep::Perform(KillAction::CloseHandle, KillTask::Closing)
        },
        KillTask::Closing => {
            if !succeeded {
                return KillStep::Finished(Err(BrowserError::CloseHandle));
            }
            KillStep::Finished(Ok(()))
        },
    }
}

/// The calls that can still follow the one under way.
pub open spec fn kill_calls_left(task: KillTask) -> nat {
    match task {
        KillTask::Signalling => 0,
        KillTask::Opening => 2,
        KillTask::Terminating => 1,
        KillTask::Closing => 0,
    }
}

/// The end of a process takes at most three calls, and succeeds exactly
/// when every call on the way did: with a handle, the process is terminated
/// before the handle is closed, and nothing follows a call that failed.
pub proof fn lemma_kill_is_bounded(task: KillTask, succeeded: bool)
    ensures
        kill_next(task, succeeded) matches KillStep::Perform(_, later) ==> succeeded
            && kill_calls_left(later) < kill_calls_left(task),
        task != KillTask::Signalling && !succeeded ==> kill_next(task, succeeded)
            matches KillStep::Finished(Err(_)),
        kill_next(task, succeeded) == KillStep::Finished(Ok(())) ==> task == KillTask::Signalling
            || (task == KillTask::Closing && succeeded),
{
}

} // verus!
