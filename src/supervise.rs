use vstd::prelude::*;

verus! {

/// What the one-shot completion signal of a host process shows when looked at.
#[derive(Clone, Copy, Debug, PartialEq, Eq, Structural)]
pub enum Completion {
    /// The process has exited and the signal fired.
    Fired,
    /// The process is still running.
    Pending,
    /// The signal was dropped without firing.
    Lost,
}

/// The first step of terminating a host process.
#[derive(Clone, Copy, Debug, PartialEq, Eq, Structural)]
pub enum TerminateStep {
    /// It already exited: nothing to do.
    AlreadyExited,
    /// Send a forceful kill to this process identifier, then await the signal.
    Kill(i32),
    /// The signal was lost: fail.
    SignalLost,
}

/// Why terminating a host process failed.
#[derive(Clone, Copy, Debug, PartialEq, Eq, Structural)]
pub enum SupervisionError {
    /// The completion signal was dropped without ever firing.
    SignalLost,
    /// The kill could not be delivered.
    KillFailed,
}

/// A running instrumentation host: its process identifier.
#[derive(Clone, Copy, Debug, PartialEq, Eq, Structural)]
pub struct ChildHandle {
    pub pid: i32,
}

impl ChildHandle {
    pub fn new(pid: i32) -> (r: ChildHandle)
        ensures
            r.pid == pid,
    {
        ChildHandle { pid }
    }

    /// Decides how to terminate the process from what its completion signal shows; a
    /// kill is sent only while the signal has not fired.
    pub fn terminate_step(&self, c: Completion) -> (r: TerminateStep)
        ensures
            c == Completion::Fired <==> r == TerminateStep::AlreadyExited,
            c == Completion::Pending <==> r == TerminateStep::Kill(self.pid),
            c == Completion::Lost <==> r == TerminateStep::SignalLost,
    {
        match c {
            Completion::Fired => TerminateStep::AlreadyExited,
            Completion::Pending => TerminateStep::Kill(self.pid),
            Completion::Lost => TerminateStep::SignalLost,
        }
    }
}

/// The outcome of a termination that sent a kill: whether the kill was delivered,
/// and, if so, whether the completion signal then fired.
pub fn finish_terminate(kill_delivered: bool, fired: bool) -> (r: Result<(), SupervisionError>)
    ensures
        !kill_delivered ==> r == Err::<(), SupervisionError>(SupervisionError::KillFailed),
        kill_delivered && !fired ==> r == Err::<(), SupervisionError>(SupervisionError::SignalLost),
        kill_delivered && fired ==> r == Ok::<(), SupervisionError>(()),
{
    if !kill_delivered {
        Err(SupervisionError::KillFailed)
    } else if !fired {
        Err(SupervisionError::SignalLost)
    } else {
        Ok(())
    }
}

/// The outcome of a termination that sent no kill.
pub fn terminate_without_kill(step: TerminateStep) -> (r: Option<Result<(), SupervisionError>>)
    ensures
        step == TerminateStep::AlreadyExited ==> r == Some(Ok::<(), SupervisionError>(())),
        step == TerminateStep::SignalLost ==> r == Some(
            Err::<(), SupervisionError>(SupervisionError::SignalLost),
        ),
        step is Kill ==> r is None,
{
    match step {
        TerminateStep::AlreadyExited => Some(Ok(())),
        TerminateStep::SignalLost => Some(Err(SupervisionError::SignalLost)),
        TerminateStep::Kill(_) => None,
    }
}

} // verus!
