//! Termination strategies and what each one is made of.

use std::time::Duration;
use vstd::prelude::*;

verus! {

/// How a guarded process is brought to an end. Chosen once, when the guard is
/// built, and never changed.
#[derive(Debug, Clone, Copy, PartialEq, Eq)]
pub enum ProcessTermination {
    /// Wait indefinitely for the process to exit.
    Wait,
    /// Wait for the process to exit, at most for the given duration.
    WaitTimeout(Duration),
    /// Wait at most for the given duration, then kill the process if it has
    /// not exited.
    WaitTimeoutKill(Duration),
    /// Send Ctrl+C to the process and do not wait.
    CtrlC,
    /// Send Ctrl+C, then wait indefinitely for the process to exit.
    CtrlCWait,
    /// Send Ctrl+C, then wait at most for the given duration.
    CtrlCWaitTimeout(Duration),
    /// Send Ctrl+C, wait at most for the given duration, then kill the
    /// process if it has not exited.
    CtrlCWaitTimeoutKill(Duration),
    /// Kill the process immediately and do not wait.
    Kill,
    /// Kill the process immediately, then wait indefinitely for it to exit.
    KillWait,
}

/// The wait a strategy performs once its opening signal, if any, is out.
pub enum Waiting {
    /// The strategy does not wait.
    NoWait,
    /// The strategy blocks until the process has exited.
    Unbounded,
    /// The strategy blocks for at most the given duration.
    Bounded(Duration),
}

impl ProcessTermination {
    /// The strategy starts by sending Ctrl+C.
    pub open spec fn sends_ctrl_c(self) -> bool {
        self is CtrlC || self is CtrlCWait || self is CtrlCWaitTimeout
            || self is CtrlCWaitTimeoutKill
    }

    /// The strategy starts by killing the process.
    pub open spec fn kills_first(self) -> bool {
        self is Kill || self is KillWait
    }

    /// The wait that belongs to the strategy.
    pub open spec fn waiting(self) -> Waiting {
        match self {
            ProcessTermination::Wait
            | ProcessTermination::CtrlCWait
            | ProcessTermination::KillWait => Waiting::Unbounded,
            ProcessTermination::WaitTimeout(timeout)
            | ProcessTermination::WaitTimeoutKill(timeout)
            | ProcessTermination::CtrlCWaitTimeout(timeout)
            | ProcessTermination::CtrlCWaitTimeoutKill(timeout) => Waiting::Bounded(timeout),
            ProcessTermination::CtrlC | ProcessTermination::Kill => Waiting::NoWait,
        }
    }

    /// The strategy waits for a bounded time only.
    pub open spec fn has_timeout(self) -> bool {
        self.waiting() is Bounded
    }

    /// The strategy falls back to killing the process when its bounded wait
    /// elapses.
    pub open spec fn kills_on_timeout(self) -> bool {
        self is WaitTimeoutKill || self is CtrlCWaitTimeoutKill
    }

    /// The strategy waits for the process without any bound.
    pub open spec fn waits_indefinitely(self) -> bool {
        self.waiting() is Unbounded
    }
}

} // verus!
