//! The termination engine: a strategy read as a sequence of operations.
//!
//! The engine performs no operation itself. [`terminate`] names the operation
//! that comes next; whoever owns the process performs it and reports the
//! [`Event`] it produced, and `terminate` answers with the operation after it
//! or with the final result. A strategy never asks for the same operation
//! twice, so the strategy and the operation in flight are all the state there
//! is.

use std::time::Duration;
use vstd::prelude::*;
use crate::error::Error;
use crate::strategy::ProcessTermination;
use crate::strategy::Waiting;

verus! {

/// One operation on the guarded process.
#[derive(Debug, Clone, Copy, PartialEq, Eq)]
pub enum Action {
    /// Block until the process has exited.
    Wait,
    /// Block until the process has exited, at most for the given duration.
    WaitTimeout(Duration),
    /// Send Ctrl+C to the process.
    CtrlC,
    /// Kill the process.
    Kill,
}

/// What an operation reported. `S` is the exit status of the platform.
#[derive(Debug)]
pub enum Event<S> {
    /// A wait ended because the process exited with this status.
    Exited(S),
    /// A bounded wait elapsed while the process was still running.
    TimedOut,
    /// A signal was delivered or a kill was issued.
    Completed,
    /// The operation failed.
    Failed(Error),
}

/// What the engine wants next.
#[derive(Debug)]
pub enum Step<S> {
    /// Perform this operation and report its event.
    Perform(Action),
    /// The termination is over. `Ok(Some(status))` is a graceful exit seen by
    /// a wait, `Ok(None)` means that the process was signalled or killed
    /// without its exit being observed.
    Finished(Result<Option<S>, Error>),
}

/// The operation a strategy opens with.
pub open spec fn first_action(termination: ProcessTermination) -> Action {
    if termination.sends_ctrl_c() {
        Action::CtrlC
    } else if termination.kills_first() {
        Action::Kill
    } else {
        match termination.waiting() {
            Waiting::Bounded(timeout) => Action::WaitTimeout(timeout),
            _ => Action::Wait,
        }
    }
}

/// What follows the opening signal of a strategy: its wait, or the end where
/// it has none.
pub open spec fn after_signal<S>(termination: ProcessTermination) -> Step<S> {
    match termination.waiting() {
        Waiting::NoWait => Step::Finished(Ok(None)),
        Waiting::Unbounded => Step::Perform(Action::Wait),
        Waiting::Bounded(timeout) => Step::Perform(Action::WaitTimeout(timeout)),
    }
}

/// What follows `event`, reported by `action`, under `termination`.
///
/// A failure ends the termination with that failure. An exit seen by a wait
/// ends it with the status. An elapsed bounded wait leads to the kill where
/// the strategy has that fallback and to [`Error::Timeout`] where it has not.
/// A delivered Ctrl+C, and a kill that opens the strategy, lead to the
/// strategy's wait; a fallback kill ends the termination. An event that the
/// operation cannot have produced ends it with [`Error::UnknownError`].
pub open spec fn react<S>(termination: ProcessTermination, action: Action, event: Event<S>) -> Step<
    S,
> {
    match event {
        Event::Failed(error) => Step::Finished(Err(error)),
        Event::Exited(status) => if action is Wait || action is WaitTimeout {
            Step::Finished(Ok(Some(status)))
        } else {
            Step::Finished(Err(Error::UnknownError()))
        },
        Event::TimedOut => if action is WaitTimeout {
            if termination.kills_on_timeout() {
                Step::Perform(Action::Kill)
            } else {
                Step::Finished(Err(Error::Timeout))
            }
        } else {
            Step::Finished(Err(Error::UnknownError()))
        },
        Event::Completed => match action {
            Action::CtrlC => after_signal::<S>(termination),
            Action::Kill => if termination.kills_first() {
                after_signal::<S>(termination)
            } else {
                Step::Finished(Ok(None))
            },
            _ => Step::Finished(Err(Error::UnknownError())),
        },
    }
}

/// The engine as one function: the opening operation where nothing has been
/// performed yet, and the reaction to the last operation's event otherwise.
pub open spec fn next_step<S>(
    termination: ProcessTermination,
    progress: Option<(Action, Event<S>)>,
) -> Step<S> {
    match progress {
        None => Step::Perform(first_action(termination)),
        Some((action, event)) => react(termination, action, event),
    }
}

/// The wait of `termination`, or the end where it does not wait.
fn wait_or_finish<S>(termination: ProcessTermination) -> (step: Step<S>)
    ensures
        step == after_signal::<S>(termination),
{
    match termination {
        ProcessTermination::Wait
        | ProcessTermination::CtrlCWait
        | ProcessTermination::KillWait => Step::Perform(Action::Wait),
        ProcessTermination::WaitTimeout(timeout)
        | ProcessTermination::WaitTimeoutKill(timeout)
        | ProcessTermination::CtrlCWaitTimeout(timeout)
        | ProcessTermination::CtrlCWaitTimeoutKill(timeout) => Step::Perform(
            Action::WaitTimeout(timeout),
        ),
        ProcessTermination::CtrlC | ProcessTermination::Kill => Step::Finished(Ok(None)),
    }
}

/// What a bounded wait leads to under a strategy that kills on timeout: the
/// status if the process exited in time, the kill if the wait elapsed.
pub fn wait_timeout_kill<S>(event: Event<S>) -> (step: Step<S>)
    ensures
        step == match event {
            Event::Exited(status) => Step::Finished(Ok(Some(status))),
            Event::TimedOut => Step::Perform(Action::Kill),
            Event::Completed => Step::Finished(Err(Error::UnknownError())),
            Event::Failed(error) => Step::Finished(Err(error)),
        },
{
    match event {
        Event::Exited(status) => Step::Finished(Ok(Some(status))),
        Event::TimedOut => Step::Perform(Action::Kill),
        Event::Completed => Step::Finished(Err(Error::UnknownError())),
        Event::Failed(error) => Step::Finished(Err(error)),
    }
}

/// What a wait leads to where no kill follows it: the status if the process
/// exited, [`Error::Timeout`] if a bounded wait elapsed.
pub fn wait_only<S>(bounded: bool, event: Event<S>) -> (step: Step<S>)
    ensures
        step == match event {
            Event::Exited(status) => Step::Finished(Ok(Some(status))),
            Event::TimedOut => if bounded {
                Step::Finished(Err(Error::Timeout))
            } else {
                Step::Finished(Err(Error::UnknownError()))
            },
            Event::Completed => Step::Finished(Err(Error::UnknownError())),
            Event::Failed(error) => Step::Finished(Err(error)),
        },
{
    match event {
        Event::Exited(status) => Step::Finished(Ok(Some(status))),
        Event::TimedOut => if bounded {
            Step::Finished(Err(Error::Timeout))
        } else {
            Step::Finished(Err(Error::UnknownError()))
        },
        Event::Completed => Step::Finished(Err(Error::UnknownError())),
        Event::Failed(error) => Step::Finished(Err(error)),
    }
}

/// Whether `termination` kills the process once its bounded wait has elapsed.
fn has_kill_fallback(termination: ProcessTermination) -> (fallback: bool)
    ensures
        fallback == termination.kills_on_timeout(),
{
    match termination {
        ProcessTermination::WaitTimeoutKill(_) | ProcessTermination::CtrlCWaitTimeoutKill(_) => true,
        _ => false,
    }
}

/// What a signal leads to: the strategy's wait where `leads_to_wait` holds
/// and the signal went out, the end otherwise.
fn after_delivery<S>(termination: ProcessTermination, leads_to_wait: bool, event: Event<S>) -> (step:
    Step<S>)
    ensures
        step == match event {
            Event::Completed => if leads_to_wait {
                after_signal::<S>(termination)
            } else {
                Step::Finished(Ok(None))
            },
            Event::Failed(error) => Step::Finished(Err(error)),
            _ => Step::Finished(Err(Error::UnknownError())),
        },
{
    match event {
        Event::Completed => if leads_to_wait {
            wait_or_finish(termination)
        } else {
            Step::Finished(Ok(None))
        },
        Event::Failed(error) => Step::Finished(Err(error)),
        _ => Step::Finished(Err(Error::UnknownError())),
    }
}

/// Advances the termination of a process under `termination` by one
/// operation.
///
/// Called with `None`, it names the operation the strategy opens with. Called
/// with the operation last performed and the event that operation reported,
/// it names the operation that follows or gives the final result. It is
/// total: an event that the operation cannot have produced ends the
/// termination with [`Error::UnknownError`].
pub fn terminate<S>(termination: ProcessTermination, progress: Option<(Action, Event<S>)>) -> (step:
    Step<S>)
    ensures
        step == next_step(termination, progress),
{
    match progress {
        None => match termination {
            ProcessTermination::Wait => Step::Perform(Action::Wait),
            ProcessTermination::WaitTimeout(timeout)
            | ProcessTermination::WaitTimeoutKill(timeout) => Step::Perform(
                Action::WaitTimeout(timeout),
            ),
            ProcessTermination::CtrlC
            | ProcessTermination::CtrlCWait
            | ProcessTermination::CtrlCWaitTimeout(_)
            | ProcessTermination::CtrlCWaitTimeoutKill(_) => Step::Perform(Action::CtrlC),
            ProcessTermination::Kill | ProcessTermination::KillWait => Step::Perform(Action::Kill),
        },
        Some((action, event)) => match action {
            Action::Wait => wait_only(false, event),
            Action::WaitTimeout(_) => if has_kill_fallback(termination) {
                wait_timeout_kill(event)
            } else {
                wait_only(true, event)
            },
            Action::CtrlC => after_delivery(termination, true, event),
            Action::Kill => {
                let opening = match termination {
                    ProcessTermination::Kill | ProcessTermination::KillWait => true,
                    _ => false,
                };
                after_delivery(termination, opening, event)
            },
        },
    }
}

} // verus!
