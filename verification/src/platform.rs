//! The platform layer: what the signal and wait primitives of each
//! operating-system family report, turned into results and engine events.
//!
//! The system calls are made by the caller. Each function here takes what a
//! call returned, as plain values, and decides what that means.

pub mod unix;
pub mod windows;

use vstd::prelude::*;
use crate::engine::Event;
use crate::error::Error;

verus! {

/// What the attempt to deliver an interrupt returned, for either family.
#[derive(Debug, Clone, Copy, PartialEq, Eq)]
pub enum Delivery {
    /// The POSIX family: the status that `kill` returned and, where it is
    /// not 0, the last operating-system error if there is one.
    Unix { status: i32, os_error: Option<i32> },
    /// The console family: the status that `GenerateConsoleCtrlEvent`
    /// returned and the last error of the calling thread.
    Windows { status: i32, last_error: u32 },
}

/// What a non-blocking look at the process found.
#[derive(Debug)]
pub enum Probe<S> {
    /// The process has exited with this status.
    Exited(S),
    /// The process is still running.
    Running,
    /// The look itself failed, with this operating-system error if the
    /// platform named one.
    Failed(Option<i32>),
}

/// Decides whether an interrupt was delivered.
///
/// On the POSIX family a status of 0 is success; any other status is
/// [`Error::FailedToSendCtrlC`] with the operating-system error as its code.
/// On the console family a status other than 0 is success; a status of 0 is
/// [`Error::FailedToSendCtrlC`] with the last error as its code.
pub fn send_ctrl_c(delivery: Delivery) -> (result: Result<(), Error>)
    ensures
        delivery matches Delivery::Unix { status, os_error } ==> {
            &&& status == 0 ==> result is Ok
            &&& status != 0 ==> result is Err && result->Err_0 is FailedToSendCtrlC
            &&& os_error matches Some(code) ==> result == unix::delivered(status, code)
        },
        delivery matches Delivery::Windows { status, last_error } ==> result == windows::delivered(
            status,
            last_error,
        ),
{
    match delivery {
        Delivery::Unix { status, os_error } => unix::_send_ctrl_c(status, os_error),
        Delivery::Windows { status, last_error } => windows::_send_ctrl_c(status, last_error),
    }
}

/// The event of an attempt to send Ctrl+C.
pub fn signal_event<S>(result: Result<(), Error>) -> (event: Event<S>)
    ensures
        event == match result {
            Ok(_) => Event::<S>::Completed,
            Err(error) => Event::Failed(error),
        },
{
    match result {
        Ok(_) => Event::Completed,
        Err(error) => Event::Failed(error),
    }
}

/// The event of an unbounded wait: the exit status, or the I/O error of the
/// wait as [`Error::Io`].
pub fn wait_event<S>(result: Result<S, std::io::Error>) -> (event: Event<S>)
    ensures
        event == match result {
            Ok(status) => Event::Exited(status),
            Err(error) => Event::Failed(Error::Io(error)),
        },
{
    match result {
        Ok(status) => Event::Exited(status),
        Err(error) => Event::Failed(Error::Io(error)),
    }
}

/// The event of a bounded wait: the exit status, the timeout, or the failure
/// of the wait.
pub fn bounded_wait_event<S>(result: Result<S, Error>) -> (event: Event<S>)
    ensures
        event == match result {
            Ok(status) => Event::Exited(status),
            Err(Error::Timeout) => Event::TimedOut,
            Err(error) => Event::Failed(error),
        },
{
    match result {
        Ok(status) => Event::Exited(status),
        Err(Error::Timeout) => Event::TimedOut,
        Err(error) => Event::Failed(error),
    }
}

/// `std::io::Error::raw_os_error`: the operating-system error code that an
/// I/O error was made from, if it was made from one. The error is opaque
/// here, so nothing is claimed of the code.
#[verifier::external_body]
fn raw_os_error(error: &std::io::Error) -> (code: Option<i32>) {
    error.raw_os_error()
}

/// What a non-blocking status fetch found: the status where the process has
/// exited, a running process where it has not, and a failed look, with the
/// operating-system code of the error if it has one, where the fetch failed.
pub fn probed<S>(result: Result<Option<S>, std::io::Error>) -> (probe: Probe<S>)
    ensures
        result matches Ok(Some(status)) ==> probe == Probe::Exited(status),
        result matches Ok(None) ==> probe == Probe::<S>::Running,
        result is Err ==> probe is Failed,
{
    match result {
        Ok(Some(status)) => Probe::Exited(status),
        Ok(None) => Probe::Running,
        Err(error) => Probe::Failed(raw_os_error(&error)),
    }
}

/// Whether `code` is one of `tolerated`.
fn tolerates(tolerated: &[i32], code: i32) -> (found: bool)
    ensures
        found == tolerated@.contains(code),
{
    let mut i: usize = 0;
    while i < tolerated.len()
        invariant
            i <= tolerated@.len(),
            forall|j: int| 0 <= j < i ==> tolerated@[j] != code,
        decreases tolerated@.len() - i,
    {
        if tolerated[i] == code {
            return true;
        }
        i += 1;
    }
    false
}

/// What a failed kill amounts to: nothing to report where its
/// operating-system error `code` is one of `tolerated`, the I/O error as
/// [`Error::Io`] otherwise.
pub open spec fn kill_failed<S>(error: std::io::Error, code: Option<i32>, tolerated: Seq<i32>) -> Event<
    S,
> {
    if code matches Some(code) && tolerated.contains(code) {
        Event::Completed
    } else {
        Event::Failed(Error::Io(error))
    }
}

/// The event of a kill that failed with `error`, whose operating-system error
/// code is `code`.
///
/// Killing a process that is already gone is no failure: the process is not
/// running, which is all the kill was for. Which codes say so differs between
/// platforms, so the caller lists them in `tolerated`.
pub fn kill_failure<S>(error: std::io::Error, code: Option<i32>, tolerated: &[i32]) -> (event: Event<
    S,
>)
    ensures
        event == kill_failed::<S>(error, code, tolerated@),
{
    match code {
        Some(code) => if tolerates(tolerated, code) {
            Event::Completed
        } else {
            Event::Failed(Error::Io(error))
        },
        None => Event::Failed(Error::Io(error)),
    }
}

/// The event of a kill: done where the kill went through, and otherwise
/// what [`kill_failure`] makes of the error and its operating-system code.
pub fn kill_event<S>(result: Result<(), std::io::Error>, tolerated: &[i32]) -> (event: Event<S>)
    ensures
        result is Ok ==> event == Event::<S>::Completed,
        result matches Err(error) ==> event == Event::<S>::Failed(Error::Io(error)) || (event
            == Event::<S>::Completed && tolerated@.len() > 0),
{
    match result {
        Ok(_) => Event::Completed,
        Err(error) => {
            let code = raw_os_error(&error);
            kill_failure(error, code, tolerated)
        },
    }
}

} // verus!
