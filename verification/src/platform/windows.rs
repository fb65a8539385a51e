//! The console family: a console control event, and a bounded wait on the
//! native single-object wait, whose timeout is 32 bits wide.

use vstd::prelude::*;
use crate::error::Error;
use crate::platform::Probe;

verus! {

/// The longest wait, in milliseconds, that one call of the native wait can
/// be asked for.
pub const MAX_SLICE_MS: u32 = 0xFFFF_FFFF;

/// What a `GenerateConsoleCtrlEvent` that returned `status` amounts to: a
/// failure with the last error as its code for 0, success otherwise.
pub open spec fn delivered(status: i32, last_error: u32) -> Result<(), Error> {
    if status == 0 {
        Err(Error::FailedToSendCtrlC(last_error))
    } else {
        Ok(())
    }
}

/// Decides whether the console control event went out.
pub fn _send_ctrl_c(status: i32, last_error: u32) -> (result: Result<(), Error>)
    ensures
        result == delivered(status, last_error),
{
    if status == 0 {
        Err(Error::FailedToSendCtrlC(last_error))
    } else {
        Ok(())
    }
}

/// One call of the native wait: how long it is to wait, and how much of the
/// requested duration is left after it.
#[derive(Debug, Clone, Copy, PartialEq, Eq)]
pub struct Slice {
    pub wait_ms: u32,
    pub rest_ms: u128,
}

/// The slice that a remaining duration starts with: all of it where it fits
/// the native width, the longest possible wait otherwise.
pub open spec fn slice_of(remaining_ms: u128) -> Slice {
    if remaining_ms > MAX_SLICE_MS {
        Slice { wait_ms: MAX_SLICE_MS, rest_ms: (remaining_ms - MAX_SLICE_MS) as u128 }
    } else {
        Slice { wait_ms: remaining_ms as u32, rest_ms: 0 }
    }
}

/// Cuts the next native wait off a remaining duration.
pub fn next_slice(remaining_ms: u128) -> (slice: Slice)
    ensures
        slice == slice_of(remaining_ms),
        slice.wait_ms + slice.rest_ms == remaining_ms,
{
    if remaining_ms > MAX_SLICE_MS as u128 {
        Slice { wait_ms: MAX_SLICE_MS, rest_ms: remaining_ms - MAX_SLICE_MS as u128 }
    } else {
        Slice { wait_ms: remaining_ms as u32, rest_ms: 0 }
    }
}

/// What one call of the native wait reported.
#[derive(Debug, Clone, Copy, PartialEq, Eq)]
pub enum Waited {
    /// The process handle was signalled: the process has exited.
    Signalled,
    /// The slice elapsed.
    Elapsed,
    /// The wait failed; the value is the last error.
    Failed(u32),
}

/// `std::io::Error::kind`, compared with `ErrorKind::TimedOut`. The error is
/// opaque here, so nothing is claimed of the answer.
#[verifier::external_body]
fn is_timed_out(error: &std::io::Error) -> (timed_out: bool) {
    error.kind() == std::io::ErrorKind::TimedOut
}

/// What a failed native wait amounts to: an elapsed slice where the failure
/// is the timeout, and a failure with the last error otherwise.
pub fn wait_failure(timed_out: bool, last_error: u32) -> (waited: Waited)
    ensures
        waited == if timed_out {
            Waited::Elapsed
        } else {
            Waited::Failed(last_error)
        },
{
    if timed_out {
        Waited::Elapsed
    } else {
        Waited::Failed(last_error)
    }
}

/// What a native wait that returns an I/O result reported: a signalled
/// handle where it returned normally, and otherwise what [`wait_failure`]
/// makes of the error.
pub fn waited<S>(result: &Result<S, std::io::Error>, last_error: u32) -> (waited: Waited)
    ensures
        result is Ok ==> waited == Waited::Signalled,
        result is Err ==> waited == Waited::Elapsed || waited == Waited::Failed(last_error),
{
    match result {
        Ok(_) => Waited::Signalled,
        Err(error) => wait_failure(is_timed_out(error), last_error),
    }
}

/// The next move of a bounded wait on the native wait.
#[derive(Debug)]
pub enum Blocking<S> {
    /// Wait once more, for this slice.
    Wait(Slice),
    /// The process has exited: fetch its status without blocking.
    FetchStatus,
    /// The wait is over.
    Finished(Result<S, Error>),
}

/// What follows a native wait for `slice` that reported `waited`: the status
/// fetch once the handle is signalled, [`Error::WaitFailed`] on a failure,
/// and on an elapsed slice the next slice, or [`Error::Timeout`] where
/// nothing of the requested duration is left.
pub open spec fn after_slice<S>(slice: Slice, waited: Waited) -> Blocking<S> {
    match waited {
        Waited::Signalled => Blocking::FetchStatus,
        Waited::Failed(code) => Blocking::Finished(Err(Error::WaitFailed(code))),
        Waited::Elapsed => if slice.rest_ms == 0 {
            Blocking::Finished(Err(Error::Timeout))
        } else {
            Blocking::Wait(slice_of(slice.rest_ms))
        },
    }
}

/// The bounded wait as one function: the first slice of `timeout_ms` where
/// nothing has been waited yet, and otherwise what follows the last slice.
pub open spec fn blocking<S>(timeout_ms: u128, progress: Option<(Slice, Waited)>) -> Blocking<S> {
    match progress {
        None => Blocking::Wait(slice_of(timeout_ms)),
        Some((slice, waited)) => after_slice(slice, waited),
    }
}

/// One step of the bounded wait. Called with `None`, it cuts the first slice
/// off `timeout_ms`; called with the last slice and what the native wait
/// reported for it, it decides how the wait goes on.
pub fn _wait_timeout<S>(timeout_ms: u128, progress: Option<(Slice, Waited)>) -> (step: Blocking<S>)
    ensures
        step == blocking::<S>(timeout_ms, progress),
{
    match progress {
        None => Blocking::Wait(next_slice(timeout_ms)),
        Some((slice, waited)) => match waited {
            Waited::Signalled => Blocking::FetchStatus,
            Waited::Failed(code) => Blocking::Finished(Err(Error::WaitFailed(code))),
            Waited::Elapsed => if slice.rest_ms == 0 {
                Blocking::Finished(Err(Error::Timeout))
            } else {
                Blocking::Wait(next_slice(slice.rest_ms))
            },
        },
    }
}

/// The result of the status fetch that follows a signalled wait: the status,
/// or [`Error::UnknownError`] where the fetch does not confirm the exit.
pub fn fetched<S>(probe: Probe<S>) -> (result: Result<S, Error>)
    ensures
        result == match probe {
            Probe::Exited(status) => Ok::<S, Error>(status),
            _ => Err(Error::UnknownError()),
        },
{
    match probe {
        Probe::Exited(status) => Ok(status),
        _ => Err(Error::UnknownError()),
    }
}

/// The time waited, in milliseconds, when every slice of a wait of
/// `remaining_ms` elapses.
pub open spec fn waited_in_full(remaining_ms: u128) -> nat
    decreases remaining_ms,
{
    let slice = slice_of(remaining_ms);
    if slice.rest_ms == 0 {
        slice.wait_ms as nat
    } else {
        slice.wait_ms as nat + waited_in_full(slice.rest_ms)
    }
}

/// A bounded wait times out only after the whole requested duration: its
/// slices add up to the duration exactly, however far the duration exceeds
/// the native width, and each of them fits that width.
pub proof fn lemma_slices_cover_timeout(timeout_ms: u128)
    ensures
        waited_in_full(timeout_ms) == timeout_ms,
        slice_of(timeout_ms).wait_ms + slice_of(timeout_ms).rest_ms == timeout_ms,
        slice_of(timeout_ms).rest_ms > 0 ==> slice_of(timeout_ms).wait_ms == MAX_SLICE_MS,
    decreases timeout_ms,
{
    let slice = slice_of(timeout_ms);
    if slice.rest_ms != 0 {
        lemma_slices_cover_timeout(slice.rest_ms);
    }
}

} // verus!
