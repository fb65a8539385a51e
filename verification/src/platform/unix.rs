//! The POSIX family: `kill` with the interrupt signal, and a bounded wait
//! that polls.

use vstd::prelude::*;
use crate::error::Error;
use crate::platform::Probe;

verus! {

/// How long the bounded wait sleeps between two looks at the process, in
/// milliseconds. No timeout is observed more finely than this.
pub const POLL_INTERVAL_MS: u64 = 10;

/// An operating-system error code as the unsigned number that the error
/// variants carry: the code itself where it is not negative, and the code
/// raised by 2^32, which leaves its 32 bits as they are, where it is.
pub open spec fn code_bits(code: i32) -> u32 {
    if code >= 0 {
        code as u32
    } else {
        (code + 0x1_0000_0000) as u32
    }
}

/// Reads an operating-system error code as an unsigned number.
fn bits_of(code: i32) -> (bits: u32)
    ensures
        bits == code_bits(code),
{
    let bits = code as u32;
    assert(code >= 0 ==> bits as int == code as int) by (bit_vector)
        requires
            bits == code as u32,
    ;
    assert(code < 0 ==> bits as int == code as int + 0x1_0000_0000) by (bit_vector)
        requires
            bits == code as u32,
    ;
    bits
}

/// What a `kill` that returned `status` amounts to when `code` is the error
/// to report: success for 0, and a failure with that code otherwise.
pub open spec fn delivered(status: i32, code: i32) -> Result<(), Error> {
    if status == 0 {
        Ok(())
    } else {
        Err(Error::FailedToSendCtrlC(code_bits(code)))
    }
}

/// The error that counts: the one the platform named, or `fallback` where
/// it named none.
pub open spec fn code_or(os_error: Option<i32>, fallback: i32) -> i32 {
    match os_error {
        Some(code) => code,
        None => fallback,
    }
}

/// `libc::EIO`, the code of a plain I/O error. Its value differs between
/// platforms, so nothing is claimed of it.
#[verifier::external_body]
fn eio() -> (code: i32) {
    libc::EIO
}

/// Decides whether `kill` delivered the interrupt, given the code to report
/// where the platform named no error.
pub fn signal_result(status: i32, os_error: Option<i32>, fallback: i32) -> (result: Result<
    (),
    Error,
>)
    ensures
        result == delivered(status, code_or(os_error, fallback)),
{
    if status != 0 {
        let code = match os_error {
            Some(code) => code,
            None => fallback,
        };
        Err(Error::FailedToSendCtrlC(bits_of(code)))
    } else {
        Ok(())
    }
}

/// Decides whether `kill` delivered the interrupt. A failure without an
/// operating-system error is reported with the platform's code for a plain
/// I/O error.
pub fn _send_ctrl_c(status: i32, os_error: Option<i32>) -> (result: Result<(), Error>)
    ensures
        status == 0 ==> result is Ok,
        status != 0 ==> result is Err && result->Err_0 is FailedToSendCtrlC,
        os_error matches Some(code) ==> result == delivered(status, code),
{
    let fallback = eio();
    signal_result(status, os_error, fallback)
}

/// The next move of a bounded wait that polls.
#[derive(Debug)]
pub enum Poll<S> {
    /// The process is still running and there is time left: sleep for this
    /// many milliseconds, then look again.
    Sleep(u64),
    /// The wait is over.
    Finished(Result<S, Error>),
}

/// What one look at the process means for a wait of `timeout_ms`
/// milliseconds that has lasted `elapsed_ms` so far.
///
/// An exit ends the wait with the status, however late it is seen. A failed
/// look ends it with [`Error::WaitFailed`] and the operating-system error,
/// or with [`Error::UnknownError`] where the platform named none. A running
/// process ends the wait with [`Error::Timeout`] once more than `timeout_ms`
/// have elapsed, and is looked at again one interval later otherwise.
pub open spec fn polled<S>(probe: Probe<S>, elapsed_ms: u128, timeout_ms: u128) -> Poll<S> {
    match probe {
        Probe::Exited(status) => Poll::Finished(Ok(status)),
        Probe::Failed(Some(code)) => Poll::Finished(Err(Error::WaitFailed(code_bits(code)))),
        Probe::Failed(None) => Poll::Finished(Err(Error::UnknownError())),
        Probe::Running => if elapsed_ms > timeout_ms {
            Poll::Finished(Err(Error::Timeout))
        } else {
            Poll::Sleep(POLL_INTERVAL_MS)
        },
    }
}

/// The polling wait gives up exactly when it finds the process running
/// after more than the timeout has elapsed: never earlier, and never once
/// the process is seen to have exited.
pub proof fn lemma_timeout_only_past_deadline<S>(probe: Probe<S>, elapsed_ms: u128, timeout_ms: u128)
    ensures
        polled(probe, elapsed_ms, timeout_ms) == Poll::<S>::Finished(Err(Error::Timeout)) <==> probe
            is Running && elapsed_ms > timeout_ms,
        probe matches Probe::Exited(status) ==> polled(probe, elapsed_ms, timeout_ms)
            == Poll::Finished(Ok::<S, Error>(status)),
{
}

/// One step of the bounded wait: decides, from a look at the process and
/// the time elapsed, whether the wait is over.
pub fn _wait_timeout<S>(probe: Probe<S>, elapsed_ms: u128, timeout_ms: u128) -> (poll: Poll<S>)
    ensures
        poll == polled(probe, elapsed_ms, timeout_ms),
{
    match probe {
        Probe::Exited(status) => Poll::Finished(Ok(status)),
        Probe::Failed(Some(code)) => Poll::Finished(Err(Error::WaitFailed(bits_of(code)))),
        Probe::Failed(None) => Poll::Finished(Err(Error::UnknownError())),
        Probe::Running => if elapsed_ms > timeout_ms {
            Poll::Finished(Err(Error::Timeout))
        } else {
            Poll::Sleep(POLL_INTERVAL_MS)
        },
    }
}

} // verus!
