use proc_guard::platform::unix::{Poll, POLL_INTERVAL_MS};
use proc_guard::platform::windows::{fetched, next_slice, wait_failure, waited, Blocking, Slice, Waited, MAX_SLICE_MS};
use proc_guard::platform::{probed, unix, windows, Probe};
use proc_guard::Error;
use std::io;
use std::time::Duration;

/// A process that exits with code 0 at a fixed time, on a clock that only
/// moves when somebody waits or sleeps.
struct Sleeper {
    now_ms: u128,
    exits_at_ms: u128,
    looks: u64,
    native_waits: Vec<u32>,
}

fn sleep_child(time: &str) -> Sleeper {
    let seconds: u64 = time.parse().expect("a number of seconds");
    Sleeper {
        now_ms: 0,
        exits_at_ms: Duration::from_secs(seconds).as_millis(),
        looks: 0,
        native_waits: Vec::new(),
    }
}

/// A process that never exits.
fn endless_child() -> Sleeper {
    Sleeper { now_ms: 0, exits_at_ms: u128::MAX, looks: 0, native_waits: Vec::new() }
}

impl Sleeper {
    fn try_wait(&mut self) -> io::Result<Option<i32>> {
        self.looks += 1;
        if self.now_ms >= self.exits_at_ms {
            Ok(Some(0))
        } else {
            Ok(None)
        }
    }

    /// The native wait of the console family: blocks for at most `wait_ms`.
    fn wait_for_single_object(&mut self, wait_ms: u32) -> io::Result<()> {
        self.native_waits.push(wait_ms);
        let deadline_ms = self.now_ms + wait_ms as u128;
        if self.exits_at_ms <= deadline_ms {
            if self.now_ms < self.exits_at_ms {
                self.now_ms = self.exits_at_ms;
            }
            Ok(())
        } else {
            self.now_ms = deadline_ms;
            Err(io::Error::new(io::ErrorKind::TimedOut, "operation timed out"))
        }
    }
}

/// The bounded wait of the POSIX family.
fn wait_timeout(child: &mut Sleeper, timeout: Duration) -> Result<i32, Error> {
    let started_ms = child.now_ms;
    loop {
        let probe = probed(child.try_wait());
        let elapsed_ms = child.now_ms - started_ms;
        match unix::_wait_timeout(probe, elapsed_ms, timeout.as_millis()) {
            Poll::Finished(result) => return result,
            Poll::Sleep(pause_ms) => child.now_ms += pause_ms as u128,
        }
    }
}

/// The bounded wait of the console family.
fn wait_timeout_native(child: &mut Sleeper, timeout: Duration) -> Result<i32, Error> {
    let mut step = windows::_wait_timeout(timeout.as_millis(), None);
    loop {
        match step {
            Blocking::Finished(result) => return result,
            Blocking::FetchStatus => return fetched(probed(child.try_wait())),
            Blocking::Wait(slice) => {
                let result = child.wait_for_single_object(slice.wait_ms);
                let outcome = waited(&result, 0);
                step = windows::_wait_timeout(timeout.as_millis(), Some((slice, outcome)));
            }
        }
    }
}

#[test]
fn test_wait_timeout_success() {
    let mut child = sleep_child("1");
    let result = wait_timeout(&mut child, Duration::from_secs(5));
    assert!(result.is_ok());

    let mut child = sleep_child("1");
    let result = wait_timeout_native(&mut child, Duration::from_secs(5));
    assert!(result.is_ok());
}

#[test]
fn test_wait_timeout_very_big_success() {
    let mut child = sleep_child("1");
    let result = wait_timeout(&mut child, Duration::from_secs(4_294_967_295u64));
    assert!(result.is_ok());

    let mut child = sleep_child("1");
    let result = wait_timeout_native(&mut child, Duration::from_secs(4_294_967_295u64));
    assert!(result.is_ok());
    assert_eq!(child.now_ms, 1000);
    assert_eq!(child.native_waits, vec![u32::MAX]);
}

#[test]
fn test_wait_timeout_exceeded() {
    let mut child = sleep_child("3");
    let result = wait_timeout(&mut child, Duration::from_secs(1));
    assert!(matches!(result, Err(Error::Timeout)));

    let mut child = sleep_child("3");
    let result = wait_timeout_native(&mut child, Duration::from_secs(1));
    assert!(matches!(result, Err(Error::Timeout)));
    assert_eq!(child.now_ms, 1000);
}

#[test]
fn polling_looks_once_per_interval() {
    assert_eq!(POLL_INTERVAL_MS, 10);
    let mut child = sleep_child("1");
    let result = wait_timeout(&mut child, Duration::from_secs(5));
    assert!(matches!(result, Ok(0)));
    assert_eq!(child.now_ms, 1000);
    assert_eq!(child.looks, 101);
}

#[test]
fn polling_times_out_only_past_the_timeout() {
    let step: Poll<i32> = unix::_wait_timeout(Probe::Running, 0, 1000);
    assert!(matches!(step, Poll::Sleep(10)));
    let step: Poll<i32> = unix::_wait_timeout(Probe::Running, 999, 1000);
    assert!(matches!(step, Poll::Sleep(10)));
    let step: Poll<i32> = unix::_wait_timeout(Probe::Running, 1000, 1000);
    assert!(matches!(step, Poll::Sleep(10)));
    let step: Poll<i32> = unix::_wait_timeout(Probe::Running, 1001, 1000);
    assert!(matches!(step, Poll::Finished(Err(Error::Timeout))));
    let step: Poll<i32> = unix::_wait_timeout(Probe::Running, 1, 0);
    assert!(matches!(step, Poll::Finished(Err(Error::Timeout))));
    let step: Poll<i32> = unix::_wait_timeout(Probe::Running, 0, 0);
    assert!(matches!(step, Poll::Sleep(10)));
}

#[test]
fn polling_reports_an_exit_however_late() {
    let step = unix::_wait_timeout(Probe::Exited(17), 5000, 1000);
    assert!(matches!(step, Poll::Finished(Ok(17))));
    let step = unix::_wait_timeout(Probe::Exited(0), 0, 0);
    assert!(matches!(step, Poll::Finished(Ok(0))));
}

#[test]
fn polling_reports_a_failed_look() {
    // ECHILD: the process is not a child of the caller.
    let step: Poll<i32> = unix::_wait_timeout(Probe::Failed(Some(10)), 0, 1000);
    assert!(matches!(step, Poll::Finished(Err(Error::WaitFailed(10)))));
    let step: Poll<i32> = unix::_wait_timeout(Probe::Failed(Some(-1)), 0, 1000);
    assert!(matches!(step, Poll::Finished(Err(Error::WaitFailed(4_294_967_295)))));
    let step: Poll<i32> = unix::_wait_timeout(Probe::Failed(None), 0, 1000);
    assert!(matches!(step, Poll::Finished(Err(Error::UnknownError()))));
}

#[test]
fn a_look_is_read_from_the_status_fetch() {
    assert!(matches!(probed(Ok(Some(3))), Probe::Exited(3)));
    assert!(matches!(probed::<i32>(Ok(None)), Probe::Running));
    let probe = probed::<i32>(Err(io::Error::from_raw_os_error(10)));
    assert!(matches!(probe, Probe::Failed(Some(10))));
    let probe = probed::<i32>(Err(io::Error::new(io::ErrorKind::Other, "lost")));
    assert!(matches!(probe, Probe::Failed(None)));
}

#[test]
fn a_short_timeout_is_one_slice() {
    assert_eq!(MAX_SLICE_MS, 4_294_967_295);
    assert_eq!(next_slice(0), Slice { wait_ms: 0, rest_ms: 0 });
    assert_eq!(next_slice(1000), Slice { wait_ms: 1000, rest_ms: 0 });
    assert_eq!(next_slice(4_294_967_295), Slice { wait_ms: 4_294_967_295, rest_ms: 0 });
}

#[test]
fn a_long_timeout_is_cut_at_the_native_width() {
    assert_eq!(next_slice(4_294_967_296), Slice { wait_ms: 4_294_967_295, rest_ms: 1 });
    assert_eq!(
        next_slice(10_000_000_000),
        Slice { wait_ms: 4_294_967_295, rest_ms: 5_705_032_705 }
    );
    assert_eq!(
        next_slice(u128::MAX),
        Slice { wait_ms: 4_294_967_295, rest_ms: u128::MAX - 4_294_967_295 }
    );
}

#[test]
fn a_long_timeout_is_waited_in_full() {
    // Ten thousand million milliseconds: two whole slices and a rest.
    let mut child = endless_child();
    let result = wait_timeout_native(&mut child, Duration::from_millis(10_000_000_000));
    assert!(matches!(result, Err(Error::Timeout)));
    assert_eq!(child.native_waits, vec![4_294_967_295, 4_294_967_295, 1_410_065_410]);
    assert_eq!(child.now_ms, 10_000_000_000);
    assert_eq!(child.looks, 0);
}

#[test]
fn a_long_timeout_ends_when_the_process_does() {
    // The process exits five thousand million milliseconds in: during the
    // second slice.
    let mut child = endless_child();
    child.exits_at_ms = 5_000_000_000;
    let result = wait_timeout_native(&mut child, Duration::from_secs(4_294_967_295u64));
    assert!(matches!(result, Ok(0)));
    assert_eq!(child.native_waits, vec![4_294_967_295, 4_294_967_295]);
    assert_eq!(child.now_ms, 5_000_000_000);
    assert_eq!(child.looks, 1);
}

#[test]
fn the_native_wait_decides_the_next_move() {
    let slice = Slice { wait_ms: 500, rest_ms: 0 };
    let step: Blocking<i32> = windows::_wait_timeout(500, None);
    assert!(matches!(step, Blocking::Wait(Slice { wait_ms: 500, rest_ms: 0 })));
    let step: Blocking<i32> = windows::_wait_timeout(500, Some((slice, Waited::Signalled)));
    assert!(matches!(step, Blocking::FetchStatus));
    let step: Blocking<i32> = windows::_wait_timeout(500, Some((slice, Waited::Elapsed)));
    assert!(matches!(step, Blocking::Finished(Err(Error::Timeout))));
    let step: Blocking<i32> = windows::_wait_timeout(500, Some((slice, Waited::Failed(6))));
    assert!(matches!(step, Blocking::Finished(Err(Error::WaitFailed(6)))));
    let long = Slice { wait_ms: u32::MAX, rest_ms: 4_294_967_296 };
    let step: Blocking<i32> = windows::_wait_timeout(0, Some((long, Waited::Elapsed)));
    assert!(matches!(step, Blocking::Wait(Slice { wait_ms: 4_294_967_295, rest_ms: 1 })));
    let step: Blocking<i32> = windows::_wait_timeout(0, Some((long, Waited::Failed(5))));
    assert!(matches!(step, Blocking::Finished(Err(Error::WaitFailed(5)))));
}

#[test]
fn the_native_wait_is_read_from_its_result() {
    assert_eq!(waited(&Ok::<i32, io::Error>(0), 6), Waited::Signalled);
    let timeout = io::Error::new(io::ErrorKind::TimedOut, "operation timed out");
    assert_eq!(waited(&Err::<i32, io::Error>(timeout), 6), Waited::Elapsed);
    let other = io::Error::new(io::ErrorKind::Other, "an unspecified error occurred");
    assert_eq!(waited(&Err::<i32, io::Error>(other), 6), Waited::Failed(6));
    assert_eq!(wait_failure(true, 6), Waited::Elapsed);
    assert_eq!(wait_failure(false, 6), Waited::Failed(6));
}

#[test]
fn a_status_fetch_that_does_not_confirm_the_exit_is_unknown() {
    assert!(matches!(fetched(Probe::Exited(3)), Ok(3)));
    assert!(matches!(fetched::<i32>(Probe::Running), Err(Error::UnknownError())));
    assert!(matches!(fetched::<i32>(Probe::Failed(Some(6))), Err(Error::UnknownError())));
    assert!(matches!(fetched::<i32>(Probe::Failed(None)), Err(Error::UnknownError())));
}
