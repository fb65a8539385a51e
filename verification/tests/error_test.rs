use proc_guard::Error;
use std::io;

#[test]
fn errors_without_a_payload_have_fixed_messages() {
    assert_eq!(Error::Timeout.message(), "Timeout occurred");
    assert_eq!(Error::UnknownError().message(), "Unknown error");
    assert_eq!(Error::ForcefullyTerminate().message(), "Forcefully terminate");
}

#[test]
fn a_code_is_written_in_decimal() {
    assert_eq!(Error::FailedToSendCtrlC(3).message(), "Failed to send Ctrl-C: 3");
    assert_eq!(Error::WaitFailed(10).message(), "Wait failed: 10");
    assert_eq!(Error::WaitFailed(0).message(), "Wait failed: 0");
    assert_eq!(Error::FailedToSendCtrlC(9).message(), "Failed to send Ctrl-C: 9");
    assert_eq!(Error::WaitFailed(1_000).message(), "Wait failed: 1000");
    assert_eq!(Error::WaitFailed(1_234_567_890).message(), "Wait failed: 1234567890");
    assert_eq!(
        Error::FailedToSendCtrlC(u32::MAX).message(),
        "Failed to send Ctrl-C: 4294967295"
    );
}

#[test]
fn an_io_error_is_described_in_its_own_words() {
    let error = Error::Io(io::Error::new(io::ErrorKind::Other, "the disk is on fire"));
    assert_eq!(error.message(), "I/O error: the disk is on fire");
    let error = Error::Io(io::Error::from_raw_os_error(3));
    let message = error.message();
    assert!(message.starts_with("I/O error: "));
    assert!(message.len() > "I/O error: ".len());
}

#[test]
fn every_variant_can_be_told_apart() {
    let errors = [
        Error::Timeout,
        Error::FailedToSendCtrlC(1),
        Error::WaitFailed(1),
        Error::UnknownError(),
        Error::ForcefullyTerminate(),
        Error::Io(io::Error::from_raw_os_error(1)),
    ];
    for (i, first) in errors.iter().enumerate() {
        for second in &errors[..i] {
            assert_ne!(first.message(), second.message());
        }
    }
}
