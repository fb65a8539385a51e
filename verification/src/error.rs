//! The failures a termination can end in.

use vstd::prelude::*;
use vstd::string::StringExecFns;

verus! {

/// `std::io::Error`, carried through unopened: the library never looks inside
/// one, it only hands it back to the caller.
#[verifier::external_type_specification]
#[verifier::external_body]
pub struct ExIoError(std::io::Error);

/// Everything that can go wrong while signalling, waiting for or killing a
/// guarded process.
#[derive(Debug)]
pub enum Error {
    /// A bounded wait elapsed and the strategy has no kill fallback.
    Timeout,
    /// The interrupt could not be delivered; the value is the platform's
    /// error code.
    FailedToSendCtrlC(u32),
    /// The wait primitive itself failed; the value is the platform's error
    /// code.
    WaitFailed(u32),
    /// The platform reported something that fits no other variant.
    UnknownError(),
    /// The target process was forcefully terminated.
    ForcefullyTerminate(),
    /// An operating-system call failed with the given I/O error.
    Io(std::io::Error),
}

/// The character of a decimal digit.
pub open spec fn digit(value: nat) -> char {
    if value == 0 {
        '0'
    } else if value == 1 {
        '1'
    } else if value == 2 {
        '2'
    } else if value == 3 {
        '3'
    } else if value == 4 {
        '4'
    } else if value == 5 {
        '5'
    } else if value == 6 {
        '6'
    } else if value == 7 {
        '7'
    } else if value == 8 {
        '8'
    } else {
        '9'
    }
}

/// A number written in decimal, without leading zeros.
pub open spec fn decimal(value: nat) -> Seq<char>
    decreases value,
{
    if value < 10 {
        seq![digit(value)]
    } else {
        decimal(value / 10).push(digit(value % 10))
    }
}

/// The text of one decimal digit.
fn digit_text(value: u32) -> (text: &'static str)
    requires
        value < 10,
    ensures
        text@ == seq![digit(value as nat)],
{
    proof {
        reveal_strlit("0");
        reveal_strlit("1");
        reveal_strlit("2");
        reveal_strlit("3");
        reveal_strlit("4");
        reveal_strlit("5");
        reveal_strlit("6");
        reveal_strlit("7");
        reveal_strlit("8");
        reveal_strlit("9");
    }
    let text = match value {
        0 => "0",
        1 => "1",
        2 => "2",
        3 => "3",
        4 => "4",
        5 => "5",
        6 => "6",
        7 => "7",
        8 => "8",
        _ => "9",
    };
    assert(text@ =~= seq![digit(value as nat)]);
    text
}

/// Writes `value` in decimal.
fn decimal_text(value: u32) -> (text: String)
    ensures
        text@ == decimal(value as nat),
    decreases value,
{
    if value < 10 {
        String::from_str(digit_text(value))
    } else {
        let mut text = decimal_text(value / 10);
        text.append(digit_text(value % 10));
        assert(text@ =~= decimal(value as nat));
        text
    }
}

/// What `std::io::Error` displays as. The wording is the standard
/// library's and the operating system's, so nothing is claimed of it.
#[verifier::external_body]
fn io_error_text(error: &std::io::Error) -> (text: String) {
    format!("{}", error)
}

impl Error {
    /// The words that describe the error; where it carries a code, the code
    /// follows them in decimal, and where it carries an I/O error, that
    /// error's own description does.
    pub open spec fn heading(self) -> Seq<char> {
        match self {
            Error::Timeout => "Timeout occurred"@,
            Error::FailedToSendCtrlC(_) => "Failed to send Ctrl-C: "@,
            Error::WaitFailed(_) => "Wait failed: "@,
            Error::UnknownError() => "Unknown error"@,
            Error::ForcefullyTerminate() => "Forcefully terminate"@,
            Error::Io(_) => "I/O error: "@,
        }
    }

    /// The platform code that the error carries, if it carries one.
    pub open spec fn code(self) -> Option<u32> {
        match self {
            Error::FailedToSendCtrlC(code) | Error::WaitFailed(code) => Some(code),
            _ => None,
        }
    }

    /// The error as a line of text for people.
    pub fn message(&self) -> (text: String)
        ensures
            self.code() matches Some(code) ==> text@ == self.heading() + decimal(code as nat),
            self.code() is None && !(self is Io) ==> text@ == self.heading(),
            self is Io ==> text@.len() >= self.heading().len() && text@.subrange(
                0,
                self.heading().len() as int,
            ) == self.heading(),
    {
        match self {
            Error::Timeout => String::from_str("Timeout occurred"),
            Error::FailedToSendCtrlC(code) => {
                let text = String::from_str("Failed to send Ctrl-C: ");
                let number = decimal_text(*code);
                text.concat(number.as_str())
            },
            Error::WaitFailed(code) => {
                let text = String::from_str("Wait failed: ");
                let number = decimal_text(*code);
                text.concat(number.as_str())
            },
            Error::UnknownError() => String::from_str("Unknown error"),
            Error::ForcefullyTerminate() => String::from_str("Forcefully terminate"),
            Error::Io(error) => {
                let text = String::from_str("I/O error: ");
                let detail = io_error_text(error);
                let text = text.concat(detail.as_str());
                assert(text@.subrange(0, self.heading().len() as int) =~= self.heading());
                text
            },
        }
    }
}

} // verus!
