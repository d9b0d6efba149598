use crate::decimal::{append_decimal, decimal};
use crate::error::TransferError;
use crate::text::text_of;
use crate::transfer::{Ending, Fault};
use vstd::prelude::*;

verus! {

/// The result of one invocation.
#[derive(Clone, Debug, PartialEq, Eq)]
pub enum Outcome {
    /// The stream was read to its end.
    Completed,
    /// The user interrupted; the partial file stays for a later run.
    Paused,
    Failed { detail: String },
}

/// The audit entry of one invocation: made once, after the transfer loop has
/// been left, and never changed.
#[derive(Clone, Debug, PartialEq, Eq)]
pub struct OutcomeRecord {
    url: String,
    outcome: Outcome,
    duration_seconds: u64,
}

/// An audit entry as plain values.
pub struct RecordModel {
    pub url: Seq<char>,
    pub outcome: Outcome,
    pub duration_seconds: u64,
}

impl View for OutcomeRecord {
    type V = RecordModel;

    closed spec fn view(&self) -> RecordModel {
        RecordModel {
            url: self.url@,
            outcome: self.outcome,
            duration_seconds: self.duration_seconds,
        }
    }
}

/// The detail of a failure as text, where the outcome is one.
pub open spec fn detail_of(outcome: Outcome) -> Option<Seq<char>> {
    match outcome {
        Outcome::Failed { detail } => Some(detail@),
        _ => None,
    }
}

/// The detail recorded for a transfer that a fault broke off: the I/O
/// layer's message for a failed read or write, the library's own where the
/// file length ran out.
pub open spec fn fault_detail(fault: Fault, io_detail: Seq<char>) -> Seq<char> {
    match fault {
        Fault::Read => io_detail,
        Fault::Write => io_detail,
        Fault::LengthLimit => "file length limit reached"@,
    }
}

/// The log line for an invocation, with its line end.
pub open spec fn log_text(url: Seq<char>, outcome: Outcome, seconds: u64) -> Seq<char> {
    match outcome {
        Outcome::Completed => "SUCCESS: "@ + url + " ("@ + decimal(seconds as nat) + " seconds)\n"@,
        Outcome::Paused => "PAUSED: "@ + url + " ("@ + decimal(seconds as nat) + " seconds)\n"@,
        Outcome::Failed { detail } => "FAILED: "@ + url + " ("@ + detail@ + ") ("@ + decimal(
            seconds as nat,
        ) + " seconds)\n"@,
    }
}

impl Outcome {
    /// The outcome of a transfer that has ended. `io_detail` is the message
    /// of the read or write that failed, and is taken over word for word.
    pub fn of_ending(ending: Ending, io_detail: &str) -> (outcome: Outcome)
        ensures
            match ending {
                Ending::Completed => outcome is Completed,
                Ending::Paused => outcome is Paused,
                Ending::Failed(fault) => outcome is Failed && outcome->detail@ == fault_detail(
                    fault,
                    io_detail@,
                ),
            },
    {
        match ending {
            Ending::Completed => Outcome::Completed,
            Ending::Paused => Outcome::Paused,
            Ending::Failed(Fault::LengthLimit) => Outcome::Failed {
                detail: String::from_str("file length limit reached"),
            },
            Ending::Failed(_) => Outcome::Failed { detail: String::from_str(io_detail) },
        }
    }

    /// The outcome of an attempt that an error ended.
    pub fn of_error(error: &TransferError) -> (outcome: Outcome)
        ensures
            outcome is Failed,
            outcome->detail@ == error.detail_text(),
    {
        Outcome::Failed { detail: error.detail() }
    }

    /// Whether the download ran to its end. A pause is no success.
    pub fn succeeded(&self) -> (yes: bool)
        ensures
            yes == (self is Completed),
    {
        match self {
            Outcome::Completed => true,
            _ => false,
        }
    }

    /// The process exit status: 0 for a completed or a paused download, 1
    /// for a failed one.
    pub fn exit_status(&self) -> (code: i32)
        ensures
            code == (if self is Failed {
                1i32
            } else {
                0i32
            }),
    {
        match self {
            Outcome::Failed { .. } => 1,
            _ => 0,
        }
    }
}

impl OutcomeRecord {
    /// Records how the invocation for `url` came out and how long it took.
    pub fn new(url: &str, outcome: Outcome, duration_seconds: u64) -> (record: OutcomeRecord)
        ensures
            record@ == (RecordModel { url: url@, outcome, duration_seconds }),
    {
        OutcomeRecord { url: String::from_str(url), outcome, duration_seconds }
    }

    pub fn url(&self) -> (url: &str)
        ensures
            url@ == self@.url,
    {
        self.url.as_str()
    }

    pub fn outcome(&self) -> (outcome: &Outcome)
        ensures
            *outcome == self@.outcome,
    {
        &self.outcome
    }

    pub fn duration_seconds(&self) -> (seconds: u64)
        ensures
            seconds == self@.duration_seconds,
    {
        self.duration_seconds
    }

    /// Whether the download ran to its end.
    pub fn succeeded(&self) -> (yes: bool)
        ensures
            yes == (self@.outcome is Completed),
    {
        self.outcome.succeeded()
    }

    /// The failure's detail, word for word; none for a completed or a
    /// paused download.
    pub fn error_detail(&self) -> (detail: Option<&str>)
        ensures
            text_of(detail) == detail_of(self@.outcome),
    {
        match &self.outcome {
            Outcome::Failed { detail } => Some(detail.as_str()),
            _ => None,
        }
    }

    /// The line that goes to the log: `SUCCESS: <url> (<n> seconds)`,
    /// `PAUSED: <url> (<n> seconds)` or
    /// `FAILED: <url> (<detail>) (<n> seconds)`, ended by a newline.
    pub fn log_line(&self) -> (line: String)
        ensures
            line@ == log_text(self@.url, self@.outcome, self@.duration_seconds),
    {
        let mut line = match &self.outcome {
            Outcome::Completed => String::from_str("SUCCESS: "),
            Outcome::Paused => String::from_str("PAUSED: "),
            Outcome::Failed { .. } => String::from_str("FAILED: "),
        };
        line.append(self.url.as_str());
        line.append(" (");
        match &self.outcome {
            Outcome::Failed { detail } => {
                line.append(detail.as_str());
                line.append(") (");
            },
            _ => {},
        }
        append_decimal(&mut line, self.duration_seconds);
        line.append(" seconds)\n");
        line
    }
}

} // verus!
