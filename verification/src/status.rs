//! The status texts that the worker posts.
//!
//! A failed job never ends the worker: its error becomes a status text, and
//! so does a panic that was caught at the dispatch boundary.

use vstd::prelude::*;
use vstd::string::*;
use crate::text::{append_decimal, decimal};

verus! {

/// The job that failed.
#[derive(Debug, Clone, Copy, PartialEq, Eq, Structural)]
pub enum Failure {
    Load,
    Analysis,
    Synthesis,
}

/// The long-running step whose progress is reported.
#[derive(Debug, Clone, Copy, PartialEq, Eq, Structural)]
pub enum Progress {
    Decoding,
    Analyzing,
}

/// The status text of a failed job: what failed, then the error's own text.
pub open spec fn failure_text(failure: Failure, detail: Seq<char>) -> Seq<char> {
    match failure {
        Failure::Load => "Load error: "@ + detail,
        Failure::Analysis => "Analysis error: "@ + detail,
        Failure::Synthesis => "Synthesis error: "@ + detail,
    }
}

/// The status text of a step that is `percent` percent done.
pub open spec fn progress_text(progress: Progress, percent: u8) -> Seq<char> {
    match progress {
        Progress::Decoding => "Decoding... "@ + decimal(percent as nat) + "%"@,
        Progress::Analyzing => "Analyzing... "@ + decimal(percent as nat) + "%"@,
    }
}

/// The status text of a caught panic: the panic's message where it carried
/// one as text.
pub open spec fn panic_text(detail: Option<Seq<char>>) -> Seq<char> {
    match detail {
        Some(message) => "Internal error: "@ + message,
        None => "Internal error: processing thread panicked"@,
    }
}

/// Builds the status text of a failed job.
pub fn failure_status(failure: Failure, detail: &str) -> (text: String)
    ensures
        text@ == failure_text(failure, detail@),
{
    let head = match failure {
        Failure::Load => "Load error: ",
        Failure::Analysis => "Analysis error: ",
        Failure::Synthesis => "Synthesis error: ",
    };
    String::from_str(head).concat(detail)
}

/// Builds the status text of a step in progress.
pub fn progress_status(progress: Progress, percent: u8) -> (text: String)
    ensures
        text@ == progress_text(progress, percent),
{
    let head = match progress {
        Progress::Decoding => "Decoding... ",
        Progress::Analyzing => "Analyzing... ",
    };
    let mut text = String::from_str(head);
    append_decimal(&mut text, percent as u64);
    text.append("%");
    text
}

/// Builds the status text of a caught panic.
pub fn panic_status(detail: Option<&str>) -> (text: String)
    ensures
        text@ == panic_text(
            match detail {
                Some(message) => Some(message@),
                None => None,
            },
        ),
{
    match detail {
        Some(message) => String::from_str("Internal error: ").concat(message),
        None => String::from_str("Internal error: processing thread panicked"),
    }
}

} // verus!
