//! The debug-log bridge, as a conversation with its host.
//!
//! The bridge touches no file. It answers each call with a [`Step`]: a
//! [`Request`] that the host is to carry out on the file system, or the end
//! of the operation. The host reports what came of the request with a
//! [`Report`] and hands it to [`resume`], until the operation is done or has
//! failed. Nothing is remembered between the calls: a report carries what
//! the next step needs.
//!
//! Appending an event goes: append the entry, measure the file, and, where
//! the file has grown above the ceiling, load it and overwrite it with its
//! newest lines.

use vstd::prelude::*;
use vstd::string::*;
use crate::event::{rendered, LogEventView};
use crate::failure::{Failure, FailureKind, FailureView};
use crate::payload::{event_read, parse_event, parsed};
use crate::rotation::{needs_rotation, oversized, retain_recent, retained};

verus! {

/// What follows the home directory in the path of the log file.
pub const LOG_FILE: &'static str = "/.serq-debug.log";

/// What goes before the cause when the log file cannot be opened.
pub const OPEN_FAILED: &'static str = "Failed to open log file: ";

/// What goes before the cause when the entry cannot be written.
pub const WRITE_FAILED: &'static str = "Failed to write to log file: ";

/// The path of the log file under the given home directory.
pub open spec fn log_path(home: Seq<char>) -> Seq<char> {
    home + LOG_FILE@
}

/// What the bridge asks of its host.
#[derive(Clone, Debug, PartialEq, Eq)]
pub enum Request {
    /// Open the file for appending, creating it if need be, and write the
    /// entry with one write.
    Append { path: String, entry: String },
    /// Tell the size of the file in bytes.
    Measure { path: String },
    /// Read the whole file.
    Load { path: String },
    /// Replace the content of the file.
    Overwrite { path: String, content: Vec<u8> },
}

/// A [`Request`] with its texts and bytes as sequences.
pub enum RequestView {
    Append { path: Seq<char>, entry: Seq<char> },
    Measure { path: Seq<char> },
    Load { path: Seq<char> },
    Overwrite { path: Seq<char>, content: Seq<u8> },
}

impl View for Request {
    type V = RequestView;

    open spec fn view(&self) -> RequestView {
        match *self {
            Request::Append { path, entry } => RequestView::Append { path: path@, entry: entry@ },
            Request::Measure { path } => RequestView::Measure { path: path@ },
            Request::Load { path } => RequestView::Load { path: path@ },
            Request::Overwrite { path, content } => RequestView::Overwrite {
                path: path@,
                content: content@,
            },
        }
    }
}

/// What the host tells of a request that it has carried out, or could not.
#[derive(Clone, Debug, PartialEq, Eq)]
pub enum Report {
    /// The entry was appended to the file at `path`.
    Appended { path: String },
    /// The file could not be opened for appending.
    OpenFailed { cause: String },
    /// The file was opened, but the entry could not be written.
    WriteFailed { cause: String },
    /// The file at `path` holds `size` bytes.
    Measured { path: String, size: u64 },
    /// The file at `path` holds `content`.
    Loaded { path: String, content: Vec<u8> },
    /// The content of the file was replaced.
    Overwritten,
    /// The file could not be measured, read or overwritten.
    Failed { cause: String },
}

/// A [`Report`] with its texts and bytes as sequences.
pub enum ReportView {
    Appended { path: Seq<char> },
    OpenFailed { cause: Seq<char> },
    WriteFailed { cause: Seq<char> },
    Measured { path: Seq<char>, size: u64 },
    Loaded { path: Seq<char>, content: Seq<u8> },
    Overwritten,
    Failed { cause: Seq<char> },
}

impl View for Report {
    type V = ReportView;

    open spec fn view(&self) -> ReportView {
        match *self {
            Report::Appended { path } => ReportView::Appended { path: path@ },
            Report::OpenFailed { cause } => ReportView::OpenFailed { cause: cause@ },
            Report::WriteFailed { cause } => ReportView::WriteFailed { cause: cause@ },
            Report::Measured { path, size } => ReportView::Measured { path: path@, size },
            Report::Loaded { path, content } => ReportView::Loaded {
                path: path@,
                content: content@,
            },
            Report::Overwritten => ReportView::Overwritten,
            Report::Failed { cause } => ReportView::Failed { cause: cause@ },
        }
    }
}

/// How an operation of the bridge goes on.
#[derive(Clone, Debug, PartialEq, Eq)]
pub enum Step {
    /// The host is to carry out the request and report.
    Ask(Request),
    /// The operation has succeeded.
    Done,
    /// The operation has failed. Nothing more is asked or tried.
    Fail(Failure),
}

/// A [`Step`] with its texts and bytes as sequences.
pub enum StepView {
    Ask(RequestView),
    Done,
    Fail(FailureView),
}

impl View for Step {
    type V = StepView;

    open spec fn view(&self) -> StepView {
        match *self {
            Step::Ask(request) => StepView::Ask(request@),
            Step::Done => StepView::Done,
            Step::Fail(failure) => StepView::Fail(failure@),
        }
    }
}

/// A failure of the file system with the given reason.
pub open spec fn io_failure(reason: Seq<char>) -> StepView {
    StepView::Fail(FailureView { kind: FailureKind::Io, reason })
}

/// The step that follows a report.
pub open spec fn next_step(report: ReportView) -> StepView {
    match report {
        ReportView::Appended { path } => StepView::Ask(RequestView::Measure { path }),
        ReportView::OpenFailed { cause } => io_failure(OPEN_FAILED@ + cause),
        ReportView::WriteFailed { cause } => io_failure(WRITE_FAILED@ + cause),
        ReportView::Measured { path, size } => if oversized(size as nat) {
            StepView::Ask(RequestView::Load { path })
        } else {
            StepView::Done
        },
        ReportView::Loaded { path, content } => StepView::Ask(
            RequestView::Overwrite { path, content: retained(content) },
        ),
        ReportView::Overwritten => StepView::Done,
        ReportView::Failed { cause } => io_failure(cause),
    }
}

/// The home directory, or why there is none, as sequences of characters.
pub open spec fn home_of(home: Result<String, String>) -> Result<Seq<char>, Seq<char>> {
    match home {
        Ok(dir) => Ok(dir@),
        Err(cause) => Err(cause@),
    }
}

/// The failure to tell the home directory, for the given cause.
pub open spec fn environment_failure(cause: Seq<char>) -> StepView {
    StepView::Fail(FailureView { kind: FailureKind::Environment, reason: cause })
}

/// The first step of appending an event, given the home directory or why
/// there is none, and what reading the payload gave. A missing home
/// directory is told before a payload that cannot be read.
pub open spec fn log_step(
    home: Result<Seq<char>, Seq<char>>,
    read: Result<LogEventView, FailureView>,
) -> StepView {
    match home {
        Err(cause) => environment_failure(cause),
        Ok(dir) => match read {
            Err(failure) => StepView::Fail(failure),
            Ok(event) => StepView::Ask(
                RequestView::Append { path: log_path(dir), entry: rendered(event) },
            ),
        },
    }
}

/// The first step of clearing the log, given the home directory or why there
/// is none.
pub open spec fn clear_step(home: Result<Seq<char>, Seq<char>>) -> StepView {
    match home {
        Err(cause) => environment_failure(cause),
        Ok(dir) => StepView::Ask(
            RequestView::Overwrite { path: log_path(dir), content: Seq::empty() },
        ),
    }
}

/// The path of the log file under `home`.
fn path_under(home: String) -> (path: String)
    ensures
        path@ == log_path(home@),
{
    home.concat(LOG_FILE)
}

/// A file-system failure whose reason is `prefix` followed by `cause`.
fn failed_with(prefix: &str, cause: String) -> (step: Step)
    ensures
        step@ == io_failure(prefix@ + cause@),
{
    let reason = String::from_str(prefix).concat(cause.as_str());
    Step::Fail(Failure { kind: FailureKind::Io, reason })
}

/// Begins the appending of one log event.
///
/// `home` is the home directory of the user, or why it cannot be told;
/// `entry` is the payload of the event, a JSON document. Without a home
/// directory the operation fails at once, whatever the payload. A payload
/// that is no JSON document fails it with a parse failure. In both cases
/// nothing is asked of the host, so the log file stays as it is. Otherwise
/// the host is asked to append the rendered event to the log file.
pub fn debug_bridge_log(home: Result<String, String>, entry: String) -> (step: Step)
    ensures
        step@ == log_step(home_of(home), event_read(parsed(entry@))),
{
    match home {
        Err(cause) => Step::Fail(Failure { kind: FailureKind::Environment, reason: cause }),
        Ok(dir) => match parse_event(entry.as_str()) {
            Err(failure) => Step::Fail(failure),
            Ok(event) => Step::Ask(Request::Append { path: path_under(dir), entry: event.render() }),
        },
    }
}

/// Begins the clearing of the log: the host is asked to overwrite the log
/// file with nothing. Without a home directory the operation fails at once.
pub fn debug_bridge_clear(home: Result<String, String>) -> (step: Step)
    ensures
        step@ == clear_step(home_of(home)),
{
    match home {
        Err(cause) => Step::Fail(Failure { kind: FailureKind::Environment, reason: cause }),
        Ok(dir) => Step::Ask(Request::Overwrite { path: path_under(dir), content: Vec::new() }),
    }
}

/// Goes on with an operation after the host has reported.
///
/// After an append the file is measured. A file above the ceiling is
/// loaded, and then overwritten with its newest lines; a smaller one ends
/// the operation. Every failure that the host reports ends it, with the
/// cause as the reason.
pub fn resume(report: Report) -> (step: Step)
    ensures
        step@ == next_step(report@),
{
    match report {
        Report::Appended { path } => Step::Ask(Request::Measure { path }),
        Report::OpenFailed { cause } => failed_with(OPEN_FAILED, cause),
        Report::WriteFailed { cause } => failed_with(WRITE_FAILED, cause),
        Report::Measured { path, size } => {
            if needs_rotation(size) {
                Step::Ask(Request::Load { path })
            } else {
                Step::Done
            }
        },
        Report::Loaded { path, content } => {
            let kept = retain_recent(content.as_slice());
            Step::Ask(Request::Overwrite { path, content: kept })
        },
        Report::Overwritten => Step::Done,
        Report::Failed { cause } => Step::Fail(Failure { kind: FailureKind::Io, reason: cause }),
    }
}

} // verus!
