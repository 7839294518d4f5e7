//! One log event, and the entry that it becomes in the log file.
//!
//! An entry begins with the line `[<timestamp>] <LEVEL>: <message>`, the
//! level in upper case. Where the event names its source, a line
//! `  at <source>` follows; where it carries a stack trace, each line of the
//! trace follows, indented by two spaces. The entry ends with one line feed.

use vstd::prelude::*;
use vstd::string::*;
use crate::text::{indent, indented, lines, push_indented, uppercased};

verus! {

/// The level of an event that names none.
pub const DEFAULT_LEVEL: &'static str = "log";

/// The message of an event that has none.
pub const DEFAULT_MESSAGE: &'static str = "";

/// The timestamp of an event that has none.
pub const DEFAULT_TIMESTAMP: &'static str = "";

/// A log event, with the defaults in place of what its sender left out.
#[derive(Clone, Debug, PartialEq, Eq)]
pub struct LogEvent {
    /// A short tag such as `info` or `error`.
    pub level: String,
    /// Free-form text.
    pub message: String,
    /// The time of the event, as its sender wrote it.
    pub timestamp: String,
    /// Where the event comes from, such as a file and a line.
    pub source: Option<String>,
    /// A stack trace, which may span several lines.
    pub stack: Option<String>,
}

/// A [`LogEvent`] with its texts as sequences of characters.
pub struct LogEventView {
    pub level: Seq<char>,
    pub message: Seq<char>,
    pub timestamp: Seq<char>,
    pub source: Option<Seq<char>>,
    pub stack: Option<Seq<char>>,
}

/// The characters of a text that may be absent.
pub open spec fn text_of(field: Option<String>) -> Option<Seq<char>> {
    match field {
        Some(text) => Some(text@),
        None => None,
    }
}

impl View for LogEvent {
    type V = LogEventView;

    open spec fn view(&self) -> LogEventView {
        LogEventView {
            level: self.level@,
            message: self.message@,
            timestamp: self.timestamp@,
            source: text_of(self.source),
            stack: text_of(self.stack),
        }
    }
}

/// The given text, or the default where there is none.
pub open spec fn or_default(field: Option<Seq<char>>, default: Seq<char>) -> Seq<char> {
    match field {
        Some(text) => text,
        None => default,
    }
}

/// The event that the given fields make: level, message and timestamp fall
/// back to their defaults, source and stack may stay absent.
pub open spec fn event_of(
    level: Option<Seq<char>>,
    message: Option<Seq<char>>,
    timestamp: Option<Seq<char>>,
    source: Option<Seq<char>>,
    stack: Option<Seq<char>>,
) -> LogEventView {
    LogEventView {
        level: or_default(level, DEFAULT_LEVEL@),
        message: or_default(message, DEFAULT_MESSAGE@),
        timestamp: or_default(timestamp, DEFAULT_TIMESTAMP@),
        source,
        stack,
    }
}

/// The first line of an entry: `[<timestamp>] <LEVEL>: <message>`.
pub open spec fn headline(event: LogEventView) -> Seq<char> {
    "["@ + event.timestamp + "] "@ + uppercased(event.level) + ": "@ + event.message
}

/// The line that names the source, after its line break: `  at <source>`.
pub open spec fn source_line(source: Option<Seq<char>>) -> Seq<char> {
    match source {
        Some(text) => indent() + "at "@ + text,
        None => Seq::empty(),
    }
}

/// The lines of the stack trace, each after a line break and two spaces.
pub open spec fn stack_lines(stack: Option<Seq<char>>) -> Seq<char> {
    match stack {
        Some(text) => indented(lines(text)),
        None => Seq::empty(),
    }
}

/// The entry that an event becomes in the log file.
pub open spec fn rendered(event: LogEventView) -> Seq<char> {
    headline(event) + source_line(event.source) + stack_lines(event.stack) + "\n"@
}

/// The given text, or a copy of the default where there is none.
fn text_or(field: Option<String>, default: &str) -> (text: String)
    ensures
        text@ == or_default(text_of(field), default@),
{
    match field {
        Some(text) => text,
        None => String::from_str(default),
    }
}

impl LogEvent {
    /// Makes an event of the fields that a payload holds, with the defaults
    /// in place of the absent ones.
    pub fn from_fields(
        level: Option<String>,
        message: Option<String>,
        timestamp: Option<String>,
        source: Option<String>,
        stack: Option<String>,
    ) -> (event: LogEvent)
        ensures
            event@ == event_of(
                text_of(level),
                text_of(message),
                text_of(timestamp),
                text_of(source),
                text_of(stack),
            ),
    {
        LogEvent {
            level: text_or(level, DEFAULT_LEVEL),
            message: text_or(message, DEFAULT_MESSAGE),
            timestamp: text_or(timestamp, DEFAULT_TIMESTAMP),
            source,
            stack,
        }
    }

    /// Renders the event as its entry in the log file.
    pub fn render(&self) -> (entry: String)
        ensures
            entry@ == rendered(self@),
    {
        let mut entry = String::from_str("[");
        entry.append(self.timestamp.as_str());
        entry.append("] ");
        let level = self.level.as_str().to_uppercase();
        entry.append(level.as_str());
        entry.append(": ");
        entry.append(self.message.as_str());
        assert(entry@ == headline(self@));
        match &self.source {
            Some(source) => {
                entry.push('\n');
                entry.push(' ');
                entry.push(' ');
                entry.append("at ");
                entry.append(source.as_str());
                assert(entry@ =~= headline(self@) + source_line(self@.source));
            },
            None => {
                assert(entry@ =~= headline(self@) + source_line(self@.source));
            },
        }
        match &self.stack {
            Some(stack) => {
                push_indented(&mut entry, stack.as_str());
            },
            None => {
                assert(entry@ =~= headline(self@) + source_line(self@.source) + stack_lines(
                    self@.stack,
                ));
            },
        }
        entry.append("\n");
        entry
    }
}

} // verus!
