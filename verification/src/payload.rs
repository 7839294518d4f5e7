//! The payload of a log event: a JSON document, read with `serde_json`.
//!
//! Of the document only its top-level members with a text value count. A
//! document that is no object, or whose member is no text, simply has no such
//! member; the event then takes its default.

use vstd::prelude::*;
use crate::event::{event_of, LogEvent, LogEventView};
use crate::failure::{Failure, FailureKind, FailureView};

verus! {

/// `serde_json::Value`: any JSON value. Opaque here; what the bridge reads of
/// it is named by [`text_members`].
#[verifier::external_type_specification]
#[verifier::external_body]
pub struct ExValue(serde_json::Value);

/// `serde_json::Error`: why a text is no JSON document. Opaque here; what
/// the bridge reads of it is named by [`message_of`].
#[verifier::external_type_specification]
#[verifier::external_body]
pub struct ExError(serde_json::Error);

/// The text members of a JSON value: for an object, each key whose value is
/// a JSON string, with that string; for any other value, nothing.
pub uninterp spec fn text_members(value: serde_json::Value) -> Map<Seq<char>, Seq<char>>;

/// The message of an error of the parser, as its `Display` writes it: what
/// is wrong, and at which line and column.
pub uninterp spec fn message_of(error: serde_json::Error) -> Seq<char>;

/// What `serde_json::from_str` makes of `text`: the text members of the value
/// that it stands for, or, where it is not one JSON document, the message of
/// the error.
pub uninterp spec fn parsed(text: Seq<char>) -> Result<Map<Seq<char>, Seq<char>>, Seq<char>>;

/// Calls `serde_json::from_str` for a `serde_json::Value`. Believed, not
/// proved: whether it succeeds, and the value or the error that it gives,
/// depend on the characters of `text` alone and are what [`parsed`] names.
#[verifier::external_body]
fn parse_document(text: &str) -> (document: Result<serde_json::Value, serde_json::Error>)
    ensures
        match document {
            Ok(value) => parsed(text@) == Ok::<Map<Seq<char>, Seq<char>>, Seq<char>>(
                text_members(value),
            ),
            Err(error) => parsed(text@) == Err::<Map<Seq<char>, Seq<char>>, Seq<char>>(
                message_of(error),
            ),
        },
{
    serde_json::from_str::<serde_json::Value>(text)
}

/// Calls `serde_json::Value::get` with a key. Believed, not proved: it gives
/// the member of that key where the value is an object that has one, and the
/// member is handed on where it is a JSON string; so the result is the text
/// member of that key, where there is one.
#[verifier::external_body]
fn member_text(value: &serde_json::Value, key: &str) -> (member: Option<String>)
    ensures
        match member {
            Some(text) => text_members(*value).contains_key(key@) && text_members(*value)[key@]
                == text@,
            None => !text_members(*value).contains_key(key@),
        },
{
    match value.get(key) {
        Some(serde_json::Value::String(text)) => Some(text.clone()),
        _ => None,
    }
}

/// Calls `to_string` on a `serde_json::Error`, which goes by its `Display`.
/// Believed, not proved: the text is the message of the error.
#[verifier::external_body]
fn complaint(error: &serde_json::Error) -> (reason: String)
    ensures
        reason@ == message_of(*error),
{
    error.to_string()
}

/// The text member of `key`, where the members hold one.
pub open spec fn member_of(members: Map<Seq<char>, Seq<char>>, key: Seq<char>) -> Option<
    Seq<char>,
> {
    if members.contains_key(key) {
        Some(members[key])
    } else {
        None
    }
}

/// The event that a document with the given text members stands for.
pub open spec fn event_of_members(members: Map<Seq<char>, Seq<char>>) -> LogEventView {
    event_of(
        member_of(members, "level"@),
        member_of(members, "message"@),
        member_of(members, "timestamp"@),
        member_of(members, "source"@),
        member_of(members, "stack"@),
    )
}

/// What reading a payload gives, from what the parser makes of it: the
/// event of its text members, or a parse failure with the parser's message
/// as the reason.
pub open spec fn event_read(
    document: Result<Map<Seq<char>, Seq<char>>, Seq<char>>,
) -> Result<LogEventView, FailureView> {
    match document {
        Ok(members) => Ok(event_of_members(members)),
        Err(message) => Err(FailureView { kind: FailureKind::Parse, reason: message }),
    }
}

/// Reads a payload as a log event. Any JSON document is accepted; a text
/// that is none is refused as a parse failure, with the parser's message as
/// the reason.
pub fn parse_event(payload: &str) -> (read: Result<LogEvent, Failure>)
    ensures
        match event_read(parsed(payload@)) {
            Ok(event) => read matches Ok(made) && made@ == event,
            Err(failure) => read matches Err(told) && told@ == failure,
        },
{
    match parse_document(payload) {
        Ok(value) => {
            let level = member_text(&value, "level");
            let message = member_text(&value, "message");
            let timestamp = member_text(&value, "timestamp");
            let source = member_text(&value, "source");
            let stack = member_text(&value, "stack");
            Ok(LogEvent::from_fields(level, message, timestamp, source, stack))
        },
        Err(error) => Err(Failure { kind: FailureKind::Parse, reason: complaint(&error) }),
    }
}

} // verus!
