//! The secret store: one API key, kept by a secure store of the platform.
//!
//! The store itself is the host's. It is addressed by a fixed service and a
//! fixed key name, and this layer says what its answers mean: a value that
//! is empty counts as no value, and a missing entry is no failure.

use vstd::prelude::*;
use vstd::string::*;
use crate::failure::{Failure, FailureKind, FailureView};

verus! {

/// The service under which the key is kept.
pub const SERVICE: &'static str = "com.serq.app";

/// The name under which the key is kept.
pub const KEY_NAME: &'static str = "anthropic-api-key";

/// What goes before the cause when the key cannot be stored.
pub const STORE_FAILED: &'static str = "Failed to store API key: ";

/// What goes before the cause when the key cannot be retrieved.
pub const RETRIEVE_FAILED: &'static str = "Failed to retrieve API key: ";

/// What goes before the cause when the presence of the key cannot be told.
pub const CHECK_FAILED: &'static str = "Failed to check API key: ";

/// What the secure store answered to a read.
#[derive(Clone, Debug, PartialEq, Eq)]
pub enum StoreRead {
    /// The entry exists and holds this value, which may be empty.
    Value(String),
    /// The store has no such entry.
    NoEntry,
    /// The store failed in another way, for this cause.
    Failed(String),
}

/// A [`StoreRead`] with its texts as sequences of characters.
pub enum StoreReadView {
    Value(Seq<char>),
    NoEntry,
    Failed(Seq<char>),
}

impl View for StoreRead {
    type V = StoreReadView;

    open spec fn view(&self) -> StoreReadView {
        match *self {
            StoreRead::Value(value) => StoreReadView::Value(value@),
            StoreRead::NoEntry => StoreReadView::NoEntry,
            StoreRead::Failed(cause) => StoreReadView::Failed(cause@),
        }
    }
}

/// The key that a read shows: the value of the entry, unless it is empty
/// or there is no entry.
pub open spec fn key_shown(read: StoreReadView) -> Option<Seq<char>> {
    match read {
        StoreReadView::Value(value) if value.len() > 0 => Some(value),
        _ => None,
    }
}

/// A failure of the store whose reason is `prefix` followed by `cause`.
pub open spec fn store_failure(prefix: Seq<char>, cause: Seq<char>) -> FailureView {
    FailureView { kind: FailureKind::Store, reason: prefix + cause }
}

/// Makes the failure of the store whose reason is `prefix` followed by
/// `cause`.
fn failed_with(prefix: &str, cause: String) -> (failure: Failure)
    ensures
        failure@ == store_failure(prefix@, cause@),
{
    let reason = String::from_str(prefix).concat(cause.as_str());
    Failure { kind: FailureKind::Store, reason }
}

/// Says what came of storing the key, given what the store answered to the
/// write: success, or a store failure that names the cause.
pub fn set_api_key(written: Result<(), String>) -> (stored: Result<(), Failure>)
    ensures
        match written {
            Ok(_) => stored is Ok,
            Err(cause) => stored matches Err(failure) && failure@ == store_failure(
                STORE_FAILED@,
                cause@,
            ),
        },
{
    match written {
        Ok(_) => Ok(()),
        Err(cause) => Err(failed_with(STORE_FAILED, cause)),
    }
}

/// Says which key is stored, given what the store answered to the read.
/// An empty value and a missing entry both mean that none is; any other
/// failure of the store is a store failure that names the cause.
pub fn get_api_key(read: StoreRead) -> (key: Result<Option<String>, Failure>)
    ensures
        match read@ {
            StoreReadView::Failed(cause) => key matches Err(failure) && failure@ == store_failure(
                RETRIEVE_FAILED@,
                cause,
            ),
            _ => key matches Ok(found) && match found {
                Some(text) => key_shown(read@) == Some(text@),
                None => key_shown(read@) is None,
            },
        },
{
    match read {
        StoreRead::Value(value) => {
            if value.as_str().is_empty() {
                Ok(None)
            } else {
                Ok(Some(value))
            }
        },
        StoreRead::NoEntry => Ok(None),
        StoreRead::Failed(cause) => Err(failed_with(RETRIEVE_FAILED, cause)),
    }
}

/// Says whether a key is stored, given what the store answered to the read:
/// true exactly when the entry exists with a value that is not empty. A
/// failure of the store other than a missing entry leaves the question open
/// and is reported.
pub fn has_api_key(read: StoreRead) -> (present: Result<bool, Failure>)
    ensures
        match read@ {
            StoreReadView::Failed(cause) => present matches Err(failure) && failure@
                == store_failure(CHECK_FAILED@, cause),
            _ => present matches Ok(found) && found == (key_shown(read@) is Some),
        },
{
    match read {
        StoreRead::Value(value) => Ok(!value.as_str().is_empty()),
        StoreRead::NoEntry => Ok(false),
        StoreRead::Failed(cause) => Err(failed_with(CHECK_FAILED, cause)),
    }
}

/// An entry with an empty value shows the same as no entry: no key. A
/// caller cannot tell a key that was never set from one set to the empty
/// text.
pub proof fn law_empty_is_absent()
    ensures
        key_shown(StoreReadView::Value(Seq::empty())) == key_shown(StoreReadView::NoEntry),
        key_shown(StoreReadView::NoEntry) is None,
{
}

/// A store that hands back the value it was given shows that value as the
/// key, unless the value is empty.
pub proof fn law_stored_key_is_shown(value: Seq<char>)
    ensures
        key_shown(StoreReadView::Value(value)) == if value.len() == 0 {
            None
        } else {
            Some(value)
        },
{
}

} // verus!
