//! How an operation of the backend fails: a kind, and a reason in words.

use vstd::prelude::*;

verus! {

/// The kinds of failure that the backend tells apart.
#[derive(Clone, Copy, Debug, PartialEq, Eq, Structural)]
pub enum FailureKind {
    /// The log payload handed in is not a well-formed document.
    Parse,
    /// Something that the environment must provide is missing: the home
    /// directory.
    Environment,
    /// The file system refused to open, read, write or measure the log file.
    Io,
    /// The secure store failed in another way than by having no entry.
    Store,
}

/// A failure as it is reported to the caller: nothing is retried, and nothing
/// of the failed operation is kept for later.
#[derive(Clone, Debug, PartialEq, Eq)]
pub struct Failure {
    pub kind: FailureKind,
    pub reason: String,
}

/// A [`Failure`] with its reason as a sequence of characters.
pub struct FailureView {
    pub kind: FailureKind,
    pub reason: Seq<char>,
}

impl View for Failure {
    type V = FailureView;

    open spec fn view(&self) -> FailureView {
        FailureView { kind: self.kind, reason: self.reason@ }
    }
}

} // verus!
