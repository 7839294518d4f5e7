//! The core of the SERQ desktop backend: the debug-log bridge and the
//! API-key secret store, without any I/O of their own.
//!
//! The debug-log bridge takes one log event at a time, renders it as an
//! entry of the log file ([`event`], [`payload`], [`text`]) and keeps the
//! file bounded by cutting it down to its newest lines ([`rotation`]). It
//! reaches the file system through a host that carries out its requests
//! ([`bridge`]); what its operations make of the file is stated and proved
//! in [`logfile`].
//!
//! The secret store says what the answers of the platform's secure store
//! mean for the one API key of the application ([`secrets`]).
//!
//! Every failure is a [`failure::Failure`]: a kind, and a reason in words.

pub mod bridge;
pub mod event;
pub mod failure;
pub mod greeting;
pub mod logfile;
pub mod payload;
pub mod rotation;
pub mod secrets;
pub mod text;
