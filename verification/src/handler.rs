//! What the caller supplies: a handler that sets the poll interval and reacts
//! to clipboard changes.

use std::time::Duration;
use vstd::prelude::*;

verus! {

/// `std::io::Error`, carried through the library without being looked into.
#[verifier::external_type_specification]
#[verifier::external_body]
pub struct ExIoError(std::io::Error);

/// What a handler asks of the watcher after it was told of a change.
#[derive(Debug)]
pub enum CallbackResult {
    /// Keep watching.
    Next,
    /// Stop watching; the session ends in success.
    Stop,
    /// Stop watching; the session ends with this error.
    StopWithError(std::io::Error),
}

/// The policy of a watch session.
///
/// Nothing is assumed of an implementation: the watcher is proved correct for
/// whatever interval and whatever directive the handler gives.
pub trait ClipboardHandler {
    /// Called once for every poll that finds the clipboard text changed.
    fn on_clipboard_change(&mut self) -> CallbackResult;

    /// How long the watcher waits for a shutdown signal before it polls again.
    fn sleep_interval(&self) -> Duration;
}

} // verus!
