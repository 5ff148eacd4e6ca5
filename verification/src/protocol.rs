//! The watch protocol: what the driver reports, what the watcher answers, and
//! the transition that connects the two.
//!
//! A session is a dialogue. The watcher names an [`Action`]; the driver
//! performs it and reports what happened as an [`Event`]; the watcher answers
//! with the next action, until that action is [`Action::Finish`]. The only
//! state that the watcher carries from one event to the next is the
//! fingerprint of the last clipboard text it saw.

use crate::fingerprint::{text_fingerprint, SENTINEL};
use crate::handler::CallbackResult;
use vstd::prelude::*;
use vstd::string::StringExecFns;

verus! {

/// Why a session ended in failure.
#[derive(Debug)]
pub enum WatchError {
    /// The clipboard could not be opened; the text says why.
    Init(String),
    /// The handler asked to stop with this error.
    Handler(std::io::Error),
}

/// A [`WatchError`] with its text as a sequence of characters.
pub enum WatchErrorView {
    Init(Seq<char>),
    Handler(std::io::Error),
}

impl View for WatchError {
    type V = WatchErrorView;

    open spec fn view(&self) -> WatchErrorView {
        match self {
            WatchError::Init(text) => WatchErrorView::Init(text@),
            WatchError::Handler(error) => WatchErrorView::Handler(*error),
        }
    }
}

/// What the driver reports after it performed an action.
#[derive(Debug)]
pub enum Event {
    /// The clipboard was opened.
    Opened,
    /// The clipboard could not be opened; the text describes the failure.
    OpenFailed(String),
    /// A shutdown signal arrived during the wait.
    Signalled,
    /// Every sender of the shutdown channel is gone.
    Disconnected,
    /// The wait ran its full interval without a signal.
    TimedOut,
    /// The clipboard was read and held this text.
    Text(String),
    /// The clipboard could not be read, or held no text.
    Unreadable,
    /// The handler was told of a change and gave this directive.
    Replied(CallbackResult),
}

/// An [`Event`] with its texts as sequences of characters.
pub enum EventView {
    Opened,
    OpenFailed(Seq<char>),
    Signalled,
    Disconnected,
    TimedOut,
    Text(Seq<char>),
    Unreadable,
    Replied(CallbackResult),
}

impl View for Event {
    type V = EventView;

    open spec fn view(&self) -> EventView {
        match self {
            Event::Opened => EventView::Opened,
            Event::OpenFailed(detail) => EventView::OpenFailed(detail@),
            Event::Signalled => EventView::Signalled,
            Event::Disconnected => EventView::Disconnected,
            Event::TimedOut => EventView::TimedOut,
            Event::Text(text) => EventView::Text(text@),
            Event::Unreadable => EventView::Unreadable,
            Event::Replied(result) => EventView::Replied(*result),
        }
    }
}

/// What the watcher asks the driver to do next.
#[derive(Debug)]
pub enum Action {
    /// Open the clipboard; report `Opened` or `OpenFailed`.
    Open,
    /// Wait for a shutdown signal, at most for the handler's interval; report
    /// `Signalled`, `Disconnected` or `TimedOut`.
    Wait,
    /// Read the clipboard text; report `Text` or `Unreadable`.
    Read,
    /// Tell the handler of a change; report `Replied`.
    Notify,
    /// Release the clipboard and end the session with this result.
    Finish(Result<(), WatchError>),
}

/// An [`Action`] with its texts as sequences of characters.
pub enum ActionView {
    Open,
    Wait,
    Read,
    Notify,
    Finish(Result<(), WatchErrorView>),
}

impl View for Action {
    type V = ActionView;

    open spec fn view(&self) -> ActionView {
        match self {
            Action::Open => ActionView::Open,
            Action::Wait => ActionView::Wait,
            Action::Read => ActionView::Read,
            Action::Notify => ActionView::Notify,
            Action::Finish(Ok(_)) => ActionView::Finish(Ok(())),
            Action::Finish(Err(error)) => ActionView::Finish(Err(error@)),
        }
    }
}

/// The text of the error that ends a session whose clipboard did not open.
pub open spec fn init_message(detail: Seq<char>) -> Seq<char> {
    "Failed to initialize clipboard: "@ + detail
}

/// Makes the error that ends a session whose clipboard did not open, from
/// the description of what went wrong.
pub fn init_failure(detail: &str) -> (error: WatchError)
    ensures
        error@ == WatchErrorView::Init(init_message(detail@)),
{
    WatchError::Init(String::from_str("Failed to initialize clipboard: ").concat(detail))
}

/// The fingerprint that the watcher holds after `event`, having held `mark`.
///
/// A read replaces it, by the text's fingerprint or, when the read failed, by
/// the sentinel; no other event touches it.
pub open spec fn next_mark(mark: u64, event: EventView) -> u64 {
    match event {
        EventView::Text(text) => text_fingerprint(text),
        EventView::Unreadable => SENTINEL,
        _ => mark,
    }
}

/// The action with which the watcher answers `event` while it holds `mark`.
pub open spec fn next_action(mark: u64, event: EventView) -> ActionView {
    match event {
        EventView::Opened => ActionView::Wait,
        EventView::OpenFailed(detail) => ActionView::Finish(
            Err(WatchErrorView::Init(init_message(detail))),
        ),
        EventView::Signalled => ActionView::Finish(Ok(())),
        EventView::Disconnected => ActionView::Finish(Ok(())),
        EventView::TimedOut => ActionView::Read,
        EventView::Text(text) => if text_fingerprint(text) != mark {
            ActionView::Notify
        } else {
            ActionView::Wait
        },
        EventView::Unreadable => ActionView::Wait,
        EventView::Replied(CallbackResult::Next) => ActionView::Wait,
        EventView::Replied(CallbackResult::Stop) => ActionView::Finish(Ok(())),
        EventView::Replied(CallbackResult::StopWithError(error)) => ActionView::Finish(
            Err(WatchErrorView::Handler(error)),
        ),
    }
}

} // verus!
