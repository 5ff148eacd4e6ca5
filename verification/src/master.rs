//! The watcher itself.

use crate::fingerprint::{fingerprint, SENTINEL};
use crate::handler::{CallbackResult, ClipboardHandler};
use crate::protocol::{
    init_failure, next_action, next_mark, Action, ActionView, Event, WatchError,
};
use crate::signal::{channel_slots, receiver_channel, Listener, Shutdown, SIGNAL_SLOTS};
use std::sync::mpsc::Receiver;
use std::time::Duration;
use vstd::prelude::*;

verus! {

/// Clipboard master.
///
/// Tracks changes of the clipboard text and has its handler told of each.
pub struct Master<H> {
    handler: H,
    listener: Listener,
    mark: u64,
}

impl<H: ClipboardHandler> Master<H> {
    /// The handler that this watcher consults.
    pub closed spec fn handler(&self) -> H {
        self.handler
    }

    /// The fingerprint of the clipboard text that the watcher saw last, or
    /// the sentinel.
    pub closed spec fn mark(&self) -> u64 {
        self.mark
    }

    /// The shutdown channel that this watcher listens on.
    pub closed spec fn channel(&self) -> int {
        self.listener.channel()
    }

    /// Creates new instance.
    ///
    /// Nothing is opened yet: the watcher holds the handler, a fresh shutdown
    /// channel of [`SIGNAL_SLOTS`] slots and the sentinel.
    pub fn new(handler: H) -> (made: Result<Self, std::io::Error>)
        ensures
            made matches Ok(master) && master.handler() == handler && master.mark() == SENTINEL
                && channel_slots(master.channel()) == SIGNAL_SLOTS,
    {
        Ok(Master { handler, listener: Listener::open(), mark: SENTINEL })
    }

    /// Creates shutdown channel.
    ///
    /// Every handle made here signals the channel that this watcher listens
    /// on.
    pub fn shutdown_channel(&self) -> (handle: Shutdown)
        ensures
            handle.channel() == self.channel(),
    {
        self.listener.handle()
    }

    /// The receiving end of the shutdown channel, for the driver to wait on.
    pub fn receiver(&self) -> (recv: &Receiver<()>)
        ensures
            receiver_channel(*recv) == self.channel(),
    {
        self.listener.receiver()
    }

    /// Asks the handler how long the next wait may last.
    ///
    /// The interval is an answer of the handler that this watcher holds: the
    /// watcher neither clamps it nor replaces it.
    pub fn sleep_interval(&self) -> (interval: Duration)
        ensures
            call_ensures(H::sleep_interval, (&self.handler(),), interval),
    {
        self.handler.sleep_interval()
    }

    /// Begins a session: forgets what was seen before and asks for the
    /// clipboard to be opened.
    pub fn start(&mut self) -> (action: Action)
        ensures
            action@ == ActionView::Open,
            final(self).mark() == SENTINEL,
            final(self).handler() == old(self).handler(),
            final(self).channel() == old(self).channel(),
    {
        self.mark = SENTINEL;
        Action::Open
    }

    /// Tells the handler that the clipboard changed and wraps its directive
    /// as the event to report.
    ///
    /// The handler that is asked is the one this watcher holds, it is asked
    /// once, and the directive reported is its answer; the handler that the
    /// watcher holds afterwards is the one that this call left behind.
    pub fn notify(&mut self) -> (event: Event)
        ensures
            event is Replied,
            exists|h: &mut H|
                mut_ref_current(h) == old(self).handler()
                    && mut_ref_future(h) == final(self).handler()
                    && #[trigger] call_ensures(H::on_clipboard_change, (h,), event->Replied_0),
            final(self).mark() == old(self).mark(),
            final(self).channel() == old(self).channel(),
    {
        Event::Replied(self.handler.on_clipboard_change())
    }

    /// Takes the report of the action performed last and decides the next.
    pub fn step(&mut self, event: Event) -> (action: Action)
        ensures
            action@ == next_action(old(self).mark(), event@),
            final(self).mark() == next_mark(old(self).mark(), event@),
            final(self).handler() == old(self).handler(),
            final(self).channel() == old(self).channel(),
    {
        match event {
            Event::Opened => Action::Wait,
            Event::OpenFailed(detail) => Action::Finish(Err(init_failure(detail.as_str()))),
            Event::Signalled => Action::Finish(Ok(())),
            Event::Disconnected => Action::Finish(Ok(())),
            Event::TimedOut => Action::Read,
            Event::Text(text) => {
                let mark: u64 = fingerprint(text.as_str());
                let changed: bool = mark != self.mark;
                self.mark = mark;
                if changed {
                    Action::Notify
                } else {
                    Action::Wait
                }
            },
            Event::Unreadable => {
                self.mark = SENTINEL;
                Action::Wait
            },
            Event::Replied(CallbackResult::Next) => Action::Wait,
            Event::Replied(CallbackResult::Stop) => Action::Finish(Ok(())),
            Event::Replied(CallbackResult::StopWithError(error)) => Action::Finish(
                Err(WatchError::Handler(error)),
            ),
        }
    }
}

} // verus!
