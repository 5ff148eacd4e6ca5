//! The shutdown channel: a one-slot channel on which any number of handles
//! can ask the single watcher that listens to stop.

use std::sync::mpsc::{sync_channel, Receiver, SyncSender};
use vstd::prelude::*;

verus! {

/// `std::sync::mpsc::SyncSender`, the sending end of a bounded channel.
#[verifier::external_type_specification]
#[verifier::external_body]
#[verifier::reject_recursive_types(T)]
pub struct ExSyncSender<T>(SyncSender<T>);

/// `std::sync::mpsc::Receiver`, the receiving end of a channel.
#[verifier::external_type_specification]
#[verifier::external_body]
#[verifier::reject_recursive_types(T)]
pub struct ExReceiver<T>(Receiver<T>);

/// How many signals the channel holds for a watcher that is busy.
///
/// With one slot a request made in the middle of a poll waits for the next
/// wait, and requests made while one is pending are dropped.
pub const SIGNAL_SLOTS: usize = 1;

/// The channel that a sender feeds.
pub uninterp spec fn sender_channel(sender: SyncSender<()>) -> int;

/// The channel that a receiver drains.
pub uninterp spec fn receiver_channel(receiver: Receiver<()>) -> int;

/// The number of slots that a channel was made with: how many signals it
/// holds while nobody receives.
pub uninterp spec fn channel_slots(channel: int) -> usize;

/// Calls `std::sync::mpsc::sync_channel`.
///
/// The contract claims that the two ends it returns belong to one channel,
/// and that this channel was made with the number of slots asked for.
#[verifier::external_body]
fn open_channel(slots: usize) -> (ends: (SyncSender<()>, Receiver<()>))
    ensures
        sender_channel(ends.0) == receiver_channel(ends.1),
        channel_slots(receiver_channel(ends.1)) == slots,
{
    sync_channel(slots)
}

/// Calls `SyncSender::clone`.
///
/// The contract claims that the copy feeds the channel that the sender it
/// was copied from feeds.
#[verifier::external_body]
fn clone_sender(sender: &SyncSender<()>) -> (copy: SyncSender<()>)
    ensures
        sender_channel(copy) == sender_channel(*sender),
{
    sender.clone()
}

/// Calls `SyncSender::try_send` with the unit signal and reports whether the
/// channel took it.
///
/// Nothing is claimed of the answer: it depends on whether the slot is free
/// and on whether the receiver still exists. The call neither blocks nor
/// panics.
#[verifier::external_body]
fn offer_signal(sender: &SyncSender<()>) -> (taken: bool)
    opens_invariants none
    no_unwind
{
    sender.try_send(()).is_ok()
}

/// The watcher's side of the shutdown channel: the receiving end, and the
/// sender that every handle is copied from.
pub(crate) struct Listener {
    sender: SyncSender<()>,
    recv: Receiver<()>,
}

impl Listener {
    /// The two ends that a listener keeps belong to one channel.
    #[verifier::type_invariant]
    spec fn connected(self) -> bool {
        sender_channel(self.sender) == receiver_channel(self.recv)
    }

    /// The channel that this listener drains.
    pub(crate) closed spec fn channel(&self) -> int {
        receiver_channel(self.recv)
    }

    /// Opens a channel of [`SIGNAL_SLOTS`] slots and keeps both ends.
    pub(crate) fn open() -> (listener: Listener)
        ensures
            channel_slots(listener.channel()) == SIGNAL_SLOTS,
    {
        let (sender, recv) = open_channel(SIGNAL_SLOTS);
        Listener { sender, recv }
    }

    /// Makes a handle that signals this listener's channel.
    pub(crate) fn handle(&self) -> (handle: Shutdown)
        ensures
            handle.channel() == self.channel(),
    {
        proof {
            use_type_invariant(self);
        }
        Shutdown { sender: clone_sender(&self.sender) }
    }

    /// The receiving end.
    pub(crate) fn receiver(&self) -> (recv: &Receiver<()>)
        ensures
            receiver_channel(*recv) == self.channel(),
    {
        &self.recv
    }
}

/// A handle that asks the watcher it is bound to to stop.
///
/// The request is made when [`Shutdown::request_shutdown`] is called and once
/// more when the handle is dropped, so a handle that goes out of scope always
/// ends the watch. Handles are made by the watcher and by cloning a handle;
/// there is no other way to one.
pub struct Shutdown {
    sender: SyncSender<()>,
}

impl Shutdown {
    /// The channel that this handle signals on.
    pub closed spec fn channel(&self) -> int {
        sender_channel(self.sender)
    }

    /// Asks the watcher to stop.
    ///
    /// The request is best-effort: when one is already pending, or the
    /// watcher no longer exists, it is dropped silently.
    pub fn request_shutdown(&self)
        opens_invariants none
        no_unwind
    {
        let _taken: bool = offer_signal(&self.sender);
    }
}

impl Clone for Shutdown {
    /// Makes another handle of the same watcher.
    fn clone(&self) -> (copy: Shutdown)
        ensures
            copy.channel() == self.channel(),
    {
        Shutdown { sender: clone_sender(&self.sender) }
    }
}

impl Drop for Shutdown {
    /// Makes the request of [`Shutdown::request_shutdown`] once more, so that
    /// a handle that goes out of scope stops the watcher it is bound to.
    fn drop(&mut self)
        ensures
            final(self).channel() == old(self).channel(),
        opens_invariants none
        no_unwind
    {
        self.request_shutdown();
    }
}

/// A stop can be asked for at any time: `request_shutdown` demands nothing of
/// its caller, whatever has become of the watcher. A session may be running
/// or long over, the watcher may be gone; the request is allowed all the
/// same, it cannot unwind, and it has no result in which a failure could be
/// reported. Dropping a handle makes this same request.
pub proof fn law_request_is_always_allowed(handle: Shutdown)
    ensures
        call_requires(Shutdown::request_shutdown, (&handle,)),
{
}

} // verus!
