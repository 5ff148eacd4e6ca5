//! What a whole session does, stated over the transition of the protocol.
//!
//! A session polls the clipboard again and again. Each poll finds a text or
//! finds nothing readable; in between the watcher waits, and after a change it
//! hears the handler's directive. Only the polls move the fingerprint that the
//! watcher holds, so the handler is told of a change at a poll exactly when
//! the text found there has another fingerprint than the watcher held after
//! the polls before it.

use crate::fingerprint::{text_fingerprint, SENTINEL};
use crate::handler::CallbackResult;
use crate::protocol::{next_action, next_mark, ActionView, EventView, WatchErrorView};
use vstd::prelude::*;

verus! {

/// The event that reports a poll: the text it found, or that it found none.
pub open spec fn poll_event(poll: Option<Seq<char>>) -> EventView {
    match poll {
        Some(text) => EventView::Text(text),
        None => EventView::Unreadable,
    }
}

/// The fingerprint that the watcher holds once a session has made these
/// polls, in this order.
pub open spec fn mark_after(polls: Seq<Option<Seq<char>>>) -> u64
    decreases polls.len(),
{
    if polls.len() == 0 {
        SENTINEL
    } else {
        next_mark(mark_after(polls.drop_last()), poll_event(polls.last()))
    }
}

/// The fingerprint that the watcher holds once it has answered `events`,
/// having held `mark` before them.
pub open spec fn mark_through(mark: u64, events: Seq<EventView>) -> u64
    decreases events.len(),
{
    if events.len() == 0 {
        mark
    } else {
        next_mark(mark_through(mark, events.drop_last()), events.last())
    }
}

/// The polls among the events of a session, in their order.
pub open spec fn polls_of(events: Seq<EventView>) -> Seq<Option<Seq<char>>>
    decreases events.len(),
{
    if events.len() == 0 {
        Seq::empty()
    } else {
        let before = polls_of(events.drop_last());
        match events.last() {
            EventView::Text(text) => before.push(Some(text)),
            EventView::Unreadable => before.push(None),
            _ => before,
        }
    }
}

/// Whether the handler is told of a change at poll `i` of a session.
pub open spec fn notified_at(polls: Seq<Option<Seq<char>>>, i: int) -> bool
    recommends
        0 <= i < polls.len(),
{
    next_action(mark_after(polls.take(i)), poll_event(polls[i])) == ActionView::Notify
}

/// After at least one poll the watcher holds the fingerprint of the text
/// found last, or the sentinel when the last poll found none.
pub proof fn law_mark_follows_last_poll(polls: Seq<Option<Seq<char>>>)
    requires
        polls.len() > 0,
    ensures
        mark_after(polls) == match polls.last() {
            Some(text) => text_fingerprint(text),
            None => SENTINEL,
        },
{
}

/// Waiting, opening and the handler's directives leave the fingerprint as it
/// is: only a poll moves it.
pub proof fn law_only_polls_move_the_mark(mark: u64, event: EventView)
    requires
        !(event is Text),
        !(event is Unreadable),
    ensures
        next_mark(mark, event) == mark,
{
}

/// Whatever waits, signals and directives lie between them, the fingerprint
/// that a session holds is the one that its polls alone lead to.
pub proof fn law_session_mark_is_the_mark_of_its_polls(events: Seq<EventView>)
    ensures
        mark_through(SENTINEL, events) == mark_after(polls_of(events)),
    decreases events.len(),
{
    if events.len() > 0 {
        let earlier = events.drop_last();
        law_session_mark_is_the_mark_of_its_polls(earlier);
        let before = polls_of(earlier);
        match events.last() {
            EventView::Text(text) => {
                assert(before.push(Some(text)).drop_last() =~= before);
            },
            EventView::Unreadable => {
                assert(before.push(None).drop_last() =~= before);
            },
            _ => {},
        }
    }
}

/// At a poll in the middle of a session, among waits, signals and
/// directives, the handler is told exactly when it is told at the last of the
/// polls that the session has made so far.
pub proof fn law_session_notifies_as_its_polls_do(events: Seq<EventView>, k: int)
    requires
        0 <= k < events.len(),
        events[k] is Text || events[k] is Unreadable,
    ensures
        ({
            let polls = polls_of(events.take(k + 1));
            &&& polls.len() > 0
            &&& poll_event(polls.last()) == events[k]
            &&& next_action(mark_through(SENTINEL, events.take(k)), events[k]) == ActionView::Notify
                <==> notified_at(polls, polls.len() - 1)
        }),
{
    let upto = events.take(k + 1);
    let earlier = events.take(k);
    assert(upto.drop_last() =~= earlier);
    let polls = polls_of(upto);
    assert(polls.take(polls.len() - 1) =~= polls_of(earlier));
    law_session_mark_is_the_mark_of_its_polls(earlier);
}

/// Between two polls that both found a text, the handler is told of a change
/// exactly when the fingerprints of the two texts differ: no change of
/// fingerprint goes unreported and none is reported twice.
pub proof fn law_notified_exactly_on_transitions(polls: Seq<Option<Seq<char>>>, i: int)
    requires
        0 < i < polls.len(),
        polls[i - 1] is Some,
        polls[i] is Some,
    ensures
        notified_at(polls, i) <==> text_fingerprint(polls[i - 1]->Some_0) != text_fingerprint(
            polls[i]->Some_0,
        ),
{
    assert(polls.take(i).last() == polls[i - 1]);
}

/// While the fingerprint of the text changes from each poll to the next, the
/// handler is told at every poll after the first: once for each change, in
/// the order of the polls.
pub proof fn law_changing_text_notifies_every_time(polls: Seq<Option<Seq<char>>>)
    requires
        forall|i: int| 0 <= i < polls.len() ==> (#[trigger] polls[i]) is Some,
        forall|i: int|
            0 < i < polls.len() ==> text_fingerprint(polls[i - 1]->Some_0) != text_fingerprint(
                (#[trigger] polls[i])->Some_0,
            ),
    ensures
        forall|i: int| 0 < i < polls.len() ==> notified_at(polls, i),
{
    assert forall|i: int| 0 < i < polls.len() implies notified_at(polls, i) by {
        law_notified_exactly_on_transitions(polls, i);
    }
}

/// While every poll finds what the poll before it found, the handler is not
/// told again: after the first poll the session stays silent.
pub proof fn law_repeated_polls_are_silent(polls: Seq<Option<Seq<char>>>)
    requires
        forall|i: int| 0 < i < polls.len() ==> (#[trigger] polls[i]) == polls[i - 1],
    ensures
        forall|i: int| 0 < i < polls.len() ==> !notified_at(polls, i),
{
    assert forall|i: int| 0 < i < polls.len() implies !notified_at(polls, i) by {
        if polls[i] is Some {
            law_notified_exactly_on_transitions(polls, i);
        }
    }
}

/// A poll that finds nothing readable never has the handler told.
pub proof fn law_failed_poll_is_silent(polls: Seq<Option<Seq<char>>>, i: int)
    requires
        0 <= i < polls.len(),
        polls[i] is None,
    ensures
        !notified_at(polls, i),
{
}

/// A failed poll resets the watcher: the next text found is reported as a
/// change even when it is the very text that was there before the failure.
/// The one text that stays unreported is a text whose fingerprint is the
/// sentinel itself.
pub proof fn law_text_after_failure_notifies(polls: Seq<Option<Seq<char>>>, i: int)
    requires
        0 < i < polls.len(),
        polls[i - 1] is None,
        polls[i] is Some,
        text_fingerprint(polls[i]->Some_0) != SENTINEL,
    ensures
        notified_at(polls, i),
{
    assert(polls.take(i).last() == polls[i - 1]);
}

/// The first text that a session finds is reported as a change, unless its
/// fingerprint is the sentinel.
pub proof fn law_first_text_notifies(polls: Seq<Option<Seq<char>>>)
    requires
        polls.len() > 0,
        polls[0] is Some,
    ensures
        notified_at(polls, 0) <==> text_fingerprint(polls[0]->Some_0) != SENTINEL,
{
    assert(polls.take(0).len() == 0);
}

/// When every handle is gone, or one has signalled, the session ends in
/// success, whatever the watcher had seen.
pub proof fn law_shutdown_ends_in_success(mark: u64, event: EventView)
    requires
        event is Disconnected || event is Signalled,
    ensures
        next_action(mark, event) == ActionView::Finish(Ok(())),
        next_mark(mark, event) == mark,
{
}

/// When the handler stops with an error, the session ends with exactly that
/// error.
pub proof fn law_handler_error_is_the_result(mark: u64, error: std::io::Error)
    ensures
        next_action(mark, EventView::Replied(CallbackResult::StopWithError(error)))
            == ActionView::Finish(Err(WatchErrorView::Handler(error))),
{
}

} // verus!
