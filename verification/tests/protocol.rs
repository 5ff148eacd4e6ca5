use clipboard_master::{
    fingerprint, Action, CallbackResult, ClipboardHandler, Event, Master, WatchError, SENTINEL,
};
use std::collections::hash_map::DefaultHasher;
use std::hash::{Hash, Hasher};
use std::io;
use std::time::Duration;

struct Quiet;

impl ClipboardHandler for Quiet {
    fn on_clipboard_change(&mut self) -> CallbackResult {
        CallbackResult::Next
    }

    fn sleep_interval(&self) -> Duration {
        Duration::from_millis(10)
    }
}

fn watcher() -> Master<Quiet> {
    Master::new(Quiet).expect("a watcher is always made")
}

fn text(s: &str) -> Event {
    Event::Text(s.to_string())
}

/// Feeds one poll to the watcher and says whether the handler is to be told.
fn poll(master: &mut Master<Quiet>, found: Option<&str>) -> bool {
    let event = match found {
        Some(s) => text(s),
        None => Event::Unreadable,
    };
    match master.step(event) {
        Action::Notify => true,
        Action::Wait => false,
        other => panic!("a poll is answered by Notify or Wait, not {:?}", other),
    }
}

fn hashed_as_slice(s: &str) -> u64 {
    let mut state = DefaultHasher::new();
    s.as_bytes().hash(&mut state);
    state.finish()
}

#[test]
fn sentinel_is_zero() {
    assert_eq!(SENTINEL, 0);
}

#[test]
fn fingerprint_is_default_hash_of_the_bytes() {
    assert_eq!(fingerprint("hello"), hashed_as_slice("hello"));
    assert_eq!(fingerprint(""), hashed_as_slice(""));
    assert_eq!(fingerprint("gr\u{fc}\u{df}e"), hashed_as_slice("gr\u{fc}\u{df}e"));
}

#[test]
fn fingerprint_depends_on_the_text_alone() {
    let first = fingerprint("clipboard");
    let second = fingerprint(&String::from("clipboard"));
    assert_eq!(first, second);
}

#[test]
fn fingerprint_tells_texts_apart() {
    assert_ne!(fingerprint("a"), fingerprint("b"));
    assert_ne!(fingerprint("a"), fingerprint(""));
    assert_ne!(fingerprint("ab"), fingerprint("ba"));
    assert_ne!(fingerprint("a"), SENTINEL);
}

#[test]
fn start_asks_for_the_clipboard() {
    let mut master = watcher();
    assert!(matches!(master.start(), Action::Open));
}

#[test]
fn opened_clipboard_leads_to_a_wait() {
    let mut master = watcher();
    assert!(matches!(master.step(Event::Opened), Action::Wait));
}

#[test]
fn open_failure_ends_the_session_with_an_init_error() {
    let mut master = watcher();
    let action = master.step(Event::OpenFailed("ClipboardNotSupported".to_string()));
    match action {
        Action::Finish(Err(WatchError::Init(message))) => {
            assert_eq!(message, "Failed to initialize clipboard: ClipboardNotSupported");
        }
        other => panic!("unexpected answer {:?}", other),
    }
}

#[test]
fn open_failure_without_detail_keeps_the_prefix() {
    let mut master = watcher();
    match master.step(Event::OpenFailed(String::new())) {
        Action::Finish(Err(WatchError::Init(message))) => {
            assert_eq!(message, "Failed to initialize clipboard: ");
        }
        other => panic!("unexpected answer {:?}", other),
    }
}

#[test]
fn signal_ends_the_session_in_success() {
    let mut master = watcher();
    assert!(matches!(master.step(Event::Signalled), Action::Finish(Ok(()))));
}

#[test]
fn disconnect_ends_the_session_in_success() {
    let mut master = watcher();
    assert!(matches!(master.step(Event::Disconnected), Action::Finish(Ok(()))));
}

#[test]
fn timeout_leads_to_a_read() {
    let mut master = watcher();
    assert!(matches!(master.step(Event::TimedOut), Action::Read));
}

#[test]
fn directive_next_leads_to_a_wait() {
    let mut master = watcher();
    assert!(matches!(master.step(Event::Replied(CallbackResult::Next)), Action::Wait));
}

#[test]
fn directive_stop_ends_the_session_in_success() {
    let mut master = watcher();
    assert!(matches!(
        master.step(Event::Replied(CallbackResult::Stop)),
        Action::Finish(Ok(()))
    ));
}

#[test]
fn directive_stop_with_error_ends_the_session_with_that_error() {
    let mut master = watcher();
    let error = io::Error::new(io::ErrorKind::PermissionDenied, "handler gave up");
    match master.step(Event::Replied(CallbackResult::StopWithError(error))) {
        Action::Finish(Err(WatchError::Handler(returned))) => {
            assert_eq!(returned.kind(), io::ErrorKind::PermissionDenied);
            assert_eq!(returned.to_string(), "handler gave up");
        }
        other => panic!("unexpected answer {:?}", other),
    }
}

#[test]
fn every_change_of_text_is_reported_once() {
    let mut master = watcher();
    master.start();
    assert!(poll(&mut master, Some("a")));
    assert!(poll(&mut master, Some("b")));
    assert!(poll(&mut master, Some("c")));
    assert!(poll(&mut master, Some("a")));
}

#[test]
fn unchanged_text_is_never_reported() {
    let mut master = watcher();
    master.start();
    assert!(poll(&mut master, Some("x")));
    assert!(!poll(&mut master, Some("x")));
    assert!(!poll(&mut master, Some("x")));
    assert!(!poll(&mut master, Some("x")));
}

#[test]
fn text_is_reported_again_after_a_failed_read() {
    let mut master = watcher();
    master.start();
    assert!(poll(&mut master, Some("a")));
    assert!(!poll(&mut master, Some("a")));
    assert!(!poll(&mut master, None));
    assert!(poll(&mut master, Some("a")));
}

#[test]
fn failed_reads_are_never_reported() {
    let mut master = watcher();
    master.start();
    assert!(!poll(&mut master, None));
    assert!(!poll(&mut master, None));
    assert!(poll(&mut master, Some("a")));
    assert!(!poll(&mut master, None));
    assert!(!poll(&mut master, None));
}

#[test]
fn empty_text_is_a_text() {
    let mut master = watcher();
    master.start();
    assert!(poll(&mut master, Some("")));
    assert!(!poll(&mut master, Some("")));
    assert!(poll(&mut master, Some(" ")));
}

#[test]
fn waits_and_directives_do_not_disturb_the_baseline() {
    let mut master = watcher();
    master.start();
    assert!(matches!(master.step(Event::Opened), Action::Wait));
    assert!(matches!(master.step(Event::TimedOut), Action::Read));
    assert!(poll(&mut master, Some("a")));
    assert!(matches!(master.step(Event::Replied(CallbackResult::Next)), Action::Wait));
    assert!(matches!(master.step(Event::TimedOut), Action::Read));
    assert!(!poll(&mut master, Some("a")));
    assert!(matches!(master.step(Event::TimedOut), Action::Read));
    assert!(!poll(&mut master, Some("a")));
}

#[test]
fn a_new_session_forgets_the_old_baseline() {
    let mut master = watcher();
    master.start();
    assert!(poll(&mut master, Some("a")));
    assert!(!poll(&mut master, Some("a")));
    assert!(matches!(master.step(Event::Signalled), Action::Finish(Ok(()))));
    assert!(matches!(master.start(), Action::Open));
    assert!(poll(&mut master, Some("a")));
}

#[test]
fn sleep_interval_is_the_handlers() {
    let master = watcher();
    assert_eq!(master.sleep_interval(), Duration::from_millis(10));
}

struct Restless;

impl ClipboardHandler for Restless {
    fn on_clipboard_change(&mut self) -> CallbackResult {
        CallbackResult::Stop
    }

    fn sleep_interval(&self) -> Duration {
        Duration::ZERO
    }
}

#[test]
fn zero_interval_is_not_clamped() {
    let master = Master::new(Restless).expect("a watcher is always made");
    assert_eq!(master.sleep_interval(), Duration::ZERO);
}

#[test]
fn init_failure_carries_the_description() {
    match clipboard_master::protocol::init_failure("X11 server connection timed out") {
        WatchError::Init(message) => {
            assert_eq!(message, "Failed to initialize clipboard: X11 server connection timed out");
        }
        other => panic!("unexpected error {:?}", other),
    }
}
