//! A clipboard change-watcher, split into a verified decision core and the
//! blocking work that a driver performs around it.
//!
//! The watcher polls the clipboard text, keeps a 64-bit fingerprint of what it
//! last saw, and asks a caller-supplied handler what to do whenever the
//! fingerprint moves. Everything that decides something lives here and is
//! proved against its contract; waiting on the shutdown channel and reading
//! the clipboard are performed by the driver, which reports each outcome back
//! as an [`Event`] and receives the next [`Action`] in return.

pub mod fingerprint;
pub mod handler;
pub mod master;
pub mod protocol;
pub mod session;
pub mod signal;

pub use fingerprint::{fingerprint, SENTINEL};
pub use handler::{CallbackResult, ClipboardHandler};
pub use master::Master;
pub use protocol::{Action, Event, WatchError};
pub use signal::Shutdown;
