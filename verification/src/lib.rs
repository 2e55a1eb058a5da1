//! Client-side logic of a binding to the speech synthesis daemon.
//!
//! The daemon is reached through its native client library. This crate holds
//! everything about that conversation that is not the foreign call itself:
//! which native function a request names and with which arguments, how the
//! daemon's answers are read, and the registry that routes the daemon's
//! notifications to the handlers of the connection they belong to.

pub mod connection;
pub mod discovery;
pub mod event;
pub mod registry;
pub mod reply;
pub mod request;
pub mod settings;
pub mod text;

pub use connection::Connection;
pub use event::{Event, UnknownEvent};
pub use registry::{Callbacks, Invocation, MarkInvocation, Registry};
pub use reply::{formatted_message_id, i32_to_bool, message_id, submitted};
pub use request::{Request, Target};
pub use settings::{CapitalLetters, DataMode, Mode, Notification, Priority, Punctuation, VoiceType};
