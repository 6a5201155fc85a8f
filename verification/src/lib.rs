//! Controller core of a monitoring session: a bounded, classified log, a
//! follow/manual scroll policy, scenario selection, supervision of one
//! automation script, and the serialized command loop that ties them
//! together.

pub mod channel;
pub mod clock;
pub mod error;
pub mod log_store;
pub mod messages;
pub mod scroll;
pub mod selection;
pub mod session;
pub mod supervisor;
pub mod text;

pub use crate::channel::{EventChannel, EventSender};
pub use crate::error::SessionError;
pub use crate::log_store::{LogEntry, LogStore};
pub use crate::messages::{Choice, Directive, LogType, Message};
pub use crate::scroll::{ScrollDirective, ScrollState};
pub use crate::selection::SelectionState;
pub use crate::session::{SessionController, Snapshot};
pub use crate::supervisor::{ProcessHandle, ProcessSupervisor, SignalOutcome, SpawnOutcome};
