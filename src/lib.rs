//! Supervision of several simultaneous chat sessions: the registry of sessions,
//! the decisions of the supervisor, the per-session state machine and the
//! projection of protocol frames onto outward notifications.

pub mod types;
pub mod frame;
pub mod events;
pub mod runtime;
pub mod registry;
mod clock;
pub mod actor;
pub mod supervisor;
pub mod locks;
