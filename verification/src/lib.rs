//! Control-plane client core for a remotely running playback agent.
//!
//! The crate models the session/command/state-sync protocol of the remote
//! control: broker topic derivation, connection-string validation, the
//! connection state machine, command payload serialization, and
//! reconciliation of inbound state broadcasts into a single snapshot.
//! The actual transport (a STOMP-over-WebSocket broker connection) is an
//! external collaborator: the session emits the messages to send and
//! consumes the events the transport reports.

pub mod commands;
pub mod escape;
pub mod json_value;
pub mod numfmt;
pub mod player;
pub mod session;
pub mod snapshot;
pub mod stomp;
pub mod topics;
