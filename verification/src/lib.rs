//! A presence-aware relay for directly addressed text messages.
//!
//! The library holds the decisions of the relay: the wire format of the
//! frames, the presence registry, the routing of a message to a live session
//! or to the offline mailbox, the authentication gate and the replay of stored
//! messages. Everything that waits (the transport, the credential store, the
//! mailbox) is asked for through [`handle::Action`] values and answers through
//! the functions that take its result.
pub mod authenticate;
pub mod error;
pub mod handle;
pub mod json;
pub mod laws;
pub mod protocols;
mod text;
pub mod users;
