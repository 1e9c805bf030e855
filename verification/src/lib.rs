//! Client side of a group chat: the wire codec and the state machine that
//! turns inbound frames into a roster and a message log.

pub mod chat;
pub mod codec;
pub mod error;
pub mod history;
pub mod json;
pub mod text;
