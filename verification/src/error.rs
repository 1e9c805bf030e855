//! The ways in which a frame is lost. All of them are local: the frame has no
//! effect, and the session goes on.

use vstd::prelude::*;

verus! {

/// Why a frame, a payload or a send was dropped.
#[derive(Clone, Copy, Debug, PartialEq, Eq, Structural)]
pub enum ChatError {
    /// The inbound frame is no JSON document of the protocol's shape.
    MalformedFrame,
    /// The inbound frame's tag is a text, but none of the three kinds.
    UnknownMessageType,
    /// The payload of a `message` frame is no `from`/`message` object.
    MalformedPayload,
    /// The transport did not take an outbound frame.
    SendFailure,
}

} // verus!
