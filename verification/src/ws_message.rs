//! The WebSocket message union exchanged between the native event loop and
//! handler tasks: data frames, control frames and the close frame.

use vstd::prelude::*;

verus! {

/// Marks a data frame as textual or binary payload.
#[derive(Clone, Copy, PartialEq, Eq, Structural, Debug)]
pub enum Opcode {
    Text,
    Binary,
}

/// One inbound or outbound WebSocket frame. A frame is constructed once (by
/// the native engine for inbound frames, by handler code for outbound ones)
/// and consumed exactly once by the receiving side.
#[derive(Debug, Clone)]
pub enum WsMessage {
    /// A payload-bearing frame with its textual-or-binary marker.
    Message(Vec<u8>, Opcode),
    /// A ping control frame with its payload.
    Ping(Vec<u8>),
    /// A pong control frame with its payload.
    Pong(Vec<u8>),
    /// A close frame: numeric close code and optional UTF-8 reason.
    Close(u16, Option<String>),
}

impl WsMessage {
    /// True exactly on close frames: the frame that ends a connection's
    /// message stream.
    pub open spec fn is_close_spec(&self) -> bool {
        self matches WsMessage::Close(_, _)
    }

    /// Returns whether this frame is a close frame.
    pub fn is_close(&self) -> (r: bool)
        ensures
            r == self.is_close_spec(),
    {
        match self {
            WsMessage::Close(_, _) => true,
            _ => false,
        }
    }
}

} // verus!
