//! Message types carried over the channels that connect the client, the
//! event-loop driver, and the (not yet implemented) manager.

use vstd::prelude::*;

verus! {

/// Opaque token with no public constructor and no constructor inside the
/// crate either. The two message enums below have no real variants yet;
/// wrapping this token keeps them impossible to build anywhere, so the
/// channels that carry them stay permanently empty.
pub struct NoMessage {
    unbuildable: Unbuildable,
}

/// Private helper behind [`NoMessage`]; nothing in the crate constructs it.
struct Unbuildable {
    marker: (),
}

/// Messages from the manager to the game client. No buildable variants exist
/// yet, so the channel that carries them is permanently empty.
pub enum ToGameClient {
    /// Placeholder until real client-bound messages are designed; it cannot
    /// be constructed.
    Reserved(NoMessage),
}

/// Messages from the game client to the manager. No buildable variants exist
/// yet, so the channel that carries them is permanently empty.
pub enum FromGameClient {
    /// Placeholder until real manager-bound messages are designed; it cannot
    /// be constructed.
    Reserved(NoMessage),
}

/// Control messages from the client to the event-loop driver.
#[derive(Clone, Copy, Debug, PartialEq, Eq, Structural)]
pub enum EventLoopMsg {
    /// Ask the driver to terminate the event loop.
    Stop,
}

} // verus!
