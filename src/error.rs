use vstd::prelude::*;

verus! {

/// What can go wrong in a session.
#[derive(Debug)]
pub enum Error {
    /// The connection failed during the handshake, a read or a write.
    Transport(String),
    /// The consumer side of the outbound queue is gone.
    Disconnected,
    /// An inbound frame matched no known shape.
    Decode,
    /// Authentication could not be carried out.
    Auth(String),
    /// The connection was closed by the peer.
    ProtocolClose,
    /// The connection delivered a frame of a kind that the protocol never sends.
    UnexpectedFrame,
    /// The session was used out of order (for example, before it was connected).
    Internal(String),
}

} // verus!
