//! What can go wrong in a discovery run.

use vstd::prelude::*;

verus! {

/// Why a datagram was not accepted.
#[derive(Clone, Copy, Debug, PartialEq, Eq, Structural)]
pub enum ProtocolError {
    /// The datagram does not begin with the bytes that its kind begins with.
    InvalidHeader,
    /// The bytes behind the header do not have the shape that the format asks for.
    MalformedRecord,
}

/// Why an exchange over the network gave no reply.
#[derive(Clone, Copy, Debug, PartialEq, Eq, Structural)]
pub enum TransportError {
    /// No local UDP endpoint could be bound.
    Bind,
    /// The time allowed for a send or a receive ran out.
    Timeout,
    /// The send or the receive itself failed.
    Io,
}

/// Why an exchange failed: on the way, or in what came back.
#[derive(Clone, Copy, Debug, PartialEq, Eq, Structural)]
pub enum DiscoveryError {
    Transport(TransportError),
    Protocol(ProtocolError),
}

} // verus!
