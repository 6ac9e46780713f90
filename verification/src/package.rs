//! The data that travels through the dispatch layer.

use vstd::prelude::*;

verus! {

/// A protocol packet as this layer sees it: a body it never looks into, under
/// a tag that tells a disconnect notice from everything else.
#[derive(Clone, Debug, PartialEq, Eq)]
pub enum Packet<B> {
    /// The connection is to be torn down after the frame is written.
    Disconnect(B),
    /// Any other packet: acknowledgements, delivered messages, and so on.
    Other(B),
}

impl<B> Packet<B> {
    /// Whether this packet starts the disconnect cascade.
    pub open spec fn disconnects(self) -> bool {
        self is Disconnect
    }

    /// Whether this packet starts the disconnect cascade.
    pub fn is_disconnect(&self) -> (yes: bool)
        ensures
            yes == self.disconnects(),
    {
        match self {
            Packet::Disconnect(_) => true,
            Packet::Other(_) => false,
        }
    }
}

/// One unit of outbound work: a packet for one connection, stamped with the
/// time at which it entered the system.
#[derive(Clone, Debug, PartialEq, Eq)]
pub struct ResponsePackage<B> {
    /// The connection the packet is for.
    pub connection_id: u64,
    /// The packet to write.
    pub packet: Packet<B>,
    /// When the package entered the system, in milliseconds.
    pub receive_ms: u128,
}

impl<B> ResponsePackage<B> {
    /// A package for `connection_id` that entered the system at `receive_ms`.
    pub fn new(connection_id: u64, packet: Packet<B>, receive_ms: u128) -> (package: Self)
        ensures
            package == (ResponsePackage { connection_id, packet, receive_ms }),
    {
        ResponsePackage { connection_id, packet, receive_ms }
    }
}

/// A packet paired with the protocol version of the connection it goes to.
/// One is built for every write, from the version looked up at that moment.
#[derive(Clone, Debug, PartialEq, Eq)]
pub struct FrameWrapper<B> {
    /// The protocol version the connection negotiated.
    pub protocol_version: u8,
    /// The packet to encode.
    pub packet: Packet<B>,
}

/// What the session cache knows of a connection.
#[derive(Clone, Debug, PartialEq, Eq)]
pub struct ConnectionInfo {
    /// The client bound to the connection.
    pub client_id: String,
    /// The identifier of the connect that opened the session.
    pub connect_id: u64,
}

} // verus!
