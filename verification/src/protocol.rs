//! Protocol data model: nonces, addresses, decoded wire messages, and the
//! internal request/response vocabulary that the node's other subsystems
//! speak with a peer session.
//!
//! The wire-level framing and the domain payload encoding are external
//! collaborators: this module holds decoded messages as plain values.

use vstd::prelude::*;

verus! {

/// Service bits advertised by a full network node.
pub const NODE_NETWORK: u64 = 1;

/// A random value generated per outbound handshake, used to detect
/// self-connection when a peer advertises a nonce this node generated, and
/// to validate heartbeat replies.
#[derive(Clone, Copy, Debug, PartialEq, Eq, Structural)]
pub struct Nonce(pub u64);

/// A chain height reported during the handshake.
#[derive(Clone, Copy, Debug, PartialEq, Eq, Structural)]
pub struct BlockHeight(pub u32);

/// The transport-level address of a peer: an IPv4 address held as its
/// 32-bit big-endian value, and a port.
#[derive(Clone, Copy, Debug, PartialEq, Eq, Structural)]
pub struct RemoteAddress {
    /// The IPv4 address, as its big-endian 32-bit value.
    pub ip: u32,
    /// The TCP port.
    pub port: u16,
}

/// A peer address together with the metadata gossiped about it.
#[derive(Clone, Copy, Debug, PartialEq, Eq, Structural)]
pub struct MetaAddr {
    /// The peer's transport address.
    pub addr: RemoteAddress,
    /// The services the peer advertised.
    pub services: u64,
    /// When the peer was last seen, as a Unix timestamp.
    pub last_seen: i64,
}

/// A `(peer address, timestamp)` observation reported to the external
/// last-seen collector after each successfully received inbound message.
#[derive(Clone, Copy, Debug, PartialEq, Eq, Structural)]
pub struct PeerLastSeen {
    /// The peer the message came from.
    pub addr: RemoteAddress,
    /// When the message was received, as a Unix timestamp.
    pub when: i64,
}

/// An address paired with the services its holder advertises, as carried in
/// a `Version` message.
#[derive(Clone, Copy, Debug, PartialEq, Eq, Structural)]
pub struct AddressServices {
    /// The advertised services bitmask.
    pub services: u64,
    /// The transport address.
    pub addr: RemoteAddress,
}

/// A decoded protocol message, as handed to the core by the codec boundary.
#[derive(Clone, Debug, PartialEq, Eq)]
pub enum Message {
    /// The opening handshake message, advertising this node's identity.
    Version {
        /// The sender's protocol version.
        version: u32,
        /// The sender's advertised services bitmask.
        services: u64,
        /// The sender's clock, as a Unix timestamp.
        timestamp: i64,
        /// Services and address the sender believes the receiver has.
        address_recv: AddressServices,
        /// Services and address the sender claims for itself.
        address_from: AddressServices,
        /// The sender's per-handshake random nonce.
        nonce: Nonce,
        /// The sender's user-agent string.
        user_agent: String,
        /// The sender's reported chain height.
        start_height: BlockHeight,
        /// Whether the sender asks for transaction relay.
        relay: bool,
    },
    /// Acknowledges a `Version` message, completing the handshake.
    Verack,
    /// A liveness probe carrying a nonce the reply must echo.
    Ping(Nonce),
    /// The reply to a `Ping`, echoing its nonce.
    Pong(Nonce),
    /// Asks the peer for addresses of other peers.
    GetPeers,
    /// Advertises addresses of known peers.
    Peers(Vec<MetaAddr>),
}

/// The variant of a [`Message`], without its payload: used where a
/// transition or an error only depends on which kind of message arrived.
#[derive(Clone, Copy, Debug, PartialEq, Eq, Structural)]
pub enum MessageKind {
    /// A `Version` message.
    Version,
    /// A `Verack` message.
    Verack,
    /// A `Ping` message.
    Ping,
    /// A `Pong` message.
    Pong,
    /// A `GetPeers` message.
    GetPeers,
    /// A `Peers` message.
    Peers,
}

impl Message {
    /// The variant of this message.
    pub open spec fn spec_kind(&self) -> MessageKind {
        match self {
            Message::Version { .. } => MessageKind::Version,
            Message::Verack => MessageKind::Verack,
            Message::Ping(_) => MessageKind::Ping,
            Message::Pong(_) => MessageKind::Pong,
            Message::GetPeers => MessageKind::GetPeers,
            Message::Peers(_) => MessageKind::Peers,
        }
    }

    /// The variant of this message.
    pub fn kind(&self) -> (k: MessageKind)
        ensures
            k == self.spec_kind(),
    {
        match self {
            Message::Version { .. } => MessageKind::Version,
            Message::Verack => MessageKind::Verack,
            Message::Ping(_) => MessageKind::Ping,
            Message::Pong(_) => MessageKind::Pong,
            Message::GetPeers => MessageKind::GetPeers,
            Message::Peers(_) => MessageKind::Peers,
        }
    }

    /// Whether this message belongs to the handshake phase only. A
    /// well-behaved peer never sends one after the handshake is complete.
    pub open spec fn spec_is_handshake_only(&self) -> bool {
        self.spec_kind() == MessageKind::Version || self.spec_kind() == MessageKind::Verack
    }

    /// Whether this message belongs to the handshake phase only.
    pub fn is_handshake_only(&self) -> (r: bool)
        ensures
            r == self.spec_is_handshake_only(),
    {
        match self {
            Message::Version { .. } => true,
            Message::Verack => true,
            _ => false,
        }
    }
}

/// A request the node's subsystems can issue to a connected peer through a
/// `PeerClient`.
#[derive(Clone, Debug, PartialEq, Eq)]
pub enum Request {
    /// Ask the peer for addresses of other peers.
    GetPeers,
    /// Advertise addresses of known peers; no reply is awaited.
    PushPeers(Vec<MetaAddr>),
}

/// A response returned for a [`Request`].
#[derive(Clone, Debug, PartialEq, Eq)]
pub enum Response {
    /// The request needed no data in reply.
    Nil,
    /// Addresses of peers, answering [`Request::GetPeers`].
    Peers(Vec<MetaAddr>),
}

/// Relies on `rand::random`: a value drawn from the thread-local generator.
/// Nothing is promised of a random value.
#[verifier::external_body]
pub(crate) fn fresh_nonce() -> Nonce {
    Nonce(rand::random::<u64>())
}

/// Relies on `chrono::Utc::now`: the current time, as a Unix timestamp.
/// Nothing is promised of the clock's reading.
#[verifier::external_body]
pub(crate) fn now_timestamp() -> i64 {
    chrono::Utc::now().timestamp()
}

/// Build the observation the external last-seen collector is told about
/// after an inbound message is received: the peer's address, stamped with
/// the current time.
pub fn observe_message(addr: RemoteAddress) -> (obs: PeerLastSeen)
    ensures
        obs.addr == addr,
{
    PeerLastSeen { addr, when: now_timestamp() }
}

} // verus!
