//! The connector and the version-handshake protocol state.
//!
//! A [`PeerConnector`] is the factory for peer sessions: the embedding
//! opens the transport connection and moves decoded messages, while the
//! [`Handshake`] machine here decides, message by message, whether the
//! finite Version/Verack exchange succeeds. On success the connector
//! allocates the shared [`ErrorSlot`] and hands out the
//! [`PeerClient`]/[`PeerServer`] pair; after that it retains no reference
//! to either half.

use vstd::prelude::*;

use crate::client::PeerClient;
use crate::error::{ErrorSlot, HandshakeError, PeerError, SerializationError};
use crate::protocol::{
    fresh_nonce, now_timestamp, AddressServices, BlockHeight, Message, Nonce, RemoteAddress,
};
use crate::server::PeerServer;

verus! {

/// Which network the handshake must declare.
#[derive(Clone, Copy, Debug, PartialEq, Eq, Structural)]
pub enum Network {
    /// The production network.
    Mainnet,
    /// The test network.
    Testnet,
}

/// This node's read-only identity, as declared during the handshake.
#[derive(Clone, Debug, PartialEq, Eq)]
pub struct Config {
    /// The protocol version this node speaks.
    pub protocol_version: u32,
    /// The services bitmask this node advertises.
    pub services: u64,
    /// The user-agent string this node reports.
    pub user_agent: String,
}

/// Where an outbound handshake stands in its finite message exchange.
#[derive(Clone, Copy, Debug, PartialEq, Eq, Structural)]
pub enum HandshakeState {
    /// Our `Version` went out; the peer's `Version` comes next.
    AwaitingVersion,
    /// The peer's `Version` was accepted and our `Verack` went out; the
    /// peer's `Verack` comes next.
    AwaitingVerack,
    /// The exchange finished: the connection is usable.
    Completed,
    /// The exchange was aborted; no client/server pair is produced.
    Failed,
}

/// The protocol state of one outbound handshake attempt.
///
/// The machine is fed each decoded message the peer sends (and told when
/// the stream closes or a message fails to decode); it answers with the
/// message to send next, or with the typed error that aborts the attempt.
pub struct Handshake {
    nonce: Nonce,
    state: HandshakeState,
    remote_nonce: Option<Nonce>,
}

impl Handshake {
    /// The random nonce this node generated for this attempt.
    pub closed spec fn spec_nonce(&self) -> Nonce {
        self.nonce
    }

    /// Where the exchange stands.
    pub closed spec fn spec_state(&self) -> HandshakeState {
        self.state
    }

    /// The nonce the peer advertised in its `Version`, once seen.
    pub closed spec fn spec_remote_nonce(&self) -> Option<Nonce> {
        self.remote_nonce
    }

    /// Well-formedness: the peer's nonce is on record from the moment its
    /// `Version` was accepted, and a completed handshake never accepted a
    /// nonce equal to our own (self-connection was checked).
    pub open spec fn wf(&self) -> bool {
        (self.spec_state() is AwaitingVerack || self.spec_state() is Completed)
            ==> (self.spec_remote_nonce() is Some && self.spec_remote_nonce() != Some(
            self.spec_nonce(),
        ))
    }

    /// Whether the machine needs no further events.
    pub open spec fn spec_done(&self) -> bool {
        self.spec_state() is Completed || self.spec_state() is Failed
    }

    /// Begin an attempt: our `Version`, carrying `nonce`, was sent.
    pub fn start(nonce: Nonce) -> (hs: Handshake)
        ensures
            hs.spec_nonce() == nonce,
            hs.spec_state() == HandshakeState::AwaitingVersion,
            hs.wf(),
    {
        Handshake { nonce, state: HandshakeState::AwaitingVersion, remote_nonce: None }
    }

    /// Whether the exchange completed successfully.
    pub fn is_complete(&self) -> (r: bool)
        ensures
            r == (self.spec_state() is Completed),
    {
        match self.state {
            HandshakeState::Completed => true,
            _ => false,
        }
    }

    /// Whether the machine needs no further events.
    pub fn is_done(&self) -> (r: bool)
        ensures
            r == self.spec_done(),
    {
        match self.state {
            HandshakeState::Completed => true,
            HandshakeState::Failed => true,
            _ => false,
        }
    }

    /// The nonce the peer advertised, once its `Version` was accepted.
    pub fn remote_nonce(&self) -> (r: Option<Nonce>)
        ensures
            r == self.spec_remote_nonce(),
    {
        self.remote_nonce
    }

    /// Feed the machine one decoded message from the peer.
    ///
    /// While our `Version` awaits its counterpart: the peer's `Version`
    /// advances the exchange and answers `Ok(Some(Verack))` — unless it
    /// echoes our own nonce, the explicit self-connection check, which
    /// aborts with [`HandshakeError::NonceReuse`]. While our `Verack`
    /// awaits its counterpart: the peer's `Verack` completes the exchange,
    /// with nothing left to send. Any other message aborts with
    /// [`HandshakeError::UnexpectedMessage`].
    pub fn on_message(&mut self, m: Message) -> (r: Result<Option<Message>, HandshakeError>)
        requires
            !old(self).spec_done(),
            old(self).wf(),
        ensures
            final(self).wf(),
            final(self).spec_nonce() == old(self).spec_nonce(),
            old(self).spec_state() is AwaitingVersion ==> match m {
                Message::Version { nonce, .. } => {
                    if nonce == old(self).spec_nonce() {
                        &&& r == Err::<Option<Message>, HandshakeError>(HandshakeError::NonceReuse)
                        &&& final(self).spec_state() is Failed
                    } else {
                        &&& r == Ok::<Option<Message>, HandshakeError>(Some(Message::Verack))
                        &&& final(self).spec_state() is AwaitingVerack
                        &&& final(self).spec_remote_nonce() == Some(nonce)
                    }
                },
                _ => {
                    &&& r == Err::<Option<Message>, HandshakeError>(
                        HandshakeError::UnexpectedMessage(m.spec_kind()),
                    )
                    &&& final(self).spec_state() is Failed
                },
            },
            old(self).spec_state() is AwaitingVerack ==> match m {
                Message::Verack => {
                    &&& r == Ok::<Option<Message>, HandshakeError>(None)
                    &&& final(self).spec_state() is Completed
                    &&& final(self).spec_remote_nonce() == old(self).spec_remote_nonce()
                },
                _ => {
                    &&& r == Err::<Option<Message>, HandshakeError>(
                        HandshakeError::UnexpectedMessage(m.spec_kind()),
                    )
                    &&& final(self).spec_state() is Failed
                },
            },
    {
        match self.state {
            HandshakeState::AwaitingVersion => {
                match m {
                    Message::Version { nonce, .. } => {
                        if nonce.0 == self.nonce.0 {
                            self.state = HandshakeState::Failed;
                            Err(HandshakeError::NonceReuse)
                        } else {
                            self.state = HandshakeState::AwaitingVerack;
                            self.remote_nonce = Some(nonce);
                            Ok(Some(Message::Verack))
                        }
                    },
                    _ => {
                        let k = m.kind();
                        self.state = HandshakeState::Failed;
                        Err(HandshakeError::UnexpectedMessage(k))
                    },
                }
            },
            _ => {
                // AwaitingVerack: Completed and Failed are excluded by the
                // precondition.
                match m {
                    Message::Verack => {
                        self.state = HandshakeState::Completed;
                        Ok(None)
                    },
                    _ => {
                        let k = m.kind();
                        self.state = HandshakeState::Failed;
                        Err(HandshakeError::UnexpectedMessage(k))
                    },
                }
            },
        }
    }

    /// The stream closed before the exchange finished.
    pub fn on_close(&mut self) -> (e: HandshakeError)
        ensures
            e == HandshakeError::ConnectionClosed,
            final(self).spec_state() is Failed,
            final(self).wf(),
    {
        self.state = HandshakeState::Failed;
        HandshakeError::ConnectionClosed
    }

    /// A message failed to decode during the exchange.
    pub fn on_decode_error(&mut self, err: SerializationError) -> (e: HandshakeError)
        ensures
            e == HandshakeError::Serialization(err),
            final(self).spec_state() is Failed,
            final(self).wf(),
    {
        self.state = HandshakeState::Failed;
        HandshakeError::Serialization(err)
    }
}

/// A completed handshake recorded the peer's nonce and never accepted one
/// equal to this node's own: two independent nodes that both finish the
/// exchange are guaranteed not to be a self-connection, and a genuine
/// self-connection can never reach the completed state.
pub proof fn lemma_completed_handshake_nonces_differ(hs: Handshake)
    requires
        hs.wf(),
        hs.spec_state() is Completed,
    ensures
        hs.spec_remote_nonce() is Some,
        hs.spec_remote_nonce() != Some(hs.spec_nonce()),
{
}

/// The factory for peer sessions: dials, hands the handshake machine its
/// events, and on success constructs the client/server pair.
pub struct PeerConnector {
    config: Config,
    network: Network,
}

impl PeerConnector {
    /// The identity this connector declares.
    pub closed spec fn spec_config(&self) -> Config {
        self.config
    }

    /// The network this connector declares.
    pub closed spec fn spec_network(&self) -> Network {
        self.network
    }

    /// Construct a new `PeerConnector`.
    pub fn new(config: Config, network: Network) -> (c: PeerConnector)
        ensures
            c.spec_config() == config,
            c.spec_network() == network,
    {
        PeerConnector { config, network }
    }

    /// The connector is always prepared to accept a new dial: it has no
    /// intrinsic backpressure beyond what it is composed with.
    pub fn poll_ready(&self) -> (r: Result<(), PeerError>)
        ensures
            r is Ok,
    {
        Ok(())
    }

    /// The opening `Version` message of a handshake, carrying this node's
    /// configured identity and the attempt's nonce.
    pub fn version_message(
        &self,
        nonce: Nonce,
        timestamp: i64,
        our_addr: RemoteAddress,
        peer_addr: RemoteAddress,
        start_height: BlockHeight,
    ) -> (m: Message)
        ensures
            m == (Message::Version {
                version: self.spec_config().protocol_version,
                services: self.spec_config().services,
                timestamp: timestamp,
                address_recv: (AddressServices {
                    services: self.spec_config().services,
                    addr: peer_addr,
                }),
                address_from: (AddressServices {
                    services: self.spec_config().services,
                    addr: our_addr,
                }),
                nonce: nonce,
                user_agent: self.spec_config().user_agent,
                start_height: start_height,
                relay: false,
            }),
    {
        Message::Version {
            version: self.config.protocol_version,
            services: self.config.services,
            timestamp,
            address_recv: AddressServices { services: self.config.services, addr: peer_addr },
            address_from: AddressServices { services: self.config.services, addr: our_addr },
            nonce,
            user_agent: self.config.user_agent.clone(),
            start_height,
            relay: false,
        }
    }

    /// Begin a handshake attempt: draw a fresh random nonce, stamp the
    /// current time, and produce the machine together with the `Version`
    /// message to send. Whatever nonce and clock reading came back, the
    /// message carries this node's configured identity and the same nonce
    /// the machine will compare against.
    pub fn connect_begin(
        &self,
        our_addr: RemoteAddress,
        peer_addr: RemoteAddress,
        start_height: BlockHeight,
    ) -> (r: (Handshake, Message))
        ensures
            r.0.spec_state() == HandshakeState::AwaitingVersion,
            r.0.wf(),
            r.1 matches Message::Version {
                version,
                services,
                nonce,
                user_agent,
                start_height: h,
                relay,
                ..
            } && version == self.spec_config().protocol_version && services
                == self.spec_config().services && nonce == r.0.spec_nonce() && user_agent
                == self.spec_config().user_agent && h == start_height && relay == false,
    {
        let nonce = fresh_nonce();
        let timestamp = now_timestamp();
        let m = self.version_message(nonce, timestamp, our_addr, peer_addr, start_height);
        let hs = Handshake::start(nonce);
        (hs, m)
    }

    /// A completed handshake becomes a session: one empty shared error
    /// slot, a client half with its one request slot free, and a server
    /// half in its initial state, ready to be spawned as an independent
    /// task. The connector retains no reference to either half.
    pub fn establish(&self, hs: &Handshake) -> (r: (ErrorSlot, PeerClient, PeerServer))
        requires
            hs.spec_state() is Completed,
        ensures
            r.0@ is None,
            !r.1.spec_in_flight(),
            r.2.spec_state() is AwaitingRequest,
    {
        (ErrorSlot::new(), PeerClient::new(), PeerServer::new())
    }
}

} // verus!
