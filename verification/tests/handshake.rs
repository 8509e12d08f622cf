use peernet::error::{HandshakeError, SerializationError};
use peernet::handshake::{Config, Handshake, Network, PeerConnector};
use peernet::protocol::{BlockHeight, Message, MessageKind, Nonce, RemoteAddress, NODE_NETWORK};
use peernet::server::ServerState;

fn test_connector(user_agent: &str) -> PeerConnector {
    PeerConnector::new(
        Config {
            protocol_version: 170_007,
            services: NODE_NETWORK,
            user_agent: user_agent.to_string(),
        },
        Network::Mainnet,
    )
}

fn addr(ip: u32, port: u16) -> RemoteAddress {
    RemoteAddress { ip, port }
}

#[test]
fn connector_is_always_ready() {
    let connector = test_connector("/test:1.0/");
    assert!(connector.poll_ready().is_ok());
}

#[test]
fn version_message_carries_configured_identity() {
    let connector = test_connector("/test:1.0/");
    let m = connector.version_message(
        Nonce(7),
        1_234_567,
        addr(0x7f00_0001, 9000),
        addr(0x0a00_0001, 8233),
        BlockHeight(100),
    );
    match m {
        Message::Version {
            version,
            services,
            timestamp,
            address_recv,
            address_from,
            nonce,
            user_agent,
            start_height,
            relay,
        } => {
            assert_eq!(version, 170_007);
            assert_eq!(services, NODE_NETWORK);
            assert_eq!(timestamp, 1_234_567);
            assert_eq!(address_recv.addr, addr(0x0a00_0001, 8233));
            assert_eq!(address_from.addr, addr(0x7f00_0001, 9000));
            assert_eq!(nonce, Nonce(7));
            assert_eq!(user_agent, "/test:1.0/");
            assert_eq!(start_height, BlockHeight(100));
            assert!(!relay);
        }
        other => panic!("expected a version message, got {:?}", other),
    }
}

/// Both sides of a loopback pair run the handshake logic against each
/// other: both reach a completed handshake, and the nonce each received is
/// not the one it generated.
#[test]
fn handshake_round_trip() {
    let a = test_connector("/node-a:1.0/");
    let b = test_connector("/node-b:1.0/");

    let (mut hs_a, version_a) = a.connect_begin(addr(1, 9000), addr(2, 8233), BlockHeight(10));
    let (mut hs_b, version_b) = b.connect_begin(addr(2, 8233), addr(1, 9000), BlockHeight(20));

    let nonce_a = match &version_a {
        Message::Version { nonce, .. } => *nonce,
        _ => panic!("expected a version message"),
    };
    let nonce_b = match &version_b {
        Message::Version { nonce, .. } => *nonce,
        _ => panic!("expected a version message"),
    };
    // Independent draws from a 64-bit space: the self-connection check
    // must not fire.
    assert_ne!(nonce_a, nonce_b);

    // Each side receives the other's version and answers with a verack.
    let verack_from_a = hs_a.on_message(version_b).expect("peer version accepted");
    let verack_from_b = hs_b.on_message(version_a).expect("peer version accepted");
    assert_eq!(verack_from_a, Some(Message::Verack));
    assert_eq!(verack_from_b, Some(Message::Verack));
    assert_eq!(hs_a.remote_nonce(), Some(nonce_b));
    assert_eq!(hs_b.remote_nonce(), Some(nonce_a));

    // Each side receives the other's verack: the exchange completes.
    assert_eq!(hs_a.on_message(verack_from_b.unwrap()), Ok(None));
    assert_eq!(hs_b.on_message(verack_from_a.unwrap()), Ok(None));
    assert!(hs_a.is_complete());
    assert!(hs_b.is_complete());

    // A completed handshake becomes a session pair with a clean slate.
    let (slot, client, server) = a.establish(&hs_a);
    assert_eq!(slot.try_get_error(), None);
    assert!(matches!(
        client.poll_ready(&slot),
        peernet::client::ClientReadiness::Ready
    ));
    assert_eq!(server.state(), ServerState::AwaitingRequest);
}

/// A responder that echoes the initiator's own nonce is rejected as a
/// self-connection rather than completing the handshake.
#[test]
fn self_connection_is_rejected() {
    let connector = test_connector("/node:1.0/");
    let mut hs = Handshake::start(Nonce(42));
    let echoed = connector.version_message(
        Nonce(42),
        0,
        addr(2, 8233),
        addr(1, 9000),
        BlockHeight(0),
    );
    assert_eq!(hs.on_message(echoed), Err(HandshakeError::NonceReuse));
    assert!(hs.is_done());
    assert!(!hs.is_complete());
}

#[test]
fn unexpected_message_aborts_handshake() {
    let mut hs = Handshake::start(Nonce(1));
    assert_eq!(
        hs.on_message(Message::Ping(Nonce(5))),
        Err(HandshakeError::UnexpectedMessage(MessageKind::Ping))
    );
    assert!(hs.is_done());
}

#[test]
fn early_verack_aborts_handshake() {
    let mut hs = Handshake::start(Nonce(1));
    assert_eq!(
        hs.on_message(Message::Verack),
        Err(HandshakeError::UnexpectedMessage(MessageKind::Verack))
    );
}

#[test]
fn second_version_instead_of_verack_aborts() {
    let connector = test_connector("/node:1.0/");
    let mut hs = Handshake::start(Nonce(1));
    let peer_version =
        connector.version_message(Nonce(2), 0, addr(2, 1), addr(1, 1), BlockHeight(0));
    assert_eq!(hs.on_message(peer_version), Ok(Some(Message::Verack)));
    let again = connector.version_message(Nonce(3), 0, addr(2, 1), addr(1, 1), BlockHeight(0));
    assert_eq!(
        hs.on_message(again),
        Err(HandshakeError::UnexpectedMessage(MessageKind::Version))
    );
}

#[test]
fn stream_close_during_handshake() {
    let mut hs = Handshake::start(Nonce(1));
    assert_eq!(hs.on_close(), HandshakeError::ConnectionClosed);
    assert!(hs.is_done());
    assert!(!hs.is_complete());
}

#[test]
fn decode_error_during_handshake() {
    let mut hs = Handshake::start(Nonce(1));
    assert_eq!(
        hs.on_decode_error(SerializationError::Parse),
        HandshakeError::Serialization(SerializationError::Parse)
    );
    assert!(hs.is_done());
}

#[test]
fn handshake_state_is_observable() {
    let mut hs = Handshake::start(Nonce(9));
    assert!(!hs.is_done());
    assert_eq!(hs.remote_nonce(), None);
    let connector = test_connector("/node:1.0/");
    let peer_version =
        connector.version_message(Nonce(10), 0, addr(2, 1), addr(1, 1), BlockHeight(0));
    hs.on_message(peer_version).unwrap();
    assert!(!hs.is_done());
    hs.on_message(Message::Verack).unwrap();
    assert!(hs.is_complete());
}
