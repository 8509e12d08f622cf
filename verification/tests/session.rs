use peernet::client::{ClientReadiness, PeerClient};
use peernet::error::{ErrorSlot, PeerError, SerializationError, SharedPeerError};
use peernet::protocol::{Message, MetaAddr, Nonce, RemoteAddress, Request, Response};
use peernet::server::{PeerServer, PendingRequest, ServerAction, ServerEvent, ServerState};

fn meta(ip: u32) -> MetaAddr {
    MetaAddr {
        addr: RemoteAddress { ip, port: 8233 },
        services: 1,
        last_seen: 0,
    }
}

#[test]
fn client_request_is_forwarded_and_timer_armed() {
    let mut server = PeerServer::new();
    let mut slot = ErrorSlot::new();
    let a = server.step(&mut slot, ServerEvent::ClientRequest(Request::GetPeers));
    assert_eq!(a, ServerAction::SendAndArm(Message::GetPeers));
    assert_eq!(
        server.state(),
        ServerState::AwaitingResponse(PendingRequest::Peers)
    );
    assert_eq!(slot.try_get_error(), None);
}

#[test]
fn push_peers_needs_no_round_trip() {
    let mut server = PeerServer::new();
    let mut slot = ErrorSlot::new();
    let peers = vec![meta(1), meta(2)];
    let a = server.step(
        &mut slot,
        ServerEvent::ClientRequest(Request::PushPeers(peers.clone())),
    );
    assert_eq!(
        a,
        ServerAction::SendAndComplete(Message::Peers(peers), Response::Nil)
    );
    assert_eq!(server.state(), ServerState::AwaitingRequest);
}

#[test]
fn correlated_response_completes_request() {
    let mut server = PeerServer::new();
    let mut slot = ErrorSlot::new();
    server.step(&mut slot, ServerEvent::ClientRequest(Request::GetPeers));
    let a = server.step(
        &mut slot,
        ServerEvent::PeerMessage(Message::Peers(vec![meta(3)])),
    );
    assert_eq!(
        a,
        ServerAction::CompleteClient(Response::Peers(vec![meta(3)]))
    );
    assert_eq!(server.state(), ServerState::AwaitingRequest);
    assert_eq!(slot.try_get_error(), None);
}

/// A second request issued while one is outstanding is deferred untouched:
/// no cross-talk between responses is possible, and readiness already
/// reports the client unready.
#[test]
fn second_request_does_not_corrupt_correlation() {
    let mut server = PeerServer::new();
    let mut slot = ErrorSlot::new();
    server.step(&mut slot, ServerEvent::ClientRequest(Request::GetPeers));
    let a = server.step(&mut slot, ServerEvent::ClientRequest(Request::GetPeers));
    assert_eq!(a, ServerAction::Deferred);
    assert_eq!(
        server.state(),
        ServerState::AwaitingResponse(PendingRequest::Peers)
    );

    // The client half reports itself unready while its one request slot is
    // taken.
    let mut client = PeerClient::new();
    let slot2 = ErrorSlot::new();
    assert_eq!(client.try_send(&slot2, Request::GetPeers), Ok(Request::GetPeers));
    assert_eq!(client.poll_ready(&slot2), ClientReadiness::Pending);
    client.request_resolved();
    assert_eq!(client.poll_ready(&slot2), ClientReadiness::Ready);
}

/// If the timer expiry is observed first, the timeout wins: the session
/// fails, and a late response completes nothing.
#[test]
fn timeout_beats_late_response() {
    let mut server = PeerServer::new();
    let mut slot = ErrorSlot::new();
    server.step(&mut slot, ServerEvent::ClientRequest(Request::GetPeers));
    let a = server.step(&mut slot, ServerEvent::TimerExpired);
    assert_eq!(a, ServerAction::Fail(PeerError::ClientRequestTimeout));
    assert_eq!(server.state(), ServerState::Failed);
    assert_eq!(
        slot.try_get_error(),
        Some(SharedPeerError(PeerError::ClientRequestTimeout))
    );
    let late = server.step(
        &mut slot,
        ServerEvent::PeerMessage(Message::Peers(vec![meta(4)])),
    );
    assert_eq!(late, ServerAction::Terminate);
    assert_eq!(
        slot.try_get_error(),
        Some(SharedPeerError(PeerError::ClientRequestTimeout))
    );
}

/// If the response is observed first, it wins: the stale expiry is ignored.
#[test]
fn response_beats_stale_timer() {
    let mut server = PeerServer::new();
    let mut slot = ErrorSlot::new();
    server.step(&mut slot, ServerEvent::ClientRequest(Request::GetPeers));
    server.step(
        &mut slot,
        ServerEvent::PeerMessage(Message::Peers(vec![meta(5)])),
    );
    let a = server.step(&mut slot, ServerEvent::TimerExpired);
    assert_eq!(a, ServerAction::Idle);
    assert_eq!(server.state(), ServerState::AwaitingRequest);
    assert_eq!(slot.try_get_error(), None);
}

/// The peer closing the stream fails the session with `ConnectionClosed`,
/// and a subsequent client send reports that same error.
#[test]
fn dead_peer_propagates_to_client() {
    let mut server = PeerServer::new();
    let mut slot = ErrorSlot::new();
    let a = server.step(&mut slot, ServerEvent::StreamClosed);
    assert_eq!(a, ServerAction::Fail(PeerError::ConnectionClosed));
    assert_eq!(server.state(), ServerState::Failed);

    let mut client = PeerClient::new();
    assert_eq!(
        client.try_send(&slot, Request::GetPeers),
        Err(SharedPeerError(PeerError::ConnectionClosed))
    );
    assert_eq!(
        client.poll_ready(&slot),
        ClientReadiness::Failed(SharedPeerError(PeerError::ConnectionClosed))
    );
}

/// If the server task is already gone, the failed channel send reports
/// `DeadPeerServer` and records it into the still-empty slot.
#[test]
fn dead_server_recorded_by_client() {
    let mut client = PeerClient::new();
    let mut slot = ErrorSlot::new();
    assert_eq!(client.try_send(&slot, Request::GetPeers), Ok(Request::GetPeers));
    let e = client.channel_send_failed(&mut slot);
    assert_eq!(e, SharedPeerError(PeerError::DeadPeerServer));
    assert_eq!(
        slot.try_get_error(),
        Some(SharedPeerError(PeerError::DeadPeerServer))
    );
}

/// The internal service signalling saturation tears the session down with
/// `Overloaded` rather than queuing unboundedly.
#[test]
fn overload_sheds_session() {
    let mut server = PeerServer::new();
    let mut slot = ErrorSlot::new();
    server.step(
        &mut slot,
        ServerEvent::PeerMessage(Message::GetPeers),
    );
    let a = server.step(&mut slot, ServerEvent::ServiceOverloaded);
    assert_eq!(a, ServerAction::Fail(PeerError::Overloaded));
    assert_eq!(server.state(), ServerState::Failed);
    assert_eq!(
        slot.try_get_error(),
        Some(SharedPeerError(PeerError::Overloaded))
    );
}

#[test]
fn inbound_query_is_dispatched_and_answered() {
    let mut server = PeerServer::new();
    let mut slot = ErrorSlot::new();
    let a = server.step(&mut slot, ServerEvent::PeerMessage(Message::GetPeers));
    assert_eq!(a, ServerAction::Dispatch(Request::GetPeers));
    assert_eq!(server.state(), ServerState::AwaitingRequest);
    let b = server.step(
        &mut slot,
        ServerEvent::ServiceResponse(Response::Peers(vec![meta(6)])),
    );
    assert_eq!(b, ServerAction::SendPeer(Message::Peers(vec![meta(6)])));
}

#[test]
fn unsolicited_peers_go_to_the_service() {
    let mut server = PeerServer::new();
    let mut slot = ErrorSlot::new();
    let a = server.step(
        &mut slot,
        ServerEvent::PeerMessage(Message::Peers(vec![meta(7)])),
    );
    assert_eq!(a, ServerAction::Dispatch(Request::PushPeers(vec![meta(7)])));
}

#[test]
fn inbound_ping_is_answered() {
    let mut server = PeerServer::new();
    let mut slot = ErrorSlot::new();
    let a = server.step(&mut slot, ServerEvent::PeerMessage(Message::Ping(Nonce(8))));
    assert_eq!(a, ServerAction::SendPeer(Message::Pong(Nonce(8))));
    assert_eq!(server.state(), ServerState::AwaitingRequest);
}

#[test]
fn heartbeat_round_trip() {
    let mut server = PeerServer::new();
    let mut slot = ErrorSlot::new();
    let a = server.step(&mut slot, ServerEvent::HeartbeatTick(Nonce(11)));
    assert_eq!(a, ServerAction::SendAndArm(Message::Ping(Nonce(11))));
    assert_eq!(
        server.state(),
        ServerState::AwaitingResponse(PendingRequest::Ping(Nonce(11)))
    );
    let b = server.step(&mut slot, ServerEvent::PeerMessage(Message::Pong(Nonce(11))));
    assert_eq!(b, ServerAction::HeartbeatAnswered);
    assert_eq!(server.state(), ServerState::AwaitingRequest);
    assert_eq!(slot.try_get_error(), None);
}

#[test]
fn wrong_heartbeat_nonce_fails_session() {
    let mut server = PeerServer::new();
    let mut slot = ErrorSlot::new();
    server.step(&mut slot, ServerEvent::HeartbeatTick(Nonce(11)));
    let a = server.step(&mut slot, ServerEvent::PeerMessage(Message::Pong(Nonce(12))));
    assert_eq!(a, ServerAction::Fail(PeerError::HeartbeatNonceMismatch));
    assert_eq!(
        slot.try_get_error(),
        Some(SharedPeerError(PeerError::HeartbeatNonceMismatch))
    );
}

#[test]
fn handshake_message_after_handshake_fails_session() {
    let mut server = PeerServer::new();
    let mut slot = ErrorSlot::new();
    let a = server.step(&mut slot, ServerEvent::PeerMessage(Message::Verack));
    assert_eq!(a, ServerAction::Fail(PeerError::DuplicateHandshake));
    assert_eq!(
        slot.try_get_error(),
        Some(SharedPeerError(PeerError::DuplicateHandshake))
    );
}

#[test]
fn decode_failure_fails_session() {
    let mut server = PeerServer::new();
    let mut slot = ErrorSlot::new();
    let a = server.step(
        &mut slot,
        ServerEvent::PeerMessageError(SerializationError::Parse),
    );
    assert_eq!(
        a,
        ServerAction::Fail(PeerError::Serialization(SerializationError::Parse))
    );
}

#[test]
fn dropped_client_fails_session() {
    let mut server = PeerServer::new();
    let mut slot = ErrorSlot::new();
    let a = server.step(&mut slot, ServerEvent::ClientChannelClosed);
    assert_eq!(a, ServerAction::Fail(PeerError::DeadPeerClient));
    assert_eq!(
        slot.try_get_error(),
        Some(SharedPeerError(PeerError::DeadPeerClient))
    );
}

/// A failure recorded by one half is never overwritten by the other: the
/// first diagnosis stays authoritative.
#[test]
fn first_failure_wins_across_halves() {
    let mut server = PeerServer::new();
    let mut slot = ErrorSlot::new();
    server.step(&mut slot, ServerEvent::StreamClosed);
    let mut client = PeerClient::new();
    let _ = client.try_send(&slot, Request::GetPeers);
    let e = client.channel_send_failed(&mut slot);
    assert_eq!(e, SharedPeerError(PeerError::DeadPeerServer));
    assert_eq!(
        slot.try_get_error(),
        Some(SharedPeerError(PeerError::ConnectionClosed))
    );
}
