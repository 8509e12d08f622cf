//! The session-driving half of a peer connection.
//!
//! After the handshake, a `PeerServer` owns the session: it multiplexes
//! inbound protocol messages against the one outstanding local request and
//! against the node's internal request-handling service, drives the request
//! timeout and the idle heartbeat, and is the single writer of the shared
//! [`ErrorSlot`] on session death.
//!
//! The driver is a strict state machine. The embedding runs a three-way
//! event loop (inbound message stream, client request channel, timer) and
//! feeds whichever event arrived to [`PeerServer::step`]; the returned
//! [`ServerAction`] says what to perform. Exactly one event is acted upon
//! per iteration, so a response and a timer expiry are resolved in
//! observation order and can never both win.

use vstd::prelude::*;

use crate::error::{record_one, ErrorSlot, PeerError, SerializationError, SharedPeerError};
use crate::protocol::{Message, Nonce, Request, Response};

verus! {

/// The metadata of the one request the session is awaiting an answer for.
#[derive(Clone, Copy, Debug, PartialEq, Eq, Structural)]
pub enum PendingRequest {
    /// A client `GetPeers` was forwarded; a `Peers` message answers it.
    Peers,
    /// A heartbeat ping was sent; a `Pong` echoing the nonce answers it.
    Ping(Nonce),
}

/// The session driver's state. Exactly one is live at a time.
#[derive(Clone, Copy, Debug, PartialEq, Eq, Structural)]
pub enum ServerState {
    /// No locally-issued request is pending.
    AwaitingRequest,
    /// A request went out; its correlated answer or the timeout comes next.
    AwaitingResponse(PendingRequest),
    /// Terminal: the session died and the shared slot holds the cause.
    Failed,
}

/// One event of the driver's three-way wait, as observed by the embedding.
#[derive(Clone, Debug, PartialEq, Eq)]
pub enum ServerEvent {
    /// A request arrived from the client half over the channel.
    ClientRequest(Request),
    /// The client half's channel closed: the `PeerClient` was dropped.
    ClientChannelClosed,
    /// A decoded protocol message arrived from the peer.
    PeerMessage(Message),
    /// The inbound stream could not decode a message.
    PeerMessageError(SerializationError),
    /// The inbound stream ended: the peer closed the connection.
    StreamClosed,
    /// The pending-request timer expired.
    TimerExpired,
    /// The heartbeat interval elapsed; carries a fresh nonce for the probe.
    HeartbeatTick(Nonce),
    /// The internal service answered a dispatched inbound request.
    ServiceResponse(Response),
    /// The internal service signalled it cannot accept more work.
    ServiceOverloaded,
}

/// What the embedding must perform after a step.
#[derive(Clone, Debug, PartialEq, Eq)]
pub enum ServerAction {
    /// Nothing to do.
    Idle,
    /// The event was not consumed in this state: present it again after the
    /// state changes (a client request seen while one is already pending).
    Deferred,
    /// Write a message onto the outbound half of the message stream.
    SendPeer(Message),
    /// Write a message for a client request and arm the request timer.
    SendAndArm(Message),
    /// Write a message and complete the client's request at once (the
    /// request needed no reply from the peer).
    SendAndComplete(Message, Response),
    /// Disarm the timer and complete the client's pending request.
    CompleteClient(Response),
    /// Disarm the timer; the pending heartbeat was answered correctly.
    HeartbeatAnswered,
    /// Dispatch a peer-initiated request to the internal service.
    Dispatch(Request),
    /// The session died: the cause was recorded in the shared slot, and the
    /// driver must stop.
    Fail(PeerError),
    /// The driver was already in the terminal state: stop.
    Terminate,
}

/// The transition taken on a failing event: the terminal state, paired with
/// the action telling the embedding which cause was recorded.
pub open spec fn spec_fail(e: PeerError) -> (ServerState, ServerAction) {
    (ServerState::Failed, ServerAction::Fail(e))
}

/// How the driver reacts to an inbound protocol message.
pub open spec fn spec_on_message(s: ServerState, m: Message) -> (ServerState, ServerAction)
    recommends
        !(s is Failed),
{
    if m.spec_is_handshake_only() {
        spec_fail(PeerError::DuplicateHandshake)
    } else {
        match m {
            Message::Ping(n) => (s, ServerAction::SendPeer(Message::Pong(n))),
            Message::Pong(n) => match s {
                ServerState::AwaitingResponse(PendingRequest::Ping(expected)) => {
                    if n == expected {
                        (ServerState::AwaitingRequest, ServerAction::HeartbeatAnswered)
                    } else {
                        spec_fail(PeerError::HeartbeatNonceMismatch)
                    }
                },
                _ => (s, ServerAction::Idle),
            },
            Message::GetPeers => (s, ServerAction::Dispatch(Request::GetPeers)),
            Message::Peers(v) => match s {
                ServerState::AwaitingResponse(PendingRequest::Peers) => (
                    ServerState::AwaitingRequest,
                    ServerAction::CompleteClient(Response::Peers(v)),
                ),
                _ => (s, ServerAction::Dispatch(Request::PushPeers(v))),
            },
            _ => spec_fail(PeerError::DuplicateHandshake),
        }
    }
}

/// The driver's total transition function: every state has a defined
/// reaction to every event.
pub open spec fn spec_step(s: ServerState, ev: ServerEvent) -> (ServerState, ServerAction) {
    if s is Failed {
        (ServerState::Failed, ServerAction::Terminate)
    } else {
        match ev {
            ServerEvent::ClientRequest(req) => match s {
                ServerState::AwaitingRequest => match req {
                    Request::GetPeers => (
                        ServerState::AwaitingResponse(PendingRequest::Peers),
                        ServerAction::SendAndArm(Message::GetPeers),
                    ),
                    Request::PushPeers(v) => (
                        ServerState::AwaitingRequest,
                        ServerAction::SendAndComplete(Message::Peers(v), Response::Nil),
                    ),
                },
                _ => (s, ServerAction::Deferred),
            },
            ServerEvent::ClientChannelClosed => spec_fail(PeerError::DeadPeerClient),
            ServerEvent::PeerMessage(m) => spec_on_message(s, m),
            ServerEvent::PeerMessageError(e) => spec_fail(PeerError::Serialization(e)),
            ServerEvent::StreamClosed => spec_fail(PeerError::ConnectionClosed),
            ServerEvent::TimerExpired => match s {
                ServerState::AwaitingResponse(_) => spec_fail(PeerError::ClientRequestTimeout),
                _ => (s, ServerAction::Idle),
            },
            ServerEvent::HeartbeatTick(n) => match s {
                ServerState::AwaitingRequest => (
                    ServerState::AwaitingResponse(PendingRequest::Ping(n)),
                    ServerAction::SendAndArm(Message::Ping(n)),
                ),
                _ => (s, ServerAction::Idle),
            },
            ServerEvent::ServiceResponse(resp) => match resp {
                Response::Nil => (s, ServerAction::Idle),
                Response::Peers(v) => (s, ServerAction::SendPeer(Message::Peers(v))),
            },
            ServerEvent::ServiceOverloaded => spec_fail(PeerError::Overloaded),
        }
    }
}

/// The session-driving half of a connected peer session.
pub struct PeerServer {
    state: ServerState,
}

impl PeerServer {
    /// The driver's current state.
    pub closed spec fn spec_state(&self) -> ServerState {
        self.state
    }

    /// A fresh driver, as the connector spawns it after a completed
    /// handshake.
    pub fn new() -> (s: PeerServer)
        ensures
            s.spec_state() == ServerState::AwaitingRequest,
    {
        PeerServer { state: ServerState::AwaitingRequest }
    }

    /// The driver's current state.
    pub fn state(&self) -> (s: ServerState)
        ensures
            s == self.spec_state(),
    {
        self.state
    }

    /// React to one observed event.
    ///
    /// The new state and the returned action follow [`spec_step`] exactly.
    /// On a failing transition the cause is recorded into the shared slot
    /// (only if the slot is still empty: first failure wins); on every
    /// other transition the slot is untouched.
    pub fn step(&mut self, slot: &mut ErrorSlot, ev: ServerEvent) -> (a: ServerAction)
        ensures
            (final(self).spec_state(), a) == spec_step(old(self).spec_state(), ev),
            a matches ServerAction::Fail(e) ==> final(slot)@ == record_one(
                old(slot)@,
                SharedPeerError(e),
            ),
            !(a is Fail) ==> final(slot)@ == old(slot)@,
    {
        let a = self.transition(ev);
        if let ServerAction::Fail(e) = &a {
            slot.record(SharedPeerError(*e));
        }
        a
    }

    /// Take the transition of [`spec_step`], without touching the slot.
    fn transition(&mut self, ev: ServerEvent) -> (a: ServerAction)
        ensures
            (final(self).spec_state(), a) == spec_step(old(self).spec_state(), ev),
    {
        if let ServerState::Failed = self.state {
            return ServerAction::Terminate;
        }
        match ev {
            ServerEvent::ClientRequest(req) => {
                if let ServerState::AwaitingRequest = self.state {
                    match req {
                        Request::GetPeers => {
                            self.state = ServerState::AwaitingResponse(PendingRequest::Peers);
                            ServerAction::SendAndArm(Message::GetPeers)
                        },
                        Request::PushPeers(v) => ServerAction::SendAndComplete(
                            Message::Peers(v),
                            Response::Nil,
                        ),
                    }
                } else {
                    ServerAction::Deferred
                }
            },
            ServerEvent::ClientChannelClosed => self.fail(PeerError::DeadPeerClient),
            ServerEvent::PeerMessage(m) => self.on_message(m),
            ServerEvent::PeerMessageError(e) => self.fail(PeerError::Serialization(e)),
            ServerEvent::StreamClosed => self.fail(PeerError::ConnectionClosed),
            ServerEvent::TimerExpired => {
                if let ServerState::AwaitingResponse(_) = self.state {
                    self.fail(PeerError::ClientRequestTimeout)
                } else {
                    ServerAction::Idle
                }
            },
            ServerEvent::HeartbeatTick(n) => {
                if let ServerState::AwaitingRequest = self.state {
                    self.state = ServerState::AwaitingResponse(PendingRequest::Ping(n));
                    ServerAction::SendAndArm(Message::Ping(n))
                } else {
                    ServerAction::Idle
                }
            },
            ServerEvent::ServiceResponse(resp) => match resp {
                Response::Nil => ServerAction::Idle,
                Response::Peers(v) => ServerAction::SendPeer(Message::Peers(v)),
            },
            ServerEvent::ServiceOverloaded => self.fail(PeerError::Overloaded),
        }
    }

    /// Enter the terminal state with the given cause.
    fn fail(&mut self, e: PeerError) -> (a: ServerAction)
        ensures
            (final(self).spec_state(), a) == spec_fail(e),
    {
        self.state = ServerState::Failed;
        ServerAction::Fail(e)
    }

    /// React to an inbound protocol message, per [`spec_on_message`].
    fn on_message(&mut self, m: Message) -> (a: ServerAction)
        requires
            !(old(self).spec_state() is Failed),
        ensures
            (final(self).spec_state(), a) == spec_on_message(old(self).spec_state(), m),
    {
        match m {
            Message::Version { .. } => self.fail(PeerError::DuplicateHandshake),
            Message::Verack => self.fail(PeerError::DuplicateHandshake),
            Message::Ping(n) => ServerAction::SendPeer(Message::Pong(n)),
            Message::Pong(n) => {
                if let ServerState::AwaitingResponse(PendingRequest::Ping(expected)) = self.state {
                    if n == expected {
                        self.state = ServerState::AwaitingRequest;
                        ServerAction::HeartbeatAnswered
                    } else {
                        self.fail(PeerError::HeartbeatNonceMismatch)
                    }
                } else {
                    ServerAction::Idle
                }
            },
            Message::GetPeers => ServerAction::Dispatch(Request::GetPeers),
            Message::Peers(v) => {
                if let ServerState::AwaitingResponse(PendingRequest::Peers) = self.state {
                    self.state = ServerState::AwaitingRequest;
                    ServerAction::CompleteClient(Response::Peers(v))
                } else {
                    ServerAction::Dispatch(Request::PushPeers(v))
                }
            },
        }
    }
}

/// At-most-one-outstanding-request: while a response is pending, a further
/// client request is deferred and the pending request's identity is
/// unchanged, so no cross-talk between responses is possible. (The bounded
/// channel already rejects the second request at the client's readiness
/// check; this covers a driver that is handed one anyway.)
pub proof fn lemma_second_request_deferred(p: PendingRequest, req: Request)
    ensures
        spec_step(ServerState::AwaitingResponse(p), ServerEvent::ClientRequest(req)) == (
            ServerState::AwaitingResponse(p),
            ServerAction::Deferred,
        ),
{
}

/// Timeout exclusivity: the driver acts on exactly one event per
/// iteration, so a timer expiry and a late response resolve in observation
/// order to exactly one outcome. If the expiry is observed first, the
/// timeout wins: the session fails with `ClientRequestTimeout`, and no
/// message observed afterwards completes anything. If the response is
/// observed first, it wins: the request completes, and the stale expiry is
/// ignored.
pub proof fn lemma_timeout_exclusive(p: PendingRequest, m: Message)
    ensures
        spec_step(ServerState::AwaitingResponse(p), ServerEvent::TimerExpired) == (
            ServerState::Failed,
            ServerAction::Fail(PeerError::ClientRequestTimeout),
        ),
        !(spec_step(
            spec_step(ServerState::AwaitingResponse(p), ServerEvent::TimerExpired).0,
            ServerEvent::PeerMessage(m),
        ).1 is CompleteClient),
        spec_step(ServerState::AwaitingResponse(p), ServerEvent::PeerMessage(m)).1
            is CompleteClient ==> spec_step(
            spec_step(ServerState::AwaitingResponse(p), ServerEvent::PeerMessage(m)).0,
            ServerEvent::TimerExpired,
        ) == (ServerState::AwaitingRequest, ServerAction::Idle),
{
}

/// Dead-peer propagation: observing the closed stream in any live state
/// fails the session with `ConnectionClosed`. If no earlier failure holds
/// the slot, that is what the slot then holds — and what a subsequent
/// client send reports, by the client's fail-fast contract.
pub proof fn lemma_dead_peer_propagation(s: ServerState, slot: Option<SharedPeerError>)
    requires
        !(s is Failed),
    ensures
        spec_step(s, ServerEvent::StreamClosed) == (
            ServerState::Failed,
            ServerAction::Fail(PeerError::ConnectionClosed),
        ),
        slot is None ==> record_one(slot, SharedPeerError(PeerError::ConnectionClosed)) == Some(
            SharedPeerError(PeerError::ConnectionClosed),
        ),
{
}

/// Overload shedding: in any live state, the internal service signalling
/// saturation tears the session down with `Overloaded` rather than queuing
/// unboundedly.
pub proof fn lemma_overload_shed(s: ServerState)
    requires
        !(s is Failed),
    ensures
        spec_step(s, ServerEvent::ServiceOverloaded) == (
            ServerState::Failed,
            ServerAction::Fail(PeerError::Overloaded),
        ),
{
}

} // verus!
