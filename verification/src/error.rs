//! Error taxonomy for peer connections, and the shared fail-once
//! [`ErrorSlot`] through which a session's two halves agree on the one
//! authoritative cause of death.

use vstd::prelude::*;

use crate::protocol::MessageKind;

verus! {

/// An error from the message codec boundary: a protocol message failed to
/// decode from, or encode onto, the wire.
#[derive(Clone, Copy, Debug, PartialEq, Eq, Structural)]
pub enum SerializationError {
    /// The underlying transport reported an I/O failure.
    Io,
    /// The bytes did not parse as a protocol message.
    Parse,
}

/// An error related to peer connection handling.
#[derive(Clone, Copy, Debug, PartialEq, Eq, Structural)]
pub enum PeerError {
    /// The remote peer closed the connection.
    ConnectionClosed,
    /// The `PeerClient` half of the pair died before the `PeerServer` half.
    DeadPeerClient,
    /// The `PeerServer` half of the pair died before the `PeerClient` half.
    DeadPeerServer,
    /// The remote peer did not respond to a `PeerClient` request in time.
    ClientRequestTimeout,
    /// A serialization error occurred while reading or writing a message.
    Serialization(SerializationError),
    /// A badly-behaved remote peer sent a handshake message after the
    /// handshake was already complete.
    DuplicateHandshake,
    /// A badly-behaved remote peer sent the wrong nonce in reply to a
    /// heartbeat ping.
    HeartbeatNonceMismatch,
    /// This node's internal services were overloaded, so the connection was
    /// dropped to shed load.
    Overloaded,
}

impl PeerError {
    /// A human-readable description of the error.
    pub fn message(&self) -> &'static str {
        match self {
            PeerError::ConnectionClosed => "Peer closed connection",
            PeerError::DeadPeerClient => "PeerClient instance died",
            PeerError::DeadPeerServer => "PeerServer instance died",
            PeerError::ClientRequestTimeout => "Client request timed out",
            PeerError::Serialization(_) => "Serialization error",
            PeerError::DuplicateHandshake => {
                "Remote peer sent handshake messages after handshake"
            },
            PeerError::HeartbeatNonceMismatch => {
                "Remote peer sent the wrong heartbeat nonce"
            },
            PeerError::Overloaded => "Internal services over capacity",
        }
    }
}

/// A cloneable wrapper around one [`PeerError`], so that both halves of a
/// connection can observe the identical failure.
#[derive(Clone, Copy, Debug, PartialEq, Eq, Structural)]
pub struct SharedPeerError(pub PeerError);

/// The effect of one `record` call on the slot's contents: the first error
/// wins, a later one is discarded.
pub open spec fn record_one(
    slot: Option<SharedPeerError>,
    e: SharedPeerError,
) -> Option<SharedPeerError> {
    if slot is None {
        Some(e)
    } else {
        slot
    }
}

/// The effect of a whole sequence of `record` calls, applied in order.
pub open spec fn record_all(
    slot: Option<SharedPeerError>,
    errs: Seq<SharedPeerError>,
) -> Option<SharedPeerError>
    decreases errs.len(),
{
    if errs.len() == 0 {
        slot
    } else {
        record_all(record_one(slot, errs[0]), errs.drop_first())
    }
}

/// A shared, write-once-per-failure cell holding the terminal error for a
/// connection.
///
/// Invariant: once set to `Some`, it is never overwritten — the first
/// recorded error is authoritative, later failures are discarded. The two
/// halves of a connection share one slot (behind a mutual-exclusion
/// primitive, supplied by the embedding) and each may read or record.
pub struct ErrorSlot {
    error: Option<SharedPeerError>,
}

impl ErrorSlot {
    /// The slot's contents.
    pub closed spec fn view(&self) -> Option<SharedPeerError> {
        self.error
    }

    /// A fresh, empty slot: no failure has been observed yet.
    pub fn new() -> (slot: ErrorSlot)
        ensures
            slot@ is None,
    {
        ErrorSlot { error: None }
    }

    /// A non-consuming snapshot of the slot's contents.
    pub fn try_get_error(&self) -> (r: Option<SharedPeerError>)
        ensures
            r == self@,
    {
        self.error
    }

    /// Record a failure: sets the slot only if it is still empty.
    /// A later caller's error is discarded, not merged.
    pub fn record(&mut self, e: SharedPeerError)
        ensures
            final(self)@ == record_one(old(self)@, e),
            old(self)@ is None ==> final(self)@ == Some(e),
            old(self)@ is Some ==> final(self)@ == old(self)@,
    {
        if self.error.is_none() {
            self.error = Some(e);
        }
    }
}

impl Default for ErrorSlot {
    /// A fresh, empty slot.
    fn default() -> (slot: Self)
        ensures
            slot@ is None,
    {
        ErrorSlot { error: None }
    }
}

/// An occupied slot is never overwritten, whatever is recorded after.
pub proof fn lemma_occupied_slot_unchanged(e: SharedPeerError, errs: Seq<SharedPeerError>)
    ensures
        record_all(Some(e), errs) == Some(e),
    decreases errs.len(),
{
    if errs.len() > 0 {
        lemma_occupied_slot_unchanged(e, errs.drop_first());
    }
}

/// Fail-once invariant: for every sequence of `record` calls on an empty
/// slot, exactly the first call's error is what every later read observes,
/// regardless of how the callers interleaved (the slot serializes them).
pub proof fn lemma_first_error_wins(errs: Seq<SharedPeerError>)
    requires
        errs.len() > 0,
    ensures
        record_all(None, errs) == Some(errs[0]),
{
    lemma_occupied_slot_unchanged(errs[0], errs.drop_first());
}

/// An error during a handshake with a remote peer. Handshake-phase errors
/// arise before an [`ErrorSlot`] exists: they are returned directly from the
/// connect call and never reach a client/server pair.
#[derive(Clone, Copy, Debug, PartialEq, Eq, Structural)]
pub enum HandshakeError {
    /// The remote peer sent an unexpected message during the handshake.
    UnexpectedMessage(MessageKind),
    /// The connector detected handshake nonce reuse, possibly indicating
    /// self-connection.
    NonceReuse,
    /// The remote peer closed the connection.
    ConnectionClosed,
    /// An error occurred while performing an I/O operation.
    Io,
    /// A serialization error occurred while reading or writing a message.
    Serialization(SerializationError),
}

impl HandshakeError {
    /// A human-readable description of the error.
    pub fn message(&self) -> &'static str {
        match self {
            HandshakeError::UnexpectedMessage(_) => {
                "The remote peer sent an unexpected message"
            },
            HandshakeError::NonceReuse => {
                "Detected nonce reuse, possible self-connection"
            },
            HandshakeError::ConnectionClosed => "Peer closed connection",
            HandshakeError::Io => "Underlying IO error",
            HandshakeError::Serialization(_) => "Serialization error",
        }
    }
}

} // verus!
