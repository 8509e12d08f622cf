//! The caller-facing half of a peer connection.
//!
//! A `PeerClient` accepts one request at a time, forwards it to the
//! session's `PeerServer` half over a bounded channel, and reports the
//! shared [`ErrorSlot`] error if the session has died. The channel
//! endpoints themselves live in the embedding; this type carries the
//! decision logic and the capacity bookkeeping, so every path a request can
//! take is verified.

use vstd::prelude::*;

use crate::error::{record_one, ErrorSlot, PeerError, SharedPeerError};
use crate::protocol::Request;

verus! {

/// What [`PeerClient::poll_ready`] reports to a caller.
#[derive(Clone, Copy, Debug, PartialEq, Eq, Structural)]
pub enum ClientReadiness {
    /// A request may be issued now.
    Ready,
    /// The one permitted in-flight request is still outstanding; the caller
    /// must re-check readiness before calling again.
    Pending,
    /// The session has died; the shared slot's error is authoritative.
    Failed(SharedPeerError),
}

/// The request-issuing half of a connected peer session.
///
/// At most one outstanding request per `PeerClient` is supported: callers
/// needing concurrency must use an external multiplexer. Callers must
/// re-check readiness before each call (poll-then-call discipline).
pub struct PeerClient {
    in_flight: bool,
}

impl PeerClient {
    /// Whether the client's one request slot is occupied: the bounded
    /// channel towards the server has no available capacity.
    pub closed spec fn spec_in_flight(&self) -> bool {
        self.in_flight
    }

    /// A fresh client half with no request outstanding.
    pub fn new() -> (c: PeerClient)
        ensures
            !c.spec_in_flight(),
    {
        PeerClient { in_flight: false }
    }

    /// Readiness: the client is unready precisely when the shared slot
    /// already holds an error or the channel has no available capacity.
    pub fn poll_ready(&self, slot: &ErrorSlot) -> (r: ClientReadiness)
        ensures
            slot@ matches Some(e) ==> r == ClientReadiness::Failed(e),
            slot@ is None && self.spec_in_flight() ==> r == ClientReadiness::Pending,
            slot@ is None && !self.spec_in_flight() ==> r == ClientReadiness::Ready,
    {
        match slot.try_get_error() {
            Some(e) => ClientReadiness::Failed(e),
            None => {
                if self.in_flight {
                    ClientReadiness::Pending
                } else {
                    ClientReadiness::Ready
                }
            },
        }
    }

    /// Issue a request. Checks the shared slot first: if an error is
    /// already recorded it is returned at once and the channel is never
    /// touched (fail-fast). Otherwise the request slot is taken and the
    /// request is handed back for the embedding to place on the channel;
    /// if that send fails, the embedding must call
    /// [`PeerClient::channel_send_failed`].
    pub fn try_send(&mut self, slot: &ErrorSlot, req: Request) -> (r: Result<
        Request,
        SharedPeerError,
    >)
        requires
            !old(self).spec_in_flight(),
        ensures
            slot@ matches Some(e) ==> r == Err::<Request, SharedPeerError>(e)
                && !final(self).spec_in_flight(),
            slot@ is None ==> r == Ok::<Request, SharedPeerError>(req)
                && final(self).spec_in_flight(),
    {
        match slot.try_get_error() {
            Some(e) => Err(e),
            None => {
                self.in_flight = true;
                Ok(req)
            },
        }
    }

    /// The channel send failed: the `PeerServer` half has terminated. The
    /// failure reported to the caller is `DeadPeerServer`, and if the slot
    /// is still empty at this point, that diagnosis is written into it
    /// (first failure wins).
    pub fn channel_send_failed(&mut self, slot: &mut ErrorSlot) -> (e: SharedPeerError)
        ensures
            e == SharedPeerError(PeerError::DeadPeerServer),
            final(slot)@ == record_one(old(slot)@, e),
            !final(self).spec_in_flight(),
    {
        let e = SharedPeerError(PeerError::DeadPeerServer);
        slot.record(e);
        self.in_flight = false;
        e
    }

    /// The outstanding request resolved (with a response, or with the
    /// session's error): release the request slot.
    pub fn request_resolved(&mut self)
        ensures
            !final(self).spec_in_flight(),
    {
        self.in_flight = false;
    }
}

} // verus!
