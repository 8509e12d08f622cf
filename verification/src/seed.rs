//! The seeder: a node-side service answering `GetPeers` requests from the
//! address book, and the command type that runs it.
//!
//! The address book itself (storage, sanitization, selection policy) is an
//! external collaborator: the service receives a snapshot of sanitized
//! peer metadata once the book is shared with it, and answers requests
//! from that. An answer reveals at most [`MAX_PEERS_IN_RESPONSE`] peers,
//! in an order shuffled by the thread-local generator, so the node's
//! entire peer set is not trivially revealed.

use vstd::prelude::*;

use vstd::math::min;
use vstd::seq_lib::lemma_multiset_commutative;

use rand::seq::SliceRandom;

use crate::protocol::{MetaAddr, Request, Response};

verus! {

/// The most peers one answer reveals.
pub const MAX_PEERS_IN_RESPONSE: usize = 50;

/// A snapshot of the peer metadata the address book shares with the
/// seeder: already sanitized by the book, held as plain values.
#[derive(Clone, Debug, PartialEq, Eq)]
pub struct AddressBook {
    /// The known peers, ordered by recency.
    pub peers: Vec<MetaAddr>,
}

/// Whether the seeder has received the address book yet.
#[derive(Debug)]
pub enum SeederState {
    /// Waiting for the address book to be shared over the oneshot channel.
    AwaitingAddressBook,
    /// Address book received, ready to service requests.
    Ready(AddressBook),
}

/// What the oneshot channel from the bootstrap yielded when polled.
#[derive(Debug)]
pub enum AddressBookDelivery {
    /// The sending side was dropped: the book will never arrive.
    SenderDropped,
    /// Nothing yet.
    NotYet,
    /// The address book arrived.
    Delivered(AddressBook),
}

/// What [`SeedService::poll_ready`] reports.
#[derive(Clone, Copy, Debug, PartialEq, Eq, Structural)]
pub enum SeedReadiness {
    /// The service can answer requests.
    Ready,
    /// The address book has not arrived yet; poll again.
    Pending,
    /// The book can never arrive: the service has failed.
    Failed,
}

/// The service that answers peer requests for the seeder.
pub struct SeedService {
    state: SeederState,
}

impl SeedService {
    /// Whether the address book has been received.
    pub closed spec fn spec_is_ready(&self) -> bool {
        self.state is Ready
    }

    /// The peers of the received address book (empty until then).
    pub closed spec fn spec_peers(&self) -> Seq<MetaAddr> {
        match self.state {
            SeederState::Ready(b) => b.peers@,
            SeederState::AwaitingAddressBook => Seq::empty(),
        }
    }

    /// A fresh service, waiting for the address book.
    pub fn new() -> (s: SeedService)
        ensures
            !s.spec_is_ready(),
    {
        SeedService { state: SeederState::AwaitingAddressBook }
    }

    /// Readiness, decided from what the oneshot channel yielded: once the
    /// book has arrived the service stays ready; until then it is pending,
    /// unless the sender was dropped, which fails the service.
    pub fn poll_ready(&mut self, delivery: AddressBookDelivery) -> (r: SeedReadiness)
        ensures
            old(self).spec_is_ready() ==> r == SeedReadiness::Ready && final(self).spec_is_ready()
                && final(self).spec_peers() == old(self).spec_peers(),
            !old(self).spec_is_ready() ==> match delivery {
                AddressBookDelivery::SenderDropped => r == SeedReadiness::Failed
                    && !final(self).spec_is_ready(),
                AddressBookDelivery::NotYet => r == SeedReadiness::Pending
                    && !final(self).spec_is_ready(),
                AddressBookDelivery::Delivered(b) => r == SeedReadiness::Ready
                    && final(self).spec_is_ready()
                    && final(self).spec_peers() == b.peers@,
            },
    {
        match &self.state {
            SeederState::Ready(_) => SeedReadiness::Ready,
            SeederState::AwaitingAddressBook => match delivery {
                AddressBookDelivery::SenderDropped => SeedReadiness::Failed,
                AddressBookDelivery::NotYet => SeedReadiness::Pending,
                AddressBookDelivery::Delivered(b) => {
                    self.state = SeederState::Ready(b);
                    SeedReadiness::Ready
                },
            },
        }
    }

    /// Answer one request. `GetPeers` receives a shuffled selection of at
    /// most [`MAX_PEERS_IN_RESPONSE`] known peers; every other request is
    /// acknowledged with no data. May only be called once
    /// [`SeedService::poll_ready`] reported ready.
    pub fn call(&self, req: Request) -> (resp: Response)
        requires
            self.spec_is_ready(),
        ensures
            req is GetPeers ==> (resp matches Response::Peers(v) && peers_response_ok(
                self.spec_peers(),
                v@,
            )),
            !(req is GetPeers) ==> resp == Response::Nil,
    {
        match req {
            Request::GetPeers => {
                let book = match &self.state {
                    SeederState::Ready(b) => b,
                    SeederState::AwaitingAddressBook => vstd::pervasive::unreached(),
                };
                let mut peers = copy_peers(&book.peers);
                shuffle_peers(&mut peers);
                let ghost shuffled = peers@;
                peers.truncate(MAX_PEERS_IN_RESPONSE);
                proof {
                    if shuffled.len() <= MAX_PEERS_IN_RESPONSE {
                        assert(peers@ =~= shuffled);
                    } else {
                        lemma_subrange_count_le(shuffled, MAX_PEERS_IN_RESPONSE as int);
                    }
                }
                Response::Peers(peers)
            },
            _ => Response::Nil,
        }
    }
}

/// What an answer to `GetPeers` guarantees: it holds the lesser of the
/// book's size and [`MAX_PEERS_IN_RESPONSE`] peers, and no peer more often
/// than the book holds it; a book that fits whole is returned whole, as a
/// permutation. The order is whatever the generator drew, so nothing is
/// promised of it.
pub open spec fn peers_response_ok(book: Seq<MetaAddr>, out: Seq<MetaAddr>) -> bool {
    &&& out.len() == min(book.len() as int, MAX_PEERS_IN_RESPONSE as int)
    &&& forall|x: MetaAddr|
        #[trigger] out.to_multiset().count(x) <= book.to_multiset().count(x)
    &&& book.len() <= MAX_PEERS_IN_RESPONSE ==> out.to_multiset() == book.to_multiset()
}

/// A prefix of a sequence holds no element more often than the sequence.
proof fn lemma_subrange_count_le<A>(s: Seq<A>, n: int)
    requires
        0 <= n <= s.len(),
    ensures
        forall|x: A| #[trigger] s.subrange(0, n).to_multiset().count(x) <= s.to_multiset().count(
            x,
        ),
{
    broadcast use vstd::multiset::group_multiset_axioms;

    let a = s.subrange(0, n);
    let b = s.subrange(n, s.len() as int);
    assert(s =~= a + b);
    lemma_multiset_commutative(a, b);
}

/// A copy of the sanitized peer snapshot, so the shuffle leaves the
/// address book itself untouched.
fn copy_peers(src: &Vec<MetaAddr>) -> (out: Vec<MetaAddr>)
    ensures
        out@ == src@,
{
    let mut out: Vec<MetaAddr> = Vec::new();
    let mut i: usize = 0;
    while i < src.len()
        invariant
            i <= src.len(),
            out@ == src@.take(i as int),
        decreases src.len() - i,
    {
        out.push(src[i]);
        proof {
            assert(out@ =~= src@.take(i + 1));
        }
        i = i + 1;
    }
    proof {
        assert(out@ =~= src@);
    }
    out
}

/// Relies on rand's `SliceRandom::shuffle`: an in-place permutation of the
/// slice, picked by the thread-local generator. Whatever permutation was
/// drawn, the elements are the ones that were there, as a multiset.
#[verifier::external_body]
fn shuffle_peers(peers: &mut Vec<MetaAddr>)
    ensures
        final(peers)@.to_multiset() == old(peers)@.to_multiset(),
        final(peers)@.len() == old(peers)@.len(),
{
    peers.as_mut_slice().shuffle(&mut rand::rng());
}

/// The seeder command: spiders and collects as many valid peer addresses
/// as it can. The bootstrap around it lives in the embedding; the service
/// above is its verified core.
#[derive(Clone, Copy, Debug, Default, PartialEq, Eq, Structural)]
pub struct SeedCmd {}

} // verus!
