//! Tracked peers and the registry that holds them in display order.

use crate::address::IpAddress;
use crate::text::{decimal, push_numeral};
use vstd::prelude::*;

verus! {

/// One remote endpoint with its running totals, in kilobytes.
#[derive(Clone, Copy, Debug, PartialEq, Eq, Structural)]
pub struct Peer {
    pub address: IpAddress,
    pub port: u16,
    pub total_received: u64,
    pub total_sent: u64,
}

impl Peer {
    /// Whether this peer is the endpoint `address:port`.
    pub open spec fn is_endpoint(self, address: IpAddress, port: u16) -> bool {
        self.address == address && self.port == port
    }

    /// The endpoint as it is shown: the address, a colon and the port.
    pub open spec fn endpoint(self) -> Seq<char> {
        self.address.text() + ":"@ + decimal(self.port as nat)
    }

    /// Whether this peer is the endpoint `address:port`.
    pub fn has_endpoint(&self, address: IpAddress, port: u16) -> (yes: bool)
        ensures
            yes == self.is_endpoint(address, port),
    {
        self.address == address && self.port == port
    }

    /// Writes the endpoint out.
    pub fn endpoint_text(&self) -> (text: String)
        ensures
            text@ == self.endpoint(),
    {
        let mut text = self.address.to_text();
        text.append(":");
        push_numeral(&mut text, self.port as u128, 10);
        text
    }
}

/// No two peers of `peers` are the same endpoint.
pub open spec fn distinct_endpoints(peers: Seq<Peer>) -> bool {
    forall|i: int, j: int|
        0 <= i < j < peers.len() ==> !(#[trigger] peers[i]).is_endpoint(
            (#[trigger] peers[j]).address,
            peers[j].port,
        )
}

/// Whether some peer of `peers` is the endpoint `address:port`.
pub open spec fn tracks(peers: Seq<Peer>, address: IpAddress, port: u16) -> bool {
    exists|i: int| 0 <= i < peers.len() && (#[trigger] peers[i]).is_endpoint(address, port)
}

/// Whether `i` is the place of the endpoint `address:port` in `peers`: the endpoint
/// stands there and nowhere before.
pub open spec fn is_place_of(peers: Seq<Peer>, i: int, address: IpAddress, port: u16) -> bool {
    &&& 0 <= i < peers.len()
    &&& peers[i].is_endpoint(address, port)
    &&& forall|k: int| 0 <= k < i ==> !(#[trigger] peers[k]).is_endpoint(address, port)
}

/// The peers in the order in which they were first recorded, which is the order in
/// which they are shown. An endpoint occurs at most once.
pub struct PeerRegistry {
    peers: Vec<Peer>,
}

impl View for PeerRegistry {
    type V = Seq<Peer>;

    closed spec fn view(&self) -> Seq<Peer> {
        self.peers@
    }
}

impl PeerRegistry {
    #[verifier::type_invariant]
    spec fn well_formed(self) -> bool {
        distinct_endpoints(self.peers@)
    }

    /// A registry without peers.
    pub fn new() -> (registry: Self)
        ensures
            registry@ == Seq::<Peer>::empty(),
    {
        PeerRegistry { peers: Vec::new() }
    }

    /// How many peers are tracked.
    pub fn len(&self) -> (n: usize)
        ensures
            n == self@.len(),
    {
        self.peers.len()
    }

    /// Whether no peer is tracked.
    pub fn is_empty(&self) -> (empty: bool)
        ensures
            empty == (self@.len() == 0),
    {
        self.peers.len() == 0
    }

    /// The tracked peers in display order: the snapshot from which a frame is built.
    pub fn peers(&self) -> (snapshot: &Vec<Peer>)
        ensures
            snapshot@ == self@,
            distinct_endpoints(snapshot@),
    {
        proof {
            use_type_invariant(self);
        }
        &self.peers
    }

    /// Where the endpoint `address:port` stands in the display order, if it is tracked.
    pub fn position(&self, address: IpAddress, port: u16) -> (found: Option<usize>)
        ensures
            found is None <==> !tracks(self@, address, port),
            found matches Some(i) ==> is_place_of(self@, i as int, address, port),
    {
        position_in(&self.peers, address, port)
    }

    /// Records the current totals of a peer. A peer that is already tracked keeps its
    /// place and takes the new totals; a new one goes to the end.
    pub fn record(&mut self, peer: Peer)
        ensures
            distinct_endpoints(final(self)@),
            forall|i: int|
                0 <= i < old(self)@.len() && (#[trigger] old(self)@[i]).is_endpoint(
                    peer.address,
                    peer.port,
                ) ==> final(self)@ == old(self)@.update(i, peer),
            !tracks(old(self)@, peer.address, peer.port) ==> final(self)@ == old(self)@.push(peer),
    {
        proof {
            use_type_invariant(&*self);
        }
        let mut peers: Vec<Peer> = Vec::new();
        std::mem::swap(&mut peers, &mut self.peers);
        match position_in(&peers, peer.address, peer.port) {
            Some(i) => {
                peers.set(i, peer);
            },
            None => {
                peers.push(peer);
            },
        }
        self.peers = peers;
    }

    /// Stops tracking the endpoint `address:port` and returns what was recorded of it.
    /// The peers that stay keep their order.
    pub fn remove(&mut self, address: IpAddress, port: u16) -> (removed: Option<Peer>)
        ensures
            distinct_endpoints(final(self)@),
            removed is None <==> !tracks(old(self)@, address, port),
            removed is None ==> final(self)@ == old(self)@,
            forall|i: int|
                0 <= i < old(self)@.len() && (#[trigger] old(self)@[i]).is_endpoint(address, port)
                    ==> removed == Some(old(self)@[i]) && final(self)@ == old(self)@.remove(i),
            !tracks(final(self)@, address, port),
    {
        proof {
            use_type_invariant(&*self);
        }
        let mut peers: Vec<Peer> = Vec::new();
        std::mem::swap(&mut peers, &mut self.peers);
        let removed = match position_in(&peers, address, port) {
            Some(i) => Some(peers.remove(i)),
            None => None,
        };
        self.peers = peers;
        removed
    }
}

/// The first place in `peers` at which the endpoint `address:port` stands.
fn position_in(peers: &Vec<Peer>, address: IpAddress, port: u16) -> (found: Option<usize>)
    ensures
        found is None <==> !tracks(peers@, address, port),
        found matches Some(i) ==> is_place_of(peers@, i as int, address, port),
{
    let mut i: usize = 0;
    while i < peers.len()
        invariant
            i <= peers.len(),
            forall|k: int| 0 <= k < i ==> !(#[trigger] peers@[k]).is_endpoint(address, port),
        decreases peers.len() - i,
    {
        if peers[i].has_endpoint(address, port) {
            return Some(i);
        }
        i += 1;
    }
    None
}

} // verus!
