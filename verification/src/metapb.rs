//! Partition descriptors: which replicas a partition has, and on which stores.

use vstd::prelude::*;

verus! {

/// The part that a replica plays in its partition's membership.
#[derive(Clone, Copy, Debug, PartialEq, Eq, Structural)]
pub enum PeerRole {
    Voter,
    Learner,
    IncomingVoter,
    DemotingVoter,
}

/// One replica of a partition.
#[derive(Clone, Copy, Debug, PartialEq, Eq, Structural)]
pub struct Peer {
    pub id: u64,
    pub store_id: u64,
    pub role: PeerRole,
    pub is_witness: bool,
}

/// Version of a partition's membership and of its key range.
#[derive(Clone, Copy, Debug, PartialEq, Eq, Structural)]
pub struct RegionEpoch {
    pub conf_ver: u64,
    pub version: u64,
}

/// Descriptor of a partition.
#[derive(Clone, Debug, PartialEq, Eq)]
pub struct Region {
    pub id: u64,
    pub start_key: Vec<u8>,
    pub end_key: Vec<u8>,
    pub region_epoch: RegionEpoch,
    pub peers: Vec<Peer>,
}

/// `found` is the first of `peers` that lives on store `store_id`, or nothing
/// where no peer lives there.
pub open spec fn is_first_peer_on_store(peers: Seq<Peer>, store_id: u64, found: Option<Peer>) -> bool {
    match found {
        Some(peer) => exists|i: int|
            0 <= i < peers.len() && #[trigger] peers[i] == peer && peer.store_id == store_id
                && forall|j: int| 0 <= j < i ==> (#[trigger] peers[j]).store_id != store_id,
        None => forall|i: int| 0 <= i < peers.len() ==> (#[trigger] peers[i]).store_id != store_id,
    }
}

/// The descriptor lists a replica on store `store_id`, and the first one it
/// lists there is `peer_id`.
pub open spec fn lists_peer_on_store(peers: Seq<Peer>, store_id: u64, peer_id: u64) -> bool {
    exists|i: int|
        0 <= i < peers.len() && (#[trigger] peers[i]).store_id == store_id && peers[i].id == peer_id
            && forall|j: int| 0 <= j < i ==> (#[trigger] peers[j]).store_id != store_id
}

/// The replica of `region` that lives on store `store_id`.
pub fn find_peer(region: &Region, store_id: u64) -> (found: Option<Peer>)
    ensures
        is_first_peer_on_store(region.peers@, store_id, found),
{
    let mut i: usize = 0;
    while i < region.peers.len()
        invariant
            i <= region.peers.len(),
            forall|j: int| 0 <= j < i ==> (#[trigger] region.peers@[j]).store_id != store_id,
        decreases region.peers.len() - i,
    {
        let peer = region.peers[i];
        if peer.store_id == store_id {
            assert(region.peers@[i as int] == peer);
            return Some(peer);
        }
        i += 1;
    }
    None
}

/// A partition is initialized once its descriptor lists a replica.
pub fn is_region_initialized(region: &Region) -> (initialized: bool)
    ensures
        initialized == (region.peers@.len() > 0),
{
    region.peers.len() != 0
}

/// Checks that a descriptor fetched from another replica already knows the
/// replica that is being added: the peer it lists on store `store_id` is
/// `new_peer_id`.
pub fn validate_remote_peer_region(new_region: &Region, store_id: u64, new_peer_id: u64) -> (valid:
    bool)
    ensures
        valid == lists_peer_on_store(new_region.peers@, store_id, new_peer_id),
{
    match find_peer(new_region, store_id) {
        Some(peer) => peer.id == new_peer_id,
        None => false,
    }
}

} // verus!
