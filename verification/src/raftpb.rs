//! Replication messages and persisted replica state, as far as the fast path
//! reads and writes them.

use crate::metapb::{Peer, Region, RegionEpoch};
use vstd::prelude::*;

verus! {

/// Kind of a replication-log message.
#[derive(Clone, Copy, Debug, PartialEq, Eq, Structural)]
pub enum MessageType {
    MsgHup,
    MsgBeat,
    MsgPropose,
    MsgAppend,
    MsgAppendResponse,
    MsgRequestVote,
    MsgRequestVoteResponse,
    MsgSnapshot,
    MsgHeartbeat,
    MsgHeartbeatResponse,
    MsgUnreachable,
    MsgSnapStatus,
    MsgCheckQuorum,
    MsgTransferLeader,
    MsgTimeoutNow,
    MsgReadIndex,
    MsgReadIndexResp,
    MsgRequestPreVote,
    MsgRequestPreVoteResponse,
}

/// Membership of a partition as the replication log sees it.
#[derive(Clone, Debug, PartialEq, Eq)]
pub struct ConfState {
    pub voters: Vec<u64>,
    pub learners: Vec<u64>,
    pub voters_outgoing: Vec<u64>,
    pub learners_next: Vec<u64>,
    pub auto_leave: bool,
}

/// Where in the log a snapshot stands, and the membership at that point.
#[derive(Clone, Debug, PartialEq, Eq)]
pub struct SnapshotMetadata {
    pub conf_state: ConfState,
    pub index: u64,
    pub term: u64,
}

/// Payload of a snapshot: the partition it is for and a description of its
/// staged files. `meta` holds that description in its encoded form.
#[derive(Clone, Debug, PartialEq, Eq)]
pub struct RaftSnapshotData {
    pub region: Region,
    pub file_size: u64,
    pub version: u64,
    pub meta: Vec<u8>,
}

/// A replication-log snapshot.
#[derive(Clone, Debug, PartialEq, Eq)]
pub struct Snapshot {
    pub data: RaftSnapshotData,
    pub metadata: SnapshotMetadata,
}

/// A replication-log message.
#[derive(Clone, Debug, PartialEq, Eq)]
pub struct Message {
    pub msg_type: MessageType,
    pub to: u64,
    pub from: u64,
    pub term: u64,
    pub commit: u64,
    pub snapshot: Option<Snapshot>,
}

/// A replication-log message on its way between two replicas of a partition.
#[derive(Clone, Debug, PartialEq, Eq)]
pub struct RaftMessage {
    pub region_id: u64,
    pub from_peer: Peer,
    pub to_peer: Peer,
    pub message: Message,
    pub region_epoch: RegionEpoch,
}

/// Life-cycle state of a replica as persisted on disk.
#[derive(Clone, Copy, Debug, PartialEq, Eq, Structural)]
pub enum PeerState {
    Normal,
    Applying,
    Tombstone,
    Merging,
    Unavailable,
}

/// What a store has persisted of one of its replicas.
#[derive(Clone, Debug, PartialEq, Eq)]
pub struct RegionLocalState {
    pub state: PeerState,
    pub region: Region,
}

/// How far a replica has applied its log.
#[derive(Clone, Copy, Debug, PartialEq, Eq, Structural)]
pub struct RaftApplyState {
    pub applied_index: u64,
    pub commit_index: u64,
    pub commit_term: u64,
    pub truncated_index: u64,
    pub truncated_term: u64,
}

} // verus!
