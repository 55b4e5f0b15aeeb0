//! The fast path as a protocol: what is decided, step by step, when the first
//! append message for a new replica arrives.
//!
//! The decisions are a function from the state of an attempt and the answer
//! to the last request to the next state and the next request. Whoever drives
//! an attempt performs each request and gives the answer to the next step:
//! reading the disk, asking the source replica, finding a log entry, staging
//! files, sending the snapshot. The attempt ends by saying whether ordinary
//! handling of the append message is suppressed.

use crate::cached_region_info::CachedRegionInfo;
use crate::interfaces::FastAddPeerStatus;
use crate::metapb::{lists_peer_on_store, Region};
use crate::prehandle::SnapKey;
use crate::raftpb::{
    ConfState, Message, MessageType, PeerState, RaftApplyState, RaftMessage, RaftSnapshotData,
    RegionLocalState, Snapshot, SnapshotMetadata,
};
use vstd::prelude::*;

verus! {

/// Version tag of the snapshots that the fast path builds.
pub const SNAPSHOT_VERSION: u64 = 2;

/// What the source replica answered to a request for fast-path data.
#[derive(Clone, Debug, PartialEq, Eq)]
pub struct FastAddPeerRes {
    pub status: FastAddPeerStatus,
    /// How far the source had applied its log. Meaningful where `status` is
    /// `Okay`.
    pub apply_state: RaftApplyState,
    /// The partition as the source knows it. Meaningful where `status` is
    /// `Okay`.
    pub region: Region,
}

/// Which log position an entry was looked up for.
#[derive(Clone, Copy, Debug, PartialEq, Eq, Structural)]
pub enum IndexTag {
    AppliedIndex,
    CommitIndex,
}

/// What the log engine answered to the request for one entry.
#[derive(Clone, Copy, Debug, PartialEq, Eq, Structural)]
pub enum EntryLookup {
    /// The entry exists and has this term.
    Found(u64),
    /// The log holds no entry at the index.
    Missing,
    /// The log engine failed.
    Failed,
}

/// What the staging area produced for a snapshot under construction.
#[derive(Clone, Debug, PartialEq, Eq)]
pub struct StagedSnapshot {
    /// Membership of the partition, derived from the descriptor that the
    /// snapshot is built for.
    pub conf_state: ConfState,
    /// Description of the staged files, encoded.
    pub meta: Vec<u8>,
}

/// How the transport answered to the snapshot message.
#[derive(Clone, Copy, Debug, PartialEq, Eq, Structural)]
pub enum SendOutcome {
    /// The message was accepted; `now` is the time in milliseconds since the
    /// epoch, read after the transport answered.
    Delivered { now: u128 },
    /// The transport does not know the target partition.
    RegionNotFound,
    /// The transport failed in any other way.
    Failed,
    /// The transport could not be locked.
    Poisoned,
}

/// Why no snapshot was built and sent.
#[derive(Clone, Copy, Debug, PartialEq, Eq, Structural)]
pub enum Error {
    /// The log holds no entry at `index`: the local log is behind.
    EntryNotFound { index: u64, region_id: u64, peer_id: u64, tag: IndexTag },
    /// The log engine failed.
    LogEngine,
    /// The snapshot files could not be staged.
    Staging,
    /// The transport could not be locked.
    TransportPoisoned,
    /// The answer handed in is not an answer to the pending request.
    UnexpectedEvent,
}

/// Where an attempt stands: which answer it is waiting for.
#[derive(Clone, Debug, PartialEq, Eq)]
pub enum FastPathState {
    /// No attempt is under way.
    Idle,
    /// The persisted state of the partition has been asked for.
    CheckingLocalState,
    /// The source replica has been asked for data.
    Fetching,
    /// The term of the entry at the applied index has been asked for.
    ResolvingAppliedTerm { apply_state: RaftApplyState, new_region: Region },
    /// The term of the entry at the commit index has been asked for.
    ResolvingCommitTerm { applied_term: u64, apply_state: RaftApplyState, new_region: Region },
    /// The staging area has been asked to prepare the snapshot `key`.
    Staging { key: SnapKey, new_region: Region },
    /// The snapshot message has been handed to the transport.
    Sending,
}

/// The answer to the last request.
#[derive(Clone, Debug, PartialEq, Eq)]
pub enum FastPathEvent {
    /// An append message has arrived: there was no request.
    Incoming,
    /// What the store has persisted of the partition, if anything.
    LocalState(Option<RegionLocalState>),
    /// What the source replica answered.
    RemoteData(FastAddPeerRes),
    /// What the log engine answered.
    EntryTerm(EntryLookup),
    /// What the staging area produced; nothing where it failed.
    Staged(Option<StagedSnapshot>),
    /// How the transport answered.
    Sent(SendOutcome),
}

/// The next request.
#[derive(Clone, Debug, PartialEq, Eq)]
pub enum FastPathAction {
    /// The attempt is over. The flag says whether ordinary handling of the
    /// append message is suppressed.
    Finish(bool),
    /// Read what the store has persisted of partition `region_id`.
    ReadLocalState { region_id: u64 },
    /// Ask a source replica for the data of partition `region_id`, on behalf
    /// of the new replica `new_peer_id`.
    FetchRemote { region_id: u64, new_peer_id: u64 },
    /// Look up the log entry of partition `region_id` at `index`.
    GetEntry { region_id: u64, index: u64 },
    /// Mark snapshot `key` as being generated, create its files and their
    /// description, and remove the mark again whatever happens.
    Stage { key: SnapKey },
    /// Send the snapshot message to the new replica.
    Send(RaftMessage),
}

/// Result of one step of the protocol.
pub struct FastPathOutcome {
    /// The region state table after the step.
    pub table: Map<u64, CachedRegionInfo>,
    /// Where the attempt stands after the step.
    pub state: FastPathState,
    /// What is asked of the driver.
    pub action: FastPathAction,
}

/// The store holds an initialized replica of the partition that is not a
/// tombstone.
pub open spec fn is_initialized_spec(local_state: Option<RegionLocalState>) -> bool {
    match local_state {
        None => false,
        Some(persisted) => persisted.region.peers@.len() > 0 && persisted.state
            != PeerState::Tombstone,
    }
}

/// The table after partition `region_id` has given up the fast path for good.
/// A partition that the table does not hold stays out.
pub open spec fn fallen_back(table: Map<u64, CachedRegionInfo>, region_id: u64) -> Map<
    u64,
    CachedRegionInfo,
> {
    if table.contains_key(region_id) {
        table.insert(
            region_id,
            CachedRegionInfo {
                replicated_or_created: table[region_id].replicated_or_created,
                inited_or_fallback: true,
                snapshot_inflight: table[region_id].snapshot_inflight,
            },
        )
    } else {
        table
    }
}

/// What is recorded for a snapshot that was delivered at `now` milliseconds
/// since the epoch: `now`, or 1 where `now` is 0, since 0 stands for "no
/// snapshot is outstanding".
pub open spec fn delivery_mark(now: u128) -> u128 {
    if now == 0 {
        1
    } else {
        now
    }
}

/// The table after a fast-path snapshot for partition `region_id` has been
/// sent at `now`: the snapshot is recorded as outstanding. A partition that
/// the table does not hold stays out.
pub open spec fn sent_at(table: Map<u64, CachedRegionInfo>, region_id: u64, now: u128) -> Map<
    u64,
    CachedRegionInfo,
> {
    if table.contains_key(region_id) {
        table.insert(
            region_id,
            CachedRegionInfo {
                replicated_or_created: table[region_id].replicated_or_created,
                inited_or_fallback: table[region_id].inited_or_fallback,
                snapshot_inflight: delivery_mark(now),
            },
        )
    } else {
        table
    }
}

/// The attempt ends; `suppress` says whether the append message is held back.
pub open spec fn finished(table: Map<u64, CachedRegionInfo>, suppress: bool) -> FastPathOutcome {
    FastPathOutcome { table, state: FastPathState::Idle, action: FastPathAction::Finish(suppress) }
}

/// The attempt fails: the partition gives up the fast path for good, and the
/// append message is handled in the ordinary way.
pub open spec fn abandoned(table: Map<u64, CachedRegionInfo>, region_id: u64) -> FastPathOutcome {
    finished(fallen_back(table, region_id), false)
}

/// The snapshot message that answers the append message `msg`: addressed as
/// `msg` was, in the term of `msg`, carrying the descriptor `new_region`, the
/// membership and file description from the staging area, the log position of
/// `key` and the version tag.
pub open spec fn snapshot_message(
    msg: RaftMessage,
    key: SnapKey,
    new_region: Region,
    staged: StagedSnapshot,
) -> RaftMessage {
    RaftMessage {
        region_id: msg.region_id,
        from_peer: msg.from_peer,
        to_peer: msg.to_peer,
        message: Message {
            msg_type: MessageType::MsgSnapshot,
            to: msg.to_peer.id,
            from: msg.from_peer.id,
            term: msg.message.term,
            commit: 0,
            snapshot: Some(
                Snapshot {
                    data: RaftSnapshotData {
                        region: new_region,
                        file_size: 0,
                        version: SNAPSHOT_VERSION,
                        meta: staged.meta,
                    },
                    metadata: SnapshotMetadata {
                        conf_state: staged.conf_state,
                        index: key.idx,
                        term: key.term,
                    },
                },
            ),
        },
        region_epoch: new_region.region_epoch,
    }
}

/// The table with partition `region_id` in it: entered with the fresh state
/// where the table did not hold it.
pub open spec fn entered(table: Map<u64, CachedRegionInfo>, region_id: u64) -> Map<
    u64,
    CachedRegionInfo,
> {
    if table.contains_key(region_id) {
        table
    } else {
        table.insert(region_id, CachedRegionInfo::fresh())
    }
}

/// The step taken when an append message arrives and no attempt is under way.
///
/// With the fast path switched off, or for a message that is no append, the
/// message is handled in the ordinary way and the table is left alone.
/// Otherwise a partition that the table does not know yet is entered. A
/// partition on the ordinary path stays there; for any other the persisted
/// state is asked for.
pub open spec fn on_incoming(enabled: bool, table: Map<u64, CachedRegionInfo>, msg: RaftMessage) -> FastPathOutcome {
    if !enabled || msg.message.msg_type != MessageType::MsgAppend {
        finished(table, false)
    } else {
        let known = entered(table, msg.region_id);
        if known[msg.region_id].inited_or_fallback {
            finished(known, false)
        } else {
            FastPathOutcome {
                table: known,
                state: FastPathState::CheckingLocalState,
                action: FastPathAction::ReadLocalState { region_id: msg.region_id },
            }
        }
    }
}

/// The step taken once the persisted state of the partition is known.
///
/// A partition on the ordinary path stays there. A partition that the disk
/// shows as initialized is put on the ordinary path. While a snapshot is
/// outstanding, or while the local replica object does not exist, the message
/// is held back and nothing is started. Otherwise the source replica is asked
/// for data.
pub open spec fn on_local_state(
    table: Map<u64, CachedRegionInfo>,
    msg: RaftMessage,
    local_state: Option<RegionLocalState>,
) -> FastPathOutcome {
    let known = entered(table, msg.region_id);
    if known[msg.region_id].inited_or_fallback {
        finished(known, false)
    } else if is_initialized_spec(local_state) {
        abandoned(known, msg.region_id)
    } else if known[msg.region_id].snapshot_inflight != 0 {
        finished(known, true)
    } else if !known[msg.region_id].replicated_or_created {
        finished(known, true)
    } else {
        FastPathOutcome {
            table: known,
            state: FastPathState::Fetching,
            action: FastPathAction::FetchRemote {
                region_id: msg.region_id,
                new_peer_id: msg.to_peer.id,
            },
        }
    }
}

/// The step taken once the source replica has answered.
///
/// Data that is not ready holds the message back. Data whose descriptor
/// lists the new replica on this store starts the construction of the
/// snapshot. Anything else ends the fast path for the partition.
pub open spec fn on_remote_data(
    store_id: u64,
    table: Map<u64, CachedRegionInfo>,
    msg: RaftMessage,
    res: FastAddPeerRes,
) -> FastPathOutcome {
    match res.status {
        FastAddPeerStatus::Okay => {
            if lists_peer_on_store(res.region.peers@, store_id, msg.to_peer.id) {
                FastPathOutcome {
                    table,
                    state: FastPathState::ResolvingAppliedTerm {
                        apply_state: res.apply_state,
                        new_region: res.region,
                    },
                    action: FastPathAction::GetEntry {
                        region_id: msg.region_id,
                        index: res.apply_state.applied_index,
                    },
                }
            } else {
                abandoned(table, msg.region_id)
            }
        },
        FastAddPeerStatus::WaitForData => finished(table, true),
        _ => abandoned(table, msg.region_id),
    }
}

/// The step taken once the entry at the applied index has been looked up.
pub open spec fn on_applied_term(
    table: Map<u64, CachedRegionInfo>,
    msg: RaftMessage,
    apply_state: RaftApplyState,
    new_region: Region,
    lookup: EntryLookup,
) -> FastPathOutcome {
    match lookup {
        EntryLookup::Found(applied_term) => FastPathOutcome {
            table,
            state: FastPathState::ResolvingCommitTerm { applied_term, apply_state, new_region },
            action: FastPathAction::GetEntry {
                region_id: msg.region_id,
                index: apply_state.commit_index,
            },
        },
        _ => abandoned(table, msg.region_id),
    }
}

/// The step taken once the entry at the commit index has been looked up.
pub open spec fn on_commit_term(
    table: Map<u64, CachedRegionInfo>,
    msg: RaftMessage,
    applied_term: u64,
    apply_state: RaftApplyState,
    new_region: Region,
    lookup: EntryLookup,
) -> FastPathOutcome {
    match lookup {
        EntryLookup::Found(_) => {
            let key = SnapKey {
                region_id: msg.region_id,
                term: applied_term,
                idx: apply_state.applied_index,
            };
            FastPathOutcome {
                table,
                state: FastPathState::Staging { key, new_region },
                action: FastPathAction::Stage { key },
            }
        },
        _ => abandoned(table, msg.region_id),
    }
}

/// The step taken once the staging area has answered.
pub open spec fn on_staged(
    table: Map<u64, CachedRegionInfo>,
    msg: RaftMessage,
    key: SnapKey,
    new_region: Region,
    staged: Option<StagedSnapshot>,
) -> FastPathOutcome {
    match staged {
        Some(files) => FastPathOutcome {
            table,
            state: FastPathState::Sending,
            action: FastPathAction::Send(snapshot_message(msg, key, new_region, files)),
        },
        None => abandoned(table, msg.region_id),
    }
}

/// How the construction of a snapshot ended, seen from the transport's
/// answer. A target that the transport does not know is no failure: the new
/// replica may be gone already.
pub open spec fn send_result(outcome: SendOutcome) -> Result<FastAddPeerStatus, Error> {
    match outcome {
        SendOutcome::Delivered { .. } => Ok(FastAddPeerStatus::Okay),
        SendOutcome::RegionNotFound => Ok(FastAddPeerStatus::Okay),
        SendOutcome::Failed => Ok(FastAddPeerStatus::OtherError),
        SendOutcome::Poisoned => Err(Error::TransportPoisoned),
    }
}

/// The step taken once the transport has answered.
///
/// A delivered snapshot is recorded as outstanding, with a mark that is never
/// 0, and the message is held back. A target that the transport does not know
/// holds the message back and records nothing. Any other answer ends the fast
/// path for the partition.
pub open spec fn on_sent(table: Map<u64, CachedRegionInfo>, msg: RaftMessage, outcome: SendOutcome) -> FastPathOutcome {
    match outcome {
        SendOutcome::Delivered { now } => finished(sent_at(table, msg.region_id, now), true),
        SendOutcome::RegionNotFound => finished(table, true),
        _ => abandoned(table, msg.region_id),
    }
}

/// One step of the fast path for the append message `msg`, on store
/// `store_id`: from the table, the state of the attempt and the answer to the
/// last request to the table, the state and the request that follow. An
/// answer that does not fit the state ends the fast path for the partition.
pub open spec fn fast_path_step(
    store_id: u64,
    enabled: bool,
    table: Map<u64, CachedRegionInfo>,
    msg: RaftMessage,
    state: FastPathState,
    event: FastPathEvent,
) -> FastPathOutcome {
    match (state, event) {
        (FastPathState::Idle, FastPathEvent::Incoming) => on_incoming(enabled, table, msg),
        (FastPathState::CheckingLocalState, FastPathEvent::LocalState(local_state)) => on_local_state(
            table,
            msg,
            local_state,
        ),
        (FastPathState::Fetching, FastPathEvent::RemoteData(res)) => on_remote_data(
            store_id,
            table,
            msg,
            res,
        ),
        (
            FastPathState::ResolvingAppliedTerm { apply_state, new_region },
            FastPathEvent::EntryTerm(lookup),
        ) => on_applied_term(table, msg, apply_state, new_region, lookup),
        (
            FastPathState::ResolvingCommitTerm { applied_term, apply_state, new_region },
            FastPathEvent::EntryTerm(lookup),
        ) => on_commit_term(table, msg, applied_term, apply_state, new_region, lookup),
        (FastPathState::Staging { key, new_region }, FastPathEvent::Staged(staged)) => on_staged(
            table,
            msg,
            key,
            new_region,
            staged,
        ),
        (FastPathState::Sending, FastPathEvent::Sent(outcome)) => on_sent(table, msg, outcome),
        _ => abandoned(table, msg.region_id),
    }
}

/// At most one fast-path snapshot is outstanding for a partition: while one
/// is, an attempt for the partition ends before the source replica is asked,
/// so nothing is fetched, built or sent, and the record of the outstanding
/// snapshot stays as it is.
pub proof fn lemma_no_second_dispatch(
    store_id: u64,
    enabled: bool,
    table: Map<u64, CachedRegionInfo>,
    msg: RaftMessage,
    local_state: Option<RegionLocalState>,
)
    requires
        table.contains_key(msg.region_id),
        table[msg.region_id].snapshot_inflight != 0,
    ensures
        ({
            let first = fast_path_step(
                store_id,
                enabled,
                table,
                msg,
                FastPathState::Idle,
                FastPathEvent::Incoming,
            );
            let second = fast_path_step(
                store_id,
                enabled,
                first.table,
                msg,
                first.state,
                FastPathEvent::LocalState(local_state),
            );
            &&& first.table == table
            &&& first.action is Finish || first.action is ReadLocalState
            &&& first.action is ReadLocalState ==> second.action is Finish
            &&& first.action is ReadLocalState ==> second.table[msg.region_id].snapshot_inflight
                == table[msg.region_id].snapshot_inflight
        }),
{
}

/// Only the delivery of a snapshot changes the record of the outstanding
/// snapshot: every other step leaves it as it is for every partition that
/// the table held.
pub proof fn lemma_only_delivery_marks_inflight(
    store_id: u64,
    enabled: bool,
    table: Map<u64, CachedRegionInfo>,
    msg: RaftMessage,
    state: FastPathState,
    event: FastPathEvent,
    region_id: u64,
)
    requires
        table.contains_key(region_id),
        !(state is Sending && event matches FastPathEvent::Sent(SendOutcome::Delivered { .. })),
    ensures
        ({
            let after = fast_path_step(store_id, enabled, table, msg, state, event).table;
            after.contains_key(region_id) && after[region_id].snapshot_inflight
                == table[region_id].snapshot_inflight
        }),
{
}

/// The hand-off is final: no step of the fast path takes a partition off the
/// ordinary path again, nor out of the table.
pub proof fn lemma_hand_off_is_monotonic(
    store_id: u64,
    enabled: bool,
    table: Map<u64, CachedRegionInfo>,
    msg: RaftMessage,
    state: FastPathState,
    event: FastPathEvent,
    region_id: u64,
)
    requires
        table.contains_key(region_id),
        table[region_id].inited_or_fallback,
    ensures
        ({
            let after = fast_path_step(store_id, enabled, table, msg, state, event).table;
            after.contains_key(region_id) && after[region_id].inited_or_fallback
        }),
{
}

/// Once a partition is on the ordinary path its append messages are never
/// intercepted again: an attempt ends at once, the message is handled in the
/// ordinary way, and the table stays as it is.
pub proof fn lemma_no_interception_after_hand_off(
    store_id: u64,
    enabled: bool,
    table: Map<u64, CachedRegionInfo>,
    msg: RaftMessage,
)
    requires
        table.contains_key(msg.region_id),
        table[msg.region_id].inited_or_fallback,
    ensures
        fast_path_step(store_id, enabled, table, msg, FastPathState::Idle, FastPathEvent::Incoming)
            == finished(table, false),
{
}

/// Asking the source replica again is harmless. Whatever it answers, the
/// attempt either goes on to build the snapshot and leaves the table as it
/// is, or holds the message back and leaves the table as it is, so that the
/// next attempt asks again from the same state, or ends the fast path for
/// the partition. It records no outstanding snapshot.
pub proof fn lemma_refetch_is_idempotent(
    store_id: u64,
    enabled: bool,
    table: Map<u64, CachedRegionInfo>,
    msg: RaftMessage,
    res: FastAddPeerRes,
)
    ensures
        ({
            let after = fast_path_step(
                store_id,
                enabled,
                table,
                msg,
                FastPathState::Fetching,
                FastPathEvent::RemoteData(res),
            );
            &&& res.status is WaitForData ==> after == finished(table, true)
            &&& after.state is ResolvingAppliedTerm ==> after.table == table && res.status is Okay
            &&& after.action is Finish ==> after.action == FastPathAction::Finish(true)
                && after.table == table || after == abandoned(table, msg.region_id)
            &&& after.state is ResolvingAppliedTerm || after.action is Finish
        }),
{
}

/// A snapshot message is sent only for a descriptor that lists the new
/// replica: the construction of a snapshot starts only from the step that
/// checked the descriptor.
pub proof fn lemma_build_starts_validated(
    store_id: u64,
    enabled: bool,
    table: Map<u64, CachedRegionInfo>,
    msg: RaftMessage,
    state: FastPathState,
    event: FastPathEvent,
)
    requires
        fast_path_step(store_id, enabled, table, msg, state, event).state is ResolvingAppliedTerm,
    ensures
        state is Fetching,
        event matches FastPathEvent::RemoteData(res) && res.status is Okay && lists_peer_on_store(
            res.region.peers@,
            store_id,
            msg.to_peer.id,
        ),
{
}

/// A snapshot is outstanding exactly when its delivery has been recorded:
/// for a partition without an outstanding snapshot, the step that takes the
/// answer of the transport leaves a record that is not 0 if and only if the
/// snapshot was delivered, and the record is the delivery time.
pub proof fn lemma_delivery_is_recorded(
    store_id: u64,
    enabled: bool,
    table: Map<u64, CachedRegionInfo>,
    msg: RaftMessage,
    outcome: SendOutcome,
)
    requires
        table.contains_key(msg.region_id),
        table[msg.region_id].snapshot_inflight == 0,
    ensures
        ({
            let after = fast_path_step(
                store_id,
                enabled,
                table,
                msg,
                FastPathState::Sending,
                FastPathEvent::Sent(outcome),
            );
            &&& after.state is Idle
            &&& after.table.contains_key(msg.region_id)
            &&& after.table[msg.region_id].snapshot_inflight != 0 <==> outcome is Delivered
            &&& outcome matches SendOutcome::Delivered { now }
                ==> after.table[msg.region_id].snapshot_inflight == delivery_mark(now)
            &&& outcome is Delivered ==> after.action == FastPathAction::Finish(true)
            &&& outcome matches SendOutcome::Delivered { now } ==> (now != 0
                ==> after.table[msg.region_id].snapshot_inflight == now)
        }),
{
}

/// A snapshot message is sent at most once in an attempt, and only after the
/// staging area has produced the snapshot: the step that asks for the send is
/// the one that takes the answer of the staging area, and it leaves the
/// attempt waiting for the transport, from where no step asks for a send.
pub proof fn lemma_send_follows_staging(
    store_id: u64,
    enabled: bool,
    table: Map<u64, CachedRegionInfo>,
    msg: RaftMessage,
    state: FastPathState,
    event: FastPathEvent,
)
    ensures
        ({
            let after = fast_path_step(store_id, enabled, table, msg, state, event);
            &&& after.action is Send ==> state is Staging && after.state is Sending
            &&& after.action is Send ==> (event matches FastPathEvent::Staged(Some(_)))
            &&& state is Sending ==> after.action is Finish
        }),
{
}

/// The requests of an attempt in which everything succeeds, one after the
/// other, and what the attempt leaves behind.
///
/// For an append message to a new replica of a partition whose replica
/// object exists, which is not on the ordinary path, has no snapshot
/// outstanding and is not initialized on disk: with a source that is ready
/// and lists the new replica, a log that holds both entries, a staging area
/// that produces the snapshot and a transport that delivers it, the attempt
/// asks in turn for the persisted state, the data, the two entries, the
/// staging and one send of the snapshot message, and then ends with the
/// append message held back. The snapshot is then recorded as outstanding
/// and the partition is still off the ordinary path.
pub proof fn lemma_successful_attempt(
    store_id: u64,
    table: Map<u64, CachedRegionInfo>,
    msg: RaftMessage,
    local_state: Option<RegionLocalState>,
    res: FastAddPeerRes,
    applied_term: u64,
    commit_term: u64,
    staged: StagedSnapshot,
    now: u128,
)
    requires
        msg.message.msg_type == MessageType::MsgAppend,
        table.contains_key(msg.region_id),
        table[msg.region_id].replicated_or_created,
        !table[msg.region_id].inited_or_fallback,
        table[msg.region_id].snapshot_inflight == 0,
        !is_initialized_spec(local_state),
        res.status is Okay,
        lists_peer_on_store(res.region.peers@, store_id, msg.to_peer.id),
    ensures
        ({
            let key = SnapKey {
                region_id: msg.region_id,
                term: applied_term,
                idx: res.apply_state.applied_index,
            };
            let s1 = fast_path_step(
                store_id,
                true,
                table,
                msg,
                FastPathState::Idle,
                FastPathEvent::Incoming,
            );
            let s2 = fast_path_step(
                store_id,
                true,
                s1.table,
                msg,
                s1.state,
                FastPathEvent::LocalState(local_state),
            );
            let s3 = fast_path_step(
                store_id,
                true,
                s2.table,
                msg,
                s2.state,
                FastPathEvent::RemoteData(res),
            );
            let s4 = fast_path_step(
                store_id,
                true,
                s3.table,
                msg,
                s3.state,
                FastPathEvent::EntryTerm(EntryLookup::Found(applied_term)),
            );
            let s5 = fast_path_step(
                store_id,
                true,
                s4.table,
                msg,
                s4.state,
                FastPathEvent::EntryTerm(EntryLookup::Found(commit_term)),
            );
            let s6 = fast_path_step(
                store_id,
                true,
                s5.table,
                msg,
                s5.state,
                FastPathEvent::Staged(Some(staged)),
            );
            let s7 = fast_path_step(
                store_id,
                true,
                s6.table,
                msg,
                s6.state,
                FastPathEvent::Sent(SendOutcome::Delivered { now }),
            );
            &&& s1.action == FastPathAction::ReadLocalState { region_id: msg.region_id }
            &&& s2.action == FastPathAction::FetchRemote {
                region_id: msg.region_id,
                new_peer_id: msg.to_peer.id,
            }
            &&& s3.action == FastPathAction::GetEntry {
                region_id: msg.region_id,
                index: res.apply_state.applied_index,
            }
            &&& s4.action == FastPathAction::GetEntry {
                region_id: msg.region_id,
                index: res.apply_state.commit_index,
            }
            &&& s5.action == FastPathAction::Stage { key }
            &&& s6.action == FastPathAction::Send(snapshot_message(msg, key, res.region, staged))
            &&& s6.table == table
            &&& s7.action == FastPathAction::Finish(true)
            &&& s7.state is Idle
            &&& s7.table == table.insert(
                msg.region_id,
                CachedRegionInfo {
                    replicated_or_created: true,
                    inited_or_fallback: false,
                    snapshot_inflight: delivery_mark(now),
                },
            )
            &&& s7.table[msg.region_id].snapshot_inflight != 0
        }),
{
}

/// An attempt that finds the source not ready changes nothing and holds the
/// append message back, so the attempt that follows starts from the same
/// table and, with a source that has become ready, succeeds as a first
/// attempt does.
pub proof fn lemma_not_ready_then_ready(
    store_id: u64,
    table: Map<u64, CachedRegionInfo>,
    msg: RaftMessage,
    local_state: Option<RegionLocalState>,
    not_ready: FastAddPeerRes,
)
    requires
        msg.message.msg_type == MessageType::MsgAppend,
        table.contains_key(msg.region_id),
        table[msg.region_id].replicated_or_created,
        !table[msg.region_id].inited_or_fallback,
        table[msg.region_id].snapshot_inflight == 0,
        !is_initialized_spec(local_state),
        not_ready.status is WaitForData,
    ensures
        ({
            let s1 = fast_path_step(
                store_id,
                true,
                table,
                msg,
                FastPathState::Idle,
                FastPathEvent::Incoming,
            );
            let s2 = fast_path_step(
                store_id,
                true,
                s1.table,
                msg,
                s1.state,
                FastPathEvent::LocalState(local_state),
            );
            let s3 = fast_path_step(
                store_id,
                true,
                s2.table,
                msg,
                s2.state,
                FastPathEvent::RemoteData(not_ready),
            );
            &&& s2.action == FastPathAction::FetchRemote {
                region_id: msg.region_id,
                new_peer_id: msg.to_peer.id,
            }
            &&& s3 == finished(table, true)
        }),
{
}

} // verus!
