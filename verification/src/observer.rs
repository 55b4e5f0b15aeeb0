//! The observer that the replication layer calls: the fast-path decision
//! engine, the snapshot builder, and the hooks around them.

use crate::cached_region_info::{write_once, CachedRegionInfo};
use crate::engine::{EngineStoreConfig, ProxyEngineExt};
use crate::fast_path::{
    entered, fallen_back, fast_path_step, is_initialized_spec, send_result, sent_at, snapshot_message,
    EntryLookup, Error, FastPathAction, FastPathEvent, FastPathState, IndexTag, SendOutcome,
    StagedSnapshot, SNAPSHOT_VERSION,
};
use crate::forwarder::{PostApplyAction, PreApplyAction, ProxyForwarder};
use crate::interfaces::FastAddPeerStatus;
use crate::metapb::{is_region_initialized, validate_remote_peer_region, Region};
use crate::prehandle::{of_region, PrehandleTask, SnapKey};
use crate::raftpb::{
    Message, MessageType, PeerState, RaftMessage, RaftSnapshotData, RegionLocalState, Snapshot,
    SnapshotMetadata,
};
use crate::snap;
use vstd::prelude::*;

verus! {

/// How far the construction of a snapshot got in one step.
#[derive(Debug, PartialEq, Eq)]
pub enum BuildStep {
    /// The construction goes on: the next state and the next request.
    Continue(FastPathState, FastPathAction),
    /// The construction is over.
    Finished(Result<FastAddPeerStatus, Error>),
}

/// The term of a looked-up log entry, or why there is none.
pub open spec fn entry_term(
    region_id: u64,
    index: u64,
    peer_id: u64,
    tag: IndexTag,
    lookup: EntryLookup,
) -> Result<u64, Error> {
    match lookup {
        EntryLookup::Found(term) => Ok(term),
        EntryLookup::Missing => Err(Error::EntryNotFound { index, region_id, peer_id, tag }),
        EntryLookup::Failed => Err(Error::LogEngine),
    }
}

/// The result with which the construction of a snapshot ends in the step
/// from `state` on `event`; nothing where the construction goes on.
pub open spec fn build_result(msg: RaftMessage, state: FastPathState, event: FastPathEvent) -> Option<
    Result<FastAddPeerStatus, Error>,
> {
    match (state, event) {
        (FastPathState::ResolvingAppliedTerm { apply_state, .. }, FastPathEvent::EntryTerm(lookup)) => {
            match entry_term(
                msg.region_id,
                apply_state.applied_index,
                msg.to_peer.id,
                IndexTag::AppliedIndex,
                lookup,
            ) {
                Ok(_) => None,
                Err(e) => Some(Err(e)),
            }
        },
        (FastPathState::ResolvingCommitTerm { apply_state, .. }, FastPathEvent::EntryTerm(lookup)) => {
            match entry_term(
                msg.region_id,
                apply_state.commit_index,
                msg.to_peer.id,
                IndexTag::CommitIndex,
                lookup,
            ) {
                Ok(_) => None,
                Err(e) => Some(Err(e)),
            }
        },
        (FastPathState::Staging { .. }, FastPathEvent::Staged(staged)) => {
            match staged {
                Some(_) => None,
                None => Some(Err(Error::Staging)),
            }
        },
        (FastPathState::Sending, FastPathEvent::Sent(outcome)) => Some(send_result(outcome)),
        _ => Some(Err(Error::UnexpectedEvent)),
    }
}

/// The table after one step of the construction of a snapshot: a delivered
/// snapshot is recorded as outstanding, nothing else changes.
pub open spec fn build_table(
    table: Map<u64, CachedRegionInfo>,
    msg: RaftMessage,
    state: FastPathState,
    event: FastPathEvent,
) -> Map<u64, CachedRegionInfo> {
    match (state, event) {
        (FastPathState::Sending, FastPathEvent::Sent(SendOutcome::Delivered { now })) => sent_at(
            table,
            msg.region_id,
            now,
        ),
        _ => table,
    }
}

/// What happened to a partition.
#[derive(Clone, Copy, Debug, PartialEq, Eq, Structural)]
pub enum RegionChangeEvent {
    Create,
    Update,
    Destroy,
    UpdateBuckets,
}

/// The state of a partition once its local replica object exists.
pub open spec fn created(entry: Option<CachedRegionInfo>) -> CachedRegionInfo {
    match entry {
        Some(info) => CachedRegionInfo {
            replicated_or_created: true,
            inited_or_fallback: info.inited_or_fallback,
            snapshot_inflight: info.snapshot_inflight,
        },
        None => CachedRegionInfo {
            replicated_or_created: true,
            inited_or_fallback: false,
            snapshot_inflight: 0,
        },
    }
}

/// The observer of one store.
#[verifier::reject_recursive_types(P)]
pub struct TiFlashObserver<P> {
    pub forwarder: ProxyForwarder<P>,
}

impl<P> TiFlashObserver<P> {
    /// The shared state is well formed.
    pub open spec fn wf(&self) -> bool {
        self.forwarder.wf()
    }

    /// What is cached of each partition.
    pub open spec fn regions(&self) -> Map<u64, CachedRegionInfo> {
        self.forwarder.regions()
    }

    /// The task tracked for each snapshot in staging.
    pub open spec fn tasks(&self) -> Map<SnapKey, PrehandleTask<P>> {
        self.forwarder.tasks()
    }

    /// `other` differs from this observer at most in the region state table.
    pub open spec fn same_but_regions(&self, other: &TiFlashObserver<P>) -> bool {
        &&& self.forwarder.same_settings(&other.forwarder)
        &&& self.tasks() == other.tasks()
        &&& self.forwarder.engine == other.forwarder.engine
    }

    /// An observer with empty tables for store `store_id`, whose worker pool
    /// takes `snap_handle_pool_size` snapshots at once.
    pub fn new(
        store_id: u64,
        engine: ProxyEngineExt,
        snap_handle_pool_size: usize,
        engine_store_cfg: EngineStoreConfig,
    ) -> (observer: TiFlashObserver<P>)
        ensures
            observer.wf(),
            observer.forwarder.store_id == store_id,
            observer.forwarder.engine_store_cfg == engine_store_cfg,
            observer.forwarder.engine.engine_store_server_helper
                == engine.engine_store_server_helper,
            observer.forwarder.engine.pool_capacity == snap_handle_pool_size,
            observer.forwarder.engine.pending_applies_count == 0,
            observer.forwarder.has_apply_snap_pool,
            observer.regions() == Map::<u64, CachedRegionInfo>::empty(),
            observer.tasks() == Map::<SnapKey, PrehandleTask<P>>::empty(),
    {
        let mut engine = engine;
        engine.pool_capacity = snap_handle_pool_size;
        TiFlashObserver { forwarder: ProxyForwarder::new(store_id, engine, true, engine_store_cfg) }
    }

    /// Applies `f` to the entry of partition `region_id` in the region state
    /// table. The entry is created with the fresh state if it is absent, so
    /// the partition is in the table afterwards. The table keeps what `f`
    /// answers, except that `f` cannot clear a write-once flag that was set.
    /// No other partition is touched.
    pub fn access_cached_region_info_mut<F>(&mut self, region_id: u64, f: F) where
        F: FnOnce(CachedRegionInfo) -> CachedRegionInfo,

        requires
            old(self).wf(),
            f.requires((old(self).forwarder.cached_region_info.entry_or_fresh(region_id),)),
        ensures
            final(self).wf(),
            final(self).same_but_regions(old(self)),
            final(self).regions().contains_key(region_id),
            (exists|answer: CachedRegionInfo|
                {
                    &&& #[trigger] f.ensures(
                        (old(self).forwarder.cached_region_info.entry_or_fresh(region_id),),
                        answer,
                    )
                    &&& final(self).regions()[region_id] == write_once(
                        old(self).forwarder.cached_region_info.entry_or_fresh(region_id),
                        answer,
                    )
                }),
            final(self).regions().remove(region_id) == old(self).regions().remove(region_id),
    {
        self.forwarder.cached_region_info.access_cached_region_info_mut(region_id, f);
    }

    /// Forgets what is cached of partition `region_id`.
    pub fn remove_cached_region_info(&mut self, region_id: u64)
        requires
            old(self).wf(),
        ensures
            final(self).wf(),
            final(self).same_but_regions(old(self)),
            final(self).regions() == old(self).regions().remove(region_id),
    {
        self.forwarder.cached_region_info.remove_cached_region_info(region_id);
    }

    /// Puts partition `region_id` on the ordinary path where `v` is true.
    /// The flag is write-once: a partition that is on the ordinary path stays
    /// there whatever `v` is, until it is removed. The partition has to be in
    /// the table.
    pub fn set_inited_or_fallback(&mut self, region_id: u64, v: bool)
        requires
            old(self).wf(),
            old(self).regions().contains_key(region_id),
        ensures
            final(self).wf(),
            final(self).same_but_regions(old(self)),
            final(self).regions() == old(self).regions().insert(
                region_id,
                CachedRegionInfo {
                    replicated_or_created: old(self).regions()[region_id].replicated_or_created,
                    inited_or_fallback: old(self).regions()[region_id].inited_or_fallback || v,
                    snapshot_inflight: old(self).regions()[region_id].snapshot_inflight,
                },
            ),
    {
        self.forwarder.cached_region_info.set_inited_or_fallback(region_id, v);
    }

    /// Records when the outstanding fast-path snapshot of partition
    /// `region_id` was sent. The partition has to be in the table.
    pub fn set_snapshot_inflight(&mut self, region_id: u64, v: u128)
        requires
            old(self).wf(),
            old(self).regions().contains_key(region_id),
        ensures
            final(self).wf(),
            final(self).same_but_regions(old(self)),
            final(self).regions() == old(self).regions().insert(
                region_id,
                CachedRegionInfo {
                    replicated_or_created: old(self).regions()[region_id].replicated_or_created,
                    inited_or_fallback: old(self).regions()[region_id].inited_or_fallback,
                    snapshot_inflight: v,
                },
            ),
    {
        self.forwarder.cached_region_info.set_snapshot_inflight(region_id, v);
    }

    /// Looks partition `region_id` up in the region state table, and enters
    /// it with the fresh state where the table does not hold it.
    fn enter(&mut self, region_id: u64) -> (info: CachedRegionInfo)
        requires
            old(self).wf(),
        ensures
            final(self).wf(),
            final(self).same_but_regions(old(self)),
            final(self).regions() == entered(old(self).regions(), region_id),
            info == final(self).regions()[region_id],
    {
        match self.forwarder.cached_region_info.get(region_id) {
            Some(info) => info,
            None => {
                let _ = self.forwarder.cached_region_info.insert(
                    region_id,
                    CachedRegionInfo::default(),
                );
                CachedRegionInfo::default()
            },
        }
    }

    /// Lets partition `region_id` give up the fast path for good. A
    /// partition that the table does not hold stays out.
    pub fn fallback_to_slow_path(&mut self, region_id: u64)
        requires
            old(self).wf(),
        ensures
            final(self).wf(),
            final(self).same_but_regions(old(self)),
            final(self).regions() == fallen_back(old(self).regions(), region_id),
    {
        if self.forwarder.cached_region_info.get(region_id).is_some() {
            self.forwarder.cached_region_info.set_inited_or_fallback(region_id, true);
        }
    }

    /// Whether what the store has persisted of a partition shows an
    /// initialized replica that is not a tombstone.
    pub fn is_initialized(&self, local_state: &Option<RegionLocalState>) -> (initialized: bool)
        ensures
            initialized == is_initialized_spec(*local_state),
    {
        match local_state {
            None => false,
            Some(persisted) => is_region_initialized(&persisted.region) && !matches!(
                persisted.state,
                PeerState::Tombstone
            ),
        }
    }

    /// Turns the answer of the log engine for the entry of `region_id` at
    /// `index` into the entry's term. A log without the entry is behind, and
    /// that is an error.
    pub fn check_entry_at_index(
        &self,
        region_id: u64,
        index: u64,
        peer_id: u64,
        tag: IndexTag,
        lookup: EntryLookup,
    ) -> (term: Result<u64, Error>)
        ensures
            term == entry_term(region_id, index, peer_id, tag, lookup),
    {
        match lookup {
            EntryLookup::Found(term) => Ok(term),
            EntryLookup::Missing => Err(Error::EntryNotFound { index, region_id, peer_id, tag }),
            EntryLookup::Failed => Err(Error::LogEngine),
        }
    }

    /// One step of the construction and delivery of the snapshot that answers
    /// the append message `msg`.
    ///
    /// The terms of the applied and of the commit index are resolved first,
    /// then the staging area is asked for the files of the snapshot with the
    /// identity (partition, applied term, applied index), then the snapshot
    /// message is built from what it produced and handed to the transport. A
    /// delivered snapshot is recorded as outstanding.
    pub fn build_and_send_snapshot(
        &mut self,
        msg: &RaftMessage,
        state: FastPathState,
        event: FastPathEvent,
    ) -> (step: BuildStep)
        requires
            old(self).wf(),
        ensures
            final(self).wf(),
            final(self).same_but_regions(old(self)),
            final(self).regions() == build_table(old(self).regions(), *msg, state, event),
            match step {
                BuildStep::Finished(result) => build_result(*msg, state, event) == Some(result),
                BuildStep::Continue(next_state, action) => {
                    let want = fast_path_step(
                        old(self).forwarder.store_id,
                        old(self).forwarder.engine_store_cfg.enable_fast_add_peer,
                        old(self).regions(),
                        *msg,
                        state,
                        event,
                    );
                    &&& build_result(*msg, state, event).is_none()
                    &&& next_state == want.state
                    &&& action == want.action
                },
            },
    {
        let region_id = msg.region_id;
        let new_peer_id = msg.to_peer.id;
        match (state, event) {
            (
                FastPathState::ResolvingAppliedTerm { apply_state, new_region },
                FastPathEvent::EntryTerm(lookup),
            ) => {
                match self.check_entry_at_index(
                    region_id,
                    apply_state.applied_index,
                    new_peer_id,
                    IndexTag::AppliedIndex,
                    lookup,
                ) {
                    Ok(applied_term) => BuildStep::Continue(
                        FastPathState::ResolvingCommitTerm { applied_term, apply_state, new_region },
                        FastPathAction::GetEntry { region_id, index: apply_state.commit_index },
                    ),
                    Err(e) => BuildStep::Finished(Err(e)),
                }
            },
            (
                FastPathState::ResolvingCommitTerm { applied_term, apply_state, new_region },
                FastPathEvent::EntryTerm(lookup),
            ) => {
                match self.check_entry_at_index(
                    region_id,
                    apply_state.commit_index,
                    new_peer_id,
                    IndexTag::CommitIndex,
                    lookup,
                ) {
                    Ok(_) => {
                        let key = SnapKey::new(region_id, applied_term, apply_state.applied_index);
                        BuildStep::Continue(
                            FastPathState::Staging { key, new_region },
                            FastPathAction::Stage { key },
                        )
                    },
                    Err(e) => BuildStep::Finished(Err(e)),
                }
            },
            (FastPathState::Staging { key, new_region }, FastPathEvent::Staged(staged)) => {
                match staged {
                    Some(files) => {
                        let response = build_snapshot_message(msg, key, new_region, files);
                        BuildStep::Continue(FastPathState::Sending, FastPathAction::Send(response))
                    },
                    None => BuildStep::Finished(Err(Error::Staging)),
                }
            },
            (FastPathState::Sending, FastPathEvent::Sent(outcome)) => {
                match outcome {
                    SendOutcome::Delivered { now } => {
                        if self.forwarder.cached_region_info.get(region_id).is_some() {
                            let mark: u128 = if now == 0 {
                                1
                            } else {
                                now
                            };
                            self.forwarder.cached_region_info.set_snapshot_inflight(region_id, mark);
                        }
                        BuildStep::Finished(Ok(FastAddPeerStatus::Okay))
                    },
                    SendOutcome::RegionNotFound => BuildStep::Finished(Ok(FastAddPeerStatus::Okay)),
                    SendOutcome::Failed => BuildStep::Finished(Ok(FastAddPeerStatus::OtherError)),
                    SendOutcome::Poisoned => BuildStep::Finished(Err(Error::TransportPoisoned)),
                }
            },
            _ => BuildStep::Finished(Err(Error::UnexpectedEvent)),
        }
    }

    /// One step of the fast path for the append message `msg`: takes the
    /// state of the attempt and the answer to the last request, and gives the
    /// next state and the next request. An attempt starts in `Idle` with
    /// `Incoming` and is over when the request is `Finish`; the flag of
    /// `Finish` says whether ordinary handling of `msg` is suppressed.
    pub fn maybe_fast_path(&mut self, msg: &RaftMessage, state: FastPathState, event: FastPathEvent) -> (next:
        (FastPathState, FastPathAction))
        requires
            old(self).wf(),
        ensures
            final(self).wf(),
            final(self).same_but_regions(old(self)),
            ({
                let want = fast_path_step(
                    old(self).forwarder.store_id,
                    old(self).forwarder.engine_store_cfg.enable_fast_add_peer,
                    old(self).regions(),
                    *msg,
                    state,
                    event,
                );
                &&& final(self).regions() == want.table
                &&& next.0 == want.state
                &&& next.1 == want.action
            }),
    {
        let region_id = msg.region_id;
        let new_peer_id = msg.to_peer.id;
        match (state, event) {
            (FastPathState::Idle, FastPathEvent::Incoming) => {
                if !self.forwarder.engine_store_cfg.enable_fast_add_peer {
                    return (FastPathState::Idle, FastPathAction::Finish(false));
                }
                if !matches!(msg.message.msg_type, MessageType::MsgAppend) {
                    return (FastPathState::Idle, FastPathAction::Finish(false));
                }
                let info = self.enter(region_id);
                if info.inited_or_fallback {
                    (FastPathState::Idle, FastPathAction::Finish(false))
                } else {
                    (FastPathState::CheckingLocalState, FastPathAction::ReadLocalState { region_id })
                }
            },
            (FastPathState::CheckingLocalState, FastPathEvent::LocalState(local_state)) => {
                let info = self.enter(region_id);
                if info.inited_or_fallback {
                    (FastPathState::Idle, FastPathAction::Finish(false))
                } else if self.is_initialized(&local_state) {
                    self.fallback_to_slow_path(region_id);
                    (FastPathState::Idle, FastPathAction::Finish(false))
                } else if info.snapshot_inflight != 0 {
                    (FastPathState::Idle, FastPathAction::Finish(true))
                } else if !info.replicated_or_created {
                    (FastPathState::Idle, FastPathAction::Finish(true))
                } else {
                    (
                        FastPathState::Fetching,
                        FastPathAction::FetchRemote { region_id, new_peer_id },
                    )
                }
            },
            (FastPathState::Fetching, FastPathEvent::RemoteData(res)) => {
                match res.status {
                    FastAddPeerStatus::Okay => {
                        if validate_remote_peer_region(
                            &res.region,
                            self.forwarder.store_id,
                            new_peer_id,
                        ) {
                            (
                                FastPathState::ResolvingAppliedTerm {
                                    apply_state: res.apply_state,
                                    new_region: res.region,
                                },
                                FastPathAction::GetEntry {
                                    region_id,
                                    index: res.apply_state.applied_index,
                                },
                            )
                        } else {
                            self.fallback_to_slow_path(region_id);
                            (FastPathState::Idle, FastPathAction::Finish(false))
                        }
                    },
                    FastAddPeerStatus::WaitForData => (
                        FastPathState::Idle,
                        FastPathAction::Finish(true),
                    ),
                    _ => {
                        self.fallback_to_slow_path(region_id);
                        (FastPathState::Idle, FastPathAction::Finish(false))
                    },
                }
            },
            (FastPathState::Idle, _) | (FastPathState::CheckingLocalState, _) | (
                FastPathState::Fetching,
                _,
            ) => {
                self.fallback_to_slow_path(region_id);
                (FastPathState::Idle, FastPathAction::Finish(false))
            },
            (state, event) => {
                match self.build_and_send_snapshot(msg, state, event) {
                    BuildStep::Continue(next_state, action) => (next_state, action),
                    BuildStep::Finished(Ok(FastAddPeerStatus::Okay)) => (
                        FastPathState::Idle,
                        FastPathAction::Finish(true),
                    ),
                    BuildStep::Finished(Ok(FastAddPeerStatus::WaitForData)) => (
                        FastPathState::Idle,
                        FastPathAction::Finish(true),
                    ),
                    BuildStep::Finished(_) => {
                        self.fallback_to_slow_path(region_id);
                        (FastPathState::Idle, FastPathAction::Finish(false))
                    },
                }
            },
        }
    }
}

impl<P> TiFlashObserver<P> {
    /// Decides whether the replication layer drops the incoming message
    /// `msg`: one step of the fast path, as `maybe_fast_path` takes it. Only
    /// append messages are ever held back.
    pub fn should_skip_raft_message(
        &mut self,
        msg: &RaftMessage,
        state: FastPathState,
        event: FastPathEvent,
    ) -> (next: (FastPathState, FastPathAction))
        requires
            old(self).wf(),
        ensures
            final(self).wf(),
            final(self).same_but_regions(old(self)),
            ({
                let want = fast_path_step(
                    old(self).forwarder.store_id,
                    old(self).forwarder.engine_store_cfg.enable_fast_add_peer,
                    old(self).regions(),
                    *msg,
                    state,
                    event,
                );
                &&& final(self).regions() == want.table
                &&& next.0 == want.state
                &&& next.1 == want.action
            }),
            state is Idle && event is Incoming && msg.message.msg_type != MessageType::MsgAppend
                ==> next.1 == FastPathAction::Finish(false) && final(self).regions() == old(
                self,
            ).regions(),
    {
        self.maybe_fast_path(msg, state, event)
    }

    /// Records that the local replica object of partition `region_id` exists.
    /// A partition that the table does not know yet is entered.
    pub fn on_peer_created(&mut self, region_id: u64)
        requires
            old(self).wf(),
        ensures
            final(self).wf(),
            final(self).same_but_regions(old(self)),
            final(self).regions() == old(self).regions().insert(
                region_id,
                created(old(self).forwarder.cached_region_info.entry(region_id)),
            ),
    {
        let info = match self.forwarder.cached_region_info.get(region_id) {
            Some(info) => CachedRegionInfo {
                replicated_or_created: true,
                inited_or_fallback: info.inited_or_fallback,
                snapshot_inflight: info.snapshot_inflight,
            },
            None => CachedRegionInfo {
                replicated_or_created: true,
                inited_or_fallback: false,
                snapshot_inflight: 0,
            },
        };
        let _ = self.forwarder.cached_region_info.insert(region_id, info);
    }

    /// Takes note of a change of partition `region_id`. When the partition is
    /// destroyed, what is cached of it and every task tracked for one of its
    /// snapshots is dropped, and the storage engine has to be told: the
    /// result says so. Any other change leaves everything as it is.
    pub fn on_region_changed(&mut self, region_id: u64, e: RegionChangeEvent) -> (destroyed: bool)
        requires
            old(self).wf(),
        ensures
            final(self).wf(),
            final(self).forwarder.same_settings(&old(self).forwarder),
            destroyed == (e == RegionChangeEvent::Destroy),
            destroyed ==> final(self).regions() == old(self).regions().remove(region_id)
                && final(self).tasks() == old(self).tasks().remove_keys(of_region(region_id)),
            !destroyed ==> final(self).regions() == old(self).regions() && final(self).tasks()
                == old(self).tasks() && final(self).forwarder.engine == old(self).forwarder.engine,
    {
        match e {
            RegionChangeEvent::Destroy => {
                self.forwarder.remove_region(region_id);
                true
            },
            _ => false,
        }
    }

    /// Snapshots are announced before they are applied.
    pub fn should_pre_apply_snapshot(&self) -> (should: bool)
        ensures
            should,
    {
        true
    }

    /// Announces that snapshot `snap_key` of partition `ob_region` is about
    /// to be applied for replica `peer_id`, as
    /// `ProxyForwarder::pre_apply_snapshot` does.
    pub fn pre_apply_snapshot(
        &mut self,
        ob_region: &Region,
        peer_id: u64,
        snap_key: &SnapKey,
        snap: Option<&snap::Snapshot>,
    ) -> (action: PreApplyAction<P>)
        requires
            old(self).wf(),
            snap::given_wf(snap),
        ensures
            final(self).wf(),
            final(self).forwarder.same_settings(&old(self).forwarder),
            final(self).regions() == old(self).regions(),
            old(self).forwarder.pre_applied(
                &final(self).forwarder,
                ob_region.id,
                peer_id,
                *snap_key,
                snap,
                action,
            ),
    {
        self.forwarder.pre_apply_snapshot(ob_region, peer_id, snap_key, snap)
    }

    /// Reports that snapshot `snap_key` of partition `ob_region` has been
    /// applied for replica `peer_id`, as
    /// `ProxyForwarder::post_apply_snapshot` does.
    pub fn post_apply_snapshot(
        &mut self,
        ob_region: &Region,
        peer_id: u64,
        snap_key: &SnapKey,
        snap: Option<&snap::Snapshot>,
    ) -> (action: PostApplyAction<P>)
        requires
            old(self).wf(),
            snap::given_wf(snap),
        ensures
            final(self).wf(),
            final(self).forwarder.same_settings(&old(self).forwarder),
            old(self).forwarder.post_applied(
                &final(self).forwarder,
                ob_region.id,
                *snap_key,
                snap,
                action,
            ),
    {
        self.forwarder.post_apply_snapshot(ob_region, peer_id, snap_key, snap)
    }
}

/// Builds the snapshot message that answers the append message `msg`.
pub fn build_snapshot_message(
    msg: &RaftMessage,
    key: SnapKey,
    new_region: Region,
    staged: StagedSnapshot,
) -> (response: RaftMessage)
    ensures
        response == snapshot_message(*msg, key, new_region, staged),
{
    let region_epoch = new_region.region_epoch;
    RaftMessage {
        region_id: msg.region_id,
        from_peer: msg.from_peer,
        to_peer: msg.to_peer,
        message: Message {
            msg_type: MessageType::MsgSnapshot,
            to: msg.to_peer.id,
            from: msg.from_peer.id,
            term: msg.message.term,
            commit: 0,
            snapshot: Some(
                Snapshot {
                    data: RaftSnapshotData {
                        region: new_region,
                        file_size: 0,
                        version: SNAPSHOT_VERSION,
                        meta: staged.meta,
                    },
                    metadata: SnapshotMetadata {
                        conf_state: staged.conf_state,
                        index: key.idx,
                        term: key.term,
                    },
                },
            ),
        },
        region_epoch,
    }
}

} // verus!
