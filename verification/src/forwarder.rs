//! The apply coordinator: what happens around the application of a snapshot.
//!
//! Before a snapshot is applied its data is handed to a background job that
//! stages it; after the apply the staged result is consumed, or staged again
//! on the spot where the background job left nothing. The first snapshot of a
//! partition that came through the fast path is the hand-off point back to
//! ordinary replication: its data is already in place, so it is not staged.

use crate::cached_region_info::{CachedRegionInfo, CachedRegionInfoManager};
use crate::channel::{completion_channel, wait_for_completion};
use crate::engine::{EngineStoreConfig, ProxyEngineExt};
use crate::metapb::Region;
use crate::prehandle::{
    count_in_region, lemma_insert_counts, lemma_remove_counts, of_region, PrehandleContext,
    PrehandleTask, PtrWrapper, SnapKey,
};
use crate::snap::{given_wf, retrieve_sst_files, SSTInfo, Snapshot};
use std::sync::mpsc::Sender;
use vstd::prelude::*;

verus! {

/// What the caller does after `pre_apply_snapshot`.
#[verifier::reject_recursive_types(P)]
pub enum PreApplyAction<P> {
    /// Nothing runs in the background for this snapshot.
    Idle,
    /// Stage the files `ssts` for replica `peer_id` on the worker pool, and
    /// send the result into `sender`.
    Prehandle { sender: Sender<PtrWrapper<P>>, peer_id: u64, snap_key: SnapKey, ssts: Vec<SSTInfo> },
}

/// What `take_prehandled` found for a snapshot that has been applied.
#[verifier::reject_recursive_types(P)]
pub enum Taken<P> {
    /// The snapshot completed a fast-path catch-up; its data is in place.
    HandOff,
    /// There is no snapshot data to ingest.
    Idle,
    /// No background job was tracked for the snapshot.
    Untracked,
    /// The task of the snapshot's background job. Its result is still to be
    /// waited for.
    Pending(PrehandleTask<P>),
}

/// What became of the background job of a snapshot.
pub enum PrehandleOutcome<P> {
    /// No job was tracked for the snapshot.
    Untracked,
    /// The job ended without a result.
    Closed,
    /// The job staged the snapshot.
    Staged(PtrWrapper<P>),
}

/// What the caller does after `post_apply_snapshot`.
pub enum PostApplyAction<P> {
    /// The snapshot completed a fast-path catch-up; its data is in place.
    HandOff,
    /// There is no snapshot data to ingest.
    Idle,
    /// Ingest the staged snapshot.
    Ingest(PtrWrapper<P>),
    /// Stage the files `ssts` now, on the calling thread, and ingest the
    /// result.
    Regenerate { ssts: Vec<SSTInfo> },
}

impl<P> PostApplyAction<P> {
    /// The caller has to stage the snapshot again before it proceeds.
    pub open spec fn need_retry_spec(self) -> bool {
        self is Regenerate
    }

    /// Whether the caller has to stage the snapshot again before it proceeds.
    pub fn need_retry(&self) -> (retry: bool)
        ensures
            retry == self.need_retry_spec(),
    {
        match self {
            PostApplyAction::Regenerate { .. } => true,
            _ => false,
        }
    }
}

/// The state of a partition after the hand-off from the fast path: no
/// snapshot is outstanding, and the partition stays on the ordinary path.
pub open spec fn handed_off(info: CachedRegionInfo) -> CachedRegionInfo {
    CachedRegionInfo {
        replicated_or_created: info.replicated_or_created,
        inited_or_fallback: true,
        snapshot_inflight: 0,
    }
}

/// Decides what is done with a snapshot once the outcome of its background
/// job is known: a staged result is ingested, anything else is staged again
/// from the snapshot's files.
pub fn consume_prehandled<P>(outcome: PrehandleOutcome<P>, snap: &Snapshot) -> (action:
    PostApplyAction<P>)
    requires
        snap.wf(),
    ensures
        match outcome {
            PrehandleOutcome::Staged(staged) => action == PostApplyAction::Ingest(staged),
            _ => action matches PostApplyAction::Regenerate { ssts } && ssts@ == snap.locations(),
        },
{
    match outcome {
        PrehandleOutcome::Staged(staged) => PostApplyAction::Ingest(staged),
        _ => PostApplyAction::Regenerate { ssts: retrieve_sst_files(snap) },
    }
}

/// The state that the fast path and the prehandling pipeline share.
#[verifier::reject_recursive_types(P)]
pub struct ProxyForwarder<P> {
    pub store_id: u64,
    pub engine_store_cfg: EngineStoreConfig,
    pub engine: ProxyEngineExt,
    pub cached_region_info: CachedRegionInfoManager,
    pub pre_handle_snapshot_ctx: PrehandleContext<P>,
    /// A worker pool is at hand for staging snapshots in the background.
    pub has_apply_snap_pool: bool,
}

impl<P> ProxyForwarder<P> {
    /// Both tables are well formed, and the counter of snapshots in staging
    /// equals the number of tracked tasks: every submission has been counted
    /// once, and every consumed or discarded task has been uncounted once.
    pub open spec fn wf(&self) -> bool {
        &&& self.cached_region_info.wf()
        &&& self.pre_handle_snapshot_ctx.wf()
        &&& self.engine.pending_applies_count == self.pre_handle_snapshot_ctx.count()
    }

    /// What is cached of each partition.
    pub open spec fn regions(&self) -> Map<u64, CachedRegionInfo> {
        self.cached_region_info@
    }

    /// The task tracked for each snapshot in staging.
    pub open spec fn tasks(&self) -> Map<SnapKey, PrehandleTask<P>> {
        self.pre_handle_snapshot_ctx@
    }

    /// `other` differs from this state at most in the two tables and in the
    /// counter of snapshots in staging.
    pub open spec fn same_settings(&self, other: &ProxyForwarder<P>) -> bool {
        &&& self.store_id == other.store_id
        &&& self.engine_store_cfg == other.engine_store_cfg
        &&& self.engine.engine_store_server_helper == other.engine.engine_store_server_helper
        &&& self.engine.pool_capacity == other.engine.pool_capacity
        &&& self.has_apply_snap_pool == other.has_apply_snap_pool
    }

    /// The fast path is on and partition `region_id` has not yet applied its
    /// first snapshot: the next snapshot it applies is the hand-off.
    pub open spec fn is_first_snapshot(&self, region_id: u64) -> bool {
        &&& self.engine_store_cfg.enable_fast_add_peer
        &&& self.regions().contains_key(region_id)
        &&& !self.regions()[region_id].inited_or_fallback
    }

    /// A snapshot of partition `region_id` is handed to the worker pool: it
    /// has data, it is not the hand-off of a fast-path catch-up, and there is
    /// a pool.
    pub open spec fn submits(&self, region_id: u64, has_snap: bool) -> bool {
        has_snap && !self.is_first_snapshot(region_id) && self.has_apply_snap_pool
    }

    /// A coordinator with empty tables for store `store_id`.
    pub fn new(
        store_id: u64,
        engine: ProxyEngineExt,
        has_apply_snap_pool: bool,
        engine_store_cfg: EngineStoreConfig,
    ) -> (forwarder: ProxyForwarder<P>)
        ensures
            forwarder.wf(),
            forwarder.store_id == store_id,
            forwarder.engine_store_cfg == engine_store_cfg,
            forwarder.engine.engine_store_server_helper == engine.engine_store_server_helper,
            forwarder.engine.pool_capacity == engine.pool_capacity,
            forwarder.engine.pending_applies_count == 0,
            forwarder.has_apply_snap_pool == has_apply_snap_pool,
            forwarder.regions() == Map::<u64, CachedRegionInfo>::empty(),
            forwarder.tasks() == Map::<SnapKey, PrehandleTask<P>>::empty(),
    {
        let mut engine = engine;
        engine.pending_applies_count = 0;
        ProxyForwarder {
            store_id,
            engine_store_cfg,
            engine,
            cached_region_info: CachedRegionInfoManager::new(),
            pre_handle_snapshot_ctx: PrehandleContext::new(),
            has_apply_snap_pool,
        }
    }

    /// The region state table.
    pub fn get_cached_manager(&self) -> (table: &CachedRegionInfoManager)
        ensures
            table == &self.cached_region_info,
    {
        &self.cached_region_info
    }

    /// Snapshots are announced before they are applied.
    pub fn should_pre_apply_snapshot(&self) -> (should: bool)
        ensures
            should,
    {
        true
    }

    fn check_first_snapshot(&self, region_id: u64) -> (first: bool)
        requires
            self.wf(),
        ensures
            first == self.is_first_snapshot(region_id),
    {
        if self.engine_store_cfg.enable_fast_add_peer {
            match self.cached_region_info.get(region_id) {
                Some(info) => !info.inited_or_fallback,
                None => false,
            }
        } else {
            false
        }
    }

    /// Announces that snapshot `snap_key` of partition `ob_region` is about
    /// to be applied for replica `peer_id`.
    pub fn pre_apply_snapshot(
        &mut self,
        ob_region: &Region,
        peer_id: u64,
        snap_key: &SnapKey,
        snap: Option<&Snapshot>,
    ) -> (action: PreApplyAction<P>)
        requires
            old(self).wf(),
            given_wf(snap),
        ensures
            final(self).wf(),
            final(self).same_settings(old(self)),
            final(self).regions() == old(self).regions(),
            old(self).pre_applied(final(self), ob_region.id, peer_id, *snap_key, snap, action),
    {
        self.pre_apply_snapshot_impl(ob_region, peer_id, snap_key, snap)
    }

    /// How `pre_apply_snapshot` changes the pipeline, from this state to
    /// `after`, and what it asks of the caller.
    ///
    /// A snapshot that is submitted gets a fresh task, tracked under its
    /// identity for `peer_id`. A task that was tracked for the same identity
    /// is replaced, and the counter stays as it is: the discarded task is
    /// uncounted and the new one counted. Otherwise the counter goes up by
    /// one. A snapshot that is not submitted changes nothing.
    pub open spec fn pre_applied(
        &self,
        after: &ProxyForwarder<P>,
        region_id: u64,
        peer_id: u64,
        snap_key: SnapKey,
        snap: Option<&Snapshot>,
        action: PreApplyAction<P>,
    ) -> bool {
        if self.submits(region_id, snap.is_some()) {
            &&& action matches PreApplyAction::Prehandle {
                peer_id: for_peer,
                snap_key: key,
                ssts,
                ..
            }
            &&& for_peer == peer_id
            &&& key == snap_key
            &&& ssts@ == snap.unwrap().locations()
            &&& after.tasks().contains_key(snap_key)
            &&& after.tasks()[snap_key].peer_id == peer_id
            &&& after.tasks() == self.tasks().insert(snap_key, after.tasks()[snap_key])
            &&& after.engine.pending_applies_count == self.engine.pending_applies_count + (
            if self.tasks().contains_key(snap_key) {
                0int
            } else {
                1int
            })
        } else {
            &&& action is Idle
            &&& after.tasks() == self.tasks()
            &&& after.engine.pending_applies_count == self.engine.pending_applies_count
        }
    }

    /// Does the work of `pre_apply_snapshot`.
    pub fn pre_apply_snapshot_impl(
        &mut self,
        ob_region: &Region,
        peer_id: u64,
        snap_key: &SnapKey,
        snap: Option<&Snapshot>,
    ) -> (action: PreApplyAction<P>)
        requires
            old(self).wf(),
            given_wf(snap),
        ensures
            final(self).wf(),
            final(self).same_settings(old(self)),
            final(self).regions() == old(self).regions(),
            old(self).pre_applied(final(self), ob_region.id, peer_id, *snap_key, snap, action),
    {
        let region_id = ob_region.id;
        let snap = match snap {
            None => {
                return PreApplyAction::Idle;
            },
            Some(s) => s,
        };
        if self.check_first_snapshot(region_id) {
            return PreApplyAction::Idle;
        }
        if !self.has_apply_snap_pool {
            return PreApplyAction::Idle;
        }
        let (sender, receiver) = completion_channel::<PtrWrapper<P>>();
        let task = PrehandleTask::new(receiver, peer_id);
        let replaced = self.pre_handle_snapshot_ctx.insert(*snap_key, task);
        if replaced.is_some() {
            self.engine.pending_applies_count = self.engine.pending_applies_count - 1;
        }
        let ssts = retrieve_sst_files(snap);
        self.engine.pending_applies_count = self.engine.pending_applies_count + 1;
        PreApplyAction::Prehandle { sender, peer_id, snap_key: *snap_key, ssts }
    }

    /// How `post_apply_snapshot` changes the state, from this one to `after`,
    /// and what it asks of the caller.
    ///
    /// The hand-off of a fast-path catch-up clears the outstanding snapshot,
    /// puts the partition on the ordinary path for good, and touches nothing
    /// else. Any other snapshot that has data stops being tracked and, where
    /// it was tracked, is uncounted once; it is then ingested from what the
    /// background job staged or staged again, and it is staged again wherever
    /// nothing was tracked for it.
    pub open spec fn post_applied(
        &self,
        after: &ProxyForwarder<P>,
        region_id: u64,
        snap_key: SnapKey,
        snap: Option<&Snapshot>,
        action: PostApplyAction<P>,
    ) -> bool {
        if self.is_first_snapshot(region_id) {
            &&& action is HandOff
            &&& after.regions() == self.regions().insert(
                region_id,
                handed_off(self.regions()[region_id]),
            )
            &&& after.tasks() == self.tasks()
            &&& after.engine.pending_applies_count == self.engine.pending_applies_count
        } else if snap.is_none() {
            &&& action is Idle
            &&& after.regions() == self.regions()
            &&& after.tasks() == self.tasks()
            &&& after.engine.pending_applies_count == self.engine.pending_applies_count
        } else {
            &&& after.regions() == self.regions()
            &&& after.tasks() == self.tasks().remove(snap_key)
            &&& after.engine.pending_applies_count == self.engine.pending_applies_count - (
            if self.tasks().contains_key(snap_key) {
                1int
            } else {
                0int
            })
            &&& action is Ingest || action is Regenerate
            &&& action matches PostApplyAction::Regenerate { ssts } ==> ssts@
                == snap.unwrap().locations()
            &&& !self.tasks().contains_key(snap_key) ==> action is Regenerate
        }
    }

    /// How `take_prehandled` changes the state, from this one to `after`, and
    /// what it hands out.
    ///
    /// The hand-off of a fast-path catch-up clears the outstanding snapshot,
    /// puts the partition on the ordinary path for good, and touches nothing
    /// else. Any other snapshot that has data stops being tracked and, where
    /// it was tracked, is uncounted once and its task is handed out.
    pub open spec fn taken(
        &self,
        after: &ProxyForwarder<P>,
        region_id: u64,
        snap_key: SnapKey,
        snap: Option<&Snapshot>,
        found: Taken<P>,
    ) -> bool {
        if self.is_first_snapshot(region_id) {
            &&& found is HandOff
            &&& after.regions() == self.regions().insert(
                region_id,
                handed_off(self.regions()[region_id]),
            )
            &&& after.tasks() == self.tasks()
            &&& after.engine.pending_applies_count == self.engine.pending_applies_count
        } else if snap.is_none() {
            &&& found is Idle
            &&& after.regions() == self.regions()
            &&& after.tasks() == self.tasks()
            &&& after.engine.pending_applies_count == self.engine.pending_applies_count
        } else if self.tasks().contains_key(snap_key) {
            &&& found == Taken::Pending(self.tasks()[snap_key])
            &&& after.regions() == self.regions()
            &&& after.tasks() == self.tasks().remove(snap_key)
            &&& after.engine.pending_applies_count == self.engine.pending_applies_count - 1
        } else {
            &&& found is Untracked
            &&& after.regions() == self.regions()
            &&& after.tasks() == self.tasks()
            &&& after.engine.pending_applies_count == self.engine.pending_applies_count
        }
    }

    /// Reports that snapshot `snap_key` of partition `ob_region` has been
    /// applied for replica `peer_id`, and takes the task of its background
    /// job out of the pipeline without waiting for the job. The caller waits
    /// on the task and decides with `consume_prehandled`.
    pub fn take_prehandled(
        &mut self,
        ob_region: &Region,
        peer_id: u64,
        snap_key: &SnapKey,
        snap: Option<&Snapshot>,
    ) -> (found: Taken<P>)
        requires
            old(self).wf(),
        ensures
            final(self).wf(),
            final(self).same_settings(old(self)),
            old(self).taken(final(self), ob_region.id, *snap_key, snap, found),
    {
        let region_id = ob_region.id;
        if self.engine_store_cfg.enable_fast_add_peer {
            match self.cached_region_info.get(region_id) {
                Some(info) => {
                    if !info.inited_or_fallback {
                        let _ = self.cached_region_info.insert(
                            region_id,
                            CachedRegionInfo {
                                replicated_or_created: info.replicated_or_created,
                                inited_or_fallback: true,
                                snapshot_inflight: 0,
                            },
                        );
                        return Taken::HandOff;
                    }
                },
                None => {},
            }
        }
        if snap.is_none() {
            return Taken::Idle;
        }
        match self.pre_handle_snapshot_ctx.remove(snap_key) {
            Some(task) => {
                self.engine.pending_applies_count = self.engine.pending_applies_count - 1;
                Taken::Pending(task)
            },
            None => {
                assert(old(self).tasks().remove(*snap_key) =~= old(self).tasks());
                Taken::Untracked
            },
        }
    }

    /// Reports that snapshot `snap_key` of partition `ob_region` has been
    /// applied for replica `peer_id`, and waits for its background job where
    /// there is one.
    pub fn post_apply_snapshot(
        &mut self,
        ob_region: &Region,
        peer_id: u64,
        snap_key: &SnapKey,
        snap: Option<&Snapshot>,
    ) -> (action: PostApplyAction<P>)
        requires
            old(self).wf(),
            given_wf(snap),
        ensures
            final(self).wf(),
            final(self).same_settings(old(self)),
            old(self).post_applied(final(self), ob_region.id, *snap_key, snap, action),
    {
        let found = self.take_prehandled(ob_region, peer_id, snap_key, snap);
        proof {
            if !old(self).tasks().contains_key(*snap_key) {
                assert(old(self).tasks().remove(*snap_key) =~= old(self).tasks());
            }
        }
        let outcome = match found {
            Taken::HandOff => {
                return PostApplyAction::HandOff;
            },
            Taken::Idle => {
                return PostApplyAction::Idle;
            },
            Taken::Untracked => PrehandleOutcome::Untracked,
            Taken::Pending(task) => match wait_for_completion(&task.recv) {
                Some(staged) => PrehandleOutcome::Staged(staged),
                None => PrehandleOutcome::Closed,
            },
        };
        match snap {
            Some(files) => consume_prehandled(outcome, files),
            None => PostApplyAction::Idle,
        }
    }

    /// Forgets partition `region_id`: what is cached of it, and every task
    /// tracked for one of its snapshots. Each dropped task is uncounted once.
    pub fn remove_region(&mut self, region_id: u64)
        requires
            old(self).wf(),
        ensures
            final(self).wf(),
            final(self).same_settings(old(self)),
            final(self).regions() == old(self).regions().remove(region_id),
            final(self).tasks() == old(self).tasks().remove_keys(of_region(region_id)),
    {
        self.cached_region_info.remove_cached_region_info(region_id);
        let dropped = self.pre_handle_snapshot_ctx.remove_region(region_id);
        self.engine.pending_applies_count = self.engine.pending_applies_count - dropped;
    }

    /// The number of snapshots of partition `region_id` that are in staging.
    pub open spec fn pending_of(&self, region_id: u64) -> nat {
        count_in_region(self.tasks(), region_id)
    }

    /// Counts the snapshots of partition `region_id` that are in staging.
    pub fn pending_applies_of(&self, region_id: u64) -> (n: usize)
        requires
            self.wf(),
        ensures
            n == self.pending_of(region_id),
    {
        self.pre_handle_snapshot_ctx.len_of_region(region_id)
    }

    /// The announcement of a snapshot counts it once for its partition: the
    /// number of snapshots in staging goes up by one for the partition of a
    /// snapshot that is submitted and was not tracked before, and stays as it
    /// is in every other case and for every other partition.
    pub proof fn lemma_submission_counts_once(
        &self,
        after: &ProxyForwarder<P>,
        region_id: u64,
        peer_id: u64,
        snap_key: SnapKey,
        snap: Option<&Snapshot>,
        submit: PreApplyAction<P>,
        partition: u64,
    )
        requires
            self.wf(),
            self.pre_applied(after, region_id, peer_id, snap_key, snap, submit),
        ensures
            after.pending_of(partition) == self.pending_of(partition) + (if self.submits(
                region_id,
                snap.is_some(),
            ) && snap_key.region_id == partition && !self.tasks().contains_key(snap_key) {
                1nat
            } else {
                0nat
            }),
    {
        self.pre_handle_snapshot_ctx.lemma_count_is_len();
        if self.submits(region_id, snap.is_some()) {
            lemma_insert_counts(self.tasks(), snap_key, after.tasks()[snap_key], partition);
        }
    }

    /// The completion of a snapshot uncounts it once for its partition: the
    /// number of snapshots in staging goes down by one for the partition of a
    /// snapshot that was tracked and is consumed, and stays as it is in every
    /// other case and for every other partition.
    pub proof fn lemma_consumption_uncounts_once(
        &self,
        after: &ProxyForwarder<P>,
        region_id: u64,
        snap_key: SnapKey,
        snap: Option<&Snapshot>,
        consume: PostApplyAction<P>,
        partition: u64,
    )
        requires
            self.wf(),
            self.post_applied(after, region_id, snap_key, snap, consume),
        ensures
            after.pending_of(partition) == self.pending_of(partition) - (
            if !self.is_first_snapshot(region_id) && snap.is_some() && snap_key.region_id
                == partition && self.tasks().contains_key(snap_key) {
                1int
            } else {
                0int
            }),
    {
        self.pre_handle_snapshot_ctx.lemma_count_is_len();
        if !self.is_first_snapshot(region_id) && snap.is_some() {
            lemma_remove_counts(self.tasks(), snap_key, partition);
        }
    }

    /// Every submission is counted once and uncounted once: at any time the
    /// counter of snapshots in staging is the number of tasks that are
    /// tracked.
    pub proof fn lemma_pending_counts_tasks(&self)
        requires
            self.wf(),
        ensures
            self.tasks().dom().finite(),
            self.engine.pending_applies_count == self.tasks().len(),
    {
        self.pre_handle_snapshot_ctx.lemma_count_is_len();
    }

    /// Submitting a snapshot and then consuming it leaves no trace in the
    /// counter: it ends where it started, less the one task that the
    /// submission superseded, and the snapshot is no longer tracked.
    pub proof fn lemma_submit_then_consume(
        &self,
        submitted: &ProxyForwarder<P>,
        consumed: &ProxyForwarder<P>,
        region_id: u64,
        peer_id: u64,
        snap_key: SnapKey,
        snap: Option<&Snapshot>,
        submit: PreApplyAction<P>,
        consume: PostApplyAction<P>,
    )
        requires
            self.submits(region_id, snap.is_some()),
            self.pre_applied(submitted, region_id, peer_id, snap_key, snap, submit),
            !submitted.is_first_snapshot(region_id),
            submitted.post_applied(consumed, region_id, snap_key, snap, consume),
        ensures
            !consumed.tasks().contains_key(snap_key),
            consumed.tasks() == self.tasks().remove(snap_key),
            consumed.engine.pending_applies_count == self.engine.pending_applies_count - (
            if self.tasks().contains_key(snap_key) {
                1int
            } else {
                0int
            }),
            consume is Ingest || consume is Regenerate,
    {
        assert(self.tasks().insert(snap_key, submitted.tasks()[snap_key]).remove(snap_key)
            =~= self.tasks().remove(snap_key));
    }

    /// No snapshot is lost when the pipeline staged nothing for it. Without a
    /// worker pool a snapshot is not submitted, and a snapshot with data for
    /// which no task is tracked is staged again by the caller, from the
    /// snapshot's own files, unless it is the hand-off of a fast-path
    /// catch-up.
    pub proof fn lemma_fallback_is_complete(
        &self,
        announced: &ProxyForwarder<P>,
        applied: &ProxyForwarder<P>,
        region_id: u64,
        peer_id: u64,
        snap_key: SnapKey,
        snap: &Snapshot,
        submit: PreApplyAction<P>,
        consume: PostApplyAction<P>,
    )
        requires
            !self.has_apply_snap_pool,
            !self.tasks().contains_key(snap_key),
            self.pre_applied(announced, region_id, peer_id, snap_key, Some(snap), submit),
            announced.has_apply_snap_pool == self.has_apply_snap_pool,
            announced.post_applied(applied, region_id, snap_key, Some(snap), consume),
        ensures
            submit is Idle,
            announced.tasks() == self.tasks(),
            consume is HandOff || consume is Regenerate,
            consume is HandOff <==> announced.is_first_snapshot(region_id),
            consume matches PostApplyAction::Regenerate { ssts } ==> ssts@ == snap.locations(),
    {
    }

    /// The hand-off is final for the apply coordinator too: the completion of
    /// a snapshot takes no partition off the ordinary path again, nor out of
    /// the table. With the fast path switched on it puts the snapshot's own
    /// partition on the ordinary path, and where that is the partition's
    /// first snapshot no snapshot is outstanding afterwards.
    pub proof fn lemma_apply_keeps_hand_off(
        &self,
        applied: &ProxyForwarder<P>,
        region_id: u64,
        snap_key: SnapKey,
        snap: Option<&Snapshot>,
        consume: PostApplyAction<P>,
        other: u64,
    )
        requires
            self.post_applied(applied, region_id, snap_key, snap, consume),
            self.regions().contains_key(other),
        ensures
            applied.regions().contains_key(other),
            self.regions()[other].inited_or_fallback ==> applied.regions()[other].inited_or_fallback,
            self.engine_store_cfg.enable_fast_add_peer && other == region_id
                ==> applied.regions()[other].inited_or_fallback,
            self.is_first_snapshot(other) && other == region_id
                ==> applied.regions()[other].snapshot_inflight == 0,
    {
    }
}

} // verus!
