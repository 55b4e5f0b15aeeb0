//! The region state table: what this node remembers of each partition while a
//! new replica of it catches up.

use crate::hash::{hash_u64, hash_u64_spec};
use std::collections::HashMap;
use vstd::prelude::*;

verus! {

/// Number of shards of the table. A power of two.
pub const CACHED_REGION_INFO_SLOT_COUNT: usize = 256;

/// The shard that holds partition `id`: the low bits of its mixed id.
#[verifier::opaque]
pub open spec fn slot_index_spec(id: u64) -> int {
    (hash_u64_spec(id) & 255) as int
}

/// Every partition id selects one of the shards.
pub proof fn lemma_slot_index_in_range(id: u64)
    ensures
        0 <= slot_index_spec(id) < CACHED_REGION_INFO_SLOT_COUNT,
{
    reveal(slot_index_spec);
    let h = hash_u64_spec(id);
    assert(h & 255 < 256) by (bit_vector);
}

/// Computes the shard that holds partition `id`.
pub fn slot_index(id: u64) -> (slot: usize)
    ensures
        slot as int == slot_index_spec(id),
        slot < CACHED_REGION_INFO_SLOT_COUNT,
{
    let h: u64 = hash_u64(id);
    let low: u64 = h & 255;
    proof {
        reveal(slot_index_spec);
        lemma_slot_index_in_range(id);
    }
    low as usize
}

/// Cached state of one partition.
#[derive(Clone, Copy, Debug, PartialEq, Eq, Structural)]
pub struct CachedRegionInfo {
    /// The local replica object has been constructed.
    pub replicated_or_created: bool,
    /// The partition has applied its first snapshot, or has given up the fast
    /// path for good. While this is false the first append message is
    /// intercepted.
    pub inited_or_fallback: bool,
    /// Milliseconds since the epoch at which the fast-path snapshot now
    /// outstanding was sent; 0 when none is outstanding.
    pub snapshot_inflight: u128,
}

impl CachedRegionInfo {
    /// The state of a partition that nothing is known of yet.
    pub open spec fn fresh() -> CachedRegionInfo {
        CachedRegionInfo {
            replicated_or_created: false,
            inited_or_fallback: false,
            snapshot_inflight: 0,
        }
    }
}

impl Default for CachedRegionInfo {
    fn default() -> (info: CachedRegionInfo)
        ensures
            info == CachedRegionInfo::fresh(),
    {
        CachedRegionInfo {
            replicated_or_created: false,
            inited_or_fallback: false,
            snapshot_inflight: 0,
        }
    }
}

/// What the table keeps when the state `before` of a partition is to be
/// replaced by `answer`: the two flags are write-once, so a flag that was
/// true stays true; everything else is taken from `answer`.
pub open spec fn write_once(before: CachedRegionInfo, answer: CachedRegionInfo) -> CachedRegionInfo {
    CachedRegionInfo {
        replicated_or_created: before.replicated_or_created || answer.replicated_or_created,
        inited_or_fallback: before.inited_or_fallback || answer.inited_or_fallback,
        snapshot_inflight: answer.snapshot_inflight,
    }
}

/// The two flags are write-once: whatever is to replace the state of a
/// partition, a flag that was true is true in what the table keeps. Only the
/// removal of the partition clears them.
pub proof fn lemma_write_once_keeps_flags(before: CachedRegionInfo, answer: CachedRegionInfo)
    ensures
        before.inited_or_fallback ==> write_once(before, answer).inited_or_fallback,
        before.replicated_or_created ==> write_once(before, answer).replicated_or_created,
        !before.inited_or_fallback && !before.replicated_or_created ==> write_once(before, answer)
            == answer,
{
}

/// The one map that a sequence of shards stands for.
pub open spec fn table_of(shards: Seq<Map<u64, CachedRegionInfo>>) -> Map<u64, CachedRegionInfo> {
    Map::new(
        |id: u64| shards[slot_index_spec(id)].contains_key(id),
        |id: u64| shards[slot_index_spec(id)][id],
    )
}

/// Every partition is kept in the shard that its id selects.
pub open spec fn shards_wf(shards: Seq<Map<u64, CachedRegionInfo>>) -> bool {
    &&& shards.len() == CACHED_REGION_INFO_SLOT_COUNT
    &&& forall|slot: int, id: u64|
        0 <= slot < shards.len() && #[trigger] shards[slot].contains_key(id) ==> slot_index_spec(
            id,
        ) == slot
}

proof fn lemma_table_of_insert(
    shards: Seq<Map<u64, CachedRegionInfo>>,
    id: u64,
    info: CachedRegionInfo,
)
    requires
        shards_wf(shards),
    ensures
        shards_wf(shards.update(slot_index_spec(id), shards[slot_index_spec(id)].insert(id, info))),
        table_of(shards.update(slot_index_spec(id), shards[slot_index_spec(id)].insert(id, info)))
            == table_of(shards).insert(id, info),
{
    lemma_slot_index_in_range(id);
    let slot = slot_index_spec(id);
    let after = table_of(shards.update(slot, shards[slot].insert(id, info)));
    let wanted = table_of(shards).insert(id, info);
    assert forall|k: u64| #[trigger] after.dom().contains(k) == wanted.dom().contains(k) by {
        lemma_slot_index_in_range(k);
    }
    assert(after.dom() =~= wanted.dom());
    assert forall|k: u64| after.dom().contains(k) implies #[trigger] after[k] == wanted[k] by {
        lemma_slot_index_in_range(k);
    }
    assert(after =~= wanted);
}

proof fn lemma_table_of_remove(shards: Seq<Map<u64, CachedRegionInfo>>, id: u64)
    requires
        shards_wf(shards),
    ensures
        shards_wf(shards.update(slot_index_spec(id), shards[slot_index_spec(id)].remove(id))),
        table_of(shards.update(slot_index_spec(id), shards[slot_index_spec(id)].remove(id)))
            == table_of(shards).remove(id),
{
    lemma_slot_index_in_range(id);
    let slot = slot_index_spec(id);
    let after = table_of(shards.update(slot, shards[slot].remove(id)));
    let wanted = table_of(shards).remove(id);
    assert forall|k: u64| #[trigger] after.dom().contains(k) == wanted.dom().contains(k) by {
        lemma_slot_index_in_range(k);
    }
    assert(after.dom() =~= wanted.dom());
    assert forall|k: u64| after.dom().contains(k) implies #[trigger] after[k] == wanted[k] by {
        lemma_slot_index_in_range(k);
    }
    assert(after =~= wanted);
}

/// The region state table, split into shards by the mixed partition id.
pub struct CachedRegionInfoManager {
    shards: Vec<HashMap<u64, CachedRegionInfo>>,
}

impl View for CachedRegionInfoManager {
    type V = Map<u64, CachedRegionInfo>;

    /// The table as one map from partition id to cached state.
    closed spec fn view(&self) -> Map<u64, CachedRegionInfo> {
        table_of(self.shard_maps())
    }
}

impl CachedRegionInfoManager {
    /// There are exactly `CACHED_REGION_INFO_SLOT_COUNT` shards, and every
    /// partition is kept in the shard that its id selects.
    pub closed spec fn wf(&self) -> bool {
        shards_wf(self.shard_maps())
    }

    /// The shards, each as the map that it holds.
    pub closed spec fn shard_maps(&self) -> Seq<Map<u64, CachedRegionInfo>> {
        Seq::new(self.shards.len() as nat, |slot: int| self.shards[slot]@)
    }

    /// An empty table.
    pub fn new() -> (table: CachedRegionInfoManager)
        ensures
            table.wf(),
            table@ == Map::<u64, CachedRegionInfo>::empty(),
    {
        let mut shards: Vec<HashMap<u64, CachedRegionInfo>> = Vec::new();
        let mut n: usize = 0;
        while n < CACHED_REGION_INFO_SLOT_COUNT
            invariant
                n <= CACHED_REGION_INFO_SLOT_COUNT,
                shards.len() == n,
                forall|slot: int| 0 <= slot < n ==> (#[trigger] shards[slot])@ == Map::<
                    u64,
                    CachedRegionInfo,
                >::empty(),
            decreases CACHED_REGION_INFO_SLOT_COUNT - n,
        {
            shards.push(HashMap::new());
            n += 1;
        }
        let table = CachedRegionInfoManager { shards };
        proof {
            assert forall|id: u64| !table@.dom().contains(id) by {
                lemma_slot_index_in_range(id);
            }
            assert(table@ =~= Map::<u64, CachedRegionInfo>::empty());
        }
        table
    }

    /// The cached state of partition `region_id`, if there is any.
    pub fn get(&self, region_id: u64) -> (found: Option<CachedRegionInfo>)
        requires
            self.wf(),
        ensures
            found == (if self@.contains_key(region_id) {
                Some(self@[region_id])
            } else {
                None
            }),
    {
        broadcast use vstd::std_specs::hash::group_hash_axioms;

        let slot = slot_index(region_id);
        match self.shards[slot].get(&region_id) {
            Some(info) => Some(*info),
            None => None,
        }
    }

    /// Sets the cached state of partition `region_id`, and hands back what was
    /// there before.
    pub(crate) fn insert(&mut self, region_id: u64, info: CachedRegionInfo) -> (before: Option<
        CachedRegionInfo,
    >)
        requires
            old(self).wf(),
        ensures
            final(self).wf(),
            final(self)@ == old(self)@.insert(region_id, info),
            before == (if old(self)@.contains_key(region_id) {
                Some(old(self)@[region_id])
            } else {
                None
            }),
    {
        broadcast use vstd::std_specs::hash::group_hash_axioms;

        let slot = slot_index(region_id);
        let before = self.shards[slot].insert(region_id, info);
        proof {
            lemma_table_of_insert(old(self).shard_maps(), region_id, info);
            assert(self.shard_maps() =~= old(self).shard_maps().update(
                slot as int,
                old(self).shard_maps()[slot as int].insert(region_id, info),
            ));
        }
        before
    }

    /// Forgets partition `region_id`, and hands back what was known of it.
    pub fn remove(&mut self, region_id: u64) -> (before: Option<CachedRegionInfo>)
        requires
            old(self).wf(),
        ensures
            final(self).wf(),
            final(self)@ == old(self)@.remove(region_id),
            before == (if old(self)@.contains_key(region_id) {
                Some(old(self)@[region_id])
            } else {
                None
            }),
    {
        broadcast use vstd::std_specs::hash::group_hash_axioms;

        let slot = slot_index(region_id);
        let before = self.shards[slot].remove(&region_id);
        proof {
            lemma_table_of_remove(old(self).shard_maps(), region_id);
            assert(self.shard_maps() =~= old(self).shard_maps().update(
                slot as int,
                old(self).shard_maps()[slot as int].remove(region_id),
            ));
        }
        before
    }

    /// What the table holds for partition `region_id`.
    pub open spec fn entry(&self, region_id: u64) -> Option<CachedRegionInfo> {
        if self@.contains_key(region_id) {
            Some(self@[region_id])
        } else {
            None
        }
    }

    /// What the table holds for partition `region_id`, or the fresh state
    /// where it holds nothing.
    pub open spec fn entry_or_fresh(&self, region_id: u64) -> CachedRegionInfo {
        if self@.contains_key(region_id) {
            self@[region_id]
        } else {
            CachedRegionInfo::fresh()
        }
    }

    /// Applies `f` to the state of partition `region_id`. A partition that
    /// the table does not hold is entered with the fresh state first, so `f`
    /// is always given an entry and the partition is in the table afterwards.
    /// The table keeps what `f` answers, except that `f` cannot clear a
    /// write-once flag that was set. No other partition is touched.
    pub fn with_entry<F>(&mut self, region_id: u64, f: F) where
        F: FnOnce(CachedRegionInfo) -> CachedRegionInfo,

        requires
            old(self).wf(),
            f.requires((old(self).entry_or_fresh(region_id),)),
        ensures
            final(self).wf(),
            final(self)@.contains_key(region_id),
            (exists|answer: CachedRegionInfo|
                {
                    &&& #[trigger] f.ensures((old(self).entry_or_fresh(region_id),), answer)
                    &&& final(self)@[region_id] == write_once(
                        old(self).entry_or_fresh(region_id),
                        answer,
                    )
                }),
            final(self)@.remove(region_id) == old(self)@.remove(region_id),
    {
        let before = match self.get(region_id) {
            Some(info) => info,
            None => CachedRegionInfo::default(),
        };
        let answer = f(before);
        let _ = self.insert(
            region_id,
            CachedRegionInfo {
                replicated_or_created: before.replicated_or_created || answer.replicated_or_created,
                inited_or_fallback: before.inited_or_fallback || answer.inited_or_fallback,
                snapshot_inflight: answer.snapshot_inflight,
            },
        );
        assert(self@.remove(region_id) =~= old(self)@.remove(region_id));
    }

    /// Applies `f` to the entry of partition `region_id`, as `with_entry`
    /// does: the entry is created with the fresh state if it is absent.
    pub fn access_cached_region_info_mut<F>(&mut self, region_id: u64, f: F) where
        F: FnOnce(CachedRegionInfo) -> CachedRegionInfo,

        requires
            old(self).wf(),
            f.requires((old(self).entry_or_fresh(region_id),)),
        ensures
            final(self).wf(),
            final(self)@.contains_key(region_id),
            (exists|answer: CachedRegionInfo|
                {
                    &&& #[trigger] f.ensures((old(self).entry_or_fresh(region_id),), answer)
                    &&& final(self)@[region_id] == write_once(
                        old(self).entry_or_fresh(region_id),
                        answer,
                    )
                }),
            final(self)@.remove(region_id) == old(self)@.remove(region_id),
    {
        self.with_entry(region_id, f);
    }

    /// Forgets partition `region_id`.
    pub fn remove_cached_region_info(&mut self, region_id: u64)
        requires
            old(self).wf(),
        ensures
            final(self).wf(),
            final(self)@ == old(self)@.remove(region_id),
    {
        let _ = self.remove(region_id);
    }

    /// Puts partition `region_id` on the ordinary path where `v` is true.
    /// The flag is write-once: a partition that is on the ordinary path stays
    /// there whatever `v` is, until it is removed. The partition has to be in
    /// the table.
    pub fn set_inited_or_fallback(&mut self, region_id: u64, v: bool)
        requires
            old(self).wf(),
            old(self)@.contains_key(region_id),
        ensures
            final(self).wf(),
            final(self)@ == old(self)@.insert(
                region_id,
                CachedRegionInfo {
                    replicated_or_created: old(self)@[region_id].replicated_or_created,
                    inited_or_fallback: old(self)@[region_id].inited_or_fallback || v,
                    snapshot_inflight: old(self)@[region_id].snapshot_inflight,
                },
            ),
    {
        match self.get(region_id) {
            Some(info) => {
                let _ = self.insert(
                    region_id,
                    CachedRegionInfo {
                        replicated_or_created: info.replicated_or_created,
                        inited_or_fallback: info.inited_or_fallback || v,
                        snapshot_inflight: info.snapshot_inflight,
                    },
                );
            },
            None => {},
        }
    }

    /// Records when the outstanding fast-path snapshot of partition
    /// `region_id` was sent; 0 records that none is outstanding. The
    /// partition has to be in the table.
    pub fn set_snapshot_inflight(&mut self, region_id: u64, v: u128)
        requires
            old(self).wf(),
            old(self)@.contains_key(region_id),
        ensures
            final(self).wf(),
            final(self)@ == old(self)@.insert(
                region_id,
                CachedRegionInfo {
                    replicated_or_created: old(self)@[region_id].replicated_or_created,
                    inited_or_fallback: old(self)@[region_id].inited_or_fallback,
                    snapshot_inflight: v,
                },
            ),
    {
        match self.get(region_id) {
            Some(info) => {
                let _ = self.insert(
                    region_id,
                    CachedRegionInfo {
                        replicated_or_created: info.replicated_or_created,
                        inited_or_fallback: info.inited_or_fallback,
                        snapshot_inflight: v,
                    },
                );
            },
            None => {},
        }
    }
}

} // verus!
