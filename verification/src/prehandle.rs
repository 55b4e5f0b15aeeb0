//! Bookkeeping of the prehandling pipeline: which snapshots are being staged
//! in the background, and for which replica.

use std::sync::mpsc::Receiver;
use vstd::prelude::*;

verus! {

/// Identity of a snapshot: the partition, and the log position it was taken
/// at.
#[derive(Clone, Copy, Debug, PartialEq, Eq, Hash, Structural)]
pub struct SnapKey {
    pub region_id: u64,
    pub term: u64,
    pub idx: u64,
}

impl SnapKey {
    /// The identity of the snapshot of `region_id` at log position
    /// (`term`, `idx`).
    pub fn new(region_id: u64, term: u64, idx: u64) -> (key: SnapKey)
        ensures
            key == (SnapKey { region_id, term, idx }),
    {
        SnapKey { region_id, term, idx }
    }
}

/// A staged snapshot as the storage engine handed it out. The library never
/// looks inside.
#[derive(Debug)]
pub struct PtrWrapper<P>(pub P);

/// One snapshot that is being staged in the background.
#[derive(Debug)]
#[verifier::reject_recursive_types(P)]
pub struct PrehandleTask<P> {
    /// Where the staged snapshot arrives once the background job is done.
    pub recv: Receiver<PtrWrapper<P>>,
    /// The replica that the snapshot is staged for.
    pub peer_id: u64,
}

impl<P> PrehandleTask<P> {
    /// A task for replica `peer_id` whose result arrives on `recv`.
    pub fn new(recv: Receiver<PtrWrapper<P>>, peer_id: u64) -> (task: PrehandleTask<P>)
        ensures
            task.recv == recv,
            task.peer_id == peer_id,
    {
        PrehandleTask { recv, peer_id }
    }
}

/// One entry of the tracking table.
#[verifier::reject_recursive_types(P)]
struct Slot<P> {
    key: SnapKey,
    task: PrehandleTask<P>,
}

/// Some entry of `entries` is for snapshot `key`.
spec fn tracks<P>(entries: Seq<Slot<P>>, key: SnapKey) -> bool {
    exists|i: int| 0 <= i < entries.len() && (#[trigger] entries[i]).key == key
}

/// An index at which `entries` holds snapshot `key`.
spec fn position<P>(entries: Seq<Slot<P>>, key: SnapKey) -> int {
    choose|i: int| 0 <= i < entries.len() && (#[trigger] entries[i]).key == key
}

/// No snapshot identity occurs twice in `entries`.
spec fn keys_distinct<P>(entries: Seq<Slot<P>>) -> bool {
    forall|i: int, j: int|
        0 <= i < j < entries.len() ==> (#[trigger] entries[i]).key != (#[trigger] entries[j]).key
}

/// The map that `entries` stands for.
spec fn as_map<P>(entries: Seq<Slot<P>>) -> Map<SnapKey, PrehandleTask<P>> {
    Map::new(|key: SnapKey| tracks(entries, key), |key: SnapKey| entries[position(entries, key)].task)
}

proof fn lemma_position<P>(entries: Seq<Slot<P>>, i: int)
    requires
        keys_distinct(entries),
        0 <= i < entries.len(),
    ensures
        tracks(entries, entries[i].key),
        position(entries, entries[i].key) == i,
        as_map(entries).dom().contains(entries[i].key),
        as_map(entries)[entries[i].key] == entries[i].task,
{
    let key = entries[i].key;
    let p = position(entries, key);
    assert(0 <= p < entries.len() && entries[p].key == key);
    if p < i {
        assert(entries[p].key != entries[i].key);
    } else if i < p {
        assert(entries[i].key != entries[p].key);
    }
}

proof fn lemma_as_map_push<P>(entries: Seq<Slot<P>>, added: Slot<P>)
    requires
        keys_distinct(entries),
        !tracks(entries, added.key),
    ensures
        keys_distinct(entries.push(added)),
        as_map(entries.push(added)) == as_map(entries).insert(added.key, added.task),
{
    let after = entries.push(added);
    assert forall|i: int, j: int| 0 <= i < j < after.len() implies (#[trigger] after[i]).key != (
    #[trigger] after[j]).key by {
        if j == entries.len() {
            assert(entries[i].key != added.key);
        } else {
            assert(entries[i].key != entries[j].key);
        }
    }
    let got = as_map(after);
    let wanted = as_map(entries).insert(added.key, added.task);
    assert forall|key: SnapKey| #[trigger] got.dom().contains(key) == wanted.dom().contains(key) by {
        if tracks(after, key) {
            let i = position(after, key);
            if i < entries.len() {
                assert(entries[i].key == key);
            }
        }
        if tracks(entries, key) {
            let i = position(entries, key);
            assert(after[i].key == key);
        }
        if key == added.key {
            assert(after[entries.len() as int].key == key);
        }
    }
    assert(got.dom() =~= wanted.dom());
    assert forall|key: SnapKey| got.dom().contains(key) implies #[trigger] got[key] == wanted[key] by {
        let i = position(after, key);
        lemma_position(after, i);
        if i < entries.len() {
            lemma_position(entries, i);
        }
    }
    assert(got =~= wanted);
}

proof fn lemma_as_map_update<P>(entries: Seq<Slot<P>>, at: int, task: PrehandleTask<P>)
    requires
        keys_distinct(entries),
        0 <= at < entries.len(),
    ensures
        keys_distinct(entries.update(at, Slot { key: entries[at].key, task })),
        as_map(entries.update(at, Slot { key: entries[at].key, task })) == as_map(
            entries,
        ).insert(entries[at].key, task),
{
    let after = entries.update(at, Slot { key: entries[at].key, task });
    assert forall|i: int, j: int| 0 <= i < j < after.len() implies (#[trigger] after[i]).key != (
    #[trigger] after[j]).key by {
        assert(entries[i].key != entries[j].key);
    }
    let got = as_map(after);
    let wanted = as_map(entries).insert(entries[at].key, task);
    assert forall|key: SnapKey| #[trigger] got.dom().contains(key) == wanted.dom().contains(key) by {
        if tracks(after, key) {
            let i = position(after, key);
            assert(entries[i].key == key);
        }
        if tracks(entries, key) {
            let i = position(entries, key);
            assert(after[i].key == key);
        }
        if key == entries[at].key {
            assert(after[at].key == key);
        }
    }
    assert(got.dom() =~= wanted.dom());
    assert forall|key: SnapKey| got.dom().contains(key) implies #[trigger] got[key] == wanted[key] by {
        let i = position(after, key);
        lemma_position(after, i);
        lemma_position(entries, i);
    }
    assert(got =~= wanted);
}

proof fn lemma_as_map_swap_remove<P>(entries: Seq<Slot<P>>, at: int)
    requires
        keys_distinct(entries),
        0 <= at < entries.len(),
    ensures
        keys_distinct(entries.update(at, entries.last()).drop_last()),
        as_map(entries.update(at, entries.last()).drop_last()) == as_map(entries).remove(
            entries[at].key,
        ),
{
    let last = entries.len() - 1;
    let after = entries.update(at, entries.last()).drop_last();
    assert forall|i: int| 0 <= i < after.len() implies (#[trigger] after[i]) == entries[if i
        == at {
        last
    } else {
        i
    }] by {}
    assert forall|i: int, j: int| 0 <= i < j < after.len() implies (#[trigger] after[i]).key != (
    #[trigger] after[j]).key by {
        let oi = if i == at {
            last
        } else {
            i
        };
        let oj = if j == at {
            last
        } else {
            j
        };
        if oi < oj {
            assert(entries[oi].key != entries[oj].key);
        } else {
            assert(entries[oj].key != entries[oi].key);
        }
    }
    let got = as_map(after);
    let wanted = as_map(entries).remove(entries[at].key);
    assert forall|key: SnapKey| #[trigger] got.dom().contains(key) == wanted.dom().contains(key) by {
        if tracks(after, key) {
            let i = position(after, key);
            let oi = if i == at {
                last
            } else {
                i
            };
            assert(entries[oi].key == key);
            if oi < at {
                assert(entries[oi].key != entries[at].key);
            } else {
                assert(entries[at].key != entries[oi].key);
            }
        }
        if tracks(entries, key) && key != entries[at].key {
            let i = position(entries, key);
            if i == last {
                assert(after[at].key == key);
            } else {
                assert(after[i].key == key);
            }
        }
    }
    assert(got.dom() =~= wanted.dom());
    assert forall|key: SnapKey| got.dom().contains(key) implies #[trigger] got[key] == wanted[key] by {
        let i = position(after, key);
        lemma_position(after, i);
        let oi = if i == at {
            last
        } else {
            i
        };
        lemma_position(entries, oi);
    }
    assert(got =~= wanted);
}

proof fn lemma_as_map_len<P>(entries: Seq<Slot<P>>)
    requires
        keys_distinct(entries),
    ensures
        as_map(entries).dom().finite(),
        as_map(entries).dom().len() == entries.len(),
    decreases entries.len(),
{
    if entries.len() == 0 {
        assert(as_map(entries).dom() =~= Set::<SnapKey>::empty());
    } else {
        let prefix = entries.drop_last();
        let last = entries.last();
        assert forall|i: int, j: int| 0 <= i < j < prefix.len() implies (#[trigger] prefix[i]).key
            != (#[trigger] prefix[j]).key by {
            assert(entries[i].key != entries[j].key);
        }
        if tracks(prefix, last.key) {
            let i = position(prefix, last.key);
            assert(entries[i].key != entries[entries.len() - 1].key);
        }
        lemma_as_map_len(prefix);
        lemma_as_map_push(prefix, last);
        assert(prefix.push(last) =~= entries);
        assert(as_map(entries).dom() =~= as_map(prefix).dom().insert(last.key));
    }
}

/// How many entries of `entries` belong to partition `region_id`.
spec fn count_of_region<P>(entries: Seq<Slot<P>>, region_id: u64) -> nat
    decreases entries.len(),
{
    if entries.len() == 0 {
        0
    } else {
        count_of_region(entries.drop_last(), region_id) + (if entries.last().key.region_id
            == region_id {
            1nat
        } else {
            0nat
        })
    }
}

proof fn lemma_count_of_region<P>(entries: Seq<Slot<P>>, region_id: u64)
    requires
        keys_distinct(entries),
    ensures
        as_map(entries).dom().filter(region_filter(region_id)).finite(),
        as_map(entries).dom().filter(region_filter(region_id)).len() == count_of_region(
            entries,
            region_id,
        ),
        count_of_region(entries, region_id) <= entries.len(),
    decreases entries.len(),
{
    let keep = region_filter(region_id);
    if entries.len() == 0 {
        assert(as_map(entries).dom().filter(keep) =~= Set::<SnapKey>::empty());
    } else {
        let prefix = entries.drop_last();
        let last = entries.last();
        assert forall|i: int, j: int| 0 <= i < j < prefix.len() implies (#[trigger] prefix[i]).key
            != (#[trigger] prefix[j]).key by {
            assert(entries[i].key != entries[j].key);
        }
        if tracks(prefix, last.key) {
            let i = position(prefix, last.key);
            assert(entries[i].key != entries[entries.len() - 1].key);
        }
        lemma_count_of_region(prefix, region_id);
        lemma_as_map_push(prefix, last);
        assert(prefix.push(last) =~= entries);
        let before = as_map(prefix).dom().filter(keep);
        let after = as_map(entries).dom().filter(keep);
        if last.key.region_id == region_id {
            assert(after =~= before.insert(last.key));
        } else {
            assert(after =~= before);
        }
    }
}

/// The test that picks the snapshots of partition `region_id`.
pub open spec fn region_filter(region_id: u64) -> spec_fn(SnapKey) -> bool {
    |key: SnapKey| key.region_id == region_id
}

/// The number of snapshots of partition `region_id` among the keys of
/// `tasks`.
pub open spec fn count_in_region<V>(tasks: Map<SnapKey, V>, region_id: u64) -> nat {
    tasks.dom().filter(region_filter(region_id)).len()
}

/// Tracking one more snapshot adds one to the count of its partition, unless
/// the snapshot was tracked already, and leaves every other count as it is.
pub proof fn lemma_insert_counts<V>(tasks: Map<SnapKey, V>, key: SnapKey, task: V, region_id: u64)
    requires
        tasks.dom().finite(),
    ensures
        count_in_region(tasks.insert(key, task), region_id) == count_in_region(tasks, region_id) + (
        if key.region_id == region_id && !tasks.contains_key(key) {
            1nat
        } else {
            0nat
        }),
{
    let keep = region_filter(region_id);
    let before = tasks.dom().filter(keep);
    let after = tasks.insert(key, task).dom().filter(keep);
    tasks.dom().lemma_len_filter(keep);
    if key.region_id == region_id {
        assert(after =~= before.insert(key));
    } else {
        assert(after =~= before);
    }
}

/// Dropping a snapshot takes one off the count of its partition, if the
/// snapshot was tracked, and leaves every other count as it is.
pub proof fn lemma_remove_counts<V>(tasks: Map<SnapKey, V>, key: SnapKey, region_id: u64)
    requires
        tasks.dom().finite(),
    ensures
        count_in_region(tasks.remove(key), region_id) == count_in_region(tasks, region_id) - (
        if key.region_id == region_id && tasks.contains_key(key) {
            1int
        } else {
            0int
        }),
{
    let keep = region_filter(region_id);
    let before = tasks.dom().filter(keep);
    let after = tasks.remove(key).dom().filter(keep);
    tasks.dom().lemma_len_filter(keep);
    if key.region_id == region_id {
        assert(after =~= before.remove(key));
    } else {
        assert(after =~= before);
    }
}

/// The identities of all snapshots of partition `region_id`.
pub open spec fn of_region(region_id: u64) -> Set<SnapKey> {
    Set::new(|key: SnapKey| key.region_id == region_id)
}

/// The tracking table of the prehandling pipeline: at most one task for each
/// snapshot identity.
#[verifier::reject_recursive_types(P)]
pub struct PrehandleContext<P> {
    tracer: Vec<Slot<P>>,
}

impl<P> View for PrehandleContext<P> {
    type V = Map<SnapKey, PrehandleTask<P>>;

    /// The table as a map from snapshot identity to the task tracked for it.
    closed spec fn view(&self) -> Map<SnapKey, PrehandleTask<P>> {
        as_map(self.tracer@)
    }
}

impl<P> PrehandleContext<P> {
    /// No snapshot identity is tracked twice.
    pub closed spec fn wf(&self) -> bool {
        keys_distinct(self.tracer@)
    }

    /// How many tasks are tracked.
    pub closed spec fn count(&self) -> nat {
        self.tracer@.len()
    }

    /// The number of tracked tasks is the number of snapshot identities that
    /// the table maps.
    pub proof fn lemma_count_is_len(&self)
        requires
            self.wf(),
        ensures
            self@.dom().finite(),
            self@.len() == self.count(),
    {
        lemma_as_map_len(self.tracer@);
    }

    /// A table that tracks nothing.
    pub fn new() -> (ctx: PrehandleContext<P>)
        ensures
            ctx.wf(),
            ctx@ == Map::<SnapKey, PrehandleTask<P>>::empty(),
            ctx.count() == 0,
    {
        let ctx = PrehandleContext { tracer: Vec::new() };
        assert(ctx@ =~= Map::<SnapKey, PrehandleTask<P>>::empty());
        ctx
    }

    /// The number of tracked tasks.
    pub fn len(&self) -> (n: usize)
        ensures
            n == self.count(),
    {
        self.tracer.len()
    }

    fn find(&self, key: &SnapKey) -> (at: Option<usize>)
        requires
            self.wf(),
        ensures
            match at {
                Some(i) => i < self.tracer@.len() && self.tracer@[i as int].key == *key,
                None => !tracks(self.tracer@, *key),
            },
            at.is_some() == self@.contains_key(*key),
    {
        let mut i: usize = 0;
        while i < self.tracer.len()
            invariant
                i <= self.tracer@.len(),
                forall|j: int| 0 <= j < i ==> (#[trigger] self.tracer@[j]).key != *key,
            decreases self.tracer@.len() - i,
        {
            if self.tracer[i].key == *key {
                assert(tracks(self.tracer@, *key));
                return Some(i);
            }
            i += 1;
        }
        None
    }

    /// Whether a task is tracked for snapshot `key`.
    pub fn contains(&self, key: &SnapKey) -> (present: bool)
        requires
            self.wf(),
        ensures
            present == self@.contains_key(*key),
    {
        self.find(key).is_some()
    }

    /// Tracks `task` for snapshot `key`. A task that was tracked for the same
    /// identity is replaced and handed back.
    pub fn insert(&mut self, key: SnapKey, task: PrehandleTask<P>) -> (replaced: Option<
        PrehandleTask<P>,
    >)
        requires
            old(self).wf(),
        ensures
            final(self).wf(),
            final(self)@ == old(self)@.insert(key, task),
            replaced == (if old(self)@.contains_key(key) {
                Some(old(self)@[key])
            } else {
                None
            }),
            final(self).count() == old(self).count() + (if old(self)@.contains_key(key) {
                0nat
            } else {
                1nat
            }),
            1 <= final(self).count() <= usize::MAX,
    {
        match self.find(&key) {
            Some(i) => {
                proof {
                    lemma_position(self.tracer@, i as int);
                    lemma_as_map_update(self.tracer@, i as int, task);
                }
                let ghost before = self.tracer@;
                self.tracer.push(Slot { key, task });
                let was = self.tracer.swap_remove(i);
                assert(self.tracer@ =~= before.update(i as int, Slot { key, task }));
                assert(self.tracer.len() == self.tracer@.len());
                Some(was.task)
            },
            None => {
                proof {
                    lemma_as_map_push(self.tracer@, Slot { key, task });
                }
                self.tracer.push(Slot { key, task });
                assert(self.tracer.len() == self.tracer@.len());
                None
            },
        }
    }

    /// Stops tracking snapshot `key`, and hands back the task that was tracked
    /// for it.
    pub fn remove(&mut self, key: &SnapKey) -> (removed: Option<PrehandleTask<P>>)
        requires
            old(self).wf(),
        ensures
            final(self).wf(),
            final(self)@ == old(self)@.remove(*key),
            removed == (if old(self)@.contains_key(*key) {
                Some(old(self)@[*key])
            } else {
                None
            }),
            final(self).count() == old(self).count() - (if old(self)@.contains_key(*key) {
                1int
            } else {
                0int
            }),
    {
        match self.find(key) {
            Some(i) => {
                proof {
                    lemma_position(self.tracer@, i as int);
                    lemma_as_map_swap_remove(self.tracer@, i as int);
                }
                let was = self.tracer.swap_remove(i);
                Some(was.task)
            },
            None => {
                assert(self@.remove(*key) =~= self@);
                None
            },
        }
    }

    /// Stops tracking every snapshot of partition `region_id`, and says how
    /// many tasks were dropped.
    pub fn remove_region(&mut self, region_id: u64) -> (dropped: usize)
        requires
            old(self).wf(),
        ensures
            final(self).wf(),
            final(self)@ == old(self)@.remove_keys(of_region(region_id)),
            final(self).count() + dropped == old(self).count(),
    {
        let mut dropped: usize = 0;
        let mut i: usize = 0;
        assert(self.tracer.len() == self.tracer@.len());
        while i < self.tracer.len()
            invariant
                keys_distinct(self.tracer@),
                old(self).tracer@.len() <= usize::MAX,
                i <= self.tracer@.len(),
                self.tracer@.len() + dropped == old(self).tracer@.len(),
                forall|j: int| 0 <= j < i ==> (#[trigger] self.tracer@[j]).key.region_id != region_id,
                forall|key: SnapKey| #[trigger]
                    as_map(self.tracer@).dom().contains(key) ==> as_map(
                        old(self).tracer@,
                    ).dom().contains(key) && as_map(self.tracer@)[key] == as_map(
                        old(self).tracer@,
                    )[key],
                forall|key: SnapKey|
                    key.region_id != region_id && #[trigger] as_map(
                        old(self).tracer@,
                    ).dom().contains(key) ==> as_map(self.tracer@).dom().contains(key),
            decreases self.tracer@.len() - i,
        {
            if self.tracer[i].key.region_id == region_id {
                proof {
                    lemma_position(self.tracer@, i as int);
                    lemma_as_map_swap_remove(self.tracer@, i as int);
                }
                let _ = self.tracer.swap_remove(i);
                dropped += 1;
            } else {
                i += 1;
            }
        }
        proof {
            let got = as_map(self.tracer@);
            let wanted = as_map(old(self).tracer@).remove_keys(of_region(region_id));
            assert forall|key: SnapKey| #[trigger]
                got.dom().contains(key) == wanted.dom().contains(key) by {
                if got.dom().contains(key) {
                    let p = position(self.tracer@, key);
                    assert(self.tracer@[p].key.region_id != region_id);
                }
            }
            assert(got.dom() =~= wanted.dom());
            assert(got =~= wanted);
        }
        dropped
    }

    /// Counts the tracked snapshots of partition `region_id`.
    pub fn len_of_region(&self, region_id: u64) -> (n: usize)
        requires
            self.wf(),
        ensures
            n == count_in_region(self@, region_id),
    {
        let mut n: usize = 0;
        let mut i: usize = 0;
        assert(self.tracer@.subrange(0, 0) =~= Seq::<Slot<P>>::empty());
        while i < self.tracer.len()
            invariant
                i <= self.tracer@.len(),
                n == count_of_region(self.tracer@.subrange(0, i as int), region_id),
                n <= i,
            decreases self.tracer@.len() - i,
        {
            proof {
                let upto = self.tracer@.subrange(0, i + 1);
                assert(upto.drop_last() =~= self.tracer@.subrange(0, i as int));
                assert(upto.last() == self.tracer@[i as int]);
            }
            if self.tracer[i].key.region_id == region_id {
                n += 1;
            }
            i += 1;
        }
        proof {
            assert(self.tracer@.subrange(0, i as int) =~= self.tracer@);
            lemma_count_of_region(self.tracer@, region_id);
        }
        n
    }
}

} // verus!
