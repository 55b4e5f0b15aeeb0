use tiflash_proxy::cached_region_info::{slot_index, CachedRegionInfo, CachedRegionInfoManager};

fn info(replicated: bool, inited: bool, inflight: u128) -> CachedRegionInfo {
    CachedRegionInfo {
        replicated_or_created: replicated,
        inited_or_fallback: inited,
        snapshot_inflight: inflight,
    }
}

#[test]
fn default_entry_is_fresh() {
    assert_eq!(CachedRegionInfo::default(), info(false, false, 0));
}

#[test]
fn new_table_is_empty() {
    let table = CachedRegionInfoManager::new();
    for id in 0..1000u64 {
        assert_eq!(table.get(id), None);
    }
}

fn put(table: &mut CachedRegionInfoManager, id: u64, state: CachedRegionInfo) {
    table.with_entry(id, |_| state);
}

#[test]
fn enter_get_remove() {
    let mut table = CachedRegionInfoManager::new();
    put(&mut table, 1, info(true, false, 0));
    assert_eq!(table.get(1), Some(info(true, false, 0)));
    put(&mut table, 1, info(true, true, 9));
    assert_eq!(table.get(1), Some(info(true, true, 9)));
    assert_eq!(table.get(2), None);
    assert_eq!(table.remove(1), Some(info(true, true, 9)));
    assert_eq!(table.get(1), None);
    assert_eq!(table.remove(1), None);
}

#[test]
fn partitions_of_one_shard_are_kept_apart() {
    assert_eq!(slot_index(4), slot_index(7));
    let mut table = CachedRegionInfoManager::new();
    put(&mut table, 4, info(true, false, 44));
    put(&mut table, 7, info(false, true, 77));
    assert_eq!(table.get(4), Some(info(true, false, 44)));
    assert_eq!(table.get(7), Some(info(false, true, 77)));
    table.remove_cached_region_info(4);
    assert_eq!(table.get(4), None);
    assert_eq!(table.get(7), Some(info(false, true, 77)));
}

#[test]
fn many_partitions() {
    let mut table = CachedRegionInfoManager::new();
    for id in 0..3000u64 {
        put(&mut table, id, info(id % 2 == 0, id % 3 == 0, id as u128));
    }
    for id in 0..3000u64 {
        assert_eq!(table.get(id), Some(info(id % 2 == 0, id % 3 == 0, id as u128)));
    }
    for id in (0..3000u64).step_by(2) {
        table.remove_cached_region_info(id);
    }
    for id in 0..3000u64 {
        if id % 2 == 0 {
            assert_eq!(table.get(id), None);
        } else {
            assert_eq!(table.get(id), Some(info(false, id % 3 == 0, id as u128)));
        }
    }
}

#[test]
fn access_creates_the_default_entry_if_absent() {
    let mut table = CachedRegionInfoManager::new();
    put(&mut table, 9, info(false, false, 0));
    // Absent: the closure is handed the fresh entry, and the entry exists
    // afterwards even if the closure changes nothing.
    table.access_cached_region_info_mut(5, |entry| {
        assert_eq!(entry, CachedRegionInfo::default());
        entry
    });
    assert_eq!(table.get(5), Some(info(false, false, 0)));
    // Present: the closure sees the entry and may change it.
    table.access_cached_region_info_mut(5, |mut entry| {
        assert_eq!(entry, info(false, false, 0));
        entry.replicated_or_created = true;
        entry.snapshot_inflight = 12;
        entry
    });
    assert_eq!(table.get(5), Some(info(true, false, 12)));
    assert_eq!(table.get(6), None);
    assert_eq!(table.get(9), Some(info(false, false, 0)));
}

#[test]
fn closures_cannot_clear_the_write_once_flags() {
    let mut table = CachedRegionInfoManager::new();
    put(&mut table, 5, info(true, true, 12));
    table.access_cached_region_info_mut(5, |_| info(false, false, 0));
    assert_eq!(table.get(5), Some(info(true, true, 0)));
    table.with_entry(5, |_| info(false, false, 3));
    assert_eq!(table.get(5), Some(info(true, true, 3)));
    // Only removal resets them.
    table.remove_cached_region_info(5);
    table.with_entry(5, |entry| entry);
    assert_eq!(table.get(5), Some(info(false, false, 0)));
}

#[test]
fn setters_touch_one_field() {
    let mut table = CachedRegionInfoManager::new();
    put(&mut table, 3, info(true, false, 0));
    table.set_snapshot_inflight(3, 1_700_000_000_000);
    assert_eq!(table.get(3), Some(info(true, false, 1_700_000_000_000)));
    table.set_inited_or_fallback(3, false);
    assert_eq!(table.get(3), Some(info(true, false, 1_700_000_000_000)));
    table.set_inited_or_fallback(3, true);
    assert_eq!(table.get(3), Some(info(true, true, 1_700_000_000_000)));
    table.set_snapshot_inflight(3, 0);
    assert_eq!(table.get(3), Some(info(true, true, 0)));
}

#[test]
fn inited_or_fallback_is_write_once() {
    let mut table = CachedRegionInfoManager::new();
    put(&mut table, 3, info(true, true, 7));
    table.set_inited_or_fallback(3, false);
    assert_eq!(table.get(3), Some(info(true, true, 7)));
    table.set_inited_or_fallback(3, true);
    assert_eq!(table.get(3), Some(info(true, true, 7)));
    // Removal is the only way back.
    table.remove_cached_region_info(3);
    assert_eq!(table.get(3), None);
    put(&mut table, 3, info(false, false, 0));
    assert_eq!(table.get(3), Some(info(false, false, 0)));
}

#[test]
fn snapshot_inflight_holds_large_timestamps() {
    let mut table = CachedRegionInfoManager::new();
    put(&mut table, 3, info(true, false, 0));
    table.set_snapshot_inflight(3, u128::MAX);
    assert_eq!(table.get(3).unwrap().snapshot_inflight, u128::MAX);
}

#[test]
fn with_entry_creates_the_fresh_state_first() {
    let mut table = CachedRegionInfoManager::new();
    table.with_entry(5, |found| {
        assert_eq!(found, CachedRegionInfo::default());
        found
    });
    assert_eq!(table.get(5), Some(info(false, false, 0)));
    table.with_entry(5, |mut found| {
        found.snapshot_inflight = 17;
        found
    });
    assert_eq!(table.get(5), Some(info(false, false, 17)));
    table.with_entry(6, |mut found| {
        found.replicated_or_created = true;
        found
    });
    assert_eq!(table.get(6), Some(info(true, false, 0)));
    assert_eq!(table.get(5), Some(info(false, false, 17)));
}
