use std::sync::mpsc::channel;
use tiflash_proxy::cached_region_info::CachedRegionInfo;
use tiflash_proxy::engine::{EngineStoreConfig, ProxyEngineExt};
use tiflash_proxy::forwarder::{
    consume_prehandled, PostApplyAction, PreApplyAction, PrehandleOutcome, ProxyForwarder, Taken,
};
use tiflash_proxy::interfaces::ColumnFamilyType;
use tiflash_proxy::metapb::{Region, RegionEpoch};
use tiflash_proxy::observer::{RegionChangeEvent, TiFlashObserver};
use tiflash_proxy::prehandle::{PrehandleContext, PrehandleTask, PtrWrapper, SnapKey};
use tiflash_proxy::snap::{retrieve_sst_files, CfFile, SSTInfo, Snapshot};

const REGION: u64 = 1;
const PEER: u64 = 20;

fn region(id: u64) -> Region {
    Region {
        id,
        start_key: vec![],
        end_key: vec![],
        region_epoch: RegionEpoch { conf_ver: 1, version: 1 },
        peers: vec![],
    }
}

fn snapshot() -> Snapshot {
    Snapshot {
        cf_files: vec![
            CfFile {
                cf: ColumnFamilyType::Default,
                size: vec![100],
                file_paths: vec!["/snap/rev_1_3_10_default.sst".to_string()],
            },
            CfFile { cf: ColumnFamilyType::Lock, size: vec![0], file_paths: vec![] },
            CfFile {
                cf: ColumnFamilyType::Write,
                size: vec![7, 8],
                file_paths: vec![
                    "/snap/rev_1_3_10_write_0000.sst".to_string(),
                    "/snap/rev_1_3_10_write_0001.sst".to_string(),
                ],
            },
        ],
        tablet_snap_path: String::new(),
    }
}

fn plain(path: &str, cf: ColumnFamilyType) -> SSTInfo {
    SSTInfo { path: path.to_string(), cf, tablet: false }
}

fn snapshot_ssts() -> Vec<SSTInfo> {
    vec![
        plain("/snap/rev_1_3_10_default.sst", ColumnFamilyType::Default),
        plain("/snap/rev_1_3_10_write_0000.sst", ColumnFamilyType::Write),
        plain("/snap/rev_1_3_10_write_0001.sst", ColumnFamilyType::Write),
    ]
}

fn forwarder(fast: bool, pool: bool) -> ProxyForwarder<u64> {
    let mut engine = ProxyEngineExt::new();
    engine.init(7, 2);
    ProxyForwarder::new(5, engine, pool, EngineStoreConfig { enable_fast_add_peer: fast })
}

fn key() -> SnapKey {
    SnapKey::new(REGION, 3, 10)
}

#[test]
fn snap_key_new_keeps_its_parts() {
    assert_eq!(key(), SnapKey { region_id: REGION, term: 3, idx: 10 });
}

#[test]
fn new_forwarder_is_empty() {
    let fw = forwarder(true, true);
    assert_eq!(fw.store_id, 5);
    assert_eq!(fw.engine.engine_store_server_helper, 7);
    assert_eq!(fw.engine.pool_capacity, 2);
    assert_eq!(fw.engine.pending_applies_count, 0);
    assert_eq!(fw.pre_handle_snapshot_ctx.len(), 0);
    assert_eq!(fw.get_cached_manager().get(REGION), None);
    assert!(fw.should_pre_apply_snapshot());
}

#[test]
fn retrieve_sst_files_skips_empty_column_families() {
    assert_eq!(retrieve_sst_files(&snapshot()), snapshot_ssts());
    let empty = Snapshot {
        cf_files: vec![CfFile {
            cf: ColumnFamilyType::Default,
            size: vec![],
            file_paths: vec!["/snap/unused.sst".to_string()],
        }],
        tablet_snap_path: String::new(),
    };
    assert_eq!(retrieve_sst_files(&empty), vec![]);
}

#[test]
fn retrieve_sst_files_of_a_tablet_names_its_directory_three_times() {
    let mut snap = snapshot();
    snap.tablet_snap_path = "/tablets/1_10".to_string();
    let tablet = |cf| SSTInfo { path: "/tablets/1_10".to_string(), cf, tablet: true };
    assert_eq!(
        retrieve_sst_files(&snap),
        vec![
            tablet(ColumnFamilyType::Default),
            tablet(ColumnFamilyType::Lock),
            tablet(ColumnFamilyType::Write)
        ]
    );
}

#[test]
fn submission_is_tracked_and_counted() {
    let mut fw = forwarder(false, true);
    let snap = snapshot();
    let action = fw.pre_apply_snapshot(&region(REGION), PEER, &key(), Some(&snap));
    match action {
        PreApplyAction::Prehandle { peer_id, snap_key, ssts, .. } => {
            assert_eq!(peer_id, PEER);
            assert_eq!(snap_key, key());
            assert_eq!(ssts, snapshot_ssts());
        }
        PreApplyAction::Idle => panic!("the snapshot was not submitted"),
    }
    assert_eq!(fw.engine.pending_applies_count, 1);
    assert_eq!(fw.pre_handle_snapshot_ctx.len(), 1);
    assert!(fw.pre_handle_snapshot_ctx.contains(&key()));
}

#[test]
fn staged_result_is_ingested() {
    let mut fw = forwarder(false, true);
    let snap = snapshot();
    let action = fw.pre_apply_snapshot_impl(&region(REGION), PEER, &key(), Some(&snap));
    let sender = match action {
        PreApplyAction::Prehandle { sender, .. } => sender,
        PreApplyAction::Idle => panic!("the snapshot was not submitted"),
    };
    sender.send(PtrWrapper(4711)).unwrap();
    let action = fw.post_apply_snapshot(&region(REGION), PEER, &key(), Some(&snap));
    match action {
        PostApplyAction::Ingest(PtrWrapper(staged)) => assert_eq!(staged, 4711),
        _ => panic!("the staged snapshot was not ingested"),
    }
    assert_eq!(fw.engine.pending_applies_count, 0);
    assert!(!fw.pre_handle_snapshot_ctx.contains(&key()));
}

#[test]
fn superseded_task_is_discarded_and_not_counted_twice() {
    let mut fw = forwarder(false, true);
    let snap = snapshot();
    let key = SnapKey::new(REGION, 3, 10);
    let first = match fw.pre_apply_snapshot(&region(REGION), PEER, &key, Some(&snap)) {
        PreApplyAction::Prehandle { sender, .. } => sender,
        PreApplyAction::Idle => panic!("the first snapshot was not submitted"),
    };
    assert_eq!(fw.engine.pending_applies_count, 1);
    let second = match fw.pre_apply_snapshot(&region(REGION), PEER, &key, Some(&snap)) {
        PreApplyAction::Prehandle { sender, .. } => sender,
        PreApplyAction::Idle => panic!("the second snapshot was not submitted"),
    };
    assert_eq!(fw.engine.pending_applies_count, 1);
    assert_eq!(fw.pre_handle_snapshot_ctx.len(), 1);
    // The first job finishes late: nobody listens any more.
    assert!(first.send(PtrWrapper(1)).is_err());
    second.send(PtrWrapper(2)).unwrap();
    match fw.post_apply_snapshot(&region(REGION), PEER, &key, Some(&snap)) {
        PostApplyAction::Ingest(PtrWrapper(staged)) => assert_eq!(staged, 2),
        _ => panic!("the staged snapshot was not ingested"),
    }
    assert_eq!(fw.engine.pending_applies_count, 0);
    assert_eq!(fw.pre_handle_snapshot_ctx.len(), 0);
}

#[test]
fn untracked_snapshot_is_staged_again() {
    let mut fw = forwarder(false, true);
    let snap = snapshot();
    let action = fw.post_apply_snapshot(&region(REGION), PEER, &key(), Some(&snap));
    assert!(action.need_retry());
    match action {
        PostApplyAction::Regenerate { ssts } => assert_eq!(ssts, snapshot_ssts()),
        _ => panic!("the snapshot was not staged again"),
    }
    assert_eq!(fw.engine.pending_applies_count, 0);
}

#[test]
fn closed_channel_is_staged_again_and_uncounted() {
    let mut fw = forwarder(false, true);
    let snap = snapshot();
    let action = fw.pre_apply_snapshot(&region(REGION), PEER, &key(), Some(&snap));
    // The job is dropped without a result.
    drop(action);
    assert_eq!(fw.engine.pending_applies_count, 1);
    let action = fw.post_apply_snapshot(&region(REGION), PEER, &key(), Some(&snap));
    match action {
        PostApplyAction::Regenerate { ssts } => assert_eq!(ssts, snapshot_ssts()),
        _ => panic!("the snapshot was not staged again"),
    }
    assert_eq!(fw.engine.pending_applies_count, 0);
    assert_eq!(fw.pre_handle_snapshot_ctx.len(), 0);
}

#[test]
fn without_a_pool_nothing_is_submitted_and_everything_is_staged_again() {
    let mut fw = forwarder(false, false);
    let snap = snapshot();
    for idx in 0..5u64 {
        let key = SnapKey::new(REGION, 3, idx);
        let action = fw.pre_apply_snapshot(&region(REGION), PEER, &key, Some(&snap));
        assert!(matches!(action, PreApplyAction::Idle));
        assert_eq!(fw.engine.pending_applies_count, 0);
        assert_eq!(fw.pre_handle_snapshot_ctx.len(), 0);
        let action = fw.post_apply_snapshot(&region(REGION), PEER, &key, Some(&snap));
        assert!(action.need_retry());
        assert!(matches!(action, PostApplyAction::Regenerate { .. }));
    }
}

#[test]
fn snapshot_without_data_is_left_alone() {
    let mut fw = forwarder(false, true);
    let action = fw.pre_apply_snapshot(&region(REGION), PEER, &key(), None);
    assert!(matches!(action, PreApplyAction::Idle));
    assert_eq!(fw.engine.pending_applies_count, 0);
    let action = fw.post_apply_snapshot(&region(REGION), PEER, &key(), None);
    assert!(matches!(action, PostApplyAction::Idle));
    assert!(!action.need_retry());
}

#[test]
fn snapshot_without_data_leaves_a_tracked_task_alone() {
    let mut fw = forwarder(false, true);
    let snap = snapshot();
    let _job = fw.pre_apply_snapshot(&region(REGION), PEER, &key(), Some(&snap));
    let action = fw.post_apply_snapshot(&region(REGION), PEER, &key(), None);
    assert!(matches!(action, PostApplyAction::Idle));
    assert_eq!(fw.engine.pending_applies_count, 1);
    assert!(fw.pre_handle_snapshot_ctx.contains(&key()));
}

#[test]
fn first_snapshot_of_a_fast_path_partition_is_not_staged() {
    let mut fw = forwarder(true, true);
    let snap = snapshot();
    fw.cached_region_info.with_entry(REGION, |_| CachedRegionInfo {
        replicated_or_created: true,
        inited_or_fallback: false,
        snapshot_inflight: 555,
    });
    let action = fw.pre_apply_snapshot(&region(REGION), PEER, &key(), Some(&snap));
    assert!(matches!(action, PreApplyAction::Idle));
    assert_eq!(fw.engine.pending_applies_count, 0);
    let action = fw.post_apply_snapshot(&region(REGION), PEER, &key(), Some(&snap));
    assert!(matches!(action, PostApplyAction::HandOff));
    assert_eq!(
        fw.get_cached_manager().get(REGION),
        Some(CachedRegionInfo {
            replicated_or_created: true,
            inited_or_fallback: true,
            snapshot_inflight: 0
        })
    );
    // The next snapshot of the partition goes through the pipeline.
    let action = fw.pre_apply_snapshot(&region(REGION), PEER, &key(), Some(&snap));
    assert!(matches!(action, PreApplyAction::Prehandle { .. }));
    assert_eq!(fw.engine.pending_applies_count, 1);
}

#[test]
fn unknown_partition_goes_through_the_pipeline_with_the_fast_path_on() {
    let mut fw = forwarder(true, true);
    let snap = snapshot();
    let action = fw.pre_apply_snapshot(&region(REGION), PEER, &key(), Some(&snap));
    assert!(matches!(action, PreApplyAction::Prehandle { .. }));
    // The job ends without a result.
    drop(action);
    let action = fw.post_apply_snapshot(&region(REGION), PEER, &key(), Some(&snap));
    assert!(matches!(action, PostApplyAction::Regenerate { .. }));
    assert_eq!(fw.get_cached_manager().get(REGION), None);
}

#[test]
fn fast_path_switched_off_never_hands_off() {
    let mut fw = forwarder(false, true);
    let snap = snapshot();
    fw.cached_region_info.with_entry(REGION, |entry| entry);
    let action = fw.post_apply_snapshot(&region(REGION), PEER, &key(), Some(&snap));
    assert!(matches!(action, PostApplyAction::Regenerate { .. }));
    assert_eq!(fw.get_cached_manager().get(REGION), Some(CachedRegionInfo::default()));
}

#[test]
fn consume_prehandled_for_each_outcome() {
    let snap = snapshot();
    match consume_prehandled(PrehandleOutcome::Staged(PtrWrapper(9u64)), &snap) {
        PostApplyAction::Ingest(PtrWrapper(staged)) => assert_eq!(staged, 9),
        _ => panic!("the staged snapshot was not ingested"),
    }
    match consume_prehandled(PrehandleOutcome::<u64>::Closed, &snap) {
        PostApplyAction::Regenerate { ssts } => assert_eq!(ssts, snapshot_ssts()),
        _ => panic!("the snapshot was not staged again"),
    }
    match consume_prehandled(PrehandleOutcome::<u64>::Untracked, &snap) {
        PostApplyAction::Regenerate { ssts } => assert_eq!(ssts, snapshot_ssts()),
        _ => panic!("the snapshot was not staged again"),
    }
}

#[test]
fn counter_follows_the_tracked_tasks() {
    let mut fw = forwarder(false, true);
    let snap = snapshot();
    let mut jobs = vec![];
    for idx in 0..10u64 {
        jobs.push(fw.pre_apply_snapshot(&region(idx % 3), PEER, &SnapKey::new(idx % 3, 1, idx), Some(&snap)));
        assert_eq!(fw.engine.pending_applies_count, idx as usize + 1);
        assert_eq!(fw.pre_handle_snapshot_ctx.len(), idx as usize + 1);
    }
    drop(jobs);
    for idx in 0..10u64 {
        fw.post_apply_snapshot(&region(idx % 3), PEER, &SnapKey::new(idx % 3, 1, idx), Some(&snap));
        assert_eq!(fw.engine.pending_applies_count, 9 - idx as usize);
        assert_eq!(fw.pre_handle_snapshot_ctx.len(), 9 - idx as usize);
    }
}

#[test]
fn destroying_a_partition_drops_its_entry_and_its_tasks() {
    let mut ob: TiFlashObserver<u64> =
        TiFlashObserver::new(5, ProxyEngineExt::new(), 2, EngineStoreConfig { enable_fast_add_peer: false });
    let snap = snapshot();
    ob.on_peer_created(1);
    ob.on_peer_created(2);
    let _a = ob.pre_apply_snapshot(&region(1), PEER, &SnapKey::new(1, 3, 10), Some(&snap));
    let _b = ob.pre_apply_snapshot(&region(2), PEER, &SnapKey::new(2, 3, 10), Some(&snap));
    let _c = ob.pre_apply_snapshot(&region(1), PEER, &SnapKey::new(1, 3, 11), Some(&snap));
    assert_eq!(ob.forwarder.engine.pending_applies_count, 3);

    assert!(!ob.on_region_changed(1, RegionChangeEvent::Update));
    assert!(!ob.on_region_changed(1, RegionChangeEvent::Create));
    assert!(!ob.on_region_changed(1, RegionChangeEvent::UpdateBuckets));
    assert_eq!(ob.forwarder.engine.pending_applies_count, 3);
    assert!(ob.forwarder.get_cached_manager().get(1).is_some());

    assert!(ob.on_region_changed(1, RegionChangeEvent::Destroy));
    assert_eq!(ob.forwarder.get_cached_manager().get(1), None);
    assert!(ob.forwarder.get_cached_manager().get(2).is_some());
    assert_eq!(ob.forwarder.engine.pending_applies_count, 1);
    assert!(!ob.forwarder.pre_handle_snapshot_ctx.contains(&SnapKey::new(1, 3, 10)));
    assert!(!ob.forwarder.pre_handle_snapshot_ctx.contains(&SnapKey::new(1, 3, 11)));
    assert!(ob.forwarder.pre_handle_snapshot_ctx.contains(&SnapKey::new(2, 3, 10)));
    assert!(ob.should_pre_apply_snapshot());
}

#[test]
fn tracking_table_replaces_and_removes() {
    let mut ctx: PrehandleContext<u64> = PrehandleContext::new();
    let (_s1, r1) = channel();
    let (_s2, r2) = channel();
    let (s3, r3) = channel();
    assert!(ctx.insert(SnapKey::new(1, 1, 1), PrehandleTask::new(r1, 11)).is_none());
    assert!(ctx.insert(SnapKey::new(1, 1, 2), PrehandleTask::new(r2, 12)).is_none());
    assert_eq!(ctx.len(), 2);
    let replaced = ctx.insert(SnapKey::new(1, 1, 1), PrehandleTask::new(r3, 13)).unwrap();
    assert_eq!(replaced.peer_id, 11);
    assert_eq!(ctx.len(), 2);
    assert!(ctx.remove(&SnapKey::new(9, 9, 9)).is_none());
    s3.send(PtrWrapper(3)).unwrap();
    let removed = ctx.remove(&SnapKey::new(1, 1, 1)).unwrap();
    assert_eq!(removed.peer_id, 13);
    assert_eq!(removed.recv.recv().unwrap().0, 3);
    assert_eq!(ctx.len(), 1);
    assert!(!ctx.contains(&SnapKey::new(1, 1, 1)));
    assert!(ctx.contains(&SnapKey::new(1, 1, 2)));
    assert_eq!(ctx.remove_region(2), 0);
    assert_eq!(ctx.remove_region(1), 1);
    assert_eq!(ctx.len(), 0);
}

#[test]
fn can_apply_snapshot_compares_with_the_pool() {
    let mut engine = ProxyEngineExt::new();
    engine.init(1, 2);
    assert!(engine.can_apply_snapshot(true, true, REGION));
    assert!(!engine.can_apply_snapshot(true, false, REGION));
    assert!(!engine.can_apply_snapshot(false, true, REGION));
    engine.pending_applies_count = 2;
    assert!(!engine.can_apply_snapshot(false, false, REGION));
    engine.pending_applies_count = 3;
    assert!(engine.can_apply_snapshot(false, false, REGION));
    assert!(engine.can_apply_snapshot(true, false, REGION));
}

#[test]
fn each_partition_counts_its_own_snapshots() {
    let mut fw = forwarder(false, true);
    let snap = snapshot();
    let mut jobs = vec![];
    for idx in 0..7u64 {
        let partition = idx % 3;
        jobs.push(fw.pre_apply_snapshot(&region(partition), PEER, &SnapKey::new(partition, 1, idx), Some(&snap)));
    }
    assert_eq!(fw.pending_applies_of(0), 3);
    assert_eq!(fw.pending_applies_of(1), 2);
    assert_eq!(fw.pending_applies_of(2), 2);
    assert_eq!(fw.pending_applies_of(3), 0);
    assert_eq!(fw.engine.pending_applies_count, 7);
    // A superseding submission counts nothing new.
    jobs.push(fw.pre_apply_snapshot(&region(0), PEER, &SnapKey::new(0, 1, 3), Some(&snap)));
    assert_eq!(fw.pending_applies_of(0), 3);
    assert_eq!(fw.engine.pending_applies_count, 7);
    drop(jobs);
    fw.post_apply_snapshot(&region(0), PEER, &SnapKey::new(0, 1, 3), Some(&snap));
    assert_eq!(fw.pending_applies_of(0), 2);
    assert_eq!(fw.pending_applies_of(1), 2);
    // Consuming what was never submitted uncounts nothing.
    fw.post_apply_snapshot(&region(0), PEER, &SnapKey::new(0, 9, 9), Some(&snap));
    assert_eq!(fw.pending_applies_of(0), 2);
    fw.remove_region(1);
    assert_eq!(fw.pending_applies_of(1), 0);
    assert_eq!(fw.pending_applies_of(0), 2);
    assert_eq!(fw.pending_applies_of(2), 2);
    assert_eq!(fw.engine.pending_applies_count, 4);
}

#[test]
fn taking_a_task_does_not_wait_for_its_job() {
    let mut fw = forwarder(false, true);
    let snap = snapshot();
    let job = fw.pre_apply_snapshot(&region(REGION), PEER, &key(), Some(&snap));
    let sender = match job {
        PreApplyAction::Prehandle { sender, .. } => sender,
        PreApplyAction::Idle => panic!("the snapshot was not submitted"),
    };
    // The job has not finished yet.
    let task = match fw.take_prehandled(&region(REGION), PEER, &key(), Some(&snap)) {
        Taken::Pending(task) => task,
        _ => panic!("the task was not handed out"),
    };
    assert_eq!(task.peer_id, PEER);
    assert_eq!(fw.engine.pending_applies_count, 0);
    assert!(!fw.pre_handle_snapshot_ctx.contains(&key()));
    sender.send(PtrWrapper(31)).unwrap();
    assert_eq!(task.recv.recv().unwrap().0, 31);
    assert!(matches!(
        fw.take_prehandled(&region(REGION), PEER, &key(), Some(&snap)),
        Taken::Untracked
    ));
    assert!(matches!(fw.take_prehandled(&region(REGION), PEER, &key(), None), Taken::Idle));
}

#[test]
fn snapshots_are_tested_for_their_files() {
    assert!(snapshot().check_wf());
    let mut nameless = snapshot();
    nameless.cf_files[0].file_paths.clear();
    assert!(!nameless.check_wf());
    // Without data no file is needed.
    nameless.cf_files[0].size = vec![0];
    assert!(nameless.check_wf());
    nameless.cf_files[0].size = vec![];
    assert!(nameless.check_wf());
    // A tablet is found by its directory alone.
    let mut tablet = snapshot();
    tablet.cf_files[0].file_paths.clear();
    tablet.tablet_snap_path = "/tablets/1_10".to_string();
    assert!(tablet.check_wf());
}
