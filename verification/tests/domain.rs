use std::collections::VecDeque;
use tiflash_proxy::command::{
    admin_response, collect_cmds, handle_error_apply, post_exec_admin, post_exec_ingest,
    post_exec_query, pre_exec_admin, pre_persist, pre_write_apply_state, settle_ingested_ssts,
    AdminCmdType, AdminResponseChoice, PreExec, RaftCmdRequest, RegionState, Request, SstMeta,
    SstMetaInfo,
};
use tiflash_proxy::domain_impls::{
    cf_to_name, gen_snap_kv_data_view, into_sst_views, name_to_cf, BaseBuffView, SnapshotHelper,
    SnapshotKV, WriteCmds,
};
use tiflash_proxy::engine::{FsStatsExt, PsDbVector};
use tiflash_proxy::interfaces::{
    ColumnFamilyType, FsStats, Mismatch, RaftCmdHeader, TiFlashApplyRes, TiFlashServerHelper,
    WriteCmdType, MAGIC_NUMBER, VERSION,
};
use tiflash_proxy::key_format::{from_hex, HexError};
use tiflash_proxy::metapb::{Region, RegionEpoch};
use tiflash_proxy::ps_engine::{LogRange, PSEngine};

#[test]
fn column_family_codes() {
    assert_eq!(ColumnFamilyType::Lock.into_index(), 0);
    assert_eq!(ColumnFamilyType::Write.into_index(), 1);
    assert_eq!(ColumnFamilyType::Default.into_index(), 2);
    assert_eq!(ColumnFamilyType::from_index(0), ColumnFamilyType::Lock);
    assert_eq!(ColumnFamilyType::from_index(1), ColumnFamilyType::Write);
    assert_eq!(ColumnFamilyType::from_index(2), ColumnFamilyType::Default);
    assert_eq!(WriteCmdType::Put.into_index(), 0);
    assert_eq!(WriteCmdType::Del.into_index(), 1);
}

#[test]
fn apply_res_codes() {
    assert_eq!(TiFlashApplyRes::from_code(0), TiFlashApplyRes::Nothing);
    assert_eq!(TiFlashApplyRes::from_code(1), TiFlashApplyRes::Persist);
    assert_eq!(TiFlashApplyRes::from_code(2), TiFlashApplyRes::NotFound);
}

#[test]
fn column_family_names() {
    assert_eq!(name_to_cf(""), ColumnFamilyType::Default);
    assert_eq!(name_to_cf("default"), ColumnFamilyType::Default);
    assert_eq!(name_to_cf("lock"), ColumnFamilyType::Lock);
    assert_eq!(name_to_cf("write"), ColumnFamilyType::Write);
    assert_eq!(cf_to_name(ColumnFamilyType::Default), "default");
    assert_eq!(cf_to_name(ColumnFamilyType::Lock), "lock");
    assert_eq!(cf_to_name(ColumnFamilyType::Write), "write");
    for cf in [ColumnFamilyType::Default, ColumnFamilyType::Lock, ColumnFamilyType::Write] {
        assert_eq!(name_to_cf(cf_to_name(cf)), cf);
    }
}

#[test]
fn header_and_stats_keep_their_fields() {
    let header = RaftCmdHeader::new(1, 2, 3);
    assert_eq!(header, RaftCmdHeader { region_id: 1, index: 2, term: 3 });
    let stats = FsStats { used_size: 1, avail_size: 2, capacity_size: 3, ok: 1 };
    assert_eq!(
        FsStatsExt::from_fs_stats(stats),
        FsStatsExt { used: 1, capacity: 3, available: 2 }
    );
    assert_eq!(PsDbVector::from_raw(vec![1, 2, 3]).0, vec![1, 2, 3]);
}

#[test]
fn buff_view_states_its_length() {
    let bytes = [9u8, 8, 7];
    let view = BaseBuffView::new(&bytes);
    assert_eq!(view.len, 3);
    assert_eq!(view.to_slice(), &[9u8, 8, 7]);
    let empty = BaseBuffView::new(&[]);
    assert_eq!(empty.len, 0);
}

#[test]
fn write_cmds_collect_in_order() {
    let mut cmds = WriteCmds::with_capacity(4);
    assert_eq!(cmds.len(), 0);
    assert!(cmds.is_empty());
    cmds.push(b"k1", b"v1", WriteCmdType::Put, ColumnFamilyType::Default);
    cmds.push(b"k2", b"", WriteCmdType::Del, ColumnFamilyType::Lock);
    cmds.push(b"k3", b"value3", WriteCmdType::Put, ColumnFamilyType::Write);
    assert_eq!(cmds.len(), 3);
    assert!(!cmds.is_empty());
    let view = cmds.gen_view();
    assert_eq!(view.len, 3);
    let keys: Vec<&[u8]> = view.keys.iter().map(|k| k.to_slice()).collect();
    let vals: Vec<&[u8]> = view.vals.iter().map(|v| v.to_slice()).collect();
    assert_eq!(keys, vec![&b"k1"[..], &b"k2"[..], &b"k3"[..]]);
    assert_eq!(vals, vec![&b"v1"[..], &b""[..], &b"value3"[..]]);
    assert_eq!(view.vals[2].len, 6);
    assert_eq!(view.cmd_types, &[WriteCmdType::Put, WriteCmdType::Del, WriteCmdType::Put]);
    assert_eq!(
        view.cmd_cf,
        &[ColumnFamilyType::Default, ColumnFamilyType::Lock, ColumnFamilyType::Write]
    );
    let empty = WriteCmds::new();
    assert_eq!(empty.gen_view().len, 0);
}

#[test]
fn sst_views_keep_order_and_column_family() {
    let views = into_sst_views(vec![
        (&b"/a/write.sst"[..], ColumnFamilyType::Write),
        (&b"/a/default.sst"[..], ColumnFamilyType::Default),
    ]);
    assert_eq!(views.len(), 2);
    assert_eq!(views[0].type_, ColumnFamilyType::Write);
    assert_eq!(views[0].path.to_slice(), b"/a/write.sst");
    assert_eq!(views[0].path.len, 12);
    assert_eq!(views[1].type_, ColumnFamilyType::Default);
    assert_eq!(views[1].path.to_slice(), b"/a/default.sst");
    assert!(into_sst_views(vec![]).is_empty());
}

#[test]
fn snapshot_helper_shows_each_column_family() {
    let mut write: SnapshotKV = VecDeque::new();
    write.push_back((b"a".to_vec(), b"1".to_vec()));
    write.push_back((b"bb".to_vec(), b"22".to_vec()));
    let default: SnapshotKV = VecDeque::new();
    let (keys, vals) = gen_snap_kv_data_view(&write);
    assert_eq!(keys.len(), 2);
    assert_eq!(keys[1].to_slice(), b"bb");
    assert_eq!(vals[1].to_slice(), b"22");

    let mut helper = SnapshotHelper::new();
    assert_eq!(helper.gen_snapshot_view().len, 0);
    helper.add_cf_snap(ColumnFamilyType::Write, write);
    helper.add_cf_snap(ColumnFamilyType::Default, default);
    let array = helper.gen_snapshot_view();
    assert_eq!(array.len, 2);
    assert_eq!(array.views.len(), 2);
    assert_eq!(array.views[0].cf, ColumnFamilyType::Write);
    assert_eq!(array.views[0].len, 2);
    assert_eq!(array.views[0].keys[0].to_slice(), b"a");
    assert_eq!(array.views[0].vals[0].to_slice(), b"1");
    assert_eq!(array.views[0].keys[1].to_slice(), b"bb");
    assert_eq!(array.views[1].cf, ColumnFamilyType::Default);
    assert_eq!(array.views[1].len, 0);
    assert!(array.views[1].keys.is_empty());
}

fn state(pending_remove: bool) -> RegionState {
    RegionState { peer_id: 3, pending_remove, modified_region: None }
}

fn sst(region_id: u64, tag: u8) -> SstMetaInfo {
    SstMetaInfo {
        total_bytes: 0,
        total_kvs: 0,
        meta: SstMeta { uuid: vec![tag], cf: ColumnFamilyType::Write, region_id },
    }
}

#[test]
fn requests_split_into_writes_and_files() {
    let requests = vec![
        Request::Put { cf: ColumnFamilyType::Default, key: b"k1".to_vec(), value: b"v1".to_vec() },
        Request::Get,
        Request::Delete { cf: ColumnFamilyType::Lock, key: b"k2".to_vec() },
        Request::DeleteRange,
        Request::IngestSst(sst(1, 7).meta),
        Request::Snap,
        Request::Put { cf: ColumnFamilyType::Write, key: b"k3".to_vec(), value: b"v3".to_vec() },
    ];
    let (cmds, ssts) = collect_cmds(&requests);
    assert_eq!(cmds.len(), 3);
    let view = cmds.gen_view();
    assert_eq!(view.keys[0].to_slice(), b"k1");
    assert_eq!(view.vals[0].to_slice(), b"v1");
    assert_eq!(view.keys[1].to_slice(), b"k2");
    assert_eq!(view.vals[1].to_slice(), b"");
    assert_eq!(view.keys[2].to_slice(), b"k3");
    assert_eq!(view.cmd_types, &[WriteCmdType::Put, WriteCmdType::Del, WriteCmdType::Put]);
    assert_eq!(
        view.cmd_cf,
        &[ColumnFamilyType::Default, ColumnFamilyType::Lock, ColumnFamilyType::Write]
    );
    assert_eq!(ssts, vec![&sst(1, 7).meta]);
    let none: Vec<Request> = vec![];
    let (cmds, ssts) = collect_cmds(&none);
    assert!(cmds.is_empty());
    assert!(ssts.is_empty());
}

#[test]
fn persist_decisions() {
    for pending_remove in [false, true] {
        let rs = state(pending_remove);
        assert!(!handle_error_apply(TiFlashApplyRes::Nothing, &rs));
        assert_eq!(handle_error_apply(TiFlashApplyRes::Persist, &rs), !pending_remove);
        assert!(!handle_error_apply(TiFlashApplyRes::NotFound, &rs));
        assert!(!post_exec_query(TiFlashApplyRes::Nothing, &rs));
        assert_eq!(post_exec_query(TiFlashApplyRes::Persist, &rs), !pending_remove);
        assert!(!post_exec_query(TiFlashApplyRes::NotFound, &rs));
        assert!(!post_exec_admin(TiFlashApplyRes::Nothing, &rs));
        assert_eq!(post_exec_admin(TiFlashApplyRes::Persist, &rs), !pending_remove);
        assert_eq!(post_exec_admin(TiFlashApplyRes::NotFound, &rs), !pending_remove);
        assert!(!post_exec_ingest(TiFlashApplyRes::Nothing, &rs));
        assert_eq!(post_exec_ingest(TiFlashApplyRes::Persist, &rs), !pending_remove);
        assert_eq!(post_exec_ingest(TiFlashApplyRes::NotFound, &rs), !pending_remove);
    }
    assert!(!pre_write_apply_state());
}

#[test]
fn admin_commands_before_execution() {
    assert_eq!(pre_exec_admin(AdminCmdType::CompactLog, None), PreExec::TryFlush);
    assert_eq!(pre_exec_admin(AdminCmdType::CompactLog, Some(true)), PreExec::Filter(false));
    assert_eq!(pre_exec_admin(AdminCmdType::CompactLog, Some(false)), PreExec::Filter(true));
    for flushed in [None, Some(true), Some(false)] {
        assert_eq!(pre_exec_admin(AdminCmdType::ComputeHash, flushed), PreExec::Filter(true));
        assert_eq!(pre_exec_admin(AdminCmdType::VerifyHash, flushed), PreExec::Filter(true));
        assert_eq!(pre_exec_admin(AdminCmdType::TransferLeader, flushed), PreExec::Filter(true));
        assert_eq!(pre_exec_admin(AdminCmdType::ChangePeer, flushed), PreExec::Filter(false));
        assert_eq!(pre_exec_admin(AdminCmdType::BatchSplit, flushed), PreExec::Filter(false));
        assert_eq!(pre_exec_admin(AdminCmdType::CommitMerge, flushed), PreExec::Filter(false));
    }
}

#[test]
fn merges_show_the_modified_region() {
    let region = Region {
        id: 4,
        start_key: vec![1],
        end_key: vec![2],
        region_epoch: RegionEpoch { conf_ver: 1, version: 2 },
        peers: vec![],
    };
    let merged = || RegionState { peer_id: 3, pending_remove: false, modified_region: Some(region.clone()) };
    for cmd in [AdminCmdType::CommitMerge, AdminCmdType::PrepareMerge, AdminCmdType::RollbackMerge] {
        assert_eq!(admin_response(cmd, merged()), AdminResponseChoice::Modified(region.clone()));
    }
    assert_eq!(admin_response(AdminCmdType::BatchSplit, merged()), AdminResponseChoice::Original);
    assert_eq!(admin_response(AdminCmdType::CompactLog, state(false)), AdminResponseChoice::Original);
}

#[test]
fn pre_persist_at_the_end_and_after_merges() {
    let cmd = |admin_request| RaftCmdRequest { admin_request, requests: vec![] };
    assert!(pre_persist(true, None));
    assert!(pre_persist(true, Some(&cmd(Some(AdminCmdType::CompactLog)))));
    assert!(pre_persist(false, Some(&cmd(Some(AdminCmdType::CommitMerge)))));
    assert!(pre_persist(false, Some(&cmd(Some(AdminCmdType::RollbackMerge)))));
    assert!(!pre_persist(false, Some(&cmd(Some(AdminCmdType::PrepareMerge)))));
    assert!(!pre_persist(false, Some(&cmd(Some(AdminCmdType::CompactLog)))));
    assert!(!pre_persist(false, Some(&cmd(None))));
}

#[test]
fn held_back_ingestion_keeps_its_files() {
    let mut pending_delete = vec![sst(1, 1), sst(2, 2)];
    let mut handled = vec![sst(1, 3), sst(1, 4)];
    let mut delete = vec![sst(9, 9)];
    settle_ingested_ssts(TiFlashApplyRes::Nothing, 1, &mut pending_delete, &mut handled, &mut delete);
    assert_eq!(pending_delete, vec![sst(1, 1), sst(2, 2), sst(1, 3), sst(1, 4)]);
    assert!(handled.is_empty());
    assert_eq!(delete, vec![sst(9, 9)]);
}

#[test]
fn finished_ingestion_releases_the_files_of_the_partition() {
    for res in [TiFlashApplyRes::Persist, TiFlashApplyRes::NotFound] {
        let mut pending_delete = vec![sst(1, 1), sst(2, 2), sst(1, 3), sst(3, 4), sst(1, 5)];
        let mut handled = vec![sst(1, 6), sst(1, 7)];
        let mut delete = vec![sst(9, 9)];
        settle_ingested_ssts(res, 1, &mut pending_delete, &mut handled, &mut delete);
        assert_eq!(pending_delete, vec![sst(2, 2), sst(3, 4)]);
        assert!(handled.is_empty());
        assert_eq!(
            delete,
            vec![sst(9, 9), sst(1, 1), sst(1, 3), sst(1, 5), sst(1, 6), sst(1, 7)]
        );
    }
}

#[test]
fn from_hex_reads_digits_of_either_case() {
    assert_eq!(from_hex("7480000000000000FF"), Ok(vec![0x74, 0x80, 0, 0, 0, 0, 0, 0, 0xff]));
    assert_eq!(from_hex("deadBEEF"), Ok(vec![0xde, 0xad, 0xbe, 0xef]));
    assert_eq!(from_hex(""), Ok(vec![]));
    assert_eq!(from_hex("6b697769"), Ok(b"kiwi".to_vec()));
}

#[test]
fn from_hex_skips_the_prefix() {
    assert_eq!(from_hex("0x0a0B"), Ok(vec![0x0a, 0x0b]));
    assert_eq!(from_hex("0X0a0B"), Ok(vec![0x0a, 0x0b]));
    assert_eq!(from_hex("0x"), Ok(vec![]));
    // Without the prefix the same digits read differently.
    assert_eq!(from_hex("000a0B"), Ok(vec![0, 0x0a, 0x0b]));
}

#[test]
fn from_hex_refuses_bad_text() {
    assert_eq!(from_hex("123"), Err(HexError::OddLength));
    assert_eq!(from_hex("0x123"), Err(HexError::OddLength));
    assert_eq!(from_hex("66ag"), Err(HexError::InvalidHexCharacter { c: 'g', index: 3 }));
    assert_eq!(from_hex("0x66ag"), Err(HexError::InvalidHexCharacter { c: 'g', index: 3 }));
    assert_eq!(from_hex("zz"), Err(HexError::InvalidHexCharacter { c: 'z', index: 0 }));
    assert_eq!(from_hex("x0"), Err(HexError::InvalidHexCharacter { c: 'x', index: 0 }));
    assert_eq!(from_hex("0y12"), Err(HexError::InvalidHexCharacter { c: 'y', index: 1 }));
}

#[test]
fn page_storage_engine_binds_its_handle() {
    let mut engine = PSEngine::new();
    assert_eq!(engine.engine_store_server_helper, 0);
    engine.init(12345);
    assert_eq!(engine.engine_store_server_helper, 12345);
}

#[test]
fn gc_removes_up_to_the_bound() {
    let engine = PSEngine::new();
    assert_eq!(engine.gc_impl(5, 10, None), Some(LogRange { first: 5, last: 9 }));
    assert_eq!(engine.gc_impl(5, 10, Some(7)), Some(LogRange { first: 5, last: 9 }));
    assert_eq!(engine.gc_impl(0, 10, Some(7)), Some(LogRange { first: 7, last: 9 }));
    assert_eq!(engine.gc_impl(0, 10, None), None);
    assert_eq!(engine.gc_impl(0, 10, Some(10)), None);
    assert_eq!(engine.gc_impl(0, 10, Some(0)), Some(LogRange { first: 0, last: 9 }));
    assert_eq!(engine.gc_impl(0, 10, Some(11)), None);
    assert_eq!(engine.gc_impl(10, 10, None), None);
    assert_eq!(engine.gc_impl(11, 10, None), None);
    assert_eq!(engine.gc_impl(9, 10, None), Some(LogRange { first: 9, last: 9 }));
}

#[test]
fn clean_removes_up_to_the_last_index() {
    let engine = PSEngine::new();
    assert_eq!(engine.clean(5, 10, None), Some(LogRange { first: 5, last: 10 }));
    assert_eq!(engine.clean(0, 10, Some(7)), Some(LogRange { first: 7, last: 10 }));
    assert_eq!(engine.clean(0, 10, None), None);
    assert_eq!(engine.clean(10, 10, None), None);
    assert_eq!(engine.clean(0, 10, Some(10)), None);
    assert_eq!(engine.clean(12, 10, None), None);
}

#[test]
fn storage_engine_is_checked_at_start() {
    assert_eq!(MAGIC_NUMBER, 0x13579BDF);
    assert_eq!(VERSION, 6);
    let helper = |magic_number, version| TiFlashServerHelper { magic_number, version };
    assert_eq!(helper(0x13579BDF, 6).check(), Ok(()));
    assert_eq!(
        helper(0x13579BDE, 6).check(),
        Err(Mismatch::MagicNumber { expect: 0x13579BDF, got: 0x13579BDE })
    );
    assert_eq!(helper(0x13579BDF, 5).check(), Err(Mismatch::Version { expect: 6, got: 5 }));
    assert_eq!(helper(1, 5).check(), Err(Mismatch::MagicNumber { expect: 0x13579BDF, got: 1 }));
}
