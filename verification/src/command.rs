//! Forwarding applied commands to the storage engine: which commands are
//! filtered, what a batch of requests hands over, and when the apply state is
//! persisted after the storage engine has answered.

use crate::domain_impls::{WriteCmd, WriteCmds};
use crate::interfaces::{ColumnFamilyType, TiFlashApplyRes, WriteCmdType};
use crate::metapb::Region;
use vstd::prelude::*;

verus! {

/// Kind of an administrative command.
#[derive(Clone, Copy, Debug, PartialEq, Eq, Structural)]
pub enum AdminCmdType {
    InvalidAdmin,
    ChangePeer,
    Split,
    CompactLog,
    TransferLeader,
    ComputeHash,
    VerifyHash,
    PrepareMerge,
    CommitMerge,
    RollbackMerge,
    BatchSplit,
    ChangePeerV2,
    PrepareFlashback,
    FinishFlashback,
    BatchSwitchWitness,
}

/// Description of a data file that a command asks to ingest.
#[derive(Clone, Debug, PartialEq, Eq)]
pub struct SstMeta {
    pub uuid: Vec<u8>,
    pub cf: ColumnFamilyType,
    pub region_id: u64,
}

/// A data file to ingest, and its size as far as known.
#[derive(Clone, Debug, PartialEq, Eq)]
pub struct SstMetaInfo {
    pub total_bytes: u64,
    pub total_kvs: u64,
    pub meta: SstMeta,
}

/// One request of a command.
#[derive(Clone, Debug, PartialEq, Eq)]
pub enum Request {
    Invalid,
    Get,
    Put { cf: ColumnFamilyType, key: Vec<u8>, value: Vec<u8> },
    Delete { cf: ColumnFamilyType, key: Vec<u8> },
    Snap,
    Prewrite,
    DeleteRange,
    IngestSst(SstMeta),
    ReadIndex,
}

/// A command of the replication log: an administrative command or a batch of
/// requests.
#[derive(Clone, Debug, PartialEq, Eq)]
pub struct RaftCmdRequest {
    /// Kind of the administrative command, where the command is one.
    pub admin_request: Option<AdminCmdType>,
    pub requests: Vec<Request>,
}

/// What the replication layer knows of the partition after a command.
#[derive(Clone, Debug, PartialEq, Eq)]
pub struct RegionState {
    pub peer_id: u64,
    pub pending_remove: bool,
    pub modified_region: Option<Region>,
}

/// What is done with an administrative command before it is executed.
#[derive(Clone, Copy, Debug, PartialEq, Eq, Structural)]
pub enum PreExec {
    /// Ask the storage engine to flush the partition's data, and decide
    /// again with its answer.
    TryFlush,
    /// The command is dropped (`true`) or executed (`false`).
    Filter(bool),
}

/// The response that the storage engine is shown for an administrative
/// command.
#[derive(Clone, Debug, PartialEq, Eq)]
pub enum AdminResponseChoice {
    /// The response of the command itself.
    Original,
    /// A response that carries the partition as the command left it.
    Modified(Region),
}

impl Request {
    /// The request may stand in an applied command.
    pub open spec fn is_valid(self) -> bool {
        !(self is Prewrite || self is Invalid || self is ReadIndex)
    }

    /// The write command that the request hands to the storage engine, if it
    /// hands one: a put writes its value, a delete writes the empty value.
    pub open spec fn write_cmd(self) -> Option<WriteCmd> {
        match self {
            Request::Put { cf, key, value } => Some(
                WriteCmd { key: key@, val: value@, cmd_type: WriteCmdType::Put, cf },
            ),
            Request::Delete { cf, key } => Some(
                WriteCmd { key: key@, val: Seq::<u8>::empty(), cmd_type: WriteCmdType::Del, cf },
            ),
            _ => None,
        }
    }
}

/// The write commands of a batch of requests, in order.
pub open spec fn write_cmds_of(requests: Seq<Request>) -> Seq<WriteCmd>
    decreases requests.len(),
{
    if requests.len() == 0 {
        Seq::<WriteCmd>::empty()
    } else {
        let before = write_cmds_of(requests.drop_last());
        match requests.last().write_cmd() {
            Some(cmd) => before.push(cmd),
            None => before,
        }
    }
}

/// The data files that a batch of requests asks to ingest, in order.
pub open spec fn ssts_of(requests: Seq<Request>) -> Seq<SstMeta>
    decreases requests.len(),
{
    if requests.len() == 0 {
        Seq::<SstMeta>::empty()
    } else {
        let before = ssts_of(requests.drop_last());
        match requests.last() {
            Request::IngestSst(meta) => before.push(meta),
            _ => before,
        }
    }
}

/// Every request of the batch may stand in an applied command.
pub open spec fn all_valid(requests: Seq<Request>) -> bool {
    forall|i: int| 0 <= i < requests.len() ==> (#[trigger] requests[i]).is_valid()
}

/// Splits a batch of requests into the write commands and the data files
/// that it hands to the storage engine. Reads and range deletions hand over
/// nothing.
pub fn collect_cmds<'a>(requests: &'a Vec<Request>) -> (handed: (WriteCmds<'a>, Vec<&'a SstMeta>))
    requires
        all_valid(requests@),
    ensures
        handed.0.wf(),
        handed.0@ == write_cmds_of(requests@),
        handed.1@.len() == ssts_of(requests@).len(),
        forall|i: int| 0 <= i < handed.1@.len() ==> *(#[trigger] handed.1@[i]) == ssts_of(requests@)[i],
{
    let mut cmds = WriteCmds::with_capacity(requests.len());
    let mut ssts: Vec<&'a SstMeta> = Vec::new();
    let none: &'static [u8] = &[];
    let mut i: usize = 0;
    assert(requests@.subrange(0, 0) =~= Seq::<Request>::empty());
    while i < requests.len()
        invariant
            i <= requests@.len(),
            none@.len() == 0,
            cmds.wf(),
            cmds@ == write_cmds_of(requests@.subrange(0, i as int)),
            ssts@.len() == ssts_of(requests@.subrange(0, i as int)).len(),
            forall|j: int|
                0 <= j < ssts@.len() ==> *(#[trigger] ssts@[j]) == ssts_of(
                    requests@.subrange(0, i as int),
                )[j],
        decreases requests@.len() - i,
    {
        proof {
            let upto = requests@.subrange(0, i + 1);
            assert(upto.drop_last() =~= requests@.subrange(0, i as int));
            assert(upto.last() == requests@[i as int]);
        }
        match &requests[i] {
            Request::Put { cf, key, value } => {
                cmds.push(key.as_slice(), value.as_slice(), WriteCmdType::Put, *cf);
            },
            Request::Delete { cf, key } => {
                assert(none@ =~= Seq::<u8>::empty());
                cmds.push(key.as_slice(), none, WriteCmdType::Del, *cf);
            },
            Request::IngestSst(meta) => {
                ssts.push(meta);
            },
            _ => {},
        }
        i += 1;
    }
    assert(requests@.subrange(0, i as int) =~= requests@);
    (cmds, ssts)
}

/// Whether the apply state is persisted after a batch of writes: only when
/// the storage engine asks for it, and never for a replica that is about to
/// be removed.
pub open spec fn persists_write(flash_res: TiFlashApplyRes, pending_remove: bool) -> bool {
    flash_res == TiFlashApplyRes::Persist && !pending_remove
}

/// Whether the apply state is persisted after an administrative command or an
/// ingestion: unless the storage engine asks to hold it back, and never for a
/// replica that is about to be removed.
pub open spec fn persists_admin(flash_res: TiFlashApplyRes, pending_remove: bool) -> bool {
    flash_res != TiFlashApplyRes::Nothing && !pending_remove
}

/// Decides whether the apply state is persisted after a command that failed
/// and was forwarded as an empty batch of writes.
pub fn handle_error_apply(flash_res: TiFlashApplyRes, region_state: &RegionState) -> (persist: bool)
    ensures
        persist == persists_write(flash_res, region_state.pending_remove),
{
    match flash_res {
        TiFlashApplyRes::Nothing => false,
        TiFlashApplyRes::Persist => !region_state.pending_remove,
        TiFlashApplyRes::NotFound => false,
    }
}

/// The administrative commands that are never executed here: hashes of the
/// data cannot be computed or verified, and leadership is never taken.
pub open spec fn never_executed(cmd_type: AdminCmdType) -> bool {
    cmd_type == AdminCmdType::ComputeHash || cmd_type == AdminCmdType::VerifyHash || cmd_type
        == AdminCmdType::TransferLeader
}

/// Decides what is done with an administrative command before it is
/// executed. A compaction of the log is executed only if the storage engine
/// could flush the partition's data: `flushed` is its answer, nothing while
/// it has not been asked.
pub fn pre_exec_admin(cmd_type: AdminCmdType, flushed: Option<bool>) -> (decision: PreExec)
    ensures
        decision == (if cmd_type == AdminCmdType::CompactLog {
            match flushed {
                None => PreExec::TryFlush,
                Some(done) => PreExec::Filter(!done),
            }
        } else {
            PreExec::Filter(never_executed(cmd_type))
        }),
{
    match cmd_type {
        AdminCmdType::CompactLog => match flushed {
            None => PreExec::TryFlush,
            Some(done) => PreExec::Filter(!done),
        },
        AdminCmdType::ComputeHash | AdminCmdType::VerifyHash => PreExec::Filter(true),
        AdminCmdType::TransferLeader => PreExec::Filter(true),
        _ => PreExec::Filter(false),
    }
}

/// The administrative commands whose response is replaced by the partition as
/// the command left it: the three kinds of merge.
pub open spec fn shows_modified_region(cmd_type: AdminCmdType) -> bool {
    cmd_type == AdminCmdType::CommitMerge || cmd_type == AdminCmdType::PrepareMerge || cmd_type
        == AdminCmdType::RollbackMerge
}

/// Chooses the response that the storage engine is shown for an executed
/// administrative command. A merge has to have left a modified partition.
pub fn admin_response(cmd_type: AdminCmdType, region_state: RegionState) -> (choice:
    AdminResponseChoice)
    requires
        shows_modified_region(cmd_type) ==> region_state.modified_region is Some,
    ensures
        choice == (if shows_modified_region(cmd_type) {
            AdminResponseChoice::Modified(region_state.modified_region.unwrap())
        } else {
            AdminResponseChoice::Original
        }),
{
    match cmd_type {
        AdminCmdType::CommitMerge | AdminCmdType::PrepareMerge | AdminCmdType::RollbackMerge => {
            match region_state.modified_region {
                Some(region) => AdminResponseChoice::Modified(region),
                None => AdminResponseChoice::Original,
            }
        },
        _ => AdminResponseChoice::Original,
    }
}

/// Decides whether the apply state is persisted after an administrative
/// command that the storage engine has answered.
pub fn post_exec_admin(flash_res: TiFlashApplyRes, region_state: &RegionState) -> (persist: bool)
    ensures
        persist == persists_admin(flash_res, region_state.pending_remove),
{
    match flash_res {
        TiFlashApplyRes::Nothing => false,
        TiFlashApplyRes::Persist => !region_state.pending_remove,
        TiFlashApplyRes::NotFound => !region_state.pending_remove,
    }
}

/// Decides whether the apply state is persisted after a batch of writes that
/// the storage engine has answered.
pub fn post_exec_query(flash_res: TiFlashApplyRes, region_state: &RegionState) -> (persist: bool)
    ensures
        persist == persists_write(flash_res, region_state.pending_remove),
{
    match flash_res {
        TiFlashApplyRes::Nothing => false,
        TiFlashApplyRes::Persist => !region_state.pending_remove,
        TiFlashApplyRes::NotFound => false,
    }
}

/// The files of `held` that belong to partition `region_id`, in order.
pub open spec fn of_partition(held: Seq<SstMetaInfo>, region_id: u64) -> Seq<SstMetaInfo> {
    held.filter(|sst: SstMetaInfo| sst.meta.region_id == region_id)
}

/// The files of `held` that belong to another partition than `region_id`, in
/// order.
pub open spec fn of_others(held: Seq<SstMetaInfo>, region_id: u64) -> Seq<SstMetaInfo> {
    held.filter(|sst: SstMetaInfo| sst.meta.region_id != region_id)
}

/// Decides whether the apply state is persisted after an ingestion that the
/// storage engine has answered.
pub fn post_exec_ingest(flash_res: TiFlashApplyRes, region_state: &RegionState) -> (persist: bool)
    ensures
        persist == persists_admin(flash_res, region_state.pending_remove),
{
    match flash_res {
        TiFlashApplyRes::Nothing => false,
        _ => !region_state.pending_remove,
    }
}

/// Settles the data files of an ingestion that the storage engine has
/// answered.
///
/// `pending_delete_ssts` are the files that are held back from deletion,
/// `pending_handle_ssts` those of this command, `delete_ssts` those that may
/// be deleted. Where the storage engine holds the apply state back, the files
/// of the command are held back too. Otherwise they may be deleted, after
/// every file that was held back for the partition.
pub fn settle_ingested_ssts(
    flash_res: TiFlashApplyRes,
    region_id: u64,
    pending_delete_ssts: &mut Vec<SstMetaInfo>,
    pending_handle_ssts: &mut Vec<SstMetaInfo>,
    delete_ssts: &mut Vec<SstMetaInfo>,
)
    ensures
        final(pending_handle_ssts)@.len() == 0,
        flash_res == TiFlashApplyRes::Nothing ==> {
            &&& final(pending_delete_ssts)@ == old(pending_delete_ssts)@ + old(
                pending_handle_ssts,
            )@
            &&& final(delete_ssts)@ == old(delete_ssts)@
        },
        flash_res != TiFlashApplyRes::Nothing ==> {
            &&& final(pending_delete_ssts)@ == of_others(old(pending_delete_ssts)@, region_id)
            &&& final(delete_ssts)@ == old(delete_ssts)@ + of_partition(
                old(pending_delete_ssts)@,
                region_id,
            ) + old(pending_handle_ssts)@
        },
{
    match flash_res {
        TiFlashApplyRes::Nothing => {
            pending_delete_ssts.append(pending_handle_ssts);
        },
        _ => {
            let ghost held = pending_delete_ssts@;
            let mut kept: Vec<SstMetaInfo> = Vec::new();
            let mut moved: Vec<SstMetaInfo> = Vec::new();
            assert(held.subrange(held.len() as int, held.len() as int) =~= Seq::<
                SstMetaInfo,
            >::empty());
            while pending_delete_ssts.len() > 0
                invariant
                    pending_delete_ssts@.len() <= held.len(),
                    pending_delete_ssts@ == held.subrange(0, pending_delete_ssts@.len() as int),
                    kept@.reverse() == of_others(
                        held.subrange(pending_delete_ssts@.len() as int, held.len() as int),
                        region_id,
                    ),
                    moved@.reverse() == of_partition(
                        held.subrange(pending_delete_ssts@.len() as int, held.len() as int),
                        region_id,
                    ),
                decreases pending_delete_ssts@.len(),
            {
                let ghost n = pending_delete_ssts@.len() as int;
                let popped = pending_delete_ssts.pop();
                proof {
                    let tail = held.subrange(n, held.len() as int);
                    let longer = held.subrange(n - 1, held.len() as int);
                    assert(longer =~= seq![held[n - 1]] + tail);
                    lemma_filter_prepend(
                        held[n - 1],
                        tail,
                        |sst: SstMetaInfo| sst.meta.region_id == region_id,
                    );
                    lemma_filter_prepend(
                        held[n - 1],
                        tail,
                        |sst: SstMetaInfo| sst.meta.region_id != region_id,
                    );
                    assert(pending_delete_ssts@ =~= held.subrange(0, n - 1));
                }
                match popped {
                    Some(sst) => {
                        if sst.meta.region_id == region_id {
                            proof {
                                assert(moved@.push(sst).reverse() =~= seq![sst] + moved@.reverse());
                            }
                            moved.push(sst);
                        } else {
                            proof {
                                assert(kept@.push(sst).reverse() =~= seq![sst] + kept@.reverse());
                            }
                            kept.push(sst);
                        }
                    },
                    None => {},
                }
            }
            assert(held.subrange(0, held.len() as int) =~= held);
            let ghost kept_rev = kept@;
            let ghost moved_rev = moved@;
            while kept.len() > 0
                invariant
                    kept@.len() <= kept_rev.len(),
                    kept@ == kept_rev.subrange(0, kept@.len() as int),
                    pending_delete_ssts@ == kept_rev.subrange(
                        kept@.len() as int,
                        kept_rev.len() as int,
                    ).reverse(),
                decreases kept@.len(),
            {
                let ghost n = kept@.len() as int;
                match kept.pop() {
                    Some(sst) => {
                        proof {
                            assert(kept_rev.subrange(n - 1, kept_rev.len() as int).reverse()
                                =~= kept_rev.subrange(n, kept_rev.len() as int).reverse().push(
                                sst,
                            ));
                        }
                        pending_delete_ssts.push(sst);
                    },
                    None => {},
                }
                assert(kept@ =~= kept_rev.subrange(0, n - 1));
            }
            assert(kept_rev.subrange(0, kept_rev.len() as int) =~= kept_rev);
            assert(pending_delete_ssts@ =~= kept_rev.reverse());
            assert(kept_rev.reverse().reverse() =~= kept_rev);
            let ghost deletable = delete_ssts@;
            while moved.len() > 0
                invariant
                    moved@.len() <= moved_rev.len(),
                    moved@ == moved_rev.subrange(0, moved@.len() as int),
                    delete_ssts@ == deletable + moved_rev.subrange(
                        moved@.len() as int,
                        moved_rev.len() as int,
                    ).reverse(),
                decreases moved@.len(),
            {
                let ghost n = moved@.len() as int;
                match moved.pop() {
                    Some(sst) => {
                        proof {
                            assert(moved_rev.subrange(n - 1, moved_rev.len() as int).reverse()
                                =~= moved_rev.subrange(n, moved_rev.len() as int).reverse().push(
                                sst,
                            ));
                        }
                        delete_ssts.push(sst);
                    },
                    None => {},
                }
                assert(moved@ =~= moved_rev.subrange(0, n - 1));
            }
            assert(moved_rev.subrange(0, moved_rev.len() as int) =~= moved_rev);
            assert(moved_rev.reverse().reverse() =~= moved_rev);
            delete_ssts.append(pending_handle_ssts);
        },
    }
}

/// Filtering a sequence looks at its first element and then at the rest.
proof fn lemma_filter_prepend<A>(first: A, rest: Seq<A>, keep: spec_fn(A) -> bool)
    ensures
        (seq![first] + rest).filter(keep) == (if keep(first) {
            seq![first] + rest.filter(keep)
        } else {
            rest.filter(keep)
        }),
{
    let one = seq![first];
    assert(one.drop_last() =~= Seq::<A>::empty());
    reveal(Seq::filter);
    assert(one.filter(keep) =~= (if keep(first) {
        one
    } else {
        Seq::<A>::empty()
    })) by {
        assert(Seq::<A>::empty().filter(keep) =~= Seq::<A>::empty());
    }
    Seq::filter_distributes_over_add(one, rest, keep);
}

/// The command commits or rolls back a merge.
pub open spec fn ends_merge(cmd: RaftCmdRequest) -> bool {
    cmd.admin_request == Some(AdminCmdType::CommitMerge) || cmd.admin_request == Some(
        AdminCmdType::RollbackMerge,
    )
}

/// Decides whether the apply state is persisted before the next command is
/// applied: at the end of a batch of commands always, within a batch only
/// after the commit or the rollback of a merge, since a merge needs the latest
/// apply index. Within a batch the command has to be given.
pub fn pre_persist(is_finished: bool, cmd: Option<&RaftCmdRequest>) -> (should_persist: bool)
    requires
        !is_finished ==> cmd is Some,
    ensures
        should_persist == (is_finished || ends_merge(*cmd.unwrap())),
{
    if is_finished {
        true
    } else {
        match cmd {
            Some(cmd) => match cmd.admin_request {
                Some(AdminCmdType::CommitMerge) => true,
                Some(AdminCmdType::RollbackMerge) => true,
                _ => false,
            },
            None => false,
        }
    }
}

/// The apply state is never written ahead of its turn.
pub fn pre_write_apply_state() -> (write: bool)
    ensures
        !write,
{
    false
}

} // verus!
