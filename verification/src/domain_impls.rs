//! Commands and snapshot data in the shape in which they are handed to the
//! storage engine: batches of borrowed byte strings, each with its kind and
//! column family.

use crate::interfaces::{ColumnFamilyType, WriteCmdType};
use std::collections::VecDeque;
use vstd::prelude::*;
use vstd::string::StringSliceAdditionalSpecFns;

verus! {

/// Name of the column family of locks, in bytes: `lock`.
pub open spec fn cf_lock_name() -> Seq<u8> {
    seq![0x6cu8, 0x6f, 0x63, 0x6b]
}

/// Name of the column family of writes, in bytes: `write`.
pub open spec fn cf_write_name() -> Seq<u8> {
    seq![0x77u8, 0x72, 0x69, 0x74, 0x65]
}

/// Name of the default column family, in bytes: `default`.
pub open spec fn cf_default_name() -> Seq<u8> {
    seq![0x64u8, 0x65, 0x66, 0x61, 0x75, 0x6c, 0x74]
}

/// The column family that a name stands for. The empty name stands for the
/// default column family; names other than the three stand for none.
pub open spec fn cf_of_name(name: Seq<u8>) -> Option<ColumnFamilyType> {
    if name.len() == 0 {
        Some(ColumnFamilyType::Default)
    } else if name == cf_lock_name() {
        Some(ColumnFamilyType::Lock)
    } else if name == cf_write_name() {
        Some(ColumnFamilyType::Write)
    } else if name == cf_default_name() {
        Some(ColumnFamilyType::Default)
    } else {
        None
    }
}

/// The name of a column family, in bytes.
pub open spec fn name_of_cf(cf: ColumnFamilyType) -> Seq<u8> {
    match cf {
        ColumnFamilyType::Lock => cf_lock_name(),
        ColumnFamilyType::Write => cf_write_name(),
        ColumnFamilyType::Default => cf_default_name(),
    }
}

fn same_bytes(text: &[u8], expected: &[u8]) -> (same: bool)
    ensures
        same == (text@ == expected@),
{
    if text.len() != expected.len() {
        return false;
    }
    let mut i: usize = 0;
    while i < text.len()
        invariant
            i <= text@.len(),
            text@.len() == expected@.len(),
            forall|j: int| 0 <= j < i ==> text@[j] == expected@[j],
        decreases text@.len() - i,
    {
        if text[i] != expected[i] {
            return false;
        }
        i += 1;
    }
    assert(text@ =~= expected@);
    true
}

/// The column family that `cf` names. The name has to be empty or one of
/// `lock`, `write` and `default`.
pub fn name_to_cf(cf: &str) -> (family: ColumnFamilyType)
    requires
        cf_of_name(cf.spec_bytes()) is Some,
    ensures
        cf_of_name(cf.spec_bytes()) == Some(family),
{
    let name = cf.as_bytes();
    let lock: [u8; 4] = [0x6c, 0x6f, 0x63, 0x6b];
    let write: [u8; 5] = [0x77, 0x72, 0x69, 0x74, 0x65];
    if name.len() == 0 {
        ColumnFamilyType::Default
    } else if same_bytes(name, lock.as_slice()) {
        assert(lock@ =~= cf_lock_name());
        ColumnFamilyType::Lock
    } else if same_bytes(name, write.as_slice()) {
        assert(write@ =~= cf_write_name());
        ColumnFamilyType::Write
    } else {
        assert(lock@ =~= cf_lock_name());
        assert(write@ =~= cf_write_name());
        ColumnFamilyType::Default
    }
}

/// The name of column family `cf`: `lock`, `write` or `default`.
pub fn cf_to_name(cf: ColumnFamilyType) -> (name: &'static str)
    ensures
        name@ == (match cf {
            ColumnFamilyType::Lock => "lock"@,
            ColumnFamilyType::Write => "write"@,
            ColumnFamilyType::Default => "default"@,
        }),
        name.spec_bytes() == name_of_cf(cf),
        cf_of_name(name.spec_bytes()) == Some(cf),
{
    broadcast use vstd::string::is_ascii_spec_bytes;

    proof {
        reveal_strlit("lock");
        reveal_strlit("write");
        reveal_strlit("default");
    }
    let name = match cf {
        ColumnFamilyType::Lock => "lock",
        ColumnFamilyType::Write => "write",
        ColumnFamilyType::Default => "default",
    };
    proof {
        assert(vstd::string::is_ascii(name));
        assert(name.spec_bytes() =~= name_of_cf(cf));
        assert(cf_lock_name().len() == 4);
        assert(cf_write_name().len() == 5);
        assert(cf_default_name().len() == 7);
    }
    name
}

/// A borrowed byte string together with its length.
#[derive(Clone, Copy, Debug)]
pub struct BaseBuffView<'a> {
    pub data: &'a [u8],
    pub len: u64,
}

impl<'a> BaseBuffView<'a> {
    /// The length that the view states is the length of its bytes.
    pub open spec fn wf(self) -> bool {
        self.len == self.data@.len()
    }

    /// The view of the whole of `data`.
    pub fn new(data: &'a [u8]) -> (view: BaseBuffView<'a>)
        ensures
            view.data@ == data@,
            view.wf(),
    {
        BaseBuffView { data, len: data.len() as u64 }
    }

    /// The bytes that the view stands for.
    pub fn to_slice(&self) -> (bytes: &'a [u8])
        ensures
            bytes@ == self.data@,
    {
        self.data
    }
}

/// Where the data of one column family of a snapshot is found, as a borrowed
/// path.
#[derive(Clone, Copy, Debug)]
pub struct SSTView<'a> {
    pub type_: ColumnFamilyType,
    pub path: BaseBuffView<'a>,
}

/// Turns pairs of a path and a column family into the views that the storage
/// engine takes, in the same order.
pub fn into_sst_views<'a>(snaps: Vec<(&'a [u8], ColumnFamilyType)>) -> (snaps_view: Vec<SSTView<'a>>)
    ensures
        snaps_view@.len() == snaps@.len(),
        forall|i: int|
            0 <= i < snaps@.len() ==> (#[trigger] snaps_view@[i]).type_ == snaps@[i].1
                && snaps_view@[i].path.data@ == snaps@[i].0@ && snaps_view@[i].path.wf(),
{
    let mut snaps_view: Vec<SSTView<'a>> = Vec::new();
    let mut i: usize = 0;
    while i < snaps.len()
        invariant
            i <= snaps@.len(),
            snaps_view@.len() == i,
            forall|j: int|
                0 <= j < i ==> (#[trigger] snaps_view@[j]).type_ == snaps@[j].1
                    && snaps_view@[j].path.data@ == snaps@[j].0@ && snaps_view@[j].path.wf(),
        decreases snaps@.len() - i,
    {
        let (path, cf) = snaps[i];
        snaps_view.push(SSTView { type_: cf, path: BaseBuffView::new(path) });
        i += 1;
    }
    snaps_view
}

/// One write command: a key, a value, what is done with them and where.
pub struct WriteCmd {
    pub key: Seq<u8>,
    pub val: Seq<u8>,
    pub cmd_type: WriteCmdType,
    pub cf: ColumnFamilyType,
}

/// A batch of write commands over borrowed keys and values.
#[derive(Debug)]
pub struct WriteCmds<'a> {
    keys: Vec<BaseBuffView<'a>>,
    vals: Vec<BaseBuffView<'a>>,
    cmd_type: Vec<WriteCmdType>,
    cf: Vec<ColumnFamilyType>,
}

/// A batch of write commands as the storage engine reads it: four parallel
/// arrays and their common length.
#[derive(Clone, Copy, Debug)]
pub struct WriteCmdsView<'b, 'a> {
    pub keys: &'b [BaseBuffView<'a>],
    pub vals: &'b [BaseBuffView<'a>],
    pub cmd_types: &'b [WriteCmdType],
    pub cmd_cf: &'b [ColumnFamilyType],
    pub len: u64,
}

impl<'b, 'a> WriteCmdsView<'b, 'a> {
    /// The commands that the view shows, in order.
    pub open spec fn cmds(self) -> Seq<WriteCmd> {
        Seq::new(
            self.len as nat,
            |i: int|
                WriteCmd {
                    key: self.keys@[i].data@,
                    val: self.vals@[i].data@,
                    cmd_type: self.cmd_types@[i],
                    cf: self.cmd_cf@[i],
                },
        )
    }

    /// The four arrays have the length that the view states, and every key
    /// and value states its own length.
    pub open spec fn wf(self) -> bool {
        &&& self.keys@.len() == self.len
        &&& self.vals@.len() == self.len
        &&& self.cmd_types@.len() == self.len
        &&& self.cmd_cf@.len() == self.len
        &&& forall|i: int| 0 <= i < self.len ==> (#[trigger] self.keys@[i]).wf()
        &&& forall|i: int| 0 <= i < self.len ==> (#[trigger] self.vals@[i]).wf()
    }
}

impl<'a> View for WriteCmds<'a> {
    type V = Seq<WriteCmd>;

    /// The commands of the batch, in the order in which they were pushed.
    closed spec fn view(&self) -> Seq<WriteCmd> {
        Seq::new(
            self.cmd_type@.len(),
            |i: int|
                WriteCmd {
                    key: self.keys@[i].data@,
                    val: self.vals@[i].data@,
                    cmd_type: self.cmd_type@[i],
                    cf: self.cf@[i],
                },
        )
    }
}

impl<'a> WriteCmds<'a> {
    /// The four arrays of the batch run in parallel.
    pub closed spec fn wf(&self) -> bool {
        &&& self.keys@.len() == self.cmd_type@.len()
        &&& self.vals@.len() == self.cmd_type@.len()
        &&& self.cf@.len() == self.cmd_type@.len()
        &&& forall|i: int| 0 <= i < self.keys@.len() ==> (#[trigger] self.keys@[i]).wf()
        &&& forall|i: int| 0 <= i < self.vals@.len() ==> (#[trigger] self.vals@[i]).wf()
    }

    /// An empty batch with room for `cap` commands.
    pub fn with_capacity(cap: usize) -> (cmds: WriteCmds<'a>)
        ensures
            cmds.wf(),
            cmds@ == Seq::<WriteCmd>::empty(),
    {
        let cmds = WriteCmds {
            keys: Vec::with_capacity(cap),
            vals: Vec::with_capacity(cap),
            cmd_type: Vec::with_capacity(cap),
            cf: Vec::with_capacity(cap),
        };
        assert(cmds@ =~= Seq::<WriteCmd>::empty());
        cmds
    }

    /// An empty batch.
    pub fn new() -> (cmds: WriteCmds<'a>)
        ensures
            cmds.wf(),
            cmds@ == Seq::<WriteCmd>::empty(),
    {
        let cmds = WriteCmds {
            keys: Vec::new(),
            vals: Vec::new(),
            cmd_type: Vec::new(),
            cf: Vec::new(),
        };
        assert(cmds@ =~= Seq::<WriteCmd>::empty());
        cmds
    }

    /// Appends one command to the batch.
    pub fn push(&mut self, key: &'a [u8], val: &'a [u8], cmd_type: WriteCmdType, cf: ColumnFamilyType)
        requires
            old(self).wf(),
        ensures
            final(self).wf(),
            final(self)@ == old(self)@.push(WriteCmd { key: key@, val: val@, cmd_type, cf }),
    {
        self.keys.push(BaseBuffView::new(key));
        self.vals.push(BaseBuffView::new(val));
        self.cmd_type.push(cmd_type);
        self.cf.push(cf);
        assert(self@ =~= old(self)@.push(WriteCmd { key: key@, val: val@, cmd_type, cf }));
    }

    /// The number of commands in the batch.
    pub fn len(&self) -> (n: usize)
        ensures
            n == self@.len(),
    {
        self.cmd_type.len()
    }

    /// Whether the batch holds no command.
    pub fn is_empty(&self) -> (empty: bool)
        ensures
            empty == (self@.len() == 0),
    {
        self.len() == 0
    }

    /// The batch as the storage engine reads it.
    pub fn gen_view<'b>(&'b self) -> (view: WriteCmdsView<'b, 'a>)
        requires
            self.wf(),
        ensures
            view.wf(),
            view.cmds() == self@,
    {
        let view = WriteCmdsView {
            keys: self.keys.as_slice(),
            vals: self.vals.as_slice(),
            cmd_types: self.cmd_type.as_slice(),
            cmd_cf: self.cf.as_slice(),
            len: self.cmd_type.len() as u64,
        };
        assert(view.cmds() =~= self@);
        view
    }
}

/// The keys and values of one column family of a snapshot, in key order.
pub type SnapshotKV = VecDeque<(Vec<u8>, Vec<u8>)>;

/// The keys and the values of one column family as two parallel arrays of
/// borrowed byte strings.
pub type SnapshotKVView<'a> = (Vec<BaseBuffView<'a>>, Vec<BaseBuffView<'a>>);

/// Borrows every key and value of `snap`, in order.
pub fn gen_snap_kv_data_view<'a>(snap: &'a SnapshotKV) -> (view: SnapshotKVView<'a>)
    ensures
        view.0@.len() == snap@.len(),
        view.1@.len() == snap@.len(),
        forall|i: int|
            0 <= i < snap@.len() ==> (#[trigger] view.0@[i]).data@ == snap@[i].0@ && view.0@[i].wf(),
        forall|i: int|
            0 <= i < snap@.len() ==> (#[trigger] view.1@[i]).data@ == snap@[i].1@ && view.1@[i].wf(),
{
    let mut keys: Vec<BaseBuffView<'a>> = Vec::with_capacity(snap.len());
    let mut vals: Vec<BaseBuffView<'a>> = Vec::with_capacity(snap.len());
    let mut i: usize = 0;
    while i < snap.len()
        invariant
            i <= snap@.len(),
            keys@.len() == i,
            vals@.len() == i,
            forall|j: int|
                0 <= j < i ==> (#[trigger] keys@[j]).data@ == snap@[j].0@ && keys@[j].wf(),
            forall|j: int|
                0 <= j < i ==> (#[trigger] vals@[j]).data@ == snap@[j].1@ && vals@[j].wf(),
        decreases snap@.len() - i,
    {
        let pair = &snap[i];
        keys.push(BaseBuffView::new(pair.0.as_slice()));
        vals.push(BaseBuffView::new(pair.1.as_slice()));
        i += 1;
    }
    (keys, vals)
}

/// One column family of a snapshot as the storage engine reads it.
#[derive(Debug)]
pub struct SnapshotView<'a> {
    pub keys: Vec<BaseBuffView<'a>>,
    pub vals: Vec<BaseBuffView<'a>>,
    pub cf: ColumnFamilyType,
    pub len: u64,
}

/// A snapshot as the storage engine reads it: one view for each column
/// family, and their number.
#[derive(Debug)]
pub struct SnapshotViewArray<'a> {
    pub views: Vec<SnapshotView<'a>>,
    pub len: u64,
}

/// Collects the column families of a snapshot that is handed to the storage
/// engine as keys and values.
#[derive(Debug)]
pub struct SnapshotHelper {
    cf_snaps: Vec<(ColumnFamilyType, SnapshotKV)>,
}

impl View for SnapshotHelper {
    type V = Seq<(ColumnFamilyType, SnapshotKV)>;

    /// The column families added so far, in order.
    closed spec fn view(&self) -> Seq<(ColumnFamilyType, SnapshotKV)> {
        self.cf_snaps@
    }
}

/// `view` shows the keys and values of `snap` for column family `cf`.
pub open spec fn shows(view: SnapshotView<'_>, cf: ColumnFamilyType, snap: SnapshotKV) -> bool {
    &&& view.cf == cf
    &&& view.len == snap@.len()
    &&& view.keys@.len() == snap@.len()
    &&& view.vals@.len() == snap@.len()
    &&& forall|i: int|
        0 <= i < snap@.len() ==> (#[trigger] view.keys@[i]).data@ == snap@[i].0@
            && view.keys@[i].wf()
    &&& forall|i: int|
        0 <= i < snap@.len() ==> (#[trigger] view.vals@[i]).data@ == snap@[i].1@
            && view.vals@[i].wf()
}

impl SnapshotHelper {
    /// A helper without column families.
    pub fn new() -> (helper: SnapshotHelper)
        ensures
            helper@ == Seq::<(ColumnFamilyType, SnapshotKV)>::empty(),
    {
        SnapshotHelper { cf_snaps: Vec::new() }
    }

    /// Adds the keys and values of one column family.
    pub fn add_cf_snap(&mut self, cf_type: ColumnFamilyType, snap_kv: SnapshotKV)
        ensures
            final(self)@ == old(self)@.push((cf_type, snap_kv)),
    {
        self.cf_snaps.push((cf_type, snap_kv));
    }

    /// The snapshot as the storage engine reads it: one view for each column
    /// family that was added, in order.
    pub fn gen_snapshot_view<'a>(&'a self) -> (array: SnapshotViewArray<'a>)
        ensures
            array.len == self@.len(),
            array.views@.len() == self@.len(),
            forall|i: int|
                0 <= i < self@.len() ==> shows(#[trigger] array.views@[i], self@[i].0, self@[i].1),
    {
        let mut views: Vec<SnapshotView<'a>> = Vec::new();
        let mut i: usize = 0;
        while i < self.cf_snaps.len()
            invariant
                i <= self.cf_snaps@.len(),
                views@.len() == i,
                forall|j: int|
                    0 <= j < i ==> shows(
                        #[trigger] views@[j],
                        self.cf_snaps@[j].0,
                        self.cf_snaps@[j].1,
                    ),
            decreases self.cf_snaps@.len() - i,
        {
            let entry = &self.cf_snaps[i];
            let (keys, vals) = gen_snap_kv_data_view(&entry.1);
            let len = keys.len() as u64;
            views.push(SnapshotView { keys, vals, cf: entry.0, len });
            i += 1;
        }
        let len = views.len() as u64;
        SnapshotViewArray { views, len }
    }
}

} // verus!
