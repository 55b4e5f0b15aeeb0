//! A received snapshot as it lies in the staging area, and where the data of
//! each column family is found in it.

use crate::interfaces::ColumnFamilyType;
use vstd::prelude::*;

verus! {

/// The files that hold one column family of a snapshot.
#[derive(Clone, Debug, PartialEq, Eq)]
pub struct CfFile {
    pub cf: ColumnFamilyType,
    /// Size of each file. Empty, or starting with 0, where the column family
    /// holds no data.
    pub size: Vec<u64>,
    /// Full path of each file.
    pub file_paths: Vec<String>,
}

/// A snapshot in the staging area.
#[derive(Clone, Debug, PartialEq, Eq)]
pub struct Snapshot {
    pub cf_files: Vec<CfFile>,
    /// Directory of the snapshot where it came in the tablet format; empty
    /// where it came as one set of files for each column family.
    pub tablet_snap_path: String,
}

/// Where the data of one column family of a snapshot is found.
#[derive(Clone, Debug, PartialEq, Eq)]
pub struct SSTInfo {
    pub path: String,
    pub cf: ColumnFamilyType,
    /// The path is the directory of a snapshot in the tablet format.
    pub tablet: bool,
}

impl CfFile {
    /// The column family holds data.
    pub open spec fn has_data(self) -> bool {
        self.size@.len() > 0 && self.size@[0] != 0
    }

    /// The locations that this column family adds to a snapshot's list: one
    /// for each of its files, or none where it holds no data.
    pub open spec fn locations(self) -> Seq<SSTInfo> {
        if self.has_data() {
            Seq::new(
                self.file_paths@.len(),
                |i: int| SSTInfo { path: self.file_paths@[i], cf: self.cf, tablet: false },
            )
        } else {
            Seq::<SSTInfo>::empty()
        }
    }
}

/// The locations of the files of `cf_files`, in the order of the column
/// families and, within one, of its files.
pub open spec fn plain_locations(cf_files: Seq<CfFile>) -> Seq<SSTInfo>
    decreases cf_files.len(),
{
    if cf_files.len() == 0 {
        Seq::<SSTInfo>::empty()
    } else {
        plain_locations(cf_files.drop_last()) + cf_files.last().locations()
    }
}

/// The locations of a snapshot in the tablet format: its directory, once for
/// each column family.
pub open spec fn tablet_locations(path: String) -> Seq<SSTInfo> {
    seq![
        SSTInfo { path, cf: ColumnFamilyType::Default, tablet: true },
        SSTInfo { path, cf: ColumnFamilyType::Lock, tablet: true },
        SSTInfo { path, cf: ColumnFamilyType::Write, tablet: true },
    ]
}

impl Snapshot {
    /// The snapshot came in the tablet format.
    pub open spec fn is_tablet(self) -> bool {
        self.tablet_snap_path@.len() > 0
    }

    /// The snapshot can be listed: it came in the tablet format, or every
    /// column family that holds data names at least one file.
    pub open spec fn wf(self) -> bool {
        self.is_tablet() || forall|i: int|
            0 <= i < self.cf_files@.len() && (#[trigger] self.cf_files@[i]).has_data()
                ==> self.cf_files@[i].file_paths@.len() > 0
    }

    /// Where the data of each column family of the snapshot is found.
    pub open spec fn locations(self) -> Seq<SSTInfo> {
        if self.is_tablet() {
            tablet_locations(self.tablet_snap_path)
        } else {
            plain_locations(self.cf_files@)
        }
    }
}

/// A snapshot that is given can be listed.
pub open spec fn given_wf(snap: Option<&Snapshot>) -> bool {
    snap matches Some(files) ==> files.wf()
}

impl Snapshot {
    /// Tests whether the snapshot can be listed.
    pub fn check_wf(&self) -> (ok: bool)
        ensures
            ok == self.wf(),
    {
        if !self.tablet_snap_path.as_str().is_empty() {
            return true;
        }
        let mut i: usize = 0;
        while i < self.cf_files.len()
            invariant
                i <= self.cf_files@.len(),
                !self.is_tablet(),
                forall|j: int|
                    0 <= j < i && (#[trigger] self.cf_files@[j]).has_data()
                        ==> self.cf_files@[j].file_paths@.len() > 0,
            decreases self.cf_files@.len() - i,
        {
            let cf_file = &self.cf_files[i];
            if cf_file.size.len() != 0 && cf_file.size[0] != 0 && cf_file.file_paths.len() == 0 {
                assert(self.cf_files@[i as int].has_data());
                return false;
            }
            i += 1;
        }
        true
    }
}

/// Lists where the data of each column family of `snap` is found. Column
/// families without data are left out; one that holds data has to name its
/// files.
pub fn retrieve_sst_files(snap: &Snapshot) -> (ssts: Vec<SSTInfo>)
    requires
        snap.wf(),
    ensures
        ssts@ == snap.locations(),
{
    let mut ssts: Vec<SSTInfo> = Vec::new();
    if !snap.tablet_snap_path.as_str().is_empty() {
        ssts.push(
            SSTInfo {
                path: snap.tablet_snap_path.clone(),
                cf: ColumnFamilyType::Default,
                tablet: true,
            },
        );
        ssts.push(
            SSTInfo { path: snap.tablet_snap_path.clone(), cf: ColumnFamilyType::Lock, tablet: true },
        );
        ssts.push(
            SSTInfo {
                path: snap.tablet_snap_path.clone(),
                cf: ColumnFamilyType::Write,
                tablet: true,
            },
        );
        assert(ssts@ =~= tablet_locations(snap.tablet_snap_path));
        return ssts;
    }
    let mut i: usize = 0;
    assert(snap.cf_files@.subrange(0, 0) =~= Seq::<CfFile>::empty());
    while i < snap.cf_files.len()
        invariant
            i <= snap.cf_files@.len(),
            ssts@ == plain_locations(snap.cf_files@.subrange(0, i as int)),
        decreases snap.cf_files@.len() - i,
    {
        let cf_file = &snap.cf_files[i];
        proof {
            let upto = snap.cf_files@.subrange(0, i + 1);
            assert(upto.drop_last() =~= snap.cf_files@.subrange(0, i as int));
            assert(upto.last() == *cf_file);
        }
        if cf_file.size.len() != 0 && cf_file.size[0] != 0 {
            let mut j: usize = 0;
            let ghost before = ssts@;
            while j < cf_file.file_paths.len()
                invariant
                    j <= cf_file.file_paths@.len(),
                    cf_file.has_data(),
                    ssts@ == before + cf_file.locations().subrange(0, j as int),
                decreases cf_file.file_paths@.len() - j,
            {
                ssts.push(
                    SSTInfo { path: cf_file.file_paths[j].clone(), cf: cf_file.cf, tablet: false },
                );
                assert(ssts@ =~= before + cf_file.locations().subrange(0, j + 1));
                j += 1;
            }
            assert(cf_file.locations().subrange(0, j as int) =~= cf_file.locations());
        } else {
            assert(ssts@ + cf_file.locations() =~= ssts@);
        }
        i += 1;
    }
    assert(snap.cf_files@.subrange(0, i as int) =~= snap.cf_files@);
    ssts
}

} // verus!
