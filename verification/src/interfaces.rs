//! Plain values exchanged with the storage engine.

use vstd::prelude::*;

verus! {

/// The column families that hold a partition's data.
#[derive(Clone, Copy, Debug, PartialEq, Eq, Structural)]
pub enum ColumnFamilyType {
    Lock,
    Write,
    Default,
}

impl ColumnFamilyType {
    /// The number that stands for this column family at the engine boundary.
    pub open spec fn code(self) -> int {
        match self {
            ColumnFamilyType::Lock => 0,
            ColumnFamilyType::Write => 1,
            ColumnFamilyType::Default => 2,
        }
    }

    /// The column family that the number `i` stands for. Only 0, 1 and 2
    /// stand for one.
    pub fn from_index(i: usize) -> (cf: ColumnFamilyType)
        requires
            i <= 2,
        ensures
            cf.code() == i,
    {
        if i == 0 {
            ColumnFamilyType::Lock
        } else if i == 1 {
            ColumnFamilyType::Write
        } else {
            ColumnFamilyType::Default
        }
    }

    /// The number that stands for this column family.
    pub fn into_index(self) -> (i: u8)
        ensures
            i == self.code(),
    {
        match self {
            ColumnFamilyType::Lock => 0,
            ColumnFamilyType::Write => 1,
            ColumnFamilyType::Default => 2,
        }
    }
}

/// Kind of a write command.
#[derive(Clone, Copy, Debug, PartialEq, Eq, Structural)]
pub enum WriteCmdType {
    Put,
    Del,
}

impl WriteCmdType {
    /// The number that stands for this kind at the engine boundary.
    pub open spec fn code(self) -> int {
        match self {
            WriteCmdType::Put => 0,
            WriteCmdType::Del => 1,
        }
    }

    /// The number that stands for this kind.
    pub fn into_index(self) -> (i: u8)
        ensures
            i == self.code(),
    {
        match self {
            WriteCmdType::Put => 0,
            WriteCmdType::Del => 1,
        }
    }
}

/// What the storage engine answers to an applied command.
#[derive(Clone, Copy, Debug, PartialEq, Eq, Structural)]
pub enum TiFlashApplyRes {
    Nothing,
    Persist,
    NotFound,
}

impl TiFlashApplyRes {
    /// The number that stands for this answer at the engine boundary.
    pub open spec fn code(self) -> int {
        match self {
            TiFlashApplyRes::Nothing => 0,
            TiFlashApplyRes::Persist => 1,
            TiFlashApplyRes::NotFound => 2,
        }
    }

    /// The answer that the number `o` stands for. Only 0, 1 and 2 stand for
    /// one.
    pub fn from_code(o: u32) -> (res: TiFlashApplyRes)
        requires
            o <= 2,
        ensures
            res.code() == o,
    {
        if o == 0 {
            TiFlashApplyRes::Nothing
        } else if o == 1 {
            TiFlashApplyRes::Persist
        } else {
            TiFlashApplyRes::NotFound
        }
    }
}

/// Where in the replication log a command stands, and for which partition.
#[derive(Clone, Copy, Debug, PartialEq, Eq, Structural)]
pub struct RaftCmdHeader {
    pub region_id: u64,
    pub index: u64,
    pub term: u64,
}

impl RaftCmdHeader {
    /// The header of the command of `region_id` at log position
    /// (`index`, `term`).
    pub fn new(region_id: u64, index: u64, term: u64) -> (header: RaftCmdHeader)
        ensures
            header == (RaftCmdHeader { region_id, index, term }),
    {
        RaftCmdHeader { region_id, index, term }
    }
}

/// The magic number that a storage engine of the right kind presents.
pub const MAGIC_NUMBER: u32 = 0x13579BDF;

/// The version of the interface that this library speaks.
pub const VERSION: u32 = 6;

/// Why a storage engine cannot be worked with.
#[derive(Clone, Copy, Debug, PartialEq, Eq, Structural)]
pub enum Mismatch {
    /// The engine presents another magic number than `expect`.
    MagicNumber { expect: u32, got: u32 },
    /// The engine speaks another version of the interface than `expect`.
    Version { expect: u32, got: u32 },
}

/// What a storage engine presents of itself when the process starts.
#[derive(Clone, Copy, Debug, PartialEq, Eq, Structural)]
pub struct TiFlashServerHelper {
    pub magic_number: u32,
    pub version: u32,
}

impl TiFlashServerHelper {
    /// Checks once, at start, that the storage engine is of the right kind
    /// and speaks the right version of the interface. The magic number is
    /// looked at first.
    pub fn check(&self) -> (checked: Result<(), Mismatch>)
        ensures
            checked == (if self.magic_number != MAGIC_NUMBER {
                Err::<(), Mismatch>(
                    Mismatch::MagicNumber { expect: MAGIC_NUMBER, got: self.magic_number },
                )
            } else if self.version != VERSION {
                Err(Mismatch::Version { expect: VERSION, got: self.version })
            } else {
                Ok(())
            }),
    {
        if self.magic_number != MAGIC_NUMBER {
            Err(Mismatch::MagicNumber { expect: MAGIC_NUMBER, got: self.magic_number })
        } else if self.version != VERSION {
            Err(Mismatch::Version { expect: VERSION, got: self.version })
        } else {
            Ok(())
        }
    }
}

/// How an attempt to fetch or deliver fast-path data ended.
#[derive(Clone, Copy, Debug, PartialEq, Eq, Structural)]
pub enum FastAddPeerStatus {
    Okay,
    WaitForData,
    OtherError,
    NoSuitable,
    BadData,
    FailedInject,
}

/// Sizes of the file system that the storage engine lives on.
#[derive(Clone, Copy, Debug, PartialEq, Eq, Structural)]
pub struct FsStats {
    pub used_size: u64,
    pub avail_size: u64,
    pub capacity_size: u64,
    pub ok: u8,
}

} // verus!
