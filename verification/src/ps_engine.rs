//! The log engine that keeps replication logs in the storage engine's page
//! storage: which log entries a garbage collection or a clean-up removes.

use vstd::prelude::*;

verus! {

/// A range of log indexes, both ends included.
#[derive(Clone, Copy, Debug, PartialEq, Eq, Structural)]
pub struct LogRange {
    pub first: u64,
    pub last: u64,
}

/// Handle of the page storage of the storage engine.
#[derive(Clone, Copy, Debug, PartialEq, Eq, Structural)]
pub struct PSEngine {
    /// Handle of the storage engine; 0 until `init`.
    pub engine_store_server_helper: isize,
}

/// Performance counters of the page storage. There are none.
#[derive(Clone, Copy, Debug, PartialEq, Eq, Structural)]
pub struct PSPerfContext {}

/// Where a removal of log entries starts: at `from`, or, where `from` is 0,
/// at the first entry that the log holds, if it holds any.
pub open spec fn removal_start(from: u64, first_log_index: Option<u64>) -> Option<u64> {
    if from == 0 {
        first_log_index
    } else {
        Some(from)
    }
}

/// The entries that a garbage collection of the indexes before `to` removes:
/// those from the start of the removal up to `to - 1`, if there are any.
pub open spec fn gc_range(from: u64, to: u64, first_log_index: Option<u64>) -> Option<LogRange> {
    match removal_start(from, first_log_index) {
        Some(start) => if start < to {
            Some(LogRange { first: start, last: (to - 1) as u64 })
        } else {
            None
        },
        None => None,
    }
}

/// The entries that the clean-up of a replica whose log ends at `last_index`
/// removes: those from the start of the removal up to `last_index`, unless
/// the removal would start at `last_index` or behind it.
pub open spec fn clean_range(first_index: u64, last_index: u64, first_log_index: Option<u64>) -> Option<
    LogRange,
> {
    match removal_start(first_index, first_log_index) {
        Some(start) => if start < last_index {
            Some(LogRange { first: start, last: last_index })
        } else {
            None
        },
        None => None,
    }
}

impl LogRange {
    /// The number of indexes in the range.
    pub open spec fn count(self) -> int {
        self.last - self.first + 1
    }
}

impl PSEngine {
    /// An engine that is not bound to a storage engine yet.
    pub fn new() -> (engine: PSEngine)
        ensures
            engine.engine_store_server_helper == 0,
    {
        PSEngine { engine_store_server_helper: 0 }
    }

    /// Binds the engine to the storage engine behind
    /// `engine_store_server_helper`.
    pub fn init(&mut self, engine_store_server_helper: isize)
        ensures
            final(self).engine_store_server_helper == engine_store_server_helper,
    {
        self.engine_store_server_helper = engine_store_server_helper;
    }

    /// Plans the garbage collection of the log entries of one replica with
    /// an index in `from..to`. `first_log_index` is the index of the first
    /// entry that the log holds, nothing where it holds none; it is looked at
    /// only where `from` is 0. The result is the range to remove, nothing
    /// where there is nothing to remove.
    pub fn gc_impl(&self, from: u64, to: u64, first_log_index: Option<u64>) -> (range: Option<
        LogRange,
    >)
        ensures
            range == gc_range(from, to, first_log_index),
            range matches Some(r) ==> r.first <= r.last && r.count() == to - r.first,
    {
        let mut from = from;
        if from == 0 {
            match first_log_index {
                Some(first) => {
                    from = first;
                },
                None => {
                    return None;
                },
            }
        }
        if from >= to {
            return None;
        }
        Some(LogRange { first: from, last: to - 1 })
    }

    /// Plans the removal of the log of a replica that is cleaned up, whose
    /// log ends at `last_index`. `first_log_index` is the index of the first
    /// entry that the log holds, nothing where it holds none; it is looked at
    /// only where `first_index` is 0. The result is the range to remove,
    /// nothing where there is nothing to remove.
    pub fn clean(&self, first_index: u64, last_index: u64, first_log_index: Option<u64>) -> (range:
        Option<LogRange>)
        ensures
            range == clean_range(first_index, last_index, first_log_index),
            range matches Some(r) ==> r.first < r.last,
    {
        let mut first_index = first_index;
        if first_index == 0 {
            match first_log_index {
                Some(first) => {
                    first_index = first;
                },
                None => {
                    return None;
                },
            }
        }
        if first_index >= last_index {
            return None;
        }
        Some(LogRange { first: first_index, last: last_index })
    }
}

} // verus!
