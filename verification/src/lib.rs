//! Fast-path replica catch-up and snapshot prehandling for a replicated
//! key-value store, with machine-checked contracts.
//!
//! A new replica of a partition normally waits for a snapshot generated by the
//! leader. The fast path intercepts the replica's first append message, takes
//! materialised data from a replica that has already caught up, and hands the
//! partition back to ordinary replication once the first snapshot has been
//! applied. Every snapshot, fast or slow, passes through a prehandling
//! pipeline that stages its data ahead of the apply.

pub mod cached_region_info;
pub mod channel;
pub mod command;
pub mod domain_impls;
pub mod engine;
pub mod fast_path;
pub mod forwarder;
pub mod hash;
pub mod interfaces;
pub mod key_format;
pub mod metapb;
pub mod observer;
pub mod prehandle;
pub mod ps_engine;
pub mod raftpb;
pub mod snap;
