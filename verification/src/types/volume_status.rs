//! The per-volume statistics document a volume server can be asked for.
//! Like the directory status, it is carried to callers unchanged; the
//! client never branches on it.

use vstd::prelude::*;

verus! {

/// A volume server's statistics report: its version and one entry per
/// volume it hosts.
#[derive(Clone, Debug)]
pub struct VolumeStatus {
    pub version: String,
    pub volumes: Vec<Volume>,
}

/// Statistics of a single volume.
#[derive(Clone, Debug)]
pub struct Volume {
    pub id: u64,
    pub size: u64,
    pub rep_type: String,
    pub collection: String,
    pub version: String,
    pub file_count: u64,
    pub delete_count: u64,
    pub deleted_byte_count: u64,
    pub read_only: bool,
}

} // verus!
