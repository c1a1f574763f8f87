//! The cluster topology/status document the master can be asked for:
//! data centers, racks and nodes with their free and maximum volume
//! counts, and the per-collection volume-growth layouts. This client
//! only carries these values to its callers; it never branches on them.

use vstd::prelude::*;

use crate::types::Replication;

verus! {

/// The whole status document: the topology tree plus the master's version.
#[derive(Clone, Debug)]
pub struct DirStatus {
    pub topology: Topology,
    pub version: String,
}

/// The root of the topology tree.
#[derive(Clone, Debug)]
pub struct Topology {
    pub data_centers: Vec<DataCenter>,
    pub free: u32,
    pub max: u32,
    pub layouts: Vec<Layout>,
}

/// One data center: its racks and its free and maximum volume counts.
#[derive(Clone, Debug)]
pub struct DataCenter {
    pub id: Option<String>,
    pub free: u32,
    pub max: u32,
    pub racks: Vec<Rack>,
}

/// One rack inside a data center.
#[derive(Clone, Debug)]
pub struct Rack {
    pub id: Option<String>,
    pub data_nodes: Option<Vec<DataNode>>,
    pub free: u32,
    pub max: u32,
}

/// One volume server inside a rack.
#[derive(Clone, Debug)]
pub struct DataNode {
    pub free: u32,
    pub max: u32,
    pub public_url: String,
    pub volumes: u32,
}

/// One per-collection layout: which volumes are writable under which
/// replication strategy.
#[derive(Clone, Debug)]
pub struct Layout {
    pub collection: String,
    pub replication: Replication,
    pub writables: Vec<u32>,
}

} // verus!
