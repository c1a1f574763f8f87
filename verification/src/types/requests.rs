//! The parameters of an `assign` call against the master, and the builder
//! callers use to put one together.

use vstd::prelude::*;

use crate::types::Replication;

verus! {

/// What an `assign` call asks the master for: how many file ids (`version`,
/// sent as the `count` query parameter), under which replication strategy,
/// and in which collection.
#[derive(Debug)]
pub struct AssignRequest {
    pub version: u64,
    pub replication_strategy: Option<Replication>,
    pub collection: Option<String>,
}

/// Builder for an [`AssignRequest`]; starts from one file id, no
/// replication strategy and no collection.
#[derive(Debug)]
pub struct AssignRequestBuilder(pub AssignRequest);

impl AssignRequestBuilder {
    /// A request for one file id with neither replication strategy nor
    /// collection set.
    pub fn new() -> (r: AssignRequestBuilder)
        ensures
            r.0.version == 1,
            r.0.replication_strategy is None,
            r.0.collection is None,
    {
        AssignRequestBuilder(
            AssignRequest { version: 1, replication_strategy: None, collection: None },
        )
    }

    /// Ask for `version` file ids instead of one.
    pub fn version(self, version: u64) -> (r: AssignRequestBuilder)
        ensures
            r.0.version == version,
            r.0.replication_strategy == self.0.replication_strategy,
            r.0.collection == self.0.collection,
    {
        let mut b = self;
        b.0.version = version;
        b
    }

    /// Ask for the given replication strategy.
    pub fn replication(self, replication: Replication) -> (r: AssignRequestBuilder)
        ensures
            r.0.version == self.0.version,
            r.0.replication_strategy == Some(replication),
            r.0.collection == self.0.collection,
    {
        let mut b = self;
        b.0.replication_strategy = Some(replication);
        b
    }

    /// Ask for placement inside the given collection.
    pub fn collection(self, collection: String) -> (r: AssignRequestBuilder)
        ensures
            r.0.version == self.0.version,
            r.0.replication_strategy == self.0.replication_strategy,
            r.0.collection == Some(collection),
    {
        let mut b = self;
        b.0.collection = Some(collection);
        b
    }

    /// The finished request.
    pub fn build(self) -> (r: AssignRequest)
        ensures
            r == self.0,
    {
        self.0
    }
}

} // verus!
