//! Value types shared across the protocol: the replication policy chosen at
//! assign time and the replica location returned by a lookup.

use vstd::prelude::*;

pub mod dir_status;
pub mod requests;
pub mod responses;
pub mod volume_status;

verus! {

/// A placement strategy for a write: how many synchronous replicas the
/// cluster places and where. On the wire it is a fixed 3-digit code.
#[derive(Clone, Copy, Debug, PartialEq, Eq, Structural)]
pub enum Replication {
    /// no replication (`000`)
    NoReplication,
    /// replicate once on the same rack (`001`)
    OnceOnSameRack,
    /// replicate once on a different rack, but same data center (`010`)
    OnceOnDifferentRack,
    /// replicate once on a different data center (`100`)
    OnceOnDifferentDC,
    /// replicate twice on two different data centers (`200`)
    TwiceOnDifferentDC,
    /// replicate once on a different rack, and once on a different data
    /// center (`110`)
    OnceOnDifferentRackAndOnceOnDifferentDC,
}

/// The 3-digit wire code of a replication policy.
pub open spec fn code_chars(r: Replication) -> Seq<char> {
    match r {
        Replication::NoReplication => seq!['0', '0', '0'],
        Replication::OnceOnSameRack => seq!['0', '0', '1'],
        Replication::OnceOnDifferentRack => seq!['0', '1', '0'],
        Replication::OnceOnDifferentDC => seq!['1', '0', '0'],
        Replication::TwiceOnDifferentDC => seq!['2', '0', '0'],
        Replication::OnceOnDifferentRackAndOnceOnDifferentDC => seq!['1', '1', '0'],
    }
}

impl Replication {
    /// The fixed 3-digit code this policy serializes to on the wire.
    pub fn code(&self) -> (r: &'static str)
        ensures
            r@ == code_chars(*self),
    {
        proof {
            reveal_strlit("000");
            reveal_strlit("001");
            reveal_strlit("010");
            reveal_strlit("100");
            reveal_strlit("200");
            reveal_strlit("110");
        }
        let r = match self {
            Replication::NoReplication => "000",
            Replication::OnceOnSameRack => "001",
            Replication::OnceOnDifferentRack => "010",
            Replication::OnceOnDifferentDC => "100",
            Replication::TwiceOnDifferentDC => "200",
            Replication::OnceOnDifferentRackAndOnceOnDifferentDC => "110",
        };
        assert(r@ =~= code_chars(*self));
        r
    }
}

/// One physical server holding a replica of a file id: the base URL the
/// public may reach it under, and its cluster-internal URL.
#[derive(Clone, Debug)]
pub struct Location {
    pub public_url: String,
    pub url: String,
}

} // verus!
