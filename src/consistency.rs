//! Consistency levels and their native codes.
use vstd::prelude::*;

verus! {

pub const CONSISTENCY_ANY: u32 = 0x0000;
pub const CONSISTENCY_ONE: u32 = 0x0001;
pub const CONSISTENCY_TWO: u32 = 0x0002;
pub const CONSISTENCY_THREE: u32 = 0x0003;
pub const CONSISTENCY_QUORUM: u32 = 0x0004;
pub const CONSISTENCY_ALL: u32 = 0x0005;
pub const CONSISTENCY_LOCAL_QUORUM: u32 = 0x0006;
pub const CONSISTENCY_EACH_QUORUM: u32 = 0x0007;
pub const CONSISTENCY_SERIAL: u32 = 0x0008;
pub const CONSISTENCY_LOCAL_SERIAL: u32 = 0x0009;
pub const CONSISTENCY_LOCAL_ONE: u32 = 0x000A;
/// The code the driver uses when no consistency level applies.
pub const CONSISTENCY_UNKNOWN: u32 = 0xFFFF;

/// A consistency level: how many replicas must answer a request.
#[derive(Debug, Clone, Copy, PartialEq, Eq, Hash, Structural)]
pub enum Consistency {
    /// One replica.
    One,
    /// Two replicas.
    Two,
    /// Three replicas.
    Three,
    /// A majority of the replicas.
    Quorum,
    /// All replicas.
    All,
    /// A majority of the replicas in each datacenter.
    EachQuorum,
    /// A majority of the replicas in the local datacenter.
    LocalQuorum,
    /// One replica in the local datacenter.
    LocalOne,
    /// Serial consistency for lightweight transactions, local datacenter only.
    LocalSerial,
    /// Serial consistency for lightweight transactions.
    Serial,
    /// Any node, hinted handoff included, for writes only.
    Any,
}

/// The native code of each level.
pub open spec fn consistency_code(c: Consistency) -> u32 {
    match c {
        Consistency::Any => CONSISTENCY_ANY,
        Consistency::One => CONSISTENCY_ONE,
        Consistency::Two => CONSISTENCY_TWO,
        Consistency::Three => CONSISTENCY_THREE,
        Consistency::Quorum => CONSISTENCY_QUORUM,
        Consistency::All => CONSISTENCY_ALL,
        Consistency::LocalQuorum => CONSISTENCY_LOCAL_QUORUM,
        Consistency::EachQuorum => CONSISTENCY_EACH_QUORUM,
        Consistency::Serial => CONSISTENCY_SERIAL,
        Consistency::LocalSerial => CONSISTENCY_LOCAL_SERIAL,
        Consistency::LocalOne => CONSISTENCY_LOCAL_ONE,
    }
}

impl Consistency {
    /// The level of a native consistency code.
    ///
    /// Returns `None` for the "unknown" code and for any code that names no
    /// level.
    pub fn from_driver(code: u32) -> (r: Option<Consistency>)
        ensures
            r matches Some(c) ==> consistency_code(c) == code,
            r is None <==> code > CONSISTENCY_LOCAL_ONE,
    {
        if code == CONSISTENCY_ANY {
            Some(Consistency::Any)
        } else if code == CONSISTENCY_ONE {
            Some(Consistency::One)
        } else if code == CONSISTENCY_TWO {
            Some(Consistency::Two)
        } else if code == CONSISTENCY_THREE {
            Some(Consistency::Three)
        } else if code == CONSISTENCY_QUORUM {
            Some(Consistency::Quorum)
        } else if code == CONSISTENCY_ALL {
            Some(Consistency::All)
        } else if code == CONSISTENCY_LOCAL_QUORUM {
            Some(Consistency::LocalQuorum)
        } else if code == CONSISTENCY_EACH_QUORUM {
            Some(Consistency::EachQuorum)
        } else if code == CONSISTENCY_SERIAL {
            Some(Consistency::Serial)
        } else if code == CONSISTENCY_LOCAL_SERIAL {
            Some(Consistency::LocalSerial)
        } else if code == CONSISTENCY_LOCAL_ONE {
            Some(Consistency::LocalOne)
        } else {
            None
        }
    }

    /// The native code of this level.
    pub fn to_driver(self) -> (r: u32)
        ensures
            r == consistency_code(self),
    {
        match self {
            Consistency::Any => CONSISTENCY_ANY,
            Consistency::One => CONSISTENCY_ONE,
            Consistency::Two => CONSISTENCY_TWO,
            Consistency::Three => CONSISTENCY_THREE,
            Consistency::Quorum => CONSISTENCY_QUORUM,
            Consistency::All => CONSISTENCY_ALL,
            Consistency::LocalQuorum => CONSISTENCY_LOCAL_QUORUM,
            Consistency::EachQuorum => CONSISTENCY_EACH_QUORUM,
            Consistency::Serial => CONSISTENCY_SERIAL,
            Consistency::LocalSerial => CONSISTENCY_LOCAL_SERIAL,
            Consistency::LocalOne => CONSISTENCY_LOCAL_ONE,
        }
    }
}

/// Every level has a code of its own, which reads back as that level.
pub proof fn lemma_consistency_round_trip(a: Consistency, b: Consistency)
    ensures
        consistency_code(a) <= CONSISTENCY_LOCAL_ONE,
        consistency_code(a) == consistency_code(b) ==> a == b,
{
}

} // verus!
