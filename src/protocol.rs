//! Versions of the native protocol.
use vstd::prelude::*;

verus! {

pub const PROTOCOL_VERSION_V1: u32 = 0x01;
pub const PROTOCOL_VERSION_V2: u32 = 0x02;
pub const PROTOCOL_VERSION_V3: u32 = 0x03;
pub const PROTOCOL_VERSION_V4: u32 = 0x04;
pub const PROTOCOL_VERSION_V5: u32 = 0x05;
pub const PROTOCOL_VERSION_DSEV1: u32 = 0x41;
pub const PROTOCOL_VERSION_DSEV2: u32 = 0x42;

/// A version of the protocol the driver speaks with the cluster.
#[derive(Debug, Copy, Clone, PartialEq, Eq, Hash, Structural)]
pub enum ProtocolVersion {
    /// Deprecated.
    V1,
    /// Deprecated.
    V2,
    V3,
    V4,
    V5,
    /// The first DataStax Enterprise protocol version.
    Dsev1,
    /// The second DataStax Enterprise protocol version.
    Dsev2,
    /// A version that this library does not know.
    Unknown(u32),
}

/// The native code of each version; `Unknown` carries its own.
pub open spec fn protocol_code(v: ProtocolVersion) -> u32 {
    match v {
        ProtocolVersion::V1 => PROTOCOL_VERSION_V1,
        ProtocolVersion::V2 => PROTOCOL_VERSION_V2,
        ProtocolVersion::V3 => PROTOCOL_VERSION_V3,
        ProtocolVersion::V4 => PROTOCOL_VERSION_V4,
        ProtocolVersion::V5 => PROTOCOL_VERSION_V5,
        ProtocolVersion::Dsev1 => PROTOCOL_VERSION_DSEV1,
        ProtocolVersion::Dsev2 => PROTOCOL_VERSION_DSEV2,
        ProtocolVersion::Unknown(code) => code,
    }
}

/// Whether `code` names a version this library knows.
pub open spec fn is_known_protocol(code: u32) -> bool {
    (PROTOCOL_VERSION_V1 <= code <= PROTOCOL_VERSION_V5)
        || code == PROTOCOL_VERSION_DSEV1
        || code == PROTOCOL_VERSION_DSEV2
}

impl ProtocolVersion {
    /// The version of a native protocol version code.
    pub fn from_driver(code: u32) -> (r: ProtocolVersion)
        ensures
            protocol_code(r) == code,
            r is Unknown <==> !is_known_protocol(code),
    {
        if code == PROTOCOL_VERSION_V1 {
            ProtocolVersion::V1
        } else if code == PROTOCOL_VERSION_V2 {
            ProtocolVersion::V2
        } else if code == PROTOCOL_VERSION_V3 {
            ProtocolVersion::V3
        } else if code == PROTOCOL_VERSION_V4 {
            ProtocolVersion::V4
        } else if code == PROTOCOL_VERSION_V5 {
            ProtocolVersion::V5
        } else if code == PROTOCOL_VERSION_DSEV1 {
            ProtocolVersion::Dsev1
        } else if code == PROTOCOL_VERSION_DSEV2 {
            ProtocolVersion::Dsev2
        } else {
            ProtocolVersion::Unknown(code)
        }
    }

    /// The native code of this version.
    pub fn to_driver(self) -> (r: u32)
        ensures
            r == protocol_code(self),
    {
        match self {
            ProtocolVersion::V1 => PROTOCOL_VERSION_V1,
            ProtocolVersion::V2 => PROTOCOL_VERSION_V2,
            ProtocolVersion::V3 => PROTOCOL_VERSION_V3,
            ProtocolVersion::V4 => PROTOCOL_VERSION_V4,
            ProtocolVersion::V5 => PROTOCOL_VERSION_V5,
            ProtocolVersion::Dsev1 => PROTOCOL_VERSION_DSEV1,
            ProtocolVersion::Dsev2 => PROTOCOL_VERSION_DSEV2,
            ProtocolVersion::Unknown(code) => code,
        }
    }
}

} // verus!
