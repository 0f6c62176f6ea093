//! The checks a cluster setting passes before it reaches the driver: each
//! value must fit the driver's own type, else the setting fails with
//! `LibBadParams`.
use vstd::prelude::*;

use crate::error::DriverError;
use crate::kind::DriverErrorKind;
use crate::protocol::{protocol_code, ProtocolVersion};

verus! {

/// A count (threads, connections, queue slots) as the driver's unsigned
/// 32-bit number.
pub fn count_to_driver(value: usize) -> (r: Result<u32, DriverError>)
    ensures
        r is Ok <==> value <= u32::MAX,
        r matches Ok(v) ==> v == value,
        r matches Err(e) ==> e.kind == DriverErrorKind::LibBadParams,
{
    if value <= u32::MAX as usize {
        Ok(value as u32)
    } else {
        Err(DriverError::with_kind(DriverErrorKind::LibBadParams))
    }
}

/// A duration (in the unit the setting names) as the driver's unsigned
/// 64-bit number; a negative one fails.
pub fn duration_to_driver(value: i64) -> (r: Result<u64, DriverError>)
    ensures
        r is Ok <==> value >= 0,
        r matches Ok(v) ==> v == value,
        r matches Err(e) ==> e.kind == DriverErrorKind::LibBadParams,
{
    if value < 0 {
        Err(DriverError::with_kind(DriverErrorKind::LibBadParams))
    } else {
        Ok(value as u64)
    }
}

/// A duration or interval (in the unit the setting names) as the driver's
/// unsigned 32-bit number; a negative or too large one fails.
pub fn interval_to_driver(value: i64) -> (r: Result<u32, DriverError>)
    ensures
        r is Ok <==> 0 <= value <= u32::MAX,
        r matches Ok(v) ==> v == value,
        r matches Err(e) ==> e.kind == DriverErrorKind::LibBadParams,
{
    if value < 0 || value > u32::MAX as i64 {
        Err(DriverError::with_kind(DriverErrorKind::LibBadParams))
    } else {
        Ok(value as u32)
    }
}

/// A count as the driver's signed 32-bit number.
pub fn count_to_driver_signed(value: usize) -> (r: Result<i32, DriverError>)
    ensures
        r is Ok <==> value <= i32::MAX,
        r matches Ok(v) ==> v == value,
        r matches Err(e) ==> e.kind == DriverErrorKind::LibBadParams,
{
    if value <= i32::MAX as usize {
        Ok(value as i32)
    } else {
        Err(DriverError::with_kind(DriverErrorKind::LibBadParams))
    }
}

/// A protocol version as the driver's signed number.
pub fn protocol_to_driver(version: ProtocolVersion) -> (r: Result<i32, DriverError>)
    ensures
        r is Ok <==> protocol_code(version) <= i32::MAX,
        r matches Ok(v) ==> v == protocol_code(version),
        r matches Err(e) ==> e.kind == DriverErrorKind::LibBadParams,
{
    let code = version.to_driver();
    if code <= i32::MAX as u32 {
        Ok(code as i32)
    } else {
        Err(DriverError::with_kind(DriverErrorKind::LibBadParams))
    }
}

} // verus!
