//! The kinds of write a server reports in a write error.
use vstd::prelude::*;

verus! {

/// The code the driver uses when no write type applies.
pub const WRITE_TYPE_UNKNOWN: u32 = 0;
pub const WRITE_TYPE_SIMPLE: u32 = 1;
pub const WRITE_TYPE_BATCH: u32 = 2;
pub const WRITE_TYPE_UNLOGGED_BATCH: u32 = 3;
pub const WRITE_TYPE_COUNTER: u32 = 4;
pub const WRITE_TYPE_BATCH_LOG: u32 = 5;
pub const WRITE_TYPE_CAS: u32 = 6;
pub const WRITE_TYPE_VIEW: u32 = 7;
pub const WRITE_TYPE_CDC: u32 = 8;

/// The type of a write that failed or timed out.
#[derive(Debug, Copy, Clone, PartialEq, Eq, Structural)]
pub enum WriteType {
    /// A write to a single partition.
    Simple,
    /// A logged batch, written to the batch log first.
    Batch,
    /// A batch that skips the batch log.
    UnloggedBatch,
    /// A counter update.
    Counter,
    /// The write to the batch log of a logged batch.
    BatchLog,
    /// A lightweight transaction.
    Cas,
    /// A materialized view update.
    View,
    /// A write to a table with change data capture.
    Cdc,
    /// A code that this library does not know.
    Other(u32),
}

/// The native code of each write type; `Other` carries its own.
pub open spec fn write_type_code(w: WriteType) -> u32 {
    match w {
        WriteType::Simple => WRITE_TYPE_SIMPLE,
        WriteType::Batch => WRITE_TYPE_BATCH,
        WriteType::UnloggedBatch => WRITE_TYPE_UNLOGGED_BATCH,
        WriteType::Counter => WRITE_TYPE_COUNTER,
        WriteType::BatchLog => WRITE_TYPE_BATCH_LOG,
        WriteType::Cas => WRITE_TYPE_CAS,
        WriteType::View => WRITE_TYPE_VIEW,
        WriteType::Cdc => WRITE_TYPE_CDC,
        WriteType::Other(code) => code,
    }
}

impl WriteType {
    /// The write type of a native code.
    ///
    /// Returns `None` for the "unknown" code, the named type for a known code
    /// and `Other` with the code itself for any other code.
    pub fn from_driver(code: u32) -> (r: Option<WriteType>)
        ensures
            r is None <==> code == WRITE_TYPE_UNKNOWN,
            r matches Some(w) ==> write_type_code(w) == code,
            r matches Some(WriteType::Other(_)) <==> code > WRITE_TYPE_CDC,
    {
        if code == WRITE_TYPE_UNKNOWN {
            None
        } else if code == WRITE_TYPE_SIMPLE {
            Some(WriteType::Simple)
        } else if code == WRITE_TYPE_BATCH {
            Some(WriteType::Batch)
        } else if code == WRITE_TYPE_UNLOGGED_BATCH {
            Some(WriteType::UnloggedBatch)
        } else if code == WRITE_TYPE_COUNTER {
            Some(WriteType::Counter)
        } else if code == WRITE_TYPE_BATCH_LOG {
            Some(WriteType::BatchLog)
        } else if code == WRITE_TYPE_CAS {
            Some(WriteType::Cas)
        } else if code == WRITE_TYPE_VIEW {
            Some(WriteType::View)
        } else if code == WRITE_TYPE_CDC {
            Some(WriteType::Cdc)
        } else {
            Some(WriteType::Other(code))
        }
    }
}

} // verus!
