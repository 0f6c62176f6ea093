//! The error type of every fallible operation.
use vstd::prelude::*;

use crate::details::DriverErrorDetails;
use crate::kind::{code_of, kind_message, DriverErrorKind, CASS_OK};

verus! {

/// An error the driver reported, in the library's terms.
#[derive(Debug, Clone)]
pub struct DriverError {
    /// The category of the error.
    pub kind: DriverErrorKind,
    /// The error message.
    pub message: String,
    /// The error details, available for server errors only.
    pub details: Option<DriverErrorDetails>,
}

impl DriverError {
    /// Creates a new driver error.
    pub fn new(kind: DriverErrorKind, message: String, details: Option<DriverErrorDetails>) -> (r:
        DriverError)
        ensures
            r.kind == kind,
            r.message == message,
            r.details == details,
    {
        DriverError { kind, message, details }
    }

    /// An error of the given kind with the given message and no details.
    pub fn with_message(kind: DriverErrorKind, message: String) -> (r: DriverError)
        ensures
            r.kind == kind,
            r.message == message,
            r.details is None,
    {
        DriverError::new(kind, message, None)
    }

    /// An error of the given kind with the kind's own message and no details.
    pub fn with_kind(kind: DriverErrorKind) -> (r: DriverError)
        ensures
            r.kind == kind,
            r.message@ == kind_message(kind),
            r.details is None,
    {
        let message = kind.message();
        DriverError::with_message(kind, message)
    }

    /// The error as text: its message.
    pub fn text(&self) -> (r: String)
        ensures
            r == self.message,
    {
        self.message.clone()
    }
}

/// Turns a code the driver returned into a `Result`: `Ok` for the success
/// code, else the error of the code's kind with the kind's message.
pub fn to_result(code: u32) -> (r: Result<(), DriverError>)
    ensures
        r is Ok <==> code == CASS_OK,
        r matches Err(e) ==> code_of(e.kind) == code && e.message@
            == kind_message(e.kind) && e.details is None,
{
    match DriverErrorKind::from_driver(code) {
        None => Ok(()),
        Some(kind) => Err(DriverError::with_kind(kind)),
    }
}

/// Turns a code the driver returned into a `Result`: `Ok` for the success
/// code, else the error of the code's kind with the given message.
pub fn to_result_with_message(code: u32, message: String) -> (r: Result<(), DriverError>)
    ensures
        r is Ok <==> code == CASS_OK,
        r matches Err(e) ==> code_of(e.kind) == code && e.message
            == message && e.details is None,
{
    match DriverErrorKind::from_driver(code) {
        None => Ok(()),
        Some(kind) => Err(DriverError::with_message(kind, message)),
    }
}

} // verus!
