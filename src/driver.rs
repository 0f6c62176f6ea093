//! The driver's own values, as its interface passes them: booleans, codes,
//! versions and the addresses of its objects.
use vstd::prelude::*;

use crate::kind::{code_of, kind_message, DriverErrorKind, CASS_OK};

verus! {

pub const CASS_FALSE: u32 = 0;
pub const CASS_TRUE: u32 = 1;

/// A boolean as the driver passes it.
#[derive(Debug, Copy, Clone, PartialEq, Eq, Structural)]
pub struct CassBool(u32);

impl View for CassBool {
    type V = u32;

    closed spec fn view(&self) -> u32 {
        self.0
    }
}

impl CassBool {
    /// Wraps the driver's value.
    pub fn new(value: u32) -> (r: CassBool)
        ensures
            r@ == value,
    {
        CassBool(value)
    }

    /// The driver's value.
    pub fn as_raw(&self) -> (r: u32)
        ensures
            r == self@,
    {
        self.0
    }

    /// The driver's value of a boolean.
    pub fn from_bool(value: bool) -> (r: CassBool)
        ensures
            r@ == if value { CASS_TRUE } else { CASS_FALSE },
    {
        CassBool(if value { CASS_TRUE } else { CASS_FALSE })
    }

    /// The boolean: anything but the driver's false is true.
    pub fn to_bool(&self) -> (r: bool)
        ensures
            r == (self@ != CASS_FALSE),
    {
        self.0 != CASS_FALSE
    }
}

/// A code the driver returned: success, or the kind of the error.
#[derive(Debug, Copy, Clone, PartialEq, Eq, Structural)]
pub enum CassError {
    /// The call succeeded.
    Success,
    /// The call failed.
    Failed(DriverErrorKind),
}

/// The driver's code of each value.
pub open spec fn cass_error_code(e: CassError) -> u32 {
    match e {
        CassError::Success => CASS_OK,
        CassError::Failed(kind) => code_of(kind),
    }
}

impl CassError {
    /// The value of a code the driver returned.
    pub fn from_driver(code: u32) -> (r: CassError)
        ensures
            cass_error_code(r) == code,
            r is Success <==> code == CASS_OK,
            r matches CassError::Failed(DriverErrorKind::Other(_)) ==> !crate::kind::is_known_code(code),
    {
        match DriverErrorKind::from_driver(code) {
            None => CassError::Success,
            Some(kind) => CassError::Failed(kind),
        }
    }

    /// The driver's code.
    pub fn to_driver(self) -> (r: u32)
        ensures
            r == cass_error_code(self),
    {
        match self {
            CassError::Success => CASS_OK,
            CassError::Failed(kind) => kind.code(),
        }
    }

    /// Whether the code is an error.
    pub fn is_error(self) -> (r: bool)
        ensures
            r == !(self is Success),
    {
        match self {
            CassError::Success => false,
            CassError::Failed(_) => true,
        }
    }

    /// Whether the code is the success code.
    pub fn is_ok(self) -> (r: bool)
        ensures
            r == (self is Success),
    {
        !self.is_error()
    }

    /// The human readable message of the code.
    pub fn message(self) -> (r: String)
        ensures
            r@ == match self {
                CassError::Success => "success"@,
                CassError::Failed(kind) => kind_message(kind),
            },
    {
        match self {
            CassError::Success => "success".to_owned(),
            CassError::Failed(kind) => kind.message(),
        }
    }

    /// `Ok` for the success code, the code itself as the error otherwise.
    pub fn as_result(self) -> (r: Result<(), CassError>)
        ensures
            r is Ok <==> self is Success,
            r matches Err(e) ==> e == self,
    {
        if self.is_error() {
            Err(self)
        } else {
            Ok(())
        }
    }
}

/// The version numbers the driver reports for a Cassandra release.
#[derive(Debug, Clone, Copy, PartialEq, Eq, Structural)]
pub struct CassVersion {
    major_version: i32,
    minor_version: i32,
    patch_version: i32,
}

/// A version number the driver reports, zero where it is negative.
pub open spec fn version_number(n: i32) -> usize {
    if n < 0 { 0 } else { n as usize }
}

impl View for CassVersion {
    type V = (i32, i32, i32);

    closed spec fn view(&self) -> (i32, i32, i32) {
        (self.major_version, self.minor_version, self.patch_version)
    }
}

impl CassVersion {
    /// The version with the numbers the driver reported.
    pub fn new(value: (i32, i32, i32)) -> (r: CassVersion)
        ensures
            r@ == value,
    {
        CassVersion { major_version: value.0, minor_version: value.1, patch_version: value.2 }
    }

    /// The numbers the driver reported.
    pub fn as_raw(&self) -> (r: (i32, i32, i32))
        ensures
            r == self@,
    {
        (self.major_version, self.minor_version, self.patch_version)
    }

    /// The major version.
    pub fn major(&self) -> (r: usize)
        ensures
            r == version_number(self@.0),
    {
        if self.major_version < 0 { 0 } else { self.major_version as usize }
    }

    /// The minor version.
    pub fn minor(&self) -> (r: usize)
        ensures
            r == version_number(self@.1),
    {
        if self.minor_version < 0 { 0 } else { self.minor_version as usize }
    }

    /// The patch version.
    pub fn patch(&self) -> (r: usize)
        ensures
            r == version_number(self@.2),
    {
        if self.patch_version < 0 { 0 } else { self.patch_version as usize }
    }
}

/// The address of the driver's completion object for one operation; never
/// null.
#[derive(Debug, Clone, Copy, PartialEq, Eq)]
pub struct CassFuture {
    inner: usize,
}

impl View for CassFuture {
    type V = usize;

    closed spec fn view(&self) -> usize {
        self.inner
    }
}

impl CassFuture {
    #[verifier::type_invariant]
    spec fn wf(&self) -> bool {
        self.inner != 0
    }

    /// Wraps the completion object at `inner`, which must not be null.
    pub fn new(inner: usize) -> (r: CassFuture)
        requires
            inner != 0,
        ensures
            r@ == inner,
    {
        CassFuture { inner }
    }

    /// The address of the completion object.
    pub fn as_raw(&self) -> (r: usize)
        ensures
            r == self@,
            r != 0,
    {
        proof {
            use_type_invariant(self);
        }
        self.inner
    }
}

/// The address of the driver's error result object of a failed operation;
/// never null.
#[derive(Debug, Clone, Copy, PartialEq, Eq)]
pub struct CassErrorResult {
    inner: usize,
}

impl View for CassErrorResult {
    type V = usize;

    closed spec fn view(&self) -> usize {
        self.inner
    }
}

impl CassErrorResult {
    /// The error result object at `inner`; `None` if the driver returned
    /// none (a null address).
    pub fn new(inner: usize) -> (r: Option<CassErrorResult>)
        ensures
            r is None <==> inner == 0,
            r matches Some(e) ==> e@ == inner,
    {
        if inner == 0 {
            None
        } else {
            Some(CassErrorResult { inner })
        }
    }

    /// The address of the error result object.
    pub fn as_raw(&self) -> (r: usize)
        ensures
            r == self@,
    {
        self.inner
    }
}

} // verus!
