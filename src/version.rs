//! Versions of the cluster and of the driver.
use vstd::prelude::*;

use crate::text::{decimal, to_decimal};

verus! {

/// The version of the driver this library is built for.
pub const DRIVER_VERSION_MAJOR: u32 = 2;
pub const DRIVER_VERSION_MINOR: u32 = 17;
pub const DRIVER_VERSION_PATCH: u32 = 1;

/// The version of the Cassandra release a cluster runs, as the driver
/// reports it.
#[derive(Debug, Clone, Copy, PartialEq, Eq, Structural)]
pub struct ClusterVersion {
    major_version: i32,
    minor_version: i32,
    patch_version: i32,
}

/// A version number the driver reports, zero where it reports a negative
/// one.
pub open spec fn version_part(n: i32) -> usize {
    if n < 0 { 0 } else { n as usize }
}

/// `major.minor.patch`.
pub open spec fn version_text(major: nat, minor: nat, patch: nat) -> Seq<char> {
    decimal(major) + "."@ + decimal(minor) + "."@ + decimal(patch)
}

impl ClusterVersion {
    pub closed spec fn raw(&self) -> (i32, i32, i32) {
        (self.major_version, self.minor_version, self.patch_version)
    }

    /// The version with the numbers the driver reported.
    pub fn from_driver(major_version: i32, minor_version: i32, patch_version: i32) -> (r:
        ClusterVersion)
        ensures
            r.raw() == (major_version, minor_version, patch_version),
    {
        ClusterVersion { major_version, minor_version, patch_version }
    }

    /// The major version.
    pub fn major(&self) -> (r: usize)
        ensures
            r == version_part(self.raw().0),
    {
        if self.major_version < 0 { 0 } else { self.major_version as usize }
    }

    /// The minor version.
    pub fn minor(&self) -> (r: usize)
        ensures
            r == version_part(self.raw().1),
    {
        if self.minor_version < 0 { 0 } else { self.minor_version as usize }
    }

    /// The patch version.
    pub fn patch(&self) -> (r: usize)
        ensures
            r == version_part(self.raw().2),
    {
        if self.patch_version < 0 { 0 } else { self.patch_version as usize }
    }

    /// The version as text: `major.minor.patch`.
    pub fn text(&self) -> (r: String)
        ensures
            r@ == version_text(
                version_part(self.raw().0) as nat,
                version_part(self.raw().1) as nat,
                version_part(self.raw().2) as nat,
            ),
    {
        let mut s = to_decimal(self.major() as u64);
        s.append(".");
        s.append(to_decimal(self.minor() as u64).as_str());
        s.append(".");
        s.append(to_decimal(self.patch() as u64).as_str());
        s
    }
}

/// A version of the driver.
#[derive(Debug, Clone)]
pub struct DriverVersion {
    /// The major version.
    pub major: u32,
    /// The minor version.
    pub minor: u32,
    /// The patch version.
    pub patch: u32,
    /// The suffix of a pre-release, such as `dev`.
    pub suffix: Option<String>,
}

impl DriverVersion {
    /// A version with the given numbers and suffix.
    pub fn new(major: u32, minor: u32, patch: u32, suffix: Option<String>) -> (r: DriverVersion)
        ensures
            r.major == major,
            r.minor == minor,
            r.patch == patch,
            r.suffix == suffix,
    {
        DriverVersion { major, minor, patch, suffix }
    }

    /// The version of the driver this library is built for.
    pub fn current() -> (r: DriverVersion)
        ensures
            r.major == DRIVER_VERSION_MAJOR,
            r.minor == DRIVER_VERSION_MINOR,
            r.patch == DRIVER_VERSION_PATCH,
            r.suffix is None,
    {
        DriverVersion::new(DRIVER_VERSION_MAJOR, DRIVER_VERSION_MINOR, DRIVER_VERSION_PATCH, None)
    }

    /// The version as text: `major.minor.patch`, then `-suffix` if there is
    /// one.
    pub fn text(&self) -> (r: String)
        ensures
            r@ == version_text(self.major as nat, self.minor as nat, self.patch as nat) + match self.suffix {
                Some(s) => "-"@ + s@,
                None => Seq::empty(),
            },
    {
        let mut s = to_decimal(self.major as u64);
        s.append(".");
        s.append(to_decimal(self.minor as u64).as_str());
        s.append(".");
        s.append(to_decimal(self.patch as u64).as_str());
        match &self.suffix {
            Some(suffix) => {
                s.append("-");
                s.append(suffix.as_str());
            },
            None => {
                proof {
                    assert(s@ + Seq::<char>::empty() =~= s@);
                }
            },
        }
        s
    }
}

} // verus!
