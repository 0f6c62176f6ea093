//! What a TLS connection verifies of its peer.
use vstd::prelude::*;

use crate::error::DriverError;
use crate::kind::DriverErrorKind;
use crate::text::{decimal, to_decimal};

verus! {

/// A set of checks on the peer of a TLS connection, as the driver's bit
/// flags.
#[derive(Debug, Copy, Clone, PartialEq, Eq, Hash, Structural)]
pub struct SslVerifyFlags(u32);

/// No check.
pub const SSL_VERIFY_NONE: u32 = 0x0;
/// The peer's certificate is checked.
pub const SSL_VERIFY_PEER_CERT: u32 = 0x1;
/// The peer's identity is checked against its IP address.
pub const SSL_VERIFY_PEER_IDENTITY: u32 = 0x2;
/// The peer's identity is checked against its host name.
pub const SSL_VERIFY_PEER_IDENTITY_DNS: u32 = 0x4;

impl View for SslVerifyFlags {
    type V = u32;

    closed spec fn view(&self) -> u32 {
        self.0
    }
}

impl SslVerifyFlags {
    /// No check.
    pub fn none() -> (r: SslVerifyFlags)
        ensures
            r@ == SSL_VERIFY_NONE,
    {
        SslVerifyFlags(SSL_VERIFY_NONE)
    }

    /// The peer's certificate is checked.
    pub fn peer_cert() -> (r: SslVerifyFlags)
        ensures
            r@ == SSL_VERIFY_PEER_CERT,
    {
        SslVerifyFlags(SSL_VERIFY_PEER_CERT)
    }

    /// The peer's identity is checked against its IP address.
    pub fn peer_identity() -> (r: SslVerifyFlags)
        ensures
            r@ == SSL_VERIFY_PEER_IDENTITY,
    {
        SslVerifyFlags(SSL_VERIFY_PEER_IDENTITY)
    }

    /// The peer's identity is checked against its host name.
    pub fn peer_identity_dns() -> (r: SslVerifyFlags)
        ensures
            r@ == SSL_VERIFY_PEER_IDENTITY_DNS,
    {
        SslVerifyFlags(SSL_VERIFY_PEER_IDENTITY_DNS)
    }

    /// The checks of both sets.
    pub fn union(self, other: SslVerifyFlags) -> (r: SslVerifyFlags)
        ensures
            r@ == self@ | other@,
    {
        SslVerifyFlags(self.0 | other.0)
    }

    /// The checks common to both sets.
    pub fn intersection(self, other: SslVerifyFlags) -> (r: SslVerifyFlags)
        ensures
            r@ == self@ & other@,
    {
        SslVerifyFlags(self.0 & other.0)
    }

    /// The flags as a number.
    pub fn inner(self) -> (r: u32)
        ensures
            r == self@,
    {
        self.0
    }

    /// The flags as the signed number the driver's TLS context takes; fails
    /// with `LibBadParams` when they do not fit.
    pub fn to_driver_signed(self) -> (r: Result<i32, DriverError>)
        ensures
            r is Ok <==> self@ <= i32::MAX,
            r matches Ok(v) ==> v == self@,
            r matches Err(e) ==> e.kind == DriverErrorKind::LibBadParams && e.message@
                == "invalid SSL verify flags "@ + decimal(self@ as nat) && e.details is None,
    {
        if self.0 <= i32::MAX as u32 {
            Ok(self.0 as i32)
        } else {
            let mut message = "invalid SSL verify flags ".to_owned();
            message.append(to_decimal(self.0 as u64).as_str());
            Err(DriverError::with_message(DriverErrorKind::LibBadParams, message))
        }
    }

    /// The driver's flags.
    pub fn to_driver(self) -> (r: u32)
        ensures
            r == self@,
    {
        self.0
    }
}

impl Default for SslVerifyFlags {
    /// The certificate check alone.
    fn default() -> (r: SslVerifyFlags)
        ensures
            r@ == SSL_VERIFY_PEER_CERT,
    {
        SslVerifyFlags(SSL_VERIFY_PEER_CERT)
    }
}

} // verus!
