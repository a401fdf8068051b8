//! Errors of the library.

use vstd::prelude::*;

verus! {

/// Why an operation of the library failed.
#[derive(Debug, PartialEq, Eq, Structural)]
pub enum Error {
    /// A CIDR block's address is neither 4 (IPv4) nor 16 (IPv6) bytes long.
    InvalidIpLength,
    /// The country code `NULL` was given where a real one is needed.
    NullCountryCode,
    /// The input is neither a rule-set nor a geoip list that could be decoded.
    DecodeGeoIpList,
    /// A systemd unit was asked for without the URL it should download from.
    MissingUrl,
}

} // verus!
