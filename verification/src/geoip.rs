//! The records of a *ray `geoip.dat` file: a list of entries, each a country
//! code with its CIDR blocks.
//!
//! These mirror the protobuf messages `GeoIPList`, `GeoIP` and `CIDR`; the
//! library works on them as plain values.

use vstd::prelude::*;

verus! {

/// One CIDR block: the address bytes (4 for IPv4, 16 for IPv6) and the prefix
/// length.
pub struct Cidr {
    pub ip: Vec<u8>,
    pub prefix: u32,
}

/// The value of a [`Cidr`].
pub struct CidrView {
    pub ip: Seq<u8>,
    pub prefix: u32,
}

impl View for Cidr {
    type V = CidrView;

    open spec fn view(&self) -> CidrView {
        CidrView { ip: self.ip@, prefix: self.prefix }
    }
}

/// The values of a sequence of [`Cidr`]s.
pub open spec fn cidr_views(s: Seq<Cidr>) -> Seq<CidrView> {
    s.map_values(|c: Cidr| c@)
}

/// One entry of a geoip list: a country code and its blocks.
pub struct GeoIp {
    pub country_code: String,
    pub cidr: Vec<Cidr>,
    pub reverse_match: bool,
}

/// The value of a [`GeoIp`].
pub struct GeoIpView {
    pub country_code: Seq<char>,
    pub cidr: Seq<CidrView>,
    pub reverse_match: bool,
}

impl View for GeoIp {
    type V = GeoIpView;

    open spec fn view(&self) -> GeoIpView {
        GeoIpView {
            country_code: self.country_code@,
            cidr: cidr_views(self.cidr@),
            reverse_match: self.reverse_match,
        }
    }
}

/// A whole geoip list.
pub struct GeoIpList {
    pub entry: Vec<GeoIp>,
}

impl View for GeoIpList {
    type V = Seq<GeoIpView>;

    open spec fn view(&self) -> Seq<GeoIpView> {
        self.entry@.map_values(|g: GeoIp| g@)
    }
}

impl Cidr {
    /// A copy of this block.
    pub fn duplicate(&self) -> (r: Cidr)
        ensures
            r@ == self@,
    {
        let mut ip: Vec<u8> = Vec::new();
        let n = self.ip.len();
        for i in 0..n
            invariant
                n == self.ip@.len(),
                ip@ == self.ip@.subrange(0, i as int),
        {
            ip.push(self.ip[i]);
        }
        assert(ip@ =~= self.ip@);
        Cidr { ip, prefix: self.prefix }
    }
}

} // verus!
