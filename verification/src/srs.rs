//! The CIDR records of a sing-box rule-set (`.srs`): fixed-size addresses with
//! an 8-bit prefix, as the rule-set codec takes and gives them.

use vstd::prelude::*;
use crate::geoip::{Cidr, CidrView};

verus! {

/// An IPv4 block of a rule-set.
pub struct IPv4CIDR {
    pub ip: [u8; 4],
    pub prefix: u8,
}

/// An IPv6 block of a rule-set.
pub struct IPv6CIDR {
    pub ip: [u8; 16],
    pub prefix: u8,
}

/// The value of a rule-set block: its address bytes and prefix.
pub struct SrsCidrView {
    pub ip: Seq<u8>,
    pub prefix: u8,
}

impl View for IPv4CIDR {
    type V = SrsCidrView;

    open spec fn view(&self) -> SrsCidrView {
        SrsCidrView { ip: self.ip@, prefix: self.prefix }
    }
}

impl View for IPv6CIDR {
    type V = SrsCidrView;

    open spec fn view(&self) -> SrsCidrView {
        SrsCidrView { ip: self.ip@, prefix: self.prefix }
    }
}

/// The IPv4 and IPv6 blocks of a rule-set.
pub struct CIDRList {
    pub ipv4_list: Vec<IPv4CIDR>,
    pub ipv6_list: Vec<IPv6CIDR>,
}

/// The values of the IPv4 blocks of a rule-set.
pub open spec fn ipv4_views(s: Seq<IPv4CIDR>) -> Seq<SrsCidrView> {
    s.map_values(|c: IPv4CIDR| c@)
}

/// The values of the IPv6 blocks of a rule-set.
pub open spec fn ipv6_views(s: Seq<IPv6CIDR>) -> Seq<SrsCidrView> {
    s.map_values(|c: IPv6CIDR| c@)
}

/// A rule-set block as a geoip block: the same bytes, the prefix widened.
pub open spec fn srs_to_cidr(c: SrsCidrView) -> CidrView {
    CidrView { ip: c.ip, prefix: c.prefix as u32 }
}

/// A geoip block as a rule-set block: the same bytes, the prefix cut to its
/// low 8 bits.
pub open spec fn cidr_to_srs(c: CidrView) -> SrsCidrView {
    SrsCidrView { ip: c.ip, prefix: (c.prefix % 256) as u8 }
}

fn bytes_to_vec(b: &[u8]) -> (v: Vec<u8>)
    ensures
        v@ == b@,
{
    let mut v: Vec<u8> = Vec::new();
    let n = b.len();
    for i in 0..n
        invariant
            n == b@.len(),
            v@ == b@.subrange(0, i as int),
    {
        v.push(b[i]);
    }
    assert(v@ =~= b@);
    v
}

impl IPv4CIDR {
    /// This block as a geoip block.
    pub fn to_cidr(&self) -> (r: Cidr)
        ensures
            r@ == srs_to_cidr(self@),
    {
        Cidr { ip: bytes_to_vec(&self.ip), prefix: self.prefix as u32 }
    }
}

impl IPv6CIDR {
    /// This block as a geoip block.
    pub fn to_cidr(&self) -> (r: Cidr)
        ensures
            r@ == srs_to_cidr(self@),
    {
        Cidr { ip: bytes_to_vec(&self.ip), prefix: self.prefix as u32 }
    }
}

} // verus!
