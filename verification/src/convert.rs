//! Conversion of a country's blocks into the two list formats: the records of
//! a sing-box rule-set and a *ray geoip list with a single entry.

use vstd::prelude::*;
use crate::error::Error;
use crate::geoip::{cidr_views, Cidr, CidrView, GeoIp, GeoIpList, GeoIpView};
use crate::srs::{cidr_to_srs, ipv4_views, ipv6_views, CIDRList, IPv4CIDR, IPv6CIDR, SrsCidrView};
use crate::read::{country_blocks, ipv4_blocks, other_blocks, read_result, srs_blocks};
use crate::text::{ascii_upper, is_null_code, to_ascii_uppercase};

verus! {

/// Every block of the sequence has an address of `len` bytes.
pub open spec fn all_of_len(s: Seq<CidrView>, len: nat) -> bool {
    forall|i: int| 0 <= i < s.len() ==> (#[trigger] s[i]).ip.len() == len
}

/// The rule-set records of the blocks, in order.
pub open spec fn srs_records(s: Seq<CidrView>) -> Seq<SrsCidrView> {
    s.map_values(|c: CidrView| cidr_to_srs(c))
}

/// The single entry of the geoip list written for country `code`: the code in
/// upper case and the IPv4 blocks followed by the IPv6 blocks.
pub open spec fn ray_entry(v4: Seq<CidrView>, v6: Seq<CidrView>, code: Seq<char>) -> GeoIpView {
    GeoIpView { country_code: ascii_upper(code), cidr: v4 + v6, reverse_match: false }
}

/// The low 8 bits of `x`, as `x as u8` keeps them.
fn low_byte(x: u32) -> (r: u8)
    ensures
        r == (x % 256) as u8,
{
    (x % 256) as u8
}

/// The rule-set records of the blocks: IPv4 blocks must have 4-byte addresses
/// and IPv6 blocks 16-byte ones; each prefix keeps its low 8 bits.
///
/// Fails with [`Error::InvalidIpLength`] exactly when some block's address has
/// the other length.
pub fn to_srs(cidr_pair: (Vec<Cidr>, Vec<Cidr>)) -> (r: Result<CIDRList, Error>)
    ensures
        match r {
            Ok(list) => {
                &&& all_of_len(cidr_views(cidr_pair.0@), 4)
                &&& all_of_len(cidr_views(cidr_pair.1@), 16)
                &&& ipv4_views(list.ipv4_list@) == srs_records(cidr_views(cidr_pair.0@))
                &&& ipv6_views(list.ipv6_list@) == srs_records(cidr_views(cidr_pair.1@))
            },
            Err(e) => {
                &&& !(all_of_len(cidr_views(cidr_pair.0@), 4) && all_of_len(
                    cidr_views(cidr_pair.1@),
                    16,
                ))
                &&& e == Error::InvalidIpLength
            },
        },
{
    let (ipv4_cidrs, ipv6_cidrs) = cidr_pair;
    let ghost s4 = cidr_views(ipv4_cidrs@);
    let ghost s6 = cidr_views(ipv6_cidrs@);
    let mut ipv4_list: Vec<IPv4CIDR> = Vec::new();
    let n4 = ipv4_cidrs.len();
    for i in 0..n4
        invariant
            n4 == ipv4_cidrs@.len(),
            s4 == cidr_views(ipv4_cidrs@),
            s4 == cidr_views(cidr_pair.0@),
            all_of_len(s4.take(i as int), 4),
            ipv4_views(ipv4_list@) == srs_records(s4.take(i as int)),
    {
        let c = &ipv4_cidrs[i];
        if c.ip.len() != 4 {
            assert(s4[i as int].ip.len() != 4);
            return Err(Error::InvalidIpLength);
        }
        let ip: [u8; 4] = [c.ip[0], c.ip[1], c.ip[2], c.ip[3]];
        let prefix = low_byte(c.prefix);
        let ghost before = ipv4_list@;
        ipv4_list.push(IPv4CIDR { ip, prefix });
        assert(ip@ =~= c.ip@);
        assert(ipv4_list@ == before.push(IPv4CIDR { ip, prefix }));
        assert(s4.take(i + 1) =~= s4.take(i as int).push(c@));
        assert(srs_records(s4.take(i + 1)) =~= srs_records(s4.take(i as int)).push(cidr_to_srs(c@)));
        assert(ipv4_views(ipv4_list@) =~= ipv4_views(before).push(IPv4CIDR { ip, prefix }@));
        assert(ipv4_views(ipv4_list@) =~= srs_records(s4.take(i + 1)));
        assert(all_of_len(s4.take(i + 1), 4)) by {
            assert forall|k: int| 0 <= k < i + 1 implies (#[trigger] s4.take(i + 1)[k]).ip.len()
                == 4 by {
                if k < i {
                    assert(s4.take(i + 1)[k] == s4.take(i as int)[k]);
                }
            }
        }
    }
    assert(s4.take(n4 as int) =~= s4);
    let mut ipv6_list: Vec<IPv6CIDR> = Vec::new();
    let n6 = ipv6_cidrs.len();
    for i in 0..n6
        invariant
            n6 == ipv6_cidrs@.len(),
            s6 == cidr_views(ipv6_cidrs@),
            s6 == cidr_views(cidr_pair.1@),
            all_of_len(s4, 4),
            all_of_len(s6.take(i as int), 16),
            ipv6_views(ipv6_list@) == srs_records(s6.take(i as int)),
    {
        let c = &ipv6_cidrs[i];
        if c.ip.len() != 16 {
            assert(s6[i as int].ip.len() != 16);
            return Err(Error::InvalidIpLength);
        }
        let ip: [u8; 16] = [
            c.ip[0],
            c.ip[1],
            c.ip[2],
            c.ip[3],
            c.ip[4],
            c.ip[5],
            c.ip[6],
            c.ip[7],
            c.ip[8],
            c.ip[9],
            c.ip[10],
            c.ip[11],
            c.ip[12],
            c.ip[13],
            c.ip[14],
            c.ip[15],
        ];
        let prefix = low_byte(c.prefix);
        let ghost before = ipv6_list@;
        ipv6_list.push(IPv6CIDR { ip, prefix });
        assert(ip@ =~= c.ip@);
        assert(ipv6_list@ == before.push(IPv6CIDR { ip, prefix }));
        assert(s6.take(i + 1) =~= s6.take(i as int).push(c@));
        assert(srs_records(s6.take(i + 1)) =~= srs_records(s6.take(i as int)).push(cidr_to_srs(c@)));
        assert(ipv6_views(ipv6_list@) =~= ipv6_views(before).push(IPv6CIDR { ip, prefix }@));
        assert(ipv6_views(ipv6_list@) =~= srs_records(s6.take(i + 1)));
        assert(all_of_len(s6.take(i + 1), 16)) by {
            assert forall|k: int| 0 <= k < i + 1 implies (#[trigger] s6.take(i + 1)[k]).ip.len()
                == 16 by {
                if k < i {
                    assert(s6.take(i + 1)[k] == s6.take(i as int)[k]);
                }
            }
        }
    }
    assert(s6.take(n6 as int) =~= s6);
    Ok(CIDRList { ipv4_list, ipv6_list })
}

/// The geoip list for country `country_code`: a single entry with the code in
/// upper case and the IPv4 blocks followed by the IPv6 blocks.
///
/// Fails with [`Error::NullCountryCode`] exactly when the code is `NULL`.
pub fn to_ray(cidr_pair: (Vec<Cidr>, Vec<Cidr>), country_code: &str) -> (r: Result<GeoIpList, Error>)
    ensures
        match r {
            Ok(list) => country_code@ != "NULL"@ && list@ == seq![
                ray_entry(cidr_views(cidr_pair.0@), cidr_views(cidr_pair.1@), country_code@),
            ],
            Err(e) => country_code@ == "NULL"@ && e == Error::NullCountryCode,
        },
{
    if is_null_code(country_code) {
        return Err(Error::NullCountryCode);
    }
    let (mut ipv4_cidrs, mut ipv6_cidrs) = cidr_pair;
    let ghost s4 = ipv4_cidrs@;
    let ghost s6 = ipv6_cidrs@;
    ipv4_cidrs.append(&mut ipv6_cidrs);
    assert(cidr_views(ipv4_cidrs@) =~= cidr_views(s4) + cidr_views(s6));
    let entry = GeoIp {
        country_code: to_ascii_uppercase(country_code),
        cidr: ipv4_cidrs,
        reverse_match: false,
    };
    let mut list = GeoIpList { entry: Vec::new() };
    list.entry.push(entry);
    assert(list@ =~= seq![ray_entry(cidr_views(s4), cidr_views(s6), country_code@)]);
    Ok(list)
}

/// Every block of `s` has an address that is not 4 bytes long.
pub open spec fn none_of_len_4(s: Seq<CidrView>) -> bool {
    forall|i: int| 0 <= i < s.len() ==> (#[trigger] s[i]).ip.len() != 4
}

proof fn lemma_ipv4_blocks_append(a: Seq<CidrView>, b: Seq<CidrView>)
    ensures
        ipv4_blocks(a + b) == ipv4_blocks(a) + ipv4_blocks(b),
        other_blocks(a + b) == other_blocks(a) + other_blocks(b),
    decreases b.len(),
{
    reveal_with_fuel(Seq::<_>::filter, 1);
    if b.len() == 0 {
        assert(a + b =~= a);
    } else {
        lemma_ipv4_blocks_append(a, b.drop_last());
        assert((a + b).drop_last() =~= a + b.drop_last());
        assert(ipv4_blocks(a + b) =~= ipv4_blocks(a) + ipv4_blocks(b));
        assert(other_blocks(a + b) =~= other_blocks(a) + other_blocks(b));
    }
}

proof fn lemma_split_uniform(s: Seq<CidrView>)
    ensures
        all_of_len(s, 4) ==> ipv4_blocks(s) == s && other_blocks(s) == Seq::<CidrView>::empty(),
        none_of_len_4(s) ==> ipv4_blocks(s) == Seq::<CidrView>::empty() && other_blocks(s) == s,
    decreases s.len(),
{
    reveal_with_fuel(Seq::<_>::filter, 1);
    if s.len() > 0 {
        lemma_split_uniform(s.drop_last());
        assert(s.drop_last().push(s.last()) =~= s);
        if all_of_len(s, 4) {
            assert(all_of_len(s.drop_last(), 4));
        }
        if none_of_len_4(s) {
            assert(none_of_len_4(s.drop_last()));
        }
    }
}

/// A geoip list written for a country and read back with the code it was
/// written under (the upper-cased code) gives back the IPv4 and the IPv6
/// blocks, provided the IPv4 blocks have 4-byte addresses, the IPv6 blocks do
/// not, and the upper-cased code is not the placeholder `NULL`.
pub proof fn lemma_ray_round_trip(v4: Seq<CidrView>, v6: Seq<CidrView>, code: Seq<char>)
    requires
        all_of_len(v4, 4),
        none_of_len_4(v6),
        ascii_upper(code) != "NULL"@,
    ensures
        read_result(None, Some(seq![ray_entry(v4, v6, code)]), ascii_upper(code)) == Ok::<
            (Seq<CidrView>, Seq<CidrView>),
            Error,
        >((v4, v6)),
{
    let entries = seq![ray_entry(v4, v6, code)];
    assert(entries.drop_last() =~= Seq::<GeoIpView>::empty());
    assert(country_blocks(entries.drop_last(), ascii_upper(code)) =~= Seq::<CidrView>::empty());
    assert(entries.last() == ray_entry(v4, v6, code));
    assert(country_blocks(entries, ascii_upper(code)) =~= v4 + v6);
    lemma_ipv4_blocks_append(v4, v6);
    lemma_split_uniform(v4);
    lemma_split_uniform(v6);
    assert(v4 + Seq::<CidrView>::empty() =~= v4);
    assert(Seq::<CidrView>::empty() + v6 =~= v6);
}

/// Reading a geoip list written for a country with any code other than the
/// one it was written under finds no blocks.
pub proof fn lemma_ray_other_code(v4: Seq<CidrView>, v6: Seq<CidrView>, code: Seq<char>, other: Seq<char>)
    requires
        other != ascii_upper(code),
    ensures
        country_blocks(seq![ray_entry(v4, v6, code)], other) == Seq::<CidrView>::empty(),
{
    let entries = seq![ray_entry(v4, v6, code)];
    assert(entries.drop_last() =~= Seq::<GeoIpView>::empty());
    assert(country_blocks(entries.drop_last(), other) =~= Seq::<CidrView>::empty());
    assert(entries.last() == ray_entry(v4, v6, code));
    assert(country_blocks(entries, other) =~= Seq::<CidrView>::empty());
}

/// A code and its upper-case form write the same geoip list.
pub proof fn lemma_ray_code_case(v4: Seq<CidrView>, v6: Seq<CidrView>, code: Seq<char>)
    ensures
        ray_entry(v4, v6, ascii_upper(code)) == ray_entry(v4, v6, code),
{
    assert(ascii_upper(ascii_upper(code)) =~= ascii_upper(code));
}

/// Rule-set records made of blocks and turned back into blocks give the
/// blocks again, when every prefix fits in 8 bits.
proof fn lemma_srs_records_back(s: Seq<CidrView>)
    requires
        forall|i: int| 0 <= i < s.len() ==> (#[trigger] s[i]).prefix < 256,
    ensures
        srs_blocks(srs_records(s)) == s,
{
    assert forall|i: int| 0 <= i < s.len() implies #[trigger] srs_blocks(srs_records(s))[i]
        == s[i] by {
        assert(s[i].prefix < 256);
        assert((s[i].prefix % 256) as u8 as u32 == s[i].prefix);
    }
    assert(srs_blocks(srs_records(s)) =~= s);
}


/// A rule-set written from the blocks and read back gives back the IPv4 and
/// IPv6 blocks, whatever the country code, when every prefix fits in 8 bits.
pub proof fn lemma_srs_round_trip(
    v4: Seq<CidrView>,
    v6: Seq<CidrView>,
    geoip: Option<Seq<GeoIpView>>,
    code: Seq<char>,
)
    requires
        forall|i: int| 0 <= i < v4.len() ==> (#[trigger] v4[i]).prefix < 256,
        forall|i: int| 0 <= i < v6.len() ==> (#[trigger] v6[i]).prefix < 256,
    ensures
        read_result(Some((srs_records(v4), srs_records(v6))), geoip, code) == Ok::<
            (Seq<CidrView>, Seq<CidrView>),
            Error,
        >((v4, v6)),
{
    lemma_srs_records_back(v4);
    lemma_srs_records_back(v6);
}

} // verus!
