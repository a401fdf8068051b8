//! Reading a country's blocks: from the records of a rule-set, or from the
//! entries of a geoip list that carry the country's code; and the retry
//! policy for downloading the list.

use vstd::prelude::*;
use crate::error::Error;
use crate::geoip::{cidr_views, Cidr, CidrView, GeoIpList, GeoIpView};
use crate::srs::{ipv4_views, ipv6_views, srs_to_cidr, CIDRList, SrsCidrView};
use crate::text::{is_null_code, same_text};

verus! {

/// The geoip blocks of rule-set records, in order.
pub open spec fn srs_blocks(s: Seq<SrsCidrView>) -> Seq<CidrView> {
    s.map_values(|c: SrsCidrView| srs_to_cidr(c))
}

/// The blocks of all entries whose country code is `code`, entry after entry.
pub open spec fn country_blocks(entries: Seq<GeoIpView>, code: Seq<char>) -> Seq<CidrView>
    decreases entries.len(),
{
    if entries.len() == 0 {
        Seq::empty()
    } else {
        country_blocks(entries.drop_last(), code) + if entries.last().country_code == code {
            entries.last().cidr
        } else {
            Seq::empty()
        }
    }
}

/// The blocks with a 4-byte address, in order.
pub open spec fn ipv4_blocks(s: Seq<CidrView>) -> Seq<CidrView> {
    s.filter(|c: CidrView| c.ip.len() == 4)
}

/// The blocks whose address is not 4 bytes long, in order.
pub open spec fn other_blocks(s: Seq<CidrView>) -> Seq<CidrView> {
    s.filter(|c: CidrView| c.ip.len() != 4)
}

/// The IPv4 and IPv6 blocks of a rule-set, as geoip blocks.
pub fn from_srs(list: &CIDRList) -> (r: (Vec<Cidr>, Vec<Cidr>))
    ensures
        cidr_views(r.0@) == srs_blocks(ipv4_views(list.ipv4_list@)),
        cidr_views(r.1@) == srs_blocks(ipv6_views(list.ipv6_list@)),
{
    let mut ipv4_cidrs: Vec<Cidr> = Vec::new();
    let n4 = list.ipv4_list.len();
    for i in 0..n4
        invariant
            n4 == list.ipv4_list@.len(),
            cidr_views(ipv4_cidrs@) == srs_blocks(ipv4_views(list.ipv4_list@.take(i as int))),
    {
        let c = list.ipv4_list[i].to_cidr();
        let ghost before = ipv4_cidrs@;
        ipv4_cidrs.push(c);
        assert(list.ipv4_list@.take(i + 1) =~= list.ipv4_list@.take(i as int).push(
            list.ipv4_list@[i as int],
        ));
        assert(cidr_views(ipv4_cidrs@) =~= cidr_views(before).push(c@));
        assert(srs_blocks(ipv4_views(list.ipv4_list@.take(i + 1))) =~= srs_blocks(
            ipv4_views(list.ipv4_list@.take(i as int)),
        ).push(srs_to_cidr(list.ipv4_list@[i as int]@)));
    }
    let mut ipv6_cidrs: Vec<Cidr> = Vec::new();
    let n6 = list.ipv6_list.len();
    for i in 0..n6
        invariant
            n6 == list.ipv6_list@.len(),
            cidr_views(ipv6_cidrs@) == srs_blocks(ipv6_views(list.ipv6_list@.take(i as int))),
    {
        let c = list.ipv6_list[i].to_cidr();
        let ghost before = ipv6_cidrs@;
        ipv6_cidrs.push(c);
        assert(list.ipv6_list@.take(i + 1) =~= list.ipv6_list@.take(i as int).push(
            list.ipv6_list@[i as int],
        ));
        assert(cidr_views(ipv6_cidrs@) =~= cidr_views(before).push(c@));
        assert(srs_blocks(ipv6_views(list.ipv6_list@.take(i + 1))) =~= srs_blocks(
            ipv6_views(list.ipv6_list@.take(i as int)),
        ).push(srs_to_cidr(list.ipv6_list@[i as int]@)));
    }
    assert(list.ipv4_list@.take(n4 as int) =~= list.ipv4_list@);
    assert(list.ipv6_list@.take(n6 as int) =~= list.ipv6_list@);
    (ipv4_cidrs, ipv6_cidrs)
}

/// The blocks of the entries for `country_code`, split into those with a
/// 4-byte address and the others; the order of the list is kept in each part.
pub fn from_geoip(list: &GeoIpList, country_code: &str) -> (r: (Vec<Cidr>, Vec<Cidr>))
    ensures
        cidr_views(r.0@) == ipv4_blocks(country_blocks(list@, country_code@)),
        cidr_views(r.1@) == other_blocks(country_blocks(list@, country_code@)),
{
    let mut ipv4_cidrs: Vec<Cidr> = Vec::new();
    let mut ipv6_cidrs: Vec<Cidr> = Vec::new();
    let n = list.entry.len();
    for i in 0..n
        invariant
            n == list.entry@.len(),
            cidr_views(ipv4_cidrs@) == ipv4_blocks(
                country_blocks(list@.take(i as int), country_code@),
            ),
            cidr_views(ipv6_cidrs@) == other_blocks(
                country_blocks(list@.take(i as int), country_code@),
            ),
    {
        let g = &list.entry[i];
        let ghost done = country_blocks(list@.take(i as int), country_code@);
        assert(list@.take(i + 1).drop_last() =~= list@.take(i as int));
        assert(list@.take(i + 1).last() == g@);
        if same_text(g.country_code.as_str(), country_code) {
            let m = g.cidr.len();
            for j in 0..m
                invariant
                    m == g.cidr@.len(),
                    cidr_views(ipv4_cidrs@) == ipv4_blocks(done + g@.cidr.take(j as int)),
                    cidr_views(ipv6_cidrs@) == other_blocks(done + g@.cidr.take(j as int)),
            {
                let c = g.cidr[j].duplicate();
                let ghost acc = done + g@.cidr.take(j as int);
                assert((done + g@.cidr.take(j + 1)).drop_last() =~= acc);
                assert((done + g@.cidr.take(j + 1)).last() == c@);
                proof {
                    reveal_with_fuel(Seq::<_>::filter, 1);
                }
                let ghost b4 = ipv4_cidrs@;
                let ghost b6 = ipv6_cidrs@;
                if c.ip.len() == 4 {
                    ipv4_cidrs.push(c);
                    assert(cidr_views(ipv4_cidrs@) =~= cidr_views(b4).push(c@));
                } else {
                    ipv6_cidrs.push(c);
                    assert(cidr_views(ipv6_cidrs@) =~= cidr_views(b6).push(c@));
                }
                assert(cidr_views(ipv4_cidrs@) =~= ipv4_blocks(done + g@.cidr.take(j + 1)));
                assert(cidr_views(ipv6_cidrs@) =~= other_blocks(done + g@.cidr.take(j + 1)));
            }
            assert(g@.cidr.take(m as int) =~= g@.cidr);
        } else {
            assert(country_blocks(list@.take(i + 1), country_code@) =~= done);
        }
    }
    assert(list@.take(n as int) =~= list@);
    (ipv4_cidrs, ipv6_cidrs)
}

/// What is read from a file, given the rule-set found in it (its IPv4 and
/// IPv6 records), if it is one, and the geoip list decoded from it, if it is
/// one: a rule-set is taken whole; otherwise the country code selects the
/// entries of the geoip list, where the placeholder `NULL` is refused and
/// bytes that are neither give an error.
pub open spec fn read_result(
    rules: Option<(Seq<SrsCidrView>, Seq<SrsCidrView>)>,
    geoip: Option<Seq<GeoIpView>>,
    code: Seq<char>,
) -> Result<(Seq<CidrView>, Seq<CidrView>), Error> {
    match rules {
        Some((v4, v6)) => Ok((srs_blocks(v4), srs_blocks(v6))),
        None => if code == "NULL"@ {
            Err(Error::NullCountryCode)
        } else {
            match geoip {
                Some(entries) => Ok(
                    (
                        ipv4_blocks(country_blocks(entries, code)),
                        other_blocks(country_blocks(entries, code)),
                    ),
                ),
                None => Err(Error::DecodeGeoIpList),
            }
        },
    }
}

/// The records of a rule-set, IPv4 then IPv6.
pub open spec fn rules_view(rules: Option<CIDRList>) -> Option<(Seq<SrsCidrView>, Seq<SrsCidrView>)> {
    match rules {
        Some(list) => Some((ipv4_views(list.ipv4_list@), ipv6_views(list.ipv6_list@))),
        None => None,
    }
}

/// The entries of a geoip list.
pub open spec fn geoip_view(geoip: Option<GeoIpList>) -> Option<Seq<GeoIpView>> {
    match geoip {
        Some(list) => Some(list@),
        None => None,
    }
}

/// The blocks read from a downloaded or local file, given what the two
/// decoders made of its bytes: `rules` is the rule-set read from it, if it is
/// one, and `geoip` the geoip list decoded from it, if it is one.
///
/// A rule-set is taken whole. Otherwise the country code selects the entries
/// of the geoip list; the placeholder code `NULL` is refused with
/// [`Error::NullCountryCode`], and bytes that are no geoip list give
/// [`Error::DecodeGeoIpList`].
pub fn from_buffer(rules: Option<CIDRList>, geoip: Option<GeoIpList>, country_code: &str) -> (r:
    Result<(Vec<Cidr>, Vec<Cidr>), Error>)
    ensures
        match r {
            Ok(pair) => read_result(rules_view(rules), geoip_view(geoip), country_code@) == Ok::<
                (Seq<CidrView>, Seq<CidrView>),
                Error,
            >((cidr_views(pair.0@), cidr_views(pair.1@))),
            Err(e) => read_result(rules_view(rules), geoip_view(geoip), country_code@) == Err::<
                (Seq<CidrView>, Seq<CidrView>),
                Error,
            >(e),
        },
{
    if let Some(list) = rules {
        return Ok(from_srs(&list));
    }
    if is_null_code(country_code) {
        return Err(Error::NullCountryCode);
    }
    match geoip {
        Some(list) => Ok(from_geoip(&list, country_code)),
        None => Err(Error::DecodeGeoIpList),
    }
}

/// How many times a download is attempted again after a failed transfer.
pub const MAX_RETRIES: usize = 3;

/// How one download attempt ended.
pub enum Attempt {
    /// The transfer itself failed (no connection, timeout, ...).
    Failed,
    /// The server answered with `status`; `body_empty` tells whether nothing
    /// was received.
    Answered { status: u32, body_empty: bool },
}

/// What the downloader does after an attempt.
#[derive(PartialEq, Eq, Structural)]
pub enum Next {
    /// Try again, after a pause of three seconds when `pause` is set.
    Retry { pause: bool },
    /// Stop and report the failed transfer.
    GiveUp,
    /// Stop: the server answered with a status other than 200.
    BadStatus(u32),
    /// Stop: the body has arrived and is to be decoded.
    Decode,
}

/// The retry policy of a download, as a function of the number of retries so
/// far and the outcome of the last attempt: the new number of retries and what
/// to do next.
pub open spec fn next_attempt(retries: nat, attempt: Attempt) -> (nat, Next) {
    match attempt {
        Attempt::Failed => if retries == MAX_RETRIES {
            (retries, Next::GiveUp)
        } else {
            (retries + 1, Next::Retry { pause: true })
        },
        Attempt::Answered { status, body_empty } => if status != 200 {
            (retries, Next::BadStatus(status))
        } else if !body_empty {
            (retries, Next::Decode)
        } else {
            (retries + 1, Next::Retry { pause: false })
        },
    }
}

/// One step of the download loop: after a failed transfer, retry after a pause
/// unless [`MAX_RETRIES`] retries were made already; after an answer, stop on a
/// status other than 200, decode a non-empty body, and retry at once when the
/// body is empty.
pub fn fetch_step(retries: usize, attempt: Attempt) -> (r: (usize, Next))
    requires
        retries < usize::MAX,
    ensures
        (r.0 as nat, r.1) == next_attempt(retries as nat, attempt),
{
    match attempt {
        Attempt::Failed => {
            if retries == MAX_RETRIES {
                (retries, Next::GiveUp)
            } else {
                (retries + 1, Next::Retry { pause: true })
            }
        },
        Attempt::Answered { status, body_empty } => {
            if status != 200 {
                (retries, Next::BadStatus(status))
            } else if !body_empty {
                (retries, Next::Decode)
            } else {
                (retries + 1, Next::Retry { pause: false })
            }
        },
    }
}

/// The state after `n` failed transfers in a row, starting with `retries`
/// retries: `None` once the downloader has given up.
pub open spec fn after_failures(retries: nat, n: nat) -> Option<nat>
    decreases n,
{
    if n == 0 {
        Some(retries)
    } else {
        match after_failures(retries, (n - 1) as nat) {
            Some(r) => match next_attempt(r, Attempt::Failed) {
                (r2, Next::Retry { .. }) => Some(r2),
                _ => None,
            },
            None => None,
        }
    }
}

/// A fresh download survives [`MAX_RETRIES`] failed transfers in a row and
/// gives up on the next one.
pub proof fn lemma_gives_up_after_max_retries(n: nat)
    ensures
        after_failures(0, n) is None <==> n > MAX_RETRIES,
        n <= MAX_RETRIES ==> after_failures(0, n) == Some(n),
    decreases n,
{
    if n > 0 {
        lemma_gives_up_after_max_retries((n - 1) as nat);
    }
}

} // verus!
