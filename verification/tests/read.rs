use tsumugi::error::Error;
use tsumugi::geoip::{Cidr, GeoIp, GeoIpList};
use tsumugi::read::{fetch_step, from_buffer, Attempt, Next, MAX_RETRIES};
use tsumugi::srs::{CIDRList, IPv4CIDR, IPv6CIDR};

fn cidr(ip: &[u8], prefix: u32) -> Cidr {
    Cidr { ip: ip.to_vec(), prefix }
}

fn entry(code: &str, cidrs: Vec<Cidr>) -> GeoIp {
    GeoIp { country_code: code.to_string(), cidr: cidrs, reverse_match: false }
}

fn list() -> GeoIpList {
    GeoIpList {
        entry: vec![
            entry("CN", vec![cidr(&[1, 0, 0, 0], 8), cidr(&[0x20; 16], 16)]),
            entry("US", vec![cidr(&[3, 0, 0, 0], 8)]),
            entry("CN", vec![cidr(&[0x24; 16], 12), cidr(&[2, 0, 0, 0], 8), cidr(&[7, 7, 7], 1)]),
        ],
    }
}

#[test]
fn geoip_selects_and_splits_in_order() {
    let (a, b) = from_buffer(None, Some(list()), "CN").unwrap();
    assert_eq!(a.len(), 2);
    assert_eq!(a[0].ip, vec![1, 0, 0, 0]);
    assert_eq!(a[1].ip, vec![2, 0, 0, 0]);
    assert_eq!(b.len(), 3);
    assert_eq!(b[0].ip, vec![0x20; 16]);
    assert_eq!(b[1].ip, vec![0x24; 16]);
    assert_eq!(b[2].ip, vec![7, 7, 7]);
}

#[test]
fn geoip_code_is_case_sensitive() {
    let (a, b) = from_buffer(None, Some(list()), "cn").unwrap();
    assert!(a.is_empty() && b.is_empty());
}

#[test]
fn null_code_is_refused_without_rule_set() {
    assert!(matches!(from_buffer(None, Some(list()), "NULL"), Err(Error::NullCountryCode)));
    assert!(matches!(from_buffer(None, None, "NULL"), Err(Error::NullCountryCode)));
}

#[test]
fn undecodable_bytes() {
    assert!(matches!(from_buffer(None, None, "CN"), Err(Error::DecodeGeoIpList)));
}

#[test]
fn rule_set_wins() {
    let rules = CIDRList {
        ipv4_list: vec![IPv4CIDR { ip: [8, 8, 4, 0], prefix: 24 }],
        ipv6_list: vec![IPv6CIDR { ip: [0x26; 16], prefix: 200 }],
    };
    let (a, b) = from_buffer(Some(rules), Some(list()), "CN").unwrap();
    assert_eq!(a.len(), 1);
    assert_eq!(a[0].ip, vec![8, 8, 4, 0]);
    assert_eq!(a[0].prefix, 24);
    assert_eq!(b[0].ip, vec![0x26; 16]);
    assert_eq!(b[0].prefix, 200);
}

#[test]
fn empty_rule_set() {
    let rules = CIDRList { ipv4_list: vec![], ipv6_list: vec![] };
    let (a, b) = from_buffer(Some(rules), None, "").unwrap();
    assert!(a.is_empty() && b.is_empty());
}

#[test]
fn fetch_gives_up_after_max_retries() {
    let mut retries = 0;
    for _ in 0..MAX_RETRIES {
        let (r, next) = fetch_step(retries, Attempt::Failed);
        assert!(next == Next::Retry { pause: true });
        retries = r;
    }
    assert_eq!(retries, 3);
    let (r, next) = fetch_step(retries, Attempt::Failed);
    assert!(next == Next::GiveUp);
    assert_eq!(r, 3);
}

#[test]
fn fetch_answers() {
    let (r, next) = fetch_step(1, Attempt::Answered { status: 404, body_empty: false });
    assert!(next == Next::BadStatus(404));
    assert_eq!(r, 1);
    let (r, next) = fetch_step(1, Attempt::Answered { status: 200, body_empty: false });
    assert!(next == Next::Decode);
    assert_eq!(r, 1);
    let (r, next) = fetch_step(3, Attempt::Answered { status: 200, body_empty: true });
    assert!(next == Next::Retry { pause: false });
    assert_eq!(r, 4);
    let (r, next) = fetch_step(4, Attempt::Failed);
    assert!(next == Next::Retry { pause: true });
    assert_eq!(r, 5);
}
