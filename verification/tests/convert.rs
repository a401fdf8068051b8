use tsumugi::convert::{to_ray, to_srs};
use tsumugi::error::Error;
use tsumugi::geoip::Cidr;
use tsumugi::read::from_buffer;

fn cidr(ip: &[u8], prefix: u32) -> Cidr {
    Cidr { ip: ip.to_vec(), prefix }
}

#[test]
fn to_ray_single_upper_case_entry() {
    let pair = (vec![cidr(&[1, 2, 3, 0], 24)], vec![cidr(&[0u8; 16], 0)]);
    let list = to_ray(pair, "cn").unwrap();
    assert_eq!(list.entry.len(), 1);
    let e = &list.entry[0];
    assert_eq!(e.country_code, "CN");
    assert!(!e.reverse_match);
    assert_eq!(e.cidr.len(), 2);
    assert_eq!(e.cidr[0].ip, vec![1, 2, 3, 0]);
    assert_eq!(e.cidr[0].prefix, 24);
    assert_eq!(e.cidr[1].ip, vec![0u8; 16]);
}

#[test]
fn to_ray_keeps_non_ascii_letters() {
    let list = to_ray((vec![], vec![]), "Zé-x1").unwrap();
    assert_eq!(list.entry[0].country_code, "Zé-X1");
}

#[test]
fn to_ray_refuses_null() {
    assert!(matches!(to_ray((vec![], vec![]), "NULL"), Err(Error::NullCountryCode)));
}

#[test]
fn to_ray_lower_case_null_is_written() {
    let list = to_ray((vec![], vec![]), "null").unwrap();
    assert_eq!(list.entry[0].country_code, "NULL");
}

#[test]
fn to_srs_records() {
    let mut six = vec![0u8; 16];
    six[15] = 1;
    let pair = (vec![cidr(&[10, 0, 0, 0], 8), cidr(&[1, 1, 1, 1], 300)], vec![cidr(&six, 128)]);
    let list = to_srs(pair).unwrap();
    assert_eq!(list.ipv4_list.len(), 2);
    assert_eq!(list.ipv4_list[0].ip, [10, 0, 0, 0]);
    assert_eq!(list.ipv4_list[0].prefix, 8);
    assert_eq!(list.ipv4_list[1].prefix, 44);
    assert_eq!(list.ipv6_list.len(), 1);
    assert_eq!(list.ipv6_list[0].ip, <[u8; 16]>::try_from(six.as_slice()).unwrap());
    assert_eq!(list.ipv6_list[0].prefix, 128);
}

#[test]
fn to_srs_wrong_lengths() {
    assert!(matches!(to_srs((vec![cidr(&[0u8; 16], 8)], vec![])), Err(Error::InvalidIpLength)));
    assert!(matches!(to_srs((vec![], vec![cidr(&[1, 2, 3, 4], 8)])), Err(Error::InvalidIpLength)));
}

#[test]
fn ray_round_trip() {
    let v4 = vec![cidr(&[1, 2, 3, 0], 24), cidr(&[5, 6, 0, 0], 16)];
    let v6 = vec![cidr(&[0x24, 0x0e].iter().chain([0u8; 14].iter()).cloned().collect::<Vec<u8>>(), 16)];
    let list = to_ray((v4, v6), "jp").unwrap();
    let (a, b) = from_buffer(None, Some(list), "JP").unwrap();
    assert_eq!(a.len(), 2);
    assert_eq!(a[0].ip, vec![1, 2, 3, 0]);
    assert_eq!(a[1].prefix, 16);
    assert_eq!(b.len(), 1);
    assert_eq!(b[0].ip[0], 0x24);
}

#[test]
fn ray_other_code_reads_nothing() {
    let list = to_ray((vec![cidr(&[1, 2, 3, 0], 24)], vec![]), "jp").unwrap();
    let (a, b) = from_buffer(None, Some(list), "jp").unwrap();
    assert!(a.is_empty() && b.is_empty());
}

#[test]
fn srs_round_trip() {
    let v4 = vec![cidr(&[9, 9, 9, 0], 24)];
    let v6 = vec![cidr(&[0xfe; 16], 7)];
    let rules = to_srs((v4, v6)).unwrap();
    let (a, b) = from_buffer(Some(rules), None, "NULL").unwrap();
    assert_eq!(a[0].ip, vec![9, 9, 9, 0]);
    assert_eq!(a[0].prefix, 24);
    assert_eq!(b[0].ip, vec![0xfe; 16]);
    assert_eq!(b[0].prefix, 7);
}

#[test]
fn srs_prefix_wider_than_eight_bits_does_not_come_back() {
    let rules = to_srs((vec![cidr(&[9, 9, 9, 0], 300)], vec![])).unwrap();
    let (a, _) = from_buffer(Some(rules), None, "CN").unwrap();
    assert_eq!(a[0].prefix, 44);
}

#[test]
fn ray_upper_case_code_writes_the_same_list() {
    let a = to_ray((vec![cidr(&[1, 2, 3, 0], 24)], vec![]), "jp").unwrap();
    let b = to_ray((vec![cidr(&[1, 2, 3, 0], 24)], vec![]), "JP").unwrap();
    assert_eq!(a.entry[0].country_code, b.entry[0].country_code);
    assert_eq!(a.entry[0].cidr[0].ip, b.entry[0].cidr[0].ip);
}

#[test]
fn ray_round_trip_fails_for_lower_case_null() {
    let list = to_ray((vec![], vec![]), "null").unwrap();
    assert!(matches!(from_buffer(None, Some(list), "NULL"), Err(Error::NullCountryCode)));
}
