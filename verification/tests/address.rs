use tsumugi::error::Error;
use tsumugi::geoip::Cidr;

fn cidr(ip: &[u8], prefix: u32) -> Cidr {
    Cidr { ip: ip.to_vec(), prefix }
}

fn v6(groups: [u16; 8]) -> Vec<u8> {
    let mut b = Vec::new();
    for g in groups {
        b.push((g >> 8) as u8);
        b.push((g & 0xff) as u8);
    }
    b
}

#[test]
fn ipv4_dotted_decimal() {
    assert_eq!(cidr(&[10, 0, 0, 0], 8).to_string().unwrap(), "10.0.0.0/8");
    assert_eq!(cidr(&[192, 168, 255, 1], 32).to_string().unwrap(), "192.168.255.1/32");
    assert_eq!(cidr(&[0, 0, 0, 0], 0).to_string().unwrap(), "0.0.0.0/0");
}

#[test]
fn ipv6_compresses_longest_zero_run() {
    let ip = v6([0x2001, 0x0db8, 0, 0, 0, 0, 0, 0]);
    assert_eq!(cidr(&ip, 32).to_string().unwrap(), "2001:db8::/32");
    let ip = v6([0x2001, 0x0db8, 0, 0, 1, 0, 0, 0]);
    assert_eq!(cidr(&ip, 64).to_string().unwrap(), "2001:db8:0:0:1::/64");
}

#[test]
fn ipv6_all_zero_and_loopback() {
    assert_eq!(cidr(&[0u8; 16], 0).to_string().unwrap(), "::/0");
    assert_eq!(cidr(&v6([0, 0, 0, 0, 0, 0, 0, 1]), 128).to_string().unwrap(), "::1/128");
}

#[test]
fn ipv6_first_of_equal_runs_is_compressed() {
    let ip = v6([1, 0, 0, 1, 0, 0, 1, 1]);
    assert_eq!(cidr(&ip, 128).to_string().unwrap(), "1::1:0:0:1:1/128");
}

#[test]
fn ipv6_single_zero_group_is_kept() {
    let ip = v6([1, 0, 1, 1, 1, 1, 1, 1]);
    assert_eq!(cidr(&ip, 128).to_string().unwrap(), "1:0:1:1:1:1:1:1/128");
}

#[test]
fn ipv6_hex_is_lower_case_without_leading_zeros() {
    let ip = v6([0xfe80, 0x000a, 0x00bc, 0x0def, 0xffff, 0x1000, 0x0100, 0x0010]);
    assert_eq!(cidr(&ip, 10).to_string().unwrap(), "fe80:a:bc:def:ffff:1000:100:10/10");
}

#[test]
fn ipv6_ipv4_mapped() {
    let ip = v6([0, 0, 0, 0, 0, 0xffff, 0x0102, 0x0304]);
    assert_eq!(cidr(&ip, 96).to_string().unwrap(), "::ffff:1.2.3.4/96");
}

#[test]
fn ipv6_ipv4_compatible_is_plain_hex() {
    let ip = v6([0, 0, 0, 0, 0, 0, 0x0102, 0x0304]);
    assert_eq!(cidr(&ip, 96).to_string().unwrap(), "::102:304/96");
}

#[test]
fn invalid_length_is_refused() {
    assert_eq!(cidr(&[1, 2, 3], 8).to_string(), Err(Error::InvalidIpLength));
    assert_eq!(cidr(&[], 0).to_string(), Err(Error::InvalidIpLength));
    assert_eq!(cidr(&[0u8; 5], 0).to_string(), Err(Error::InvalidIpLength));
}
