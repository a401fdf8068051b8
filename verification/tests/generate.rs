use tsumugi::error::Error;
use tsumugi::generate::{iproute2route, iproute2rule, nftables};
use tsumugi::geoip::Cidr;

fn cidr(ip: &[u8], prefix: u32) -> Cidr {
    Cidr { ip: ip.to_vec(), prefix }
}

fn sample() -> (Vec<Cidr>, Vec<Cidr>) {
    let mut six = vec![0u8; 16];
    six[0] = 0x24;
    six[1] = 0x0e;
    (
        vec![cidr(&[1, 0, 1, 0], 24), cidr(&[1, 0, 2, 0], 23)],
        vec![cidr(&six, 16)],
    )
}

#[test]
fn nftables_script() {
    let script = nftables(sample(), "fw", "cn4", "cn6").unwrap();
    assert_eq!(
        script,
        "flush set inet fw cn4\n\
         add element inet fw cn4 { 1.0.1.0/24, 1.0.2.0/23 }\n\
         flush set inet fw cn6\n\
         add element inet fw cn6 { 240e::/16 }\n"
    );
}

#[test]
fn nftables_empty_sets() {
    let script = nftables((vec![], vec![]), "t", "a", "b").unwrap();
    assert_eq!(
        script,
        "flush set inet t a\nadd element inet t a { }\nflush set inet t b\nadd element inet t b { }\n"
    );
}

#[test]
fn nftables_invalid_block() {
    let pair = (vec![cidr(&[1, 2, 3, 4], 8)], vec![cidr(&[1, 2, 3], 8)]);
    assert_eq!(nftables(pair, "t", "a", "b"), Err(Error::InvalidIpLength));
}

#[test]
fn iproute2_rule_add_and_delete() {
    let add = iproute2rule(sample(), false, "main").unwrap();
    assert_eq!(
        add,
        "ip rule add to 1.0.1.0/24 lookup main\n\
         ip rule add to 1.0.2.0/23 lookup main\n\
         ip -6 rule add to 240e::/16 lookup main\n"
    );
    let delete = iproute2rule(sample(), true, "100").unwrap();
    assert_eq!(
        delete,
        "ip rule delete to 1.0.1.0/24 lookup 100\n\
         ip rule delete to 1.0.2.0/23 lookup 100\n\
         ip -6 rule delete to 240e::/16 lookup 100\n"
    );
}

#[test]
fn iproute2_rule_invalid_block() {
    let pair = (vec![], vec![cidr(&[0u8; 15], 8)]);
    assert_eq!(iproute2rule(pair, false, "main"), Err(Error::InvalidIpLength));
}

#[test]
fn iproute2_route_add() {
    let script = iproute2route(sample(), false, "main", "192.168.1.1", "fe80::1", "eth0").unwrap();
    assert_eq!(
        script,
        "ip route add table main 1.0.1.0/24 via 192.168.1.1 dev eth0\n\
         ip route add table main 1.0.2.0/23 via 192.168.1.1 dev eth0\n\
         ip -6 route add table main 240e::/16 via fe80::1 dev eth0\n"
    );
}

#[test]
fn iproute2_route_delete_empty() {
    let script = iproute2route((vec![], vec![]), true, "main", "g4", "g6", "d").unwrap();
    assert_eq!(script, "");
}

#[test]
fn iproute2_route_invalid_block() {
    let pair = (vec![cidr(&[1, 2], 8)], vec![]);
    assert_eq!(iproute2route(pair, true, "main", "g4", "g6", "d"), Err(Error::InvalidIpLength));
}

#[test]
fn ipv6_block_in_ipv4_list_is_printed_by_its_length() {
    let pair = (vec![cidr(&[0u8; 16], 0)], vec![cidr(&[8, 8, 8, 8], 32)]);
    let script = iproute2rule(pair, false, "t").unwrap();
    assert_eq!(script, "ip rule add to ::/0 lookup t\nip -6 rule add to 8.8.8.8/32 lookup t\n");
}

#[test]
fn one_line_per_block_and_four_nft_lines() {
    let rules = iproute2rule(sample(), false, "main").unwrap();
    assert_eq!(rules.matches('\n').count(), 3);
    let routes = iproute2route(sample(), true, "main", "g4", "g6", "d").unwrap();
    assert_eq!(routes.matches('\n').count(), 3);
    let nft = nftables(sample(), "t", "a", "b").unwrap();
    assert_eq!(nft.matches('\n').count(), 4);
    let nft = nftables((vec![], vec![]), "t", "a", "b").unwrap();
    assert_eq!(nft.matches('\n').count(), 4);
}

#[test]
fn delete_and_add_agree_on_success() {
    let bad = || (vec![cidr(&[1, 2, 3], 8)], vec![]);
    assert_eq!(iproute2rule(bad(), true, "t"), iproute2rule(bad(), false, "t"));
    assert!(iproute2rule(sample(), true, "t").is_ok() && iproute2rule(sample(), false, "t").is_ok());
}

#[test]
fn delete_script_mirrors_add_script() {
    let add = iproute2rule(sample(), false, "main").unwrap();
    let delete = iproute2rule(sample(), true, "main").unwrap();
    let add_lines: Vec<&str> = add.lines().collect();
    let delete_lines: Vec<&str> = delete.lines().collect();
    assert_eq!(add_lines.len(), delete_lines.len());
    for (a, d) in add_lines.iter().zip(delete_lines.iter()) {
        assert_eq!(a.replacen(" add ", " delete ", 1), *d);
    }
    let add = iproute2route(sample(), false, "main", "g4", "g6", "eth0").unwrap();
    let delete = iproute2route(sample(), true, "main", "g4", "g6", "eth0").unwrap();
    let add_lines: Vec<&str> = add.lines().collect();
    let delete_lines: Vec<&str> = delete.lines().collect();
    assert_eq!(add_lines.len(), delete_lines.len());
    for (a, d) in add_lines.iter().zip(delete_lines.iter()) {
        assert_eq!(a.replacen(" add ", " delete ", 1), *d);
    }
}
