use tsumugi::systemd::{generate_iproute2_route, generate_iproute2_rule, generate_nftables};

const URL: &str = "https://github.com/SagerNet/sing-geoip/raw/refs/heads/rule-set/geoip-cn.srs";

#[test]
fn readme_iproute2_rule_unit() {
    let unit = generate_iproute2_rule("/usr/bin/ip", "/usr/bin/tsumugi", URL, "", "main");
    let expected = "[Unit]\nDescription=tsumugi iproute2 rule (ip rule add)\n# e.g. sing-box.service\nRequires=place_holder.service\nAfter=place_holder.service\n\n[Service]\nType=oneshot\nRemainAfterExit=yes\n\nExecStartPre=/usr/bin/tsumugi --url https://github.com/SagerNet/sing-geoip/raw/refs/heads/rule-set/geoip-cn.srs \\\n            convert --output /tmp/.tsumugi_iproute2_rule_cache.db srs\nExecStart=/bin/sh -ec \"/usr/bin/tsumugi -f /tmp/.tsumugi_iproute2_rule_cache.db generate iproute2 route \\\n            --table main | /usr/bin/ip -batch -\"\n\nExecReload=/bin/sh -ec \"/bin/mv /tmp/.tsumugi_iproute2_rule_cache.db /tmp/.tsumugi_iproute2_rule_cache.db.bak; \\\n            /usr/bin/tsumugi --url https://github.com/SagerNet/sing-geoip/raw/refs/heads/rule-set/geoip-cn.srs \\\n            convert --output /tmp/.tsumugi_iproute2_rule_cache.db srs; \\\n            /usr/bin/tsumugi -f /tmp/.tsumugi_iproute2_rule_cache.db.bak generate iproute2 route \\\n            --delete --table main | /usr/bin/ip -batch -; \\\n            /bin/rm /tmp/.tsumugi_iproute2_rule_cache.db.bak; \\\n            /usr/bin/tsumugi -f /tmp/.tsumugi_iproute2_rule_cache.db generate iproute2 route \\\n            --table main | /usr/bin/ip -batch -\"\n\nExecStop=/bin/sh -ec \"/usr/bin/tsumugi -f /tmp/.tsumugi_iproute2_rule_cache.db generate iproute2 route \\\n            --delete --table main | /usr/bin/ip -batch -\"\nExecStop=/bin/rm -f /tmp/.tsumugi_iproute2_rule_cache.db\n\n[Install]\nWantedBy=multi-user.target\n";
    assert_eq!(unit, expected);
}

#[test]
fn rule_unit_with_code() {
    let unit = generate_iproute2_rule("/sbin/ip", "/bin/t", "u", "cn", "100");
    assert!(unit.contains("ExecStartPre=/bin/t --url u \\\n            --code cn convert --output /tmp/.tsumugi_iproute2_rule_cache.db srs\n"));
    assert!(unit.contains("--table 100 | /sbin/ip -batch -\"\n"));
}

#[test]
fn nftables_unit() {
    let unit = generate_nftables("/usr/sbin/nft", "/usr/bin/tsumugi", "U", "cn", "fw", "s4", "s6");
    let expected = "[Unit]\nDescription=tsumugi nftables (nft -f)\nRequires=nftables.service\nAfter=nftables.service\n# e.g. sing-box.service\nRequires=place_holder.service\nAfter=place_holder.service\n\n[Service]\nType=oneshot\nRemainAfterExit=yes\nExecStart=/bin/sh -ec \"/usr/bin/tsumugi \\\n            --url U \\\n            --code cn generate nftables \\\n            --table fw --ipv4set s4 --ipv6set s6 | /usr/sbin/nft -f -\"\n\nExecReload=/bin/sh -ec \"/usr/bin/tsumugi \\\n            --url U \\\n            --code cn generate nftables \\\n            --table fw --ipv4set s4 --ipv6set s6 | /usr/sbin/nft -f -\"\n\nExecStop=/usr/sbin/nft flush set inet fw s4\nExecStop=/usr/sbin/nft flush set inet fw s6\n\n[Install]\nWantedBy=multi-user.target\n";
    assert_eq!(unit, expected);
}

#[test]
fn route_unit() {
    let unit = generate_iproute2_route("/usr/bin/ip", "/usr/bin/tsumugi", "U", "", "main", "10.0.0.1", "fe80::1", "eth0");
    let expected = "[Unit]\nDescription=tsumugi iproute2 route (ip route add)\n# e.g. sing-box.service\nRequires=place_holder.service\nAfter=place_holder.service\n\n[Service]\nType=oneshot\nRemainAfterExit=yes\n\nExecStartPre=/usr/bin/tsumugi --url U \\\n            convert --output /tmp/.tsumugi_iproute2_route_cache.db srs\nExecStart=/bin/sh -ec \"/usr/bin/tsumugi -f /tmp/.tsumugi_iproute2_route_cache.db generate iproute2 route \\\n            --table main --ipv4-gateway 10.0.0.1 --ipv6-gateway fe80::1 --dev eth0| /usr/bin/ip -batch -\"\n\nExecReload=/bin/sh -ec \"/bin/mv /tmp/.tsumugi_iproute2_route_cache.db /tmp/.tsumugi_iproute2_route_cache.db.bak; \\\n            /usr/bin/tsumugi -f /tmp/.tsumugi_iproute2_route_cache.db.bak generate iproute2 route \\\n            /usr/bin/tsumugi --url U \\\n            convert --output /tmp/.tsumugi_iproute2_route_cache.db srs; \\\n            --delete --table main --ipv4-gateway 10.0.0.1 --ipv6-gateway fe80::1 --dev eth0 | /usr/bin/ip -batch -; \\\n            /bin/rm /tmp/.tsumugi_iproute2_route_cache.db.bak; \\\n            /usr/bin/tsumugi /tmp/.tsumugi_iproute2_route_cache.db generate iproute2 route \\\n            --table main --ipv4-gateway 10.0.0.1 --ipv6-gateway fe80::1 --dev eth0 | /usr/bin/ip -batch -\"\n\nExecStop=/bin/sh -ec \"/usr/bin/tsumugi /tmp/.tsumugi_iproute2_route_cache.db generate iproute2 route \\\n            --delete --table main --ipv4-gateway 10.0.0.1 --ipv6-gateway fe80::1 --dev eth0 | /usr/bin/ip -batch -\"\nExecStop=/bin/rm -f /tmp/.tsumugi_iproute2_route_cache.db\n\n[Install]\nWantedBy=multi-user.target\n";
    assert_eq!(unit, expected);
}
