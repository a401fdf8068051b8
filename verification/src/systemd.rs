//! systemd service units that keep a country's nftables sets, routes or
//! routing policy rules in place, refreshing them from the list's URL.

use vstd::prelude::*;

verus! {

/// The `--code <code> ` argument, or nothing when no code is given.
pub open spec fn code_args_text(
    code: Seq<char>,
) -> Seq<char> {
    if code.len() > 0 {
        "--code "@ + code + " "@
    } else {
        Seq::empty()
    }
}

fn code_args(code: &str) -> (r: String)
    ensures
        r@ == code_args_text(
            code@,
        ),
{
    if !code.is_empty() {
        let mut s = String::from_str("--code ");
        s.append(code);
        s.append(" ");
        s
    } else {
        String::new()
    }
}

/// The text of the unit that [`generate_nftables`] writes.
pub open spec fn nftables_unit(
    nftables_exe: Seq<char>,
    current_exe: Seq<char>,
    url: Seq<char>,
    code: Seq<char>,
    table: Seq<char>,
    ipv4set: Seq<char>,
    ipv6set: Seq<char>,
) -> Seq<char> {
    "[Unit]\nDescription=tsumugi nftables (nft -f)\nRequires=nftables.service\nAfter=nftables.service\n# e.g. sing-box.service\nRequires=place_holder.service\nAfter=place_holder.service\n\n[Service]\nType=oneshot\nRemainAfterExit=yes\nExecStart=/bin/sh -ec \""@
        + current_exe
        + " \\\n            --url "@
        + url
        + " \\\n            "@
        + code_args_text(code)
        + "generate nftables \\\n            --table "@
        + table
        + " --ipv4set "@
        + ipv4set
        + " --ipv6set "@
        + ipv6set
        + " | "@
        + nftables_exe
        + " -f -\"\n\nExecReload=/bin/sh -ec \""@
        + current_exe
        + " \\\n            --url "@
        + url
        + " \\\n            "@
        + code_args_text(code)
        + "generate nftables \\\n            --table "@
        + table
        + " --ipv4set "@
        + ipv4set
        + " --ipv6set "@
        + ipv6set
        + " | "@
        + nftables_exe
        + " -f -\"\n\nExecStop="@
        + nftables_exe
        + " flush set inet "@
        + table
        + " "@
        + ipv4set
        + "\nExecStop="@
        + nftables_exe
        + " flush set inet "@
        + table
        + " "@
        + ipv6set
        + "\n\n[Install]\nWantedBy=multi-user.target\n"@
}

/// The systemd unit that loads the country's blocks into the nftables sets
/// `ipv4set` and `ipv6set` of `table` on start and reload, and flushes them on
/// stop.
///
/// The executables are given by path: the running program `current_exe` and
/// the firewall or routing tool it drives.
pub fn generate_nftables(
    nftables_exe: &str,
    current_exe: &str,
    url: &str,
    code: &str,
    table: &str,
    ipv4set: &str,
    ipv6set: &str,
) -> (r: String)
    ensures
        r@ == nftables_unit(
            nftables_exe@,
            current_exe@,
            url@,
            code@,
            table@,
            ipv4set@,
            ipv6set@,
        ),
{
    let code_args = code_args(code);
    let mut out = String::from_str("[Unit]\nDescription=tsumugi nftables (nft -f)\nRequires=nftables.service\nAfter=nftables.service\n# e.g. sing-box.service\nRequires=place_holder.service\nAfter=place_holder.service\n\n[Service]\nType=oneshot\nRemainAfterExit=yes\nExecStart=/bin/sh -ec \"");
    out.append(current_exe);
    out.append(" \\\n            --url ");
    out.append(url);
    out.append(" \\\n            ");
    out.append(code_args.as_str());
    out.append("generate nftables \\\n            --table ");
    out.append(table);
    out.append(" --ipv4set ");
    out.append(ipv4set);
    out.append(" --ipv6set ");
    out.append(ipv6set);
    out.append(" | ");
    out.append(nftables_exe);
    out.append(" -f -\"\n\nExecReload=/bin/sh -ec \"");
    out.append(current_exe);
    out.append(" \\\n            --url ");
    out.append(url);
    out.append(" \\\n            ");
    out.append(code_args.as_str());
    out.append("generate nftables \\\n            --table ");
    out.append(table);
    out.append(" --ipv4set ");
    out.append(ipv4set);
    out.append(" --ipv6set ");
    out.append(ipv6set);
    out.append(" | ");
    out.append(nftables_exe);
    out.append(" -f -\"\n\nExecStop=");
    out.append(nftables_exe);
    out.append(" flush set inet ");
    out.append(table);
    out.append(" ");
    out.append(ipv4set);
    out.append("\nExecStop=");
    out.append(nftables_exe);
    out.append(" flush set inet ");
    out.append(table);
    out.append(" ");
    out.append(ipv6set);
    out.append("\n\n[Install]\nWantedBy=multi-user.target\n");
    out
}

/// The text of the unit that [`generate_iproute2_route`] writes.
pub open spec fn iproute2_route_unit(
    ip_exe: Seq<char>,
    current_exe: Seq<char>,
    url: Seq<char>,
    code: Seq<char>,
    table: Seq<char>,
    ipv4_gateway: Seq<char>,
    ipv6_gateway: Seq<char>,
    dev: Seq<char>,
) -> Seq<char> {
    "[Unit]\nDescription=tsumugi iproute2 route (ip route add)\n# e.g. sing-box.service\nRequires=place_holder.service\nAfter=place_holder.service\n\n[Service]\nType=oneshot\nRemainAfterExit=yes\n\nExecStartPre="@
        + current_exe
        + " --url "@
        + url
        + " \\\n            "@
        + code_args_text(code)
        + "convert --output /tmp/.tsumugi_iproute2_route_cache.db srs"@
        + "\nExecStart=/bin/sh -ec \""@
        + current_exe
        + " -f /tmp/.tsumugi_iproute2_route_cache.db generate iproute2 route \\\n            --table "@
        + table
        + " --ipv4-gateway "@
        + ipv4_gateway
        + " --ipv6-gateway "@
        + ipv6_gateway
        + " --dev "@
        + dev
        + "| "@
        + ip_exe
        + " -batch -\"\n\nExecReload=/bin/sh -ec \"/bin/mv /tmp/.tsumugi_iproute2_route_cache.db /tmp/.tsumugi_iproute2_route_cache.db.bak; \\\n            "@
        + current_exe
        + " -f /tmp/.tsumugi_iproute2_route_cache.db.bak generate iproute2 route \\\n            "@
        + current_exe
        + " --url "@
        + url
        + " \\\n            "@
        + code_args_text(code)
        + "convert --output /tmp/.tsumugi_iproute2_route_cache.db srs"@
        + "; \\\n            --delete --table "@
        + table
        + " --ipv4-gateway "@
        + ipv4_gateway
        + " --ipv6-gateway "@
        + ipv6_gateway
        + " --dev "@
        + dev
        + " | "@
        + ip_exe
        + " -batch -; \\\n            /bin/rm /tmp/.tsumugi_iproute2_route_cache.db.bak; \\\n            "@
        + current_exe
        + " /tmp/.tsumugi_iproute2_route_cache.db generate iproute2 route \\\n            --table "@
        + table
        + " --ipv4-gateway "@
        + ipv4_gateway
        + " --ipv6-gateway "@
        + ipv6_gateway
        + " --dev "@
        + dev
        + " | "@
        + ip_exe
        + " -batch -\"\n\nExecStop=/bin/sh -ec \""@
        + current_exe
        + " /tmp/.tsumugi_iproute2_route_cache.db generate iproute2 route \\\n            --delete --table "@
        + table
        + " --ipv4-gateway "@
        + ipv4_gateway
        + " --ipv6-gateway "@
        + ipv6_gateway
        + " --dev "@
        + dev
        + " | "@
        + ip_exe
        + " -batch -\"\nExecStop=/bin/rm -f /tmp/.tsumugi_iproute2_route_cache.db\n\n[Install]\nWantedBy=multi-user.target\n"@
}

/// The systemd unit that caches the country's blocks as a rule-set and adds
/// their routes to `table` on start, replaces them on reload and deletes them
/// on stop.
///
/// The executables are given by path: the running program `current_exe` and
/// the firewall or routing tool it drives.
pub fn generate_iproute2_route(
    ip_exe: &str,
    current_exe: &str,
    url: &str,
    code: &str,
    table: &str,
    ipv4_gateway: &str,
    ipv6_gateway: &str,
    dev: &str,
) -> (r: String)
    ensures
        r@ == iproute2_route_unit(
            ip_exe@,
            current_exe@,
            url@,
            code@,
            table@,
            ipv4_gateway@,
            ipv6_gateway@,
            dev@,
        ),
{
    let code_args = code_args(code);
    let mut out = String::from_str("[Unit]\nDescription=tsumugi iproute2 route (ip route add)\n# e.g. sing-box.service\nRequires=place_holder.service\nAfter=place_holder.service\n\n[Service]\nType=oneshot\nRemainAfterExit=yes\n\nExecStartPre=");
    out.append(current_exe);
    out.append(" --url ");
    out.append(url);
    out.append(" \\\n            ");
    out.append(code_args.as_str());
    out.append("convert --output /tmp/.tsumugi_iproute2_route_cache.db srs");
    out.append("\nExecStart=/bin/sh -ec \"");
    out.append(current_exe);
    out.append(" -f /tmp/.tsumugi_iproute2_route_cache.db generate iproute2 route \\\n            --table ");
    out.append(table);
    out.append(" --ipv4-gateway ");
    out.append(ipv4_gateway);
    out.append(" --ipv6-gateway ");
    out.append(ipv6_gateway);
    out.append(" --dev ");
    out.append(dev);
    out.append("| ");
    out.append(ip_exe);
    out.append(" -batch -\"\n\nExecReload=/bin/sh -ec \"/bin/mv /tmp/.tsumugi_iproute2_route_cache.db /tmp/.tsumugi_iproute2_route_cache.db.bak; \\\n            ");
    out.append(current_exe);
    out.append(" -f /tmp/.tsumugi_iproute2_route_cache.db.bak generate iproute2 route \\\n            ");
    out.append(current_exe);
    out.append(" --url ");
    out.append(url);
    out.append(" \\\n            ");
    out.append(code_args.as_str());
    out.append("convert --output /tmp/.tsumugi_iproute2_route_cache.db srs");
    out.append("; \\\n            --delete --table ");
    out.append(table);
    out.append(" --ipv4-gateway ");
    out.append(ipv4_gateway);
    out.append(" --ipv6-gateway ");
    out.append(ipv6_gateway);
    out.append(" --dev ");
    out.append(dev);
    out.append(" | ");
    out.append(ip_exe);
    out.append(" -batch -; \\\n            /bin/rm /tmp/.tsumugi_iproute2_route_cache.db.bak; \\\n            ");
    out.append(current_exe);
    out.append(" /tmp/.tsumugi_iproute2_route_cache.db generate iproute2 route \\\n            --table ");
    out.append(table);
    out.append(" --ipv4-gateway ");
    out.append(ipv4_gateway);
    out.append(" --ipv6-gateway ");
    out.append(ipv6_gateway);
    out.append(" --dev ");
    out.append(dev);
    out.append(" | ");
    out.append(ip_exe);
    out.append(" -batch -\"\n\nExecStop=/bin/sh -ec \"");
    out.append(current_exe);
    out.append(" /tmp/.tsumugi_iproute2_route_cache.db generate iproute2 route \\\n            --delete --table ");
    out.append(table);
    out.append(" --ipv4-gateway ");
    out.append(ipv4_gateway);
    out.append(" --ipv6-gateway ");
    out.append(ipv6_gateway);
    out.append(" --dev ");
    out.append(dev);
    out.append(" | ");
    out.append(ip_exe);
    out.append(" -batch -\"\nExecStop=/bin/rm -f /tmp/.tsumugi_iproute2_route_cache.db\n\n[Install]\nWantedBy=multi-user.target\n");
    out
}

/// The text of the unit that [`generate_iproute2_rule`] writes.
pub open spec fn iproute2_rule_unit(
    ip_exe: Seq<char>,
    current_exe: Seq<char>,
    url: Seq<char>,
    code: Seq<char>,
    table: Seq<char>,
) -> Seq<char> {
    "[Unit]\nDescription=tsumugi iproute2 rule (ip rule add)\n# e.g. sing-box.service\nRequires=place_holder.service\nAfter=place_holder.service\n\n[Service]\nType=oneshot\nRemainAfterExit=yes\n\nExecStartPre="@
        + current_exe
        + " --url "@
        + url
        + " \\\n            "@
        + code_args_text(code)
        + "convert --output /tmp/.tsumugi_iproute2_rule_cache.db srs"@
        + "\nExecStart=/bin/sh -ec \""@
        + current_exe
        + " -f /tmp/.tsumugi_iproute2_rule_cache.db generate iproute2 route \\\n            --table "@
        + table
        + " | "@
        + ip_exe
        + " -batch -\"\n\nExecReload=/bin/sh -ec \"/bin/mv /tmp/.tsumugi_iproute2_rule_cache.db /tmp/.tsumugi_iproute2_rule_cache.db.bak; \\\n            "@
        + current_exe
        + " --url "@
        + url
        + " \\\n            "@
        + code_args_text(code)
        + "convert --output /tmp/.tsumugi_iproute2_rule_cache.db srs"@
        + "; \\\n            "@
        + current_exe
        + " -f /tmp/.tsumugi_iproute2_rule_cache.db.bak generate iproute2 route \\\n            --delete --table "@
        + table
        + " | "@
        + ip_exe
        + " -batch -; \\\n            /bin/rm /tmp/.tsumugi_iproute2_rule_cache.db.bak; \\\n            "@
        + current_exe
        + " -f /tmp/.tsumugi_iproute2_rule_cache.db generate iproute2 route \\\n            --table "@
        + table
        + " | "@
        + ip_exe
        + " -batch -\"\n\nExecStop=/bin/sh -ec \""@
        + current_exe
        + " -f /tmp/.tsumugi_iproute2_rule_cache.db generate iproute2 route \\\n            --delete --table "@
        + table
        + " | "@
        + ip_exe
        + " -batch -\"\nExecStop=/bin/rm -f /tmp/.tsumugi_iproute2_rule_cache.db\n\n[Install]\nWantedBy=multi-user.target\n"@
}

/// The systemd unit that caches the country's blocks as a rule-set and adds
/// their routing policy rules for `table` on start, replaces them on reload
/// and deletes them on stop.
///
/// The executables are given by path: the running program `current_exe` and
/// the firewall or routing tool it drives.
pub fn generate_iproute2_rule(
    ip_exe: &str,
    current_exe: &str,
    url: &str,
    code: &str,
    table: &str,
) -> (r: String)
    ensures
        r@ == iproute2_rule_unit(
            ip_exe@,
            current_exe@,
            url@,
            code@,
            table@,
        ),
{
    let code_args = code_args(code);
    let mut out = String::from_str("[Unit]\nDescription=tsumugi iproute2 rule (ip rule add)\n# e.g. sing-box.service\nRequires=place_holder.service\nAfter=place_holder.service\n\n[Service]\nType=oneshot\nRemainAfterExit=yes\n\nExecStartPre=");
    out.append(current_exe);
    out.append(" --url ");
    out.append(url);
    out.append(" \\\n            ");
    out.append(code_args.as_str());
    out.append("convert --output /tmp/.tsumugi_iproute2_rule_cache.db srs");
    out.append("\nExecStart=/bin/sh -ec \"");
    out.append(current_exe);
    out.append(" -f /tmp/.tsumugi_iproute2_rule_cache.db generate iproute2 route \\\n            --table ");
    out.append(table);
    out.append(" | ");
    out.append(ip_exe);
    out.append(" -batch -\"\n\nExecReload=/bin/sh -ec \"/bin/mv /tmp/.tsumugi_iproute2_rule_cache.db /tmp/.tsumugi_iproute2_rule_cache.db.bak; \\\n            ");
    out.append(current_exe);
    out.append(" --url ");
    out.append(url);
    out.append(" \\\n            ");
    out.append(code_args.as_str());
    out.append("convert --output /tmp/.tsumugi_iproute2_rule_cache.db srs");
    out.append("; \\\n            ");
    out.append(current_exe);
    out.append(" -f /tmp/.tsumugi_iproute2_rule_cache.db.bak generate iproute2 route \\\n            --delete --table ");
    out.append(table);
    out.append(" | ");
    out.append(ip_exe);
    out.append(" -batch -; \\\n            /bin/rm /tmp/.tsumugi_iproute2_rule_cache.db.bak; \\\n            ");
    out.append(current_exe);
    out.append(" -f /tmp/.tsumugi_iproute2_rule_cache.db generate iproute2 route \\\n            --table ");
    out.append(table);
    out.append(" | ");
    out.append(ip_exe);
    out.append(" -batch -\"\n\nExecStop=/bin/sh -ec \"");
    out.append(current_exe);
    out.append(" -f /tmp/.tsumugi_iproute2_rule_cache.db generate iproute2 route \\\n            --delete --table ");
    out.append(table);
    out.append(" | ");
    out.append(ip_exe);
    out.append(" -batch -\"\nExecStop=/bin/rm -f /tmp/.tsumugi_iproute2_rule_cache.db\n\n[Install]\nWantedBy=multi-user.target\n");
    out
}

/// `part` stands in `text` from index `at` on.
pub open spec fn occurs_at(text: Seq<char>, part: Seq<char>, at: int) -> bool {
    0 <= at && at + part.len() <= text.len() && text.subrange(at, at + part.len()) == part
}

proof fn lemma_prefix_extend(x: Seq<char>, y: Seq<char>, z: Seq<char>)
    requires
        x.len() <= y.len(),
        y.subrange(0, x.len() as int) == x,
    ensures
        x.len() <= (y + z).len(),
        (y + z).subrange(0, x.len() as int) == x,
{
    assert((y + z).subrange(0, x.len() as int) =~= y.subrange(0, x.len() as int));
}

proof fn lemma_prefix_self(x: Seq<char>)
    ensures
        x.subrange(0, x.len() as int) == x,
{
    assert(x.subrange(0, x.len() as int) =~= x);
}

proof fn lemma_regroup(a: Seq<char>, b: Seq<char>, c: Seq<char>, d: Seq<char>, e: Seq<char>, f: Seq<char>)
    ensures
        a + b + c + d + e + f == a + (b + c + d + e + f),
{
    assert(a + b + c + d + e + f =~= a + (b + c + d + e + f));
}

proof fn lemma_occurs_after(u: Seq<char>, a: Seq<char>, t: Seq<char>)
    requires
        (a + t).len() <= u.len(),
        u.subrange(0, (a + t).len() as int) == a + t,
    ensures
        occurs_at(u, t, a.len() as int),
{
    assert(u.subrange(a.len() as int, (a.len() + t.len()) as int) =~= (a + t).subrange(
        a.len() as int,
        (a + t).len() as int,
    ));
    assert((a + t).subrange(a.len() as int, (a + t).len() as int) =~= t);
}

/// Where the first convert command of the route unit starts.
spec fn iproute2_route_unit_convert_at_0(ip_exe: Seq<char>, current_exe: Seq<char>, url: Seq<char>, code: Seq<char>, table: Seq<char>, ipv4_gateway: Seq<char>, ipv6_gateway: Seq<char>, dev: Seq<char>) -> int {
    ("[Unit]\nDescription=tsumugi iproute2 route (ip route add)\n# e.g. sing-box.service\nRequires=place_holder.service\nAfter=place_holder.service\n\n[Service]\nType=oneshot\nRemainAfterExit=yes\n\nExecStartPre="@ + current_exe).len() as int
}

#[verifier::rlimit(50)]
#[verifier::spinoff_prover]
proof fn lemma_iproute2_route_unit_convert_0(
    ip_exe: Seq<char>,
    current_exe: Seq<char>,
    url: Seq<char>,
    code: Seq<char>,
    table: Seq<char>,
    ipv4_gateway: Seq<char>,
    ipv6_gateway: Seq<char>,
    dev: Seq<char>,
)
    ensures
        occurs_at(
            iproute2_route_unit(ip_exe, current_exe, url, code, table, ipv4_gateway, ipv6_gateway, dev),
            " --url "@ + url + " \\\n            "@ + code_args_text(code) + "convert --output /tmp/.tsumugi_iproute2_route_cache.db srs"@,
            iproute2_route_unit_convert_at_0(ip_exe, current_exe, url, code, table, ipv4_gateway, ipv6_gateway, dev),
        ),
        iproute2_route_unit_convert_at_0(ip_exe, current_exe, url, code, table, ipv4_gateway, ipv6_gateway, dev) + (" --url "@ + url + " \\\n            "@ + code_args_text(code) + "convert --output /tmp/.tsumugi_iproute2_route_cache.db srs"@).len() <= ("[Unit]\nDescription=tsumugi iproute2 route (ip route add)\n# e.g. sing-box.service\nRequires=place_holder.service\nAfter=place_holder.service\n\n[Service]\nType=oneshot\nRemainAfterExit=yes\n\nExecStartPre="@ + current_exe + " --url "@ + url + " \\\n            "@ + code_args_text(code) + "convert --output /tmp/.tsumugi_iproute2_route_cache.db srs"@).len(),
        ("[Unit]\nDescription=tsumugi iproute2 route (ip route add)\n# e.g. sing-box.service\nRequires=place_holder.service\nAfter=place_holder.service\n\n[Service]\nType=oneshot\nRemainAfterExit=yes\n\nExecStartPre="@ + current_exe + " --url "@ + url + " \\\n            "@ + code_args_text(code) + "convert --output /tmp/.tsumugi_iproute2_route_cache.db srs"@).len() <= iproute2_route_unit(ip_exe, current_exe, url, code, table, ipv4_gateway, ipv6_gateway, dev).len(),
{
    let u = iproute2_route_unit(ip_exe, current_exe, url, code, table, ipv4_gateway, ipv6_gateway, dev);
    let a = "[Unit]\nDescription=tsumugi iproute2 route (ip route add)\n# e.g. sing-box.service\nRequires=place_holder.service\nAfter=place_holder.service\n\n[Service]\nType=oneshot\nRemainAfterExit=yes\n\nExecStartPre="@ + current_exe;
    let t = " --url "@ + url + " \\\n            "@ + code_args_text(code) + "convert --output /tmp/.tsumugi_iproute2_route_cache.db srs"@;
    lemma_regroup(a, " --url "@, url, " \\\n            "@, code_args_text(code), "convert --output /tmp/.tsumugi_iproute2_route_cache.db srs"@);
    let x = a + t;
    lemma_prefix_self(x);
    lemma_prefix_extend(x, x, "\nExecStart=/bin/sh -ec \""@);
    let p7 = x + "\nExecStart=/bin/sh -ec \""@;
    lemma_prefix_extend(x, p7, current_exe);
    let p8 = p7 + current_exe;
    lemma_prefix_extend(x, p8, " -f /tmp/.tsumugi_iproute2_route_cache.db generate iproute2 route \\\n            --table "@);
    let p9 = p8 + " -f /tmp/.tsumugi_iproute2_route_cache.db generate iproute2 route \\\n            --table "@;
    lemma_prefix_extend(x, p9, table);
    let p10 = p9 + table;
    lemma_prefix_extend(x, p10, " --ipv4-gateway "@);
    let p11 = p10 + " --ipv4-gateway "@;
    lemma_prefix_extend(x, p11, ipv4_gateway);
    let p12 = p11 + ipv4_gateway;
    lemma_prefix_extend(x, p12, " --ipv6-gateway "@);
    let p13 = p12 + " --ipv6-gateway "@;
    lemma_prefix_extend(x, p13, ipv6_gateway);
    let p14 = p13 + ipv6_gateway;
    lemma_prefix_extend(x, p14, " --dev "@);
    let p15 = p14 + " --dev "@;
    lemma_prefix_extend(x, p15, dev);
    let p16 = p15 + dev;
    lemma_prefix_extend(x, p16, "| "@);
    let p17 = p16 + "| "@;
    lemma_prefix_extend(x, p17, ip_exe);
    let p18 = p17 + ip_exe;
    lemma_prefix_extend(x, p18, " -batch -\"\n\nExecReload=/bin/sh -ec \"/bin/mv /tmp/.tsumugi_iproute2_route_cache.db /tmp/.tsumugi_iproute2_route_cache.db.bak; \\\n            "@);
    let p19 = p18 + " -batch -\"\n\nExecReload=/bin/sh -ec \"/bin/mv /tmp/.tsumugi_iproute2_route_cache.db /tmp/.tsumugi_iproute2_route_cache.db.bak; \\\n            "@;
    lemma_prefix_extend(x, p19, current_exe);
    let p20 = p19 + current_exe;
    lemma_prefix_extend(x, p20, " -f /tmp/.tsumugi_iproute2_route_cache.db.bak generate iproute2 route \\\n            "@);
    let p21 = p20 + " -f /tmp/.tsumugi_iproute2_route_cache.db.bak generate iproute2 route \\\n            "@;
    lemma_prefix_extend(x, p21, current_exe);
    let p22 = p21 + current_exe;
    lemma_prefix_extend(x, p22, " --url "@);
    let p23 = p22 + " --url "@;
    lemma_prefix_extend(x, p23, url);
    let p24 = p23 + url;
    lemma_prefix_extend(x, p24, " \\\n            "@);
    let p25 = p24 + " \\\n            "@;
    lemma_prefix_extend(x, p25, code_args_text(code));
    let p26 = p25 + code_args_text(code);
    lemma_prefix_extend(x, p26, "convert --output /tmp/.tsumugi_iproute2_route_cache.db srs"@);
    let p27 = p26 + "convert --output /tmp/.tsumugi_iproute2_route_cache.db srs"@;
    lemma_prefix_extend(x, p27, "; \\\n            --delete --table "@);
    let p28 = p27 + "; \\\n            --delete --table "@;
    lemma_prefix_extend(x, p28, table);
    let p29 = p28 + table;
    lemma_prefix_extend(x, p29, " --ipv4-gateway "@);
    let p30 = p29 + " --ipv4-gateway "@;
    lemma_prefix_extend(x, p30, ipv4_gateway);
    let p31 = p30 + ipv4_gateway;
    lemma_prefix_extend(x, p31, " --ipv6-gateway "@);
    let p32 = p31 + " --ipv6-gateway "@;
    lemma_prefix_extend(x, p32, ipv6_gateway);
    let p33 = p32 + ipv6_gateway;
    lemma_prefix_extend(x, p33, " --dev "@);
    let p34 = p33 + " --dev "@;
    lemma_prefix_extend(x, p34, dev);
    let p35 = p34 + dev;
    lemma_prefix_extend(x, p35, " | "@);
    let p36 = p35 + " | "@;
    lemma_prefix_extend(x, p36, ip_exe);
    let p37 = p36 + ip_exe;
    lemma_prefix_extend(x, p37, " -batch -; \\\n            /bin/rm /tmp/.tsumugi_iproute2_route_cache.db.bak; \\\n            "@);
    let p38 = p37 + " -batch -; \\\n            /bin/rm /tmp/.tsumugi_iproute2_route_cache.db.bak; \\\n            "@;
    lemma_prefix_extend(x, p38, current_exe);
    let p39 = p38 + current_exe;
    lemma_prefix_extend(x, p39, " /tmp/.tsumugi_iproute2_route_cache.db generate iproute2 route \\\n            --table "@);
    let p40 = p39 + " /tmp/.tsumugi_iproute2_route_cache.db generate iproute2 route \\\n            --table "@;
    lemma_prefix_extend(x, p40, table);
    let p41 = p40 + table;
    lemma_prefix_extend(x, p41, " --ipv4-gateway "@);
    let p42 = p41 + " --ipv4-gateway "@;
    lemma_prefix_extend(x, p42, ipv4_gateway);
    let p43 = p42 + ipv4_gateway;
    lemma_prefix_extend(x, p43, " --ipv6-gateway "@);
    let p44 = p43 + " --ipv6-gateway "@;
    lemma_prefix_extend(x, p44, ipv6_gateway);
    let p45 = p44 + ipv6_gateway;
    lemma_prefix_extend(x, p45, " --dev "@);
    let p46 = p45 + " --dev "@;
    lemma_prefix_extend(x, p46, dev);
    let p47 = p46 + dev;
    lemma_prefix_extend(x, p47, " | "@);
    let p48 = p47 + " | "@;
    lemma_prefix_extend(x, p48, ip_exe);
    let p49 = p48 + ip_exe;
    lemma_prefix_extend(x, p49, " -batch -\"\n\nExecStop=/bin/sh -ec \""@);
    let p50 = p49 + " -batch -\"\n\nExecStop=/bin/sh -ec \""@;
    lemma_prefix_extend(x, p50, current_exe);
    let p51 = p50 + current_exe;
    lemma_prefix_extend(x, p51, " /tmp/.tsumugi_iproute2_route_cache.db generate iproute2 route \\\n            --delete --table "@);
    let p52 = p51 + " /tmp/.tsumugi_iproute2_route_cache.db generate iproute2 route \\\n            --delete --table "@;
    lemma_prefix_extend(x, p52, table);
    let p53 = p52 + table;
    lemma_prefix_extend(x, p53, " --ipv4-gateway "@);
    let p54 = p53 + " --ipv4-gateway "@;
    lemma_prefix_extend(x, p54, ipv4_gateway);
    let p55 = p54 + ipv4_gateway;
    lemma_prefix_extend(x, p55, " --ipv6-gateway "@);
    let p56 = p55 + " --ipv6-gateway "@;
    lemma_prefix_extend(x, p56, ipv6_gateway);
    let p57 = p56 + ipv6_gateway;
    lemma_prefix_extend(x, p57, " --dev "@);
    let p58 = p57 + " --dev "@;
    lemma_prefix_extend(x, p58, dev);
    let p59 = p58 + dev;
    lemma_prefix_extend(x, p59, " | "@);
    let p60 = p59 + " | "@;
    lemma_prefix_extend(x, p60, ip_exe);
    let p61 = p60 + ip_exe;
    lemma_prefix_extend(x, p61, " -batch -\"\nExecStop=/bin/rm -f /tmp/.tsumugi_iproute2_route_cache.db\n\n[Install]\nWantedBy=multi-user.target\n"@);
    let p62 = p61 + " -batch -\"\nExecStop=/bin/rm -f /tmp/.tsumugi_iproute2_route_cache.db\n\n[Install]\nWantedBy=multi-user.target\n"@;
    assert(p62 == u);
    lemma_occurs_after(u, a, t);
}

/// Where the second convert command of the route unit starts.
spec fn iproute2_route_unit_convert_at_1(ip_exe: Seq<char>, current_exe: Seq<char>, url: Seq<char>, code: Seq<char>, table: Seq<char>, ipv4_gateway: Seq<char>, ipv6_gateway: Seq<char>, dev: Seq<char>) -> int {
    ("[Unit]\nDescription=tsumugi iproute2 route (ip route add)\n# e.g. sing-box.service\nRequires=place_holder.service\nAfter=place_holder.service\n\n[Service]\nType=oneshot\nRemainAfterExit=yes\n\nExecStartPre="@ + current_exe + " --url "@ + url + " \\\n            "@ + code_args_text(code) + "convert --output /tmp/.tsumugi_iproute2_route_cache.db srs"@ + "\nExecStart=/bin/sh -ec \""@ + current_exe + " -f /tmp/.tsumugi_iproute2_route_cache.db generate iproute2 route \\\n            --table "@ + table + " --ipv4-gateway "@ + ipv4_gateway + " --ipv6-gateway "@ + ipv6_gateway + " --dev "@ + dev + "| "@ + ip_exe + " -batch -\"\n\nExecReload=/bin/sh -ec \"/bin/mv /tmp/.tsumugi_iproute2_route_cache.db /tmp/.tsumugi_iproute2_route_cache.db.bak; \\\n            "@ + current_exe + " -f /tmp/.tsumugi_iproute2_route_cache.db.bak generate iproute2 route \\\n            "@ + current_exe).len() as int
}

#[verifier::rlimit(50)]
#[verifier::spinoff_prover]
proof fn lemma_iproute2_route_unit_convert_1(
    ip_exe: Seq<char>,
    current_exe: Seq<char>,
    url: Seq<char>,
    code: Seq<char>,
    table: Seq<char>,
    ipv4_gateway: Seq<char>,
    ipv6_gateway: Seq<char>,
    dev: Seq<char>,
)
    ensures
        occurs_at(
            iproute2_route_unit(ip_exe, current_exe, url, code, table, ipv4_gateway, ipv6_gateway, dev),
            " --url "@ + url + " \\\n            "@ + code_args_text(code) + "convert --output /tmp/.tsumugi_iproute2_route_cache.db srs"@,
            iproute2_route_unit_convert_at_1(ip_exe, current_exe, url, code, table, ipv4_gateway, ipv6_gateway, dev),
        ),
        iproute2_route_unit_convert_at_1(ip_exe, current_exe, url, code, table, ipv4_gateway, ipv6_gateway, dev) + (" --url "@ + url + " \\\n            "@ + code_args_text(code) + "convert --output /tmp/.tsumugi_iproute2_route_cache.db srs"@).len() <= ("[Unit]\nDescription=tsumugi iproute2 route (ip route add)\n# e.g. sing-box.service\nRequires=place_holder.service\nAfter=place_holder.service\n\n[Service]\nType=oneshot\nRemainAfterExit=yes\n\nExecStartPre="@ + current_exe + " --url "@ + url + " \\\n            "@ + code_args_text(code) + "convert --output /tmp/.tsumugi_iproute2_route_cache.db srs"@ + "\nExecStart=/bin/sh -ec \""@ + current_exe + " -f /tmp/.tsumugi_iproute2_route_cache.db generate iproute2 route \\\n            --table "@ + table + " --ipv4-gateway "@ + ipv4_gateway + " --ipv6-gateway "@ + ipv6_gateway + " --dev "@ + dev + "| "@ + ip_exe + " -batch -\"\n\nExecReload=/bin/sh -ec \"/bin/mv /tmp/.tsumugi_iproute2_route_cache.db /tmp/.tsumugi_iproute2_route_cache.db.bak; \\\n            "@ + current_exe + " -f /tmp/.tsumugi_iproute2_route_cache.db.bak generate iproute2 route \\\n            "@ + current_exe + " --url "@ + url + " \\\n            "@ + code_args_text(code) + "convert --output /tmp/.tsumugi_iproute2_route_cache.db srs"@).len(),
        ("[Unit]\nDescription=tsumugi iproute2 route (ip route add)\n# e.g. sing-box.service\nRequires=place_holder.service\nAfter=place_holder.service\n\n[Service]\nType=oneshot\nRemainAfterExit=yes\n\nExecStartPre="@ + current_exe + " --url "@ + url + " \\\n            "@ + code_args_text(code) + "convert --output /tmp/.tsumugi_iproute2_route_cache.db srs"@ + "\nExecStart=/bin/sh -ec \""@ + current_exe + " -f /tmp/.tsumugi_iproute2_route_cache.db generate iproute2 route \\\n            --table "@ + table + " --ipv4-gateway "@ + ipv4_gateway + " --ipv6-gateway "@ + ipv6_gateway + " --dev "@ + dev + "| "@ + ip_exe + " -batch -\"\n\nExecReload=/bin/sh -ec \"/bin/mv /tmp/.tsumugi_iproute2_route_cache.db /tmp/.tsumugi_iproute2_route_cache.db.bak; \\\n            "@ + current_exe + " -f /tmp/.tsumugi_iproute2_route_cache.db.bak generate iproute2 route \\\n            "@ + current_exe + " --url "@ + url + " \\\n            "@ + code_args_text(code) + "convert --output /tmp/.tsumugi_iproute2_route_cache.db srs"@).len() <= iproute2_route_unit(ip_exe, current_exe, url, code, table, ipv4_gateway, ipv6_gateway, dev).len(),
{
    let u = iproute2_route_unit(ip_exe, current_exe, url, code, table, ipv4_gateway, ipv6_gateway, dev);
    let a = "[Unit]\nDescription=tsumugi iproute2 route (ip route add)\n# e.g. sing-box.service\nRequires=place_holder.service\nAfter=place_holder.service\n\n[Service]\nType=oneshot\nRemainAfterExit=yes\n\nExecStartPre="@ + current_exe + " --url "@ + url + " \\\n            "@ + code_args_text(code) + "convert --output /tmp/.tsumugi_iproute2_route_cache.db srs"@ + "\nExecStart=/bin/sh -ec \""@ + current_exe + " -f /tmp/.tsumugi_iproute2_route_cache.db generate iproute2 route \\\n            --table "@ + table + " --ipv4-gateway "@ + ipv4_gateway + " --ipv6-gateway "@ + ipv6_gateway + " --dev "@ + dev + "| "@ + ip_exe + " -batch -\"\n\nExecReload=/bin/sh -ec \"/bin/mv /tmp/.tsumugi_iproute2_route_cache.db /tmp/.tsumugi_iproute2_route_cache.db.bak; \\\n            "@ + current_exe + " -f /tmp/.tsumugi_iproute2_route_cache.db.bak generate iproute2 route \\\n            "@ + current_exe;
    let t = " --url "@ + url + " \\\n            "@ + code_args_text(code) + "convert --output /tmp/.tsumugi_iproute2_route_cache.db srs"@;
    lemma_regroup(a, " --url "@, url, " \\\n            "@, code_args_text(code), "convert --output /tmp/.tsumugi_iproute2_route_cache.db srs"@);
    let x = a + t;
    lemma_prefix_self(x);
    lemma_prefix_extend(x, x, "; \\\n            --delete --table "@);
    let p28 = x + "; \\\n            --delete --table "@;
    lemma_prefix_extend(x, p28, table);
    let p29 = p28 + table;
    lemma_prefix_extend(x, p29, " --ipv4-gateway "@);
    let p30 = p29 + " --ipv4-gateway "@;
    lemma_prefix_extend(x, p30, ipv4_gateway);
    let p31 = p30 + ipv4_gateway;
    lemma_prefix_extend(x, p31, " --ipv6-gateway "@);
    let p32 = p31 + " --ipv6-gateway "@;
    lemma_prefix_extend(x, p32, ipv6_gateway);
    let p33 = p32 + ipv6_gateway;
    lemma_prefix_extend(x, p33, " --dev "@);
    let p34 = p33 + " --dev "@;
    lemma_prefix_extend(x, p34, dev);
    let p35 = p34 + dev;
    lemma_prefix_extend(x, p35, " | "@);
    let p36 = p35 + " | "@;
    lemma_prefix_extend(x, p36, ip_exe);
    let p37 = p36 + ip_exe;
    lemma_prefix_extend(x, p37, " -batch -; \\\n            /bin/rm /tmp/.tsumugi_iproute2_route_cache.db.bak; \\\n            "@);
    let p38 = p37 + " -batch -; \\\n            /bin/rm /tmp/.tsumugi_iproute2_route_cache.db.bak; \\\n            "@;
    lemma_prefix_extend(x, p38, current_exe);
    let p39 = p38 + current_exe;
    lemma_prefix_extend(x, p39, " /tmp/.tsumugi_iproute2_route_cache.db generate iproute2 route \\\n            --table "@);
    let p40 = p39 + " /tmp/.tsumugi_iproute2_route_cache.db generate iproute2 route \\\n            --table "@;
    lemma_prefix_extend(x, p40, table);
    let p41 = p40 + table;
    lemma_prefix_extend(x, p41, " --ipv4-gateway "@);
    let p42 = p41 + " --ipv4-gateway "@;
    lemma_prefix_extend(x, p42, ipv4_gateway);
    let p43 = p42 + ipv4_gateway;
    lemma_prefix_extend(x, p43, " --ipv6-gateway "@);
    let p44 = p43 + " --ipv6-gateway "@;
    lemma_prefix_extend(x, p44, ipv6_gateway);
    let p45 = p44 + ipv6_gateway;
    lemma_prefix_extend(x, p45, " --dev "@);
    let p46 = p45 + " --dev "@;
    lemma_prefix_extend(x, p46, dev);
    let p47 = p46 + dev;
    lemma_prefix_extend(x, p47, " | "@);
    let p48 = p47 + " | "@;
    lemma_prefix_extend(x, p48, ip_exe);
    let p49 = p48 + ip_exe;
    lemma_prefix_extend(x, p49, " -batch -\"\n\nExecStop=/bin/sh -ec \""@);
    let p50 = p49 + " -batch -\"\n\nExecStop=/bin/sh -ec \""@;
    lemma_prefix_extend(x, p50, current_exe);
    let p51 = p50 + current_exe;
    lemma_prefix_extend(x, p51, " /tmp/.tsumugi_iproute2_route_cache.db generate iproute2 route \\\n            --delete --table "@);
    let p52 = p51 + " /tmp/.tsumugi_iproute2_route_cache.db generate iproute2 route \\\n            --delete --table "@;
    lemma_prefix_extend(x, p52, table);
    let p53 = p52 + table;
    lemma_prefix_extend(x, p53, " --ipv4-gateway "@);
    let p54 = p53 + " --ipv4-gateway "@;
    lemma_prefix_extend(x, p54, ipv4_gateway);
    let p55 = p54 + ipv4_gateway;
    lemma_prefix_extend(x, p55, " --ipv6-gateway "@);
    let p56 = p55 + " --ipv6-gateway "@;
    lemma_prefix_extend(x, p56, ipv6_gateway);
    let p57 = p56 + ipv6_gateway;
    lemma_prefix_extend(x, p57, " --dev "@);
    let p58 = p57 + " --dev "@;
    lemma_prefix_extend(x, p58, dev);
    let p59 = p58 + dev;
    lemma_prefix_extend(x, p59, " | "@);
    let p60 = p59 + " | "@;
    lemma_prefix_extend(x, p60, ip_exe);
    let p61 = p60 + ip_exe;
    lemma_prefix_extend(x, p61, " -batch -\"\nExecStop=/bin/rm -f /tmp/.tsumugi_iproute2_route_cache.db\n\n[Install]\nWantedBy=multi-user.target\n"@);
    let p62 = p61 + " -batch -\"\nExecStop=/bin/rm -f /tmp/.tsumugi_iproute2_route_cache.db\n\n[Install]\nWantedBy=multi-user.target\n"@;
    assert(p62 == u);
    lemma_occurs_after(u, a, t);
}

/// The route unit converts the list from the URL with the country code given,
/// both when it starts and when it reloads: the text `t`, that is
/// ` --url <url> \`, then on the next line `--code <code> ` (nothing when no
/// code is given) and `convert --output <cache> srs`, occurs twice in the
/// unit, one occurrence after the other.
pub proof fn lemma_iproute2_route_unit_converts_with_code(
    ip_exe: Seq<char>,
    current_exe: Seq<char>,
    url: Seq<char>,
    code: Seq<char>,
    table: Seq<char>,
    ipv4_gateway: Seq<char>,
    ipv6_gateway: Seq<char>,
    dev: Seq<char>,
    t: Seq<char>,
)
    requires
        code.len() > 0 ==> t == " --url "@ + url + " \\\n            "@ + "--code "@ + code + " "@ + "convert --output /tmp/.tsumugi_iproute2_route_cache.db srs"@,
        code.len() == 0 ==> t == " --url "@ + url + " \\\n            "@ + "convert --output /tmp/.tsumugi_iproute2_route_cache.db srs"@,
    ensures
        exists|i: int, j: int|
            i + t.len() <= j && #[trigger] occurs_at(iproute2_route_unit(ip_exe, current_exe, url, code, table, ipv4_gateway, ipv6_gateway, dev), t, i) && #[trigger] occurs_at(
                iproute2_route_unit(ip_exe, current_exe, url, code, table, ipv4_gateway, ipv6_gateway, dev),
                t,
                j,
            ),
{
    assert(t =~= " --url "@ + url + " \\\n            "@ + code_args_text(code) + "convert --output /tmp/.tsumugi_iproute2_route_cache.db srs"@);
    lemma_iproute2_route_unit_convert_0(ip_exe, current_exe, url, code, table, ipv4_gateway, ipv6_gateway, dev);
    lemma_iproute2_route_unit_convert_1(ip_exe, current_exe, url, code, table, ipv4_gateway, ipv6_gateway, dev);
    let i = iproute2_route_unit_convert_at_0(ip_exe, current_exe, url, code, table, ipv4_gateway, ipv6_gateway, dev);
    let j = iproute2_route_unit_convert_at_1(ip_exe, current_exe, url, code, table, ipv4_gateway, ipv6_gateway, dev);
    assert(j >= ("[Unit]\nDescription=tsumugi iproute2 route (ip route add)\n# e.g. sing-box.service\nRequires=place_holder.service\nAfter=place_holder.service\n\n[Service]\nType=oneshot\nRemainAfterExit=yes\n\nExecStartPre="@ + current_exe + " --url "@ + url + " \\\n            "@ + code_args_text(code) + "convert --output /tmp/.tsumugi_iproute2_route_cache.db srs"@).len()) by {
        assert(("[Unit]\nDescription=tsumugi iproute2 route (ip route add)\n# e.g. sing-box.service\nRequires=place_holder.service\nAfter=place_holder.service\n\n[Service]\nType=oneshot\nRemainAfterExit=yes\n\nExecStartPre="@ + current_exe + " --url "@ + url + " \\\n            "@ + code_args_text(code) + "convert --output /tmp/.tsumugi_iproute2_route_cache.db srs"@ + "\nExecStart=/bin/sh -ec \""@ + current_exe + " -f /tmp/.tsumugi_iproute2_route_cache.db generate iproute2 route \\\n            --table "@ + table + " --ipv4-gateway "@ + ipv4_gateway + " --ipv6-gateway "@ + ipv6_gateway + " --dev "@ + dev + "| "@ + ip_exe + " -batch -\"\n\nExecReload=/bin/sh -ec \"/bin/mv /tmp/.tsumugi_iproute2_route_cache.db /tmp/.tsumugi_iproute2_route_cache.db.bak; \\\n            "@ + current_exe + " -f /tmp/.tsumugi_iproute2_route_cache.db.bak generate iproute2 route \\\n            "@ + current_exe).len() >= ("[Unit]\nDescription=tsumugi iproute2 route (ip route add)\n# e.g. sing-box.service\nRequires=place_holder.service\nAfter=place_holder.service\n\n[Service]\nType=oneshot\nRemainAfterExit=yes\n\nExecStartPre="@ + current_exe + " --url "@ + url + " \\\n            "@ + code_args_text(code) + "convert --output /tmp/.tsumugi_iproute2_route_cache.db srs"@).len());
    }
    assert(occurs_at(iproute2_route_unit(ip_exe, current_exe, url, code, table, ipv4_gateway, ipv6_gateway, dev), t, i));
    assert(occurs_at(iproute2_route_unit(ip_exe, current_exe, url, code, table, ipv4_gateway, ipv6_gateway, dev), t, j));
}

/// Where the first convert command of the routing policy rule unit starts.
spec fn iproute2_rule_unit_convert_at_0(ip_exe: Seq<char>, current_exe: Seq<char>, url: Seq<char>, code: Seq<char>, table: Seq<char>) -> int {
    ("[Unit]\nDescription=tsumugi iproute2 rule (ip rule add)\n# e.g. sing-box.service\nRequires=place_holder.service\nAfter=place_holder.service\n\n[Service]\nType=oneshot\nRemainAfterExit=yes\n\nExecStartPre="@ + current_exe).len() as int
}

#[verifier::rlimit(50)]
#[verifier::spinoff_prover]
proof fn lemma_iproute2_rule_unit_convert_0(
    ip_exe: Seq<char>,
    current_exe: Seq<char>,
    url: Seq<char>,
    code: Seq<char>,
    table: Seq<char>,
)
    ensures
        occurs_at(
            iproute2_rule_unit(ip_exe, current_exe, url, code, table),
            " --url "@ + url + " \\\n            "@ + code_args_text(code) + "convert --output /tmp/.tsumugi_iproute2_rule_cache.db srs"@,
            iproute2_rule_unit_convert_at_0(ip_exe, current_exe, url, code, table),
        ),
        iproute2_rule_unit_convert_at_0(ip_exe, current_exe, url, code, table) + (" --url "@ + url + " \\\n            "@ + code_args_text(code) + "convert --output /tmp/.tsumugi_iproute2_rule_cache.db srs"@).len() <= ("[Unit]\nDescription=tsumugi iproute2 rule (ip rule add)\n# e.g. sing-box.service\nRequires=place_holder.service\nAfter=place_holder.service\n\n[Service]\nType=oneshot\nRemainAfterExit=yes\n\nExecStartPre="@ + current_exe + " --url "@ + url + " \\\n            "@ + code_args_text(code) + "convert --output /tmp/.tsumugi_iproute2_rule_cache.db srs"@).len(),
        ("[Unit]\nDescription=tsumugi iproute2 rule (ip rule add)\n# e.g. sing-box.service\nRequires=place_holder.service\nAfter=place_holder.service\n\n[Service]\nType=oneshot\nRemainAfterExit=yes\n\nExecStartPre="@ + current_exe + " --url "@ + url + " \\\n            "@ + code_args_text(code) + "convert --output /tmp/.tsumugi_iproute2_rule_cache.db srs"@).len() <= iproute2_rule_unit(ip_exe, current_exe, url, code, table).len(),
{
    let u = iproute2_rule_unit(ip_exe, current_exe, url, code, table);
    let a = "[Unit]\nDescription=tsumugi iproute2 rule (ip rule add)\n# e.g. sing-box.service\nRequires=place_holder.service\nAfter=place_holder.service\n\n[Service]\nType=oneshot\nRemainAfterExit=yes\n\nExecStartPre="@ + current_exe;
    let t = " --url "@ + url + " \\\n            "@ + code_args_text(code) + "convert --output /tmp/.tsumugi_iproute2_rule_cache.db srs"@;
    lemma_regroup(a, " --url "@, url, " \\\n            "@, code_args_text(code), "convert --output /tmp/.tsumugi_iproute2_rule_cache.db srs"@);
    let x = a + t;
    lemma_prefix_self(x);
    lemma_prefix_extend(x, x, "\nExecStart=/bin/sh -ec \""@);
    let p7 = x + "\nExecStart=/bin/sh -ec \""@;
    lemma_prefix_extend(x, p7, current_exe);
    let p8 = p7 + current_exe;
    lemma_prefix_extend(x, p8, " -f /tmp/.tsumugi_iproute2_rule_cache.db generate iproute2 route \\\n            --table "@);
    let p9 = p8 + " -f /tmp/.tsumugi_iproute2_rule_cache.db generate iproute2 route \\\n            --table "@;
    lemma_prefix_extend(x, p9, table);
    let p10 = p9 + table;
    lemma_prefix_extend(x, p10, " | "@);
    let p11 = p10 + " | "@;
    lemma_prefix_extend(x, p11, ip_exe);
    let p12 = p11 + ip_exe;
    lemma_prefix_extend(x, p12, " -batch -\"\n\nExecReload=/bin/sh -ec \"/bin/mv /tmp/.tsumugi_iproute2_rule_cache.db /tmp/.tsumugi_iproute2_rule_cache.db.bak; \\\n            "@);
    let p13 = p12 + " -batch -\"\n\nExecReload=/bin/sh -ec \"/bin/mv /tmp/.tsumugi_iproute2_rule_cache.db /tmp/.tsumugi_iproute2_rule_cache.db.bak; \\\n            "@;
    lemma_prefix_extend(x, p13, current_exe);
    let p14 = p13 + current_exe;
    lemma_prefix_extend(x, p14, " --url "@);
    let p15 = p14 + " --url "@;
    lemma_prefix_extend(x, p15, url);
    let p16 = p15 + url;
    lemma_prefix_extend(x, p16, " \\\n            "@);
    let p17 = p16 + " \\\n            "@;
    lemma_prefix_extend(x, p17, code_args_text(code));
    let p18 = p17 + code_args_text(code);
    lemma_prefix_extend(x, p18, "convert --output /tmp/.tsumugi_iproute2_rule_cache.db srs"@);
    let p19 = p18 + "convert --output /tmp/.tsumugi_iproute2_rule_cache.db srs"@;
    lemma_prefix_extend(x, p19, "; \\\n            "@);
    let p20 = p19 + "; \\\n            "@;
    lemma_prefix_extend(x, p20, current_exe);
    let p21 = p20 + current_exe;
    lemma_prefix_extend(x, p21, " -f /tmp/.tsumugi_iproute2_rule_cache.db.bak generate iproute2 route \\\n            --delete --table "@);
    let p22 = p21 + " -f /tmp/.tsumugi_iproute2_rule_cache.db.bak generate iproute2 route \\\n            --delete --table "@;
    lemma_prefix_extend(x, p22, table);
    let p23 = p22 + table;
    lemma_prefix_extend(x, p23, " | "@);
    let p24 = p23 + " | "@;
    lemma_prefix_extend(x, p24, ip_exe);
    let p25 = p24 + ip_exe;
    lemma_prefix_extend(x, p25, " -batch -; \\\n            /bin/rm /tmp/.tsumugi_iproute2_rule_cache.db.bak; \\\n            "@);
    let p26 = p25 + " -batch -; \\\n            /bin/rm /tmp/.tsumugi_iproute2_rule_cache.db.bak; \\\n            "@;
    lemma_prefix_extend(x, p26, current_exe);
    let p27 = p26 + current_exe;
    lemma_prefix_extend(x, p27, " -f /tmp/.tsumugi_iproute2_rule_cache.db generate iproute2 route \\\n            --table "@);
    let p28 = p27 + " -f /tmp/.tsumugi_iproute2_rule_cache.db generate iproute2 route \\\n            --table "@;
    lemma_prefix_extend(x, p28, table);
    let p29 = p28 + table;
    lemma_prefix_extend(x, p29, " | "@);
    let p30 = p29 + " | "@;
    lemma_prefix_extend(x, p30, ip_exe);
    let p31 = p30 + ip_exe;
    lemma_prefix_extend(x, p31, " -batch -\"\n\nExecStop=/bin/sh -ec \""@);
    let p32 = p31 + " -batch -\"\n\nExecStop=/bin/sh -ec \""@;
    lemma_prefix_extend(x, p32, current_exe);
    let p33 = p32 + current_exe;
    lemma_prefix_extend(x, p33, " -f /tmp/.tsumugi_iproute2_rule_cache.db generate iproute2 route \\\n            --delete --table "@);
    let p34 = p33 + " -f /tmp/.tsumugi_iproute2_rule_cache.db generate iproute2 route \\\n            --delete --table "@;
    lemma_prefix_extend(x, p34, table);
    let p35 = p34 + table;
    lemma_prefix_extend(x, p35, " | "@);
    let p36 = p35 + " | "@;
    lemma_prefix_extend(x, p36, ip_exe);
    let p37 = p36 + ip_exe;
    lemma_prefix_extend(x, p37, " -batch -\"\nExecStop=/bin/rm -f /tmp/.tsumugi_iproute2_rule_cache.db\n\n[Install]\nWantedBy=multi-user.target\n"@);
    let p38 = p37 + " -batch -\"\nExecStop=/bin/rm -f /tmp/.tsumugi_iproute2_rule_cache.db\n\n[Install]\nWantedBy=multi-user.target\n"@;
    assert(p38 == u);
    lemma_occurs_after(u, a, t);
}

/// Where the second convert command of the routing policy rule unit starts.
spec fn iproute2_rule_unit_convert_at_1(ip_exe: Seq<char>, current_exe: Seq<char>, url: Seq<char>, code: Seq<char>, table: Seq<char>) -> int {
    ("[Unit]\nDescription=tsumugi iproute2 rule (ip rule add)\n# e.g. sing-box.service\nRequires=place_holder.service\nAfter=place_holder.service\n\n[Service]\nType=oneshot\nRemainAfterExit=yes\n\nExecStartPre="@ + current_exe + " --url "@ + url + " \\\n            "@ + code_args_text(code) + "convert --output /tmp/.tsumugi_iproute2_rule_cache.db srs"@ + "\nExecStart=/bin/sh -ec \""@ + current_exe + " -f /tmp/.tsumugi_iproute2_rule_cache.db generate iproute2 route \\\n            --table "@ + table + " | "@ + ip_exe + " -batch -\"\n\nExecReload=/bin/sh -ec \"/bin/mv /tmp/.tsumugi_iproute2_rule_cache.db /tmp/.tsumugi_iproute2_rule_cache.db.bak; \\\n            "@ + current_exe).len() as int
}

#[verifier::rlimit(50)]
#[verifier::spinoff_prover]
proof fn lemma_iproute2_rule_unit_convert_1(
    ip_exe: Seq<char>,
    current_exe: Seq<char>,
    url: Seq<char>,
    code: Seq<char>,
    table: Seq<char>,
)
    ensures
        occurs_at(
            iproute2_rule_unit(ip_exe, current_exe, url, code, table),
            " --url "@ + url + " \\\n            "@ + code_args_text(code) + "convert --output /tmp/.tsumugi_iproute2_rule_cache.db srs"@,
            iproute2_rule_unit_convert_at_1(ip_exe, current_exe, url, code, table),
        ),
        iproute2_rule_unit_convert_at_1(ip_exe, current_exe, url, code, table) + (" --url "@ + url + " \\\n            "@ + code_args_text(code) + "convert --output /tmp/.tsumugi_iproute2_rule_cache.db srs"@).len() <= ("[Unit]\nDescription=tsumugi iproute2 rule (ip rule add)\n# e.g. sing-box.service\nRequires=place_holder.service\nAfter=place_holder.service\n\n[Service]\nType=oneshot\nRemainAfterExit=yes\n\nExecStartPre="@ + current_exe + " --url "@ + url + " \\\n            "@ + code_args_text(code) + "convert --output /tmp/.tsumugi_iproute2_rule_cache.db srs"@ + "\nExecStart=/bin/sh -ec \""@ + current_exe + " -f /tmp/.tsumugi_iproute2_rule_cache.db generate iproute2 route \\\n            --table "@ + table + " | "@ + ip_exe + " -batch -\"\n\nExecReload=/bin/sh -ec \"/bin/mv /tmp/.tsumugi_iproute2_rule_cache.db /tmp/.tsumugi_iproute2_rule_cache.db.bak; \\\n            "@ + current_exe + " --url "@ + url + " \\\n            "@ + code_args_text(code) + "convert --output /tmp/.tsumugi_iproute2_rule_cache.db srs"@).len(),
        ("[Unit]\nDescription=tsumugi iproute2 rule (ip rule add)\n# e.g. sing-box.service\nRequires=place_holder.service\nAfter=place_holder.service\n\n[Service]\nType=oneshot\nRemainAfterExit=yes\n\nExecStartPre="@ + current_exe + " --url "@ + url + " \\\n            "@ + code_args_text(code) + "convert --output /tmp/.tsumugi_iproute2_rule_cache.db srs"@ + "\nExecStart=/bin/sh -ec \""@ + current_exe + " -f /tmp/.tsumugi_iproute2_rule_cache.db generate iproute2 route \\\n            --table "@ + table + " | "@ + ip_exe + " -batch -\"\n\nExecReload=/bin/sh -ec \"/bin/mv /tmp/.tsumugi_iproute2_rule_cache.db /tmp/.tsumugi_iproute2_rule_cache.db.bak; \\\n            "@ + current_exe + " --url "@ + url + " \\\n            "@ + code_args_text(code) + "convert --output /tmp/.tsumugi_iproute2_rule_cache.db srs"@).len() <= iproute2_rule_unit(ip_exe, current_exe, url, code, table).len(),
{
    let u = iproute2_rule_unit(ip_exe, current_exe, url, code, table);
    let a = "[Unit]\nDescription=tsumugi iproute2 rule (ip rule add)\n# e.g. sing-box.service\nRequires=place_holder.service\nAfter=place_holder.service\n\n[Service]\nType=oneshot\nRemainAfterExit=yes\n\nExecStartPre="@ + current_exe + " --url "@ + url + " \\\n            "@ + code_args_text(code) + "convert --output /tmp/.tsumugi_iproute2_rule_cache.db srs"@ + "\nExecStart=/bin/sh -ec \""@ + current_exe + " -f /tmp/.tsumugi_iproute2_rule_cache.db generate iproute2 route \\\n            --table "@ + table + " | "@ + ip_exe + " -batch -\"\n\nExecReload=/bin/sh -ec \"/bin/mv /tmp/.tsumugi_iproute2_rule_cache.db /tmp/.tsumugi_iproute2_rule_cache.db.bak; \\\n            "@ + current_exe;
    let t = " --url "@ + url + " \\\n            "@ + code_args_text(code) + "convert --output /tmp/.tsumugi_iproute2_rule_cache.db srs"@;
    lemma_regroup(a, " --url "@, url, " \\\n            "@, code_args_text(code), "convert --output /tmp/.tsumugi_iproute2_rule_cache.db srs"@);
    let x = a + t;
    lemma_prefix_self(x);
    lemma_prefix_extend(x, x, "; \\\n            "@);
    let p20 = x + "; \\\n            "@;
    lemma_prefix_extend(x, p20, current_exe);
    let p21 = p20 + current_exe;
    lemma_prefix_extend(x, p21, " -f /tmp/.tsumugi_iproute2_rule_cache.db.bak generate iproute2 route \\\n            --delete --table "@);
    let p22 = p21 + " -f /tmp/.tsumugi_iproute2_rule_cache.db.bak generate iproute2 route \\\n            --delete --table "@;
    lemma_prefix_extend(x, p22, table);
    let p23 = p22 + table;
    lemma_prefix_extend(x, p23, " | "@);
    let p24 = p23 + " | "@;
    lemma_prefix_extend(x, p24, ip_exe);
    let p25 = p24 + ip_exe;
    lemma_prefix_extend(x, p25, " -batch -; \\\n            /bin/rm /tmp/.tsumugi_iproute2_rule_cache.db.bak; \\\n            "@);
    let p26 = p25 + " -batch -; \\\n            /bin/rm /tmp/.tsumugi_iproute2_rule_cache.db.bak; \\\n            "@;
    lemma_prefix_extend(x, p26, current_exe);
    let p27 = p26 + current_exe;
    lemma_prefix_extend(x, p27, " -f /tmp/.tsumugi_iproute2_rule_cache.db generate iproute2 route \\\n            --table "@);
    let p28 = p27 + " -f /tmp/.tsumugi_iproute2_rule_cache.db generate iproute2 route \\\n            --table "@;
    lemma_prefix_extend(x, p28, table);
    let p29 = p28 + table;
    lemma_prefix_extend(x, p29, " | "@);
    let p30 = p29 + " | "@;
    lemma_prefix_extend(x, p30, ip_exe);
    let p31 = p30 + ip_exe;
    lemma_prefix_extend(x, p31, " -batch -\"\n\nExecStop=/bin/sh -ec \""@);
    let p32 = p31 + " -batch -\"\n\nExecStop=/bin/sh -ec \""@;
    lemma_prefix_extend(x, p32, current_exe);
    let p33 = p32 + current_exe;
    lemma_prefix_extend(x, p33, " -f /tmp/.tsumugi_iproute2_rule_cache.db generate iproute2 route \\\n            --delete --table "@);
    let p34 = p33 + " -f /tmp/.tsumugi_iproute2_rule_cache.db generate iproute2 route \\\n            --delete --table "@;
    lemma_prefix_extend(x, p34, table);
    let p35 = p34 + table;
    lemma_prefix_extend(x, p35, " | "@);
    let p36 = p35 + " | "@;
    lemma_prefix_extend(x, p36, ip_exe);
    let p37 = p36 + ip_exe;
    lemma_prefix_extend(x, p37, " -batch -\"\nExecStop=/bin/rm -f /tmp/.tsumugi_iproute2_rule_cache.db\n\n[Install]\nWantedBy=multi-user.target\n"@);
    let p38 = p37 + " -batch -\"\nExecStop=/bin/rm -f /tmp/.tsumugi_iproute2_rule_cache.db\n\n[Install]\nWantedBy=multi-user.target\n"@;
    assert(p38 == u);
    lemma_occurs_after(u, a, t);
}

/// The routing policy rule unit converts the list from the URL with the country code given,
/// both when it starts and when it reloads: the text `t`, that is
/// ` --url <url> \`, then on the next line `--code <code> ` (nothing when no
/// code is given) and `convert --output <cache> srs`, occurs twice in the
/// unit, one occurrence after the other.
pub proof fn lemma_iproute2_rule_unit_converts_with_code(
    ip_exe: Seq<char>,
    current_exe: Seq<char>,
    url: Seq<char>,
    code: Seq<char>,
    table: Seq<char>,
    t: Seq<char>,
)
    requires
        code.len() > 0 ==> t == " --url "@ + url + " \\\n            "@ + "--code "@ + code + " "@ + "convert --output /tmp/.tsumugi_iproute2_rule_cache.db srs"@,
        code.len() == 0 ==> t == " --url "@ + url + " \\\n            "@ + "convert --output /tmp/.tsumugi_iproute2_rule_cache.db srs"@,
    ensures
        exists|i: int, j: int|
            i + t.len() <= j && #[trigger] occurs_at(iproute2_rule_unit(ip_exe, current_exe, url, code, table), t, i) && #[trigger] occurs_at(
                iproute2_rule_unit(ip_exe, current_exe, url, code, table),
                t,
                j,
            ),
{
    assert(t =~= " --url "@ + url + " \\\n            "@ + code_args_text(code) + "convert --output /tmp/.tsumugi_iproute2_rule_cache.db srs"@);
    lemma_iproute2_rule_unit_convert_0(ip_exe, current_exe, url, code, table);
    lemma_iproute2_rule_unit_convert_1(ip_exe, current_exe, url, code, table);
    let i = iproute2_rule_unit_convert_at_0(ip_exe, current_exe, url, code, table);
    let j = iproute2_rule_unit_convert_at_1(ip_exe, current_exe, url, code, table);
    assert(j >= ("[Unit]\nDescription=tsumugi iproute2 rule (ip rule add)\n# e.g. sing-box.service\nRequires=place_holder.service\nAfter=place_holder.service\n\n[Service]\nType=oneshot\nRemainAfterExit=yes\n\nExecStartPre="@ + current_exe + " --url "@ + url + " \\\n            "@ + code_args_text(code) + "convert --output /tmp/.tsumugi_iproute2_rule_cache.db srs"@).len()) by {
        assert(("[Unit]\nDescription=tsumugi iproute2 rule (ip rule add)\n# e.g. sing-box.service\nRequires=place_holder.service\nAfter=place_holder.service\n\n[Service]\nType=oneshot\nRemainAfterExit=yes\n\nExecStartPre="@ + current_exe + " --url "@ + url + " \\\n            "@ + code_args_text(code) + "convert --output /tmp/.tsumugi_iproute2_rule_cache.db srs"@ + "\nExecStart=/bin/sh -ec \""@ + current_exe + " -f /tmp/.tsumugi_iproute2_rule_cache.db generate iproute2 route \\\n            --table "@ + table + " | "@ + ip_exe + " -batch -\"\n\nExecReload=/bin/sh -ec \"/bin/mv /tmp/.tsumugi_iproute2_rule_cache.db /tmp/.tsumugi_iproute2_rule_cache.db.bak; \\\n            "@ + current_exe).len() >= ("[Unit]\nDescription=tsumugi iproute2 rule (ip rule add)\n# e.g. sing-box.service\nRequires=place_holder.service\nAfter=place_holder.service\n\n[Service]\nType=oneshot\nRemainAfterExit=yes\n\nExecStartPre="@ + current_exe + " --url "@ + url + " \\\n            "@ + code_args_text(code) + "convert --output /tmp/.tsumugi_iproute2_rule_cache.db srs"@).len());
    }
    assert(occurs_at(iproute2_rule_unit(ip_exe, current_exe, url, code, table), t, i));
    assert(occurs_at(iproute2_rule_unit(ip_exe, current_exe, url, code, table), t, j));
}

} // verus!
