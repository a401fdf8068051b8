//! Scripts built from the IPv4 and IPv6 blocks of a country: an nftables
//! script that fills two sets, and iproute2 batch scripts that add or delete
//! routing policy rules or routes.

use vstd::prelude::*;
use crate::address::{cidr_text, lemma_cidr_text_single_line, valid_cidr};
use crate::text::{
    lemma_line_count_append,
    lemma_single_line_append,
    lemma_single_line_count,
    line_count,
    single_line,
};
use vstd::seq_lib::lemma_flatten_concat;
use crate::error::Error;
use crate::geoip::{cidr_views, Cidr, CidrView};

verus! {

/// Every block has a 4- or 16-byte address.
pub open spec fn all_valid(s: Seq<CidrView>) -> bool {
    forall|i: int| 0 <= i < s.len() ==> valid_cidr(#[trigger] s[i])
}

/// The text forms of the blocks, separated by `sep`.
pub open spec fn joined(s: Seq<CidrView>, sep: Seq<char>) -> Seq<char>
    decreases s.len(),
{
    if s.len() == 0 {
        Seq::empty()
    } else if s.len() == 1 {
        cidr_text(s[0])
    } else {
        joined(s.drop_last(), sep) + sep + cidr_text(s.last())
    }
}

/// The part of the nftables script for one set: flush it, then add the blocks.
pub open spec fn nft_section(table: Seq<char>, set: Seq<char>, s: Seq<CidrView>) -> Seq<char> {
    "flush set inet "@ + table + " "@ + set + "\n"@ + if s.len() > 0 {
        "add element inet "@ + table + " "@ + set + " { "@ + joined(s, ", "@) + " }\n"@
    } else {
        "add element inet "@ + table + " "@ + set + " { }\n"@
    }
}

proof fn lemma_all_valid_take_next(s: Seq<CidrView>, i: int)
    requires
        0 <= i < s.len(),
        all_valid(s.take(i)),
        valid_cidr(s[i]),
    ensures
        all_valid(s.take(i + 1)),
{
    assert forall|k: int| 0 <= k < i + 1 implies valid_cidr(#[trigger] s.take(i + 1)[k]) by {
        if k < i {
            assert(s.take(i + 1)[k] == s.take(i)[k]);
        }
    }
}

/// The nftables script: the IPv4 set's part, then the IPv6 set's part.
pub open spec fn nftables_script(
    v4: Seq<CidrView>,
    v6: Seq<CidrView>,
    table: Seq<char>,
    ipv4set: Seq<char>,
    ipv6set: Seq<char>,
) -> Seq<char> {
    nft_section(table, ipv4set, v4) + nft_section(table, ipv6set, v6)
}

/// The verb of an iproute2 command: `delete` or `add`.
pub open spec fn action_word(delete: bool) -> Seq<char> {
    if delete {
        "delete"@
    } else {
        "add"@
    }
}

/// One line `<cmd><action> to <block> lookup <table>` per block.
pub open spec fn rule_lines(cmd: Seq<char>, action: Seq<char>, s: Seq<CidrView>, table: Seq<char>) -> Seq<char>
    decreases s.len(),
{
    if s.len() == 0 {
        Seq::empty()
    } else {
        rule_lines(cmd, action, s.drop_last(), table) + rule_line(
            cmd,
            action,
            cidr_text(s.last()),
            table,
        )
    }
}

/// `<cmd><action> to <block> lookup <table>` and a newline.
pub open spec fn rule_line(cmd: Seq<char>, action: Seq<char>, block: Seq<char>, table: Seq<char>) -> Seq<
    char,
> {
    cmd + action + " to "@ + block + " lookup "@ + table + "\n"@
}

/// The routing policy rule script: `ip rule` lines for the IPv4 blocks, then
/// `ip -6 rule` lines for the IPv6 blocks.
pub open spec fn iproute2_rule_script(
    v4: Seq<CidrView>,
    v6: Seq<CidrView>,
    delete: bool,
    table: Seq<char>,
) -> Seq<char> {
    rule_lines("ip rule "@, action_word(delete), v4, table) + rule_lines(
        "ip -6 rule "@,
        action_word(delete),
        v6,
        table,
    )
}

/// One line `<cmd><action> table <table> <block> via <gateway> dev <dev>` per
/// block.
pub open spec fn route_lines(
    cmd: Seq<char>,
    action: Seq<char>,
    table: Seq<char>,
    s: Seq<CidrView>,
    gateway: Seq<char>,
    dev: Seq<char>,
) -> Seq<char>
    decreases s.len(),
{
    if s.len() == 0 {
        Seq::empty()
    } else {
        route_lines(cmd, action, table, s.drop_last(), gateway, dev) + route_line(
            cmd,
            action,
            table,
            cidr_text(s.last()),
            gateway,
            dev,
        )
    }
}

/// `<cmd><action> table <table> <block> via <gateway> dev <dev>` and a newline.
pub open spec fn route_line(
    cmd: Seq<char>,
    action: Seq<char>,
    table: Seq<char>,
    block: Seq<char>,
    gateway: Seq<char>,
    dev: Seq<char>,
) -> Seq<char> {
    cmd + action + " table "@ + table + " "@ + block + " via "@ + gateway + " dev "@ + dev + "\n"@
}

/// The route script: `ip route` lines through the IPv4 gateway, then
/// `ip -6 route` lines through the IPv6 gateway.
pub open spec fn iproute2_route_script(
    v4: Seq<CidrView>,
    v6: Seq<CidrView>,
    delete: bool,
    table: Seq<char>,
    ipv4_gateway: Seq<char>,
    ipv6_gateway: Seq<char>,
    dev: Seq<char>,
) -> Seq<char> {
    route_lines("ip route "@, action_word(delete), table, v4, ipv4_gateway, dev) + route_lines(
        "ip -6 route "@,
        action_word(delete),
        table,
        v6,
        ipv6_gateway,
        dev,
    )
}

fn action(delete: bool) -> (a: &'static str)
    ensures
        a@ == action_word(delete),
{
    if delete {
        "delete"
    } else {
        "add"
    }
}

/// Appends the nftables part for one set.
fn push_nft_section(out: &mut String, table: &str, set: &str, elems: &Vec<Cidr>) -> (r: Result<(), Error>)
    ensures
        match r {
            Ok(()) => all_valid(cidr_views(elems@)) && final(out)@ == old(out)@ + nft_section(
                table@,
                set@,
                cidr_views(elems@),
            ),
            Err(e) => !all_valid(cidr_views(elems@)) && e == Error::InvalidIpLength,
        },
{
    let ghost s = cidr_views(elems@);
    out.append("flush set inet ");
    out.append(table);
    out.append(" ");
    out.append(set);
    out.append("\n");
    let ghost head = out@;
    out.append("add element inet ");
    out.append(table);
    out.append(" ");
    out.append(set);
    let n = elems.len();
    if n == 0 {
        out.append(" { }\n");
        assert(out@ =~= old(out)@ + nft_section(table@, set@, s));
        return Ok(());
    }
    out.append(" { ");
    let ghost opened = out@;
    for i in 0..n
        invariant
            n == elems@.len(),
            n > 0,
            s == cidr_views(elems@),
            out@ == opened + joined(s.take(i as int), ", "@),
            all_valid(s.take(i as int)),
    {
        match elems[i].to_string() {
            Ok(t) => {
                if i > 0 {
                    out.append(", ");
                }
                out.append(t.as_str());
                assert(s.take(i + 1).drop_last() =~= s.take(i as int));
                assert(s.take(i + 1).last() == elems@[i as int]@);
                assert(out@ =~= opened + joined(s.take(i + 1), ", "@));
                proof {
                    lemma_all_valid_take_next(s, i as int);
                }
            },
            Err(e) => {
                assert(!valid_cidr(s[i as int]));
                return Err(e);
            },
        }
    }
    out.append(" }\n");
    assert(s.take(n as int) =~= s);
    assert(out@ =~= old(out)@ + nft_section(table@, set@, s));
    Ok(())
}

/// The nftables script that flushes `table`'s sets `ipv4set` and `ipv6set`
/// and adds the IPv4 and IPv6 blocks to them.
///
/// Fails with [`Error::InvalidIpLength`] exactly when some block, in either
/// list, has an address that is neither 4 nor 16 bytes long.
pub fn nftables(cidr_pair: (Vec<Cidr>, Vec<Cidr>), table: &str, ipv4set: &str, ipv6set: &str) -> (r:
    Result<String, Error>)
    ensures
        match r {
            Ok(script) => {
                &&& all_valid(cidr_views(cidr_pair.0@))
                &&& all_valid(cidr_views(cidr_pair.1@))
                &&& script@ == nftables_script(
                    cidr_views(cidr_pair.0@),
                    cidr_views(cidr_pair.1@),
                    table@,
                    ipv4set@,
                    ipv6set@,
                )
            },
            Err(e) => {
                &&& !(all_valid(cidr_views(cidr_pair.0@)) && all_valid(cidr_views(cidr_pair.1@)))
                &&& e == Error::InvalidIpLength
            },
        },
{
    let (ipv4_cidrs, ipv6_cidrs) = cidr_pair;
    let mut script = String::new();
    push_nft_section(&mut script, table, ipv4set, &ipv4_cidrs)?;
    push_nft_section(&mut script, table, ipv6set, &ipv6_cidrs)?;
    assert(script@ =~= nftables_script(
        cidr_views(ipv4_cidrs@),
        cidr_views(ipv6_cidrs@),
        table@,
        ipv4set@,
        ipv6set@,
    ));
    Ok(script)
}

/// Appends one routing policy rule line per block.
fn push_rule_lines(out: &mut String, cmd: &str, action: &str, elems: &Vec<Cidr>, table: &str) -> (r:
    Result<(), Error>)
    ensures
        match r {
            Ok(()) => all_valid(cidr_views(elems@)) && final(out)@ == old(out)@ + rule_lines(
                cmd@,
                action@,
                cidr_views(elems@),
                table@,
            ),
            Err(e) => !all_valid(cidr_views(elems@)) && e == Error::InvalidIpLength,
        },
{
    let ghost s = cidr_views(elems@);
    let n = elems.len();
    for i in 0..n
        invariant
            n == elems@.len(),
            s == cidr_views(elems@),
            out@ == old(out)@ + rule_lines(cmd@, action@, s.take(i as int), table@),
            all_valid(s.take(i as int)),
    {
        match elems[i].to_string() {
            Ok(t) => {
                let mut line = String::new();
                line.append(cmd);
                line.append(action);
                line.append(" to ");
                line.append(t.as_str());
                line.append(" lookup ");
                line.append(table);
                line.append("\n");
                assert(line@ =~= rule_line(cmd@, action@, t@, table@));
                out.append(line.as_str());
                assert(s.take(i + 1).drop_last() =~= s.take(i as int));
                assert(s.take(i + 1).last() == elems@[i as int]@);
                assert(out@ =~= old(out)@ + rule_lines(cmd@, action@, s.take(i + 1), table@));
                proof {
                    lemma_all_valid_take_next(s, i as int);
                }
            },
            Err(e) => {
                assert(!valid_cidr(s[i as int]));
                return Err(e);
            },
        }
    }
    assert(s.take(n as int) =~= s);
    Ok(())
}

/// Appends one route line per block.
fn push_route_lines(
    out: &mut String,
    cmd: &str,
    action: &str,
    table: &str,
    elems: &Vec<Cidr>,
    gateway: &str,
    dev: &str,
) -> (r: Result<(), Error>)
    ensures
        match r {
            Ok(()) => all_valid(cidr_views(elems@)) && final(out)@ == old(out)@ + route_lines(
                cmd@,
                action@,
                table@,
                cidr_views(elems@),
                gateway@,
                dev@,
            ),
            Err(e) => !all_valid(cidr_views(elems@)) && e == Error::InvalidIpLength,
        },
{
    let ghost s = cidr_views(elems@);
    let n = elems.len();
    for i in 0..n
        invariant
            n == elems@.len(),
            s == cidr_views(elems@),
            out@ == old(out)@ + route_lines(cmd@, action@, table@, s.take(i as int), gateway@, dev@),
            all_valid(s.take(i as int)),
    {
        match elems[i].to_string() {
            Ok(t) => {
                let mut line = String::new();
                line.append(cmd);
                line.append(action);
                line.append(" table ");
                line.append(table);
                line.append(" ");
                line.append(t.as_str());
                line.append(" via ");
                line.append(gateway);
                line.append(" dev ");
                line.append(dev);
                line.append("\n");
                assert(line@ =~= route_line(cmd@, action@, table@, t@, gateway@, dev@));
                out.append(line.as_str());
                assert(s.take(i + 1).drop_last() =~= s.take(i as int));
                assert(s.take(i + 1).last() == elems@[i as int]@);
                assert(out@ =~= old(out)@ + route_lines(
                    cmd@,
                    action@,
                    table@,
                    s.take(i + 1),
                    gateway@,
                    dev@,
                ));
                proof {
                    lemma_all_valid_take_next(s, i as int);
                }
            },
            Err(e) => {
                assert(!valid_cidr(s[i as int]));
                return Err(e);
            },
        }
    }
    assert(s.take(n as int) =~= s);
    Ok(())
}

/// The iproute2 batch script that adds (or, with `delete`, deletes) one
/// routing policy rule per block, sending its traffic to `table`.
///
/// Fails with [`Error::InvalidIpLength`] exactly when some block, in either
/// list, has an address that is neither 4 nor 16 bytes long.
pub fn iproute2rule(cidr_pair: (Vec<Cidr>, Vec<Cidr>), delete: bool, table: &str) -> (r: Result<
    String,
    Error,
>)
    ensures
        match r {
            Ok(script) => {
                &&& all_valid(cidr_views(cidr_pair.0@))
                &&& all_valid(cidr_views(cidr_pair.1@))
                &&& script@ == iproute2_rule_script(
                    cidr_views(cidr_pair.0@),
                    cidr_views(cidr_pair.1@),
                    delete,
                    table@,
                )
            },
            Err(e) => {
                &&& !(all_valid(cidr_views(cidr_pair.0@)) && all_valid(cidr_views(cidr_pair.1@)))
                &&& e == Error::InvalidIpLength
            },
        },
{
    let (ipv4_cidrs, ipv6_cidrs) = cidr_pair;
    let mut script = String::new();
    let action = action(delete);
    push_rule_lines(&mut script, "ip rule ", action, &ipv4_cidrs, table)?;
    push_rule_lines(&mut script, "ip -6 rule ", action, &ipv6_cidrs, table)?;
    assert(script@ =~= iproute2_rule_script(
        cidr_views(ipv4_cidrs@),
        cidr_views(ipv6_cidrs@),
        delete,
        table@,
    ));
    Ok(script)
}

/// The iproute2 batch script that adds (or, with `delete`, deletes) one route
/// per block in `table`: IPv4 blocks via `ipv4_gateway`, IPv6 blocks via
/// `ipv6_gateway`, both on device `dev`.
///
/// Fails with [`Error::InvalidIpLength`] exactly when some block, in either
/// list, has an address that is neither 4 nor 16 bytes long.
pub fn iproute2route(
    cidr_pair: (Vec<Cidr>, Vec<Cidr>),
    delete: bool,
    table: &str,
    ipv4_gateway: &str,
    ipv6_gateway: &str,
    dev: &str,
) -> (r: Result<String, Error>)
    ensures
        match r {
            Ok(script) => {
                &&& all_valid(cidr_views(cidr_pair.0@))
                &&& all_valid(cidr_views(cidr_pair.1@))
                &&& script@ == iproute2_route_script(
                    cidr_views(cidr_pair.0@),
                    cidr_views(cidr_pair.1@),
                    delete,
                    table@,
                    ipv4_gateway@,
                    ipv6_gateway@,
                    dev@,
                )
            },
            Err(e) => {
                &&& !(all_valid(cidr_views(cidr_pair.0@)) && all_valid(cidr_views(cidr_pair.1@)))
                &&& e == Error::InvalidIpLength
            },
        },
{
    let (ipv4_cidrs, ipv6_cidrs) = cidr_pair;
    let mut script = String::new();
    let action = action(delete);
    push_route_lines(&mut script, "ip route ", action, table, &ipv4_cidrs, ipv4_gateway, dev)?;
    push_route_lines(&mut script, "ip -6 route ", action, table, &ipv6_cidrs, ipv6_gateway, dev)?;
    assert(script@ =~= iproute2_route_script(
        cidr_views(ipv4_cidrs@),
        cidr_views(ipv6_cidrs@),
        delete,
        table@,
        ipv4_gateway@,
        ipv6_gateway@,
        dev@,
    ));
    Ok(script)
}


/// The rule lines of two lists of blocks, one after the other, are the rule
/// lines of the joined list: a rule script has one line per block, in order.
pub proof fn lemma_rule_lines_append(
    cmd: Seq<char>,
    action: Seq<char>,
    a: Seq<CidrView>,
    b: Seq<CidrView>,
    table: Seq<char>,
)
    ensures
        rule_lines(cmd, action, a + b, table) == rule_lines(cmd, action, a, table) + rule_lines(
            cmd,
            action,
            b,
            table,
        ),
    decreases b.len(),
{
    if b.len() == 0 {
        assert(a + b =~= a);
        assert(rule_lines(cmd, action, a, table) + Seq::<char>::empty() =~= rule_lines(
            cmd,
            action,
            a,
            table,
        ));
    } else {
        lemma_rule_lines_append(cmd, action, a, b.drop_last(), table);
        assert((a + b).drop_last() =~= a + b.drop_last());
        assert((a + b).last() == b.last());
        assert(rule_lines(cmd, action, a + b, table) =~= rule_lines(cmd, action, a, table)
            + rule_lines(cmd, action, b, table));
    }
}

/// The route lines of two lists of blocks, one after the other, are the route
/// lines of the joined list: a route script has one line per block, in order.
pub proof fn lemma_route_lines_append(
    cmd: Seq<char>,
    action: Seq<char>,
    table: Seq<char>,
    a: Seq<CidrView>,
    b: Seq<CidrView>,
    gateway: Seq<char>,
    dev: Seq<char>,
)
    ensures
        route_lines(cmd, action, table, a + b, gateway, dev) == route_lines(
            cmd,
            action,
            table,
            a,
            gateway,
            dev,
        ) + route_lines(cmd, action, table, b, gateway, dev),
    decreases b.len(),
{
    if b.len() == 0 {
        assert(a + b =~= a);
        assert(route_lines(cmd, action, table, a, gateway, dev) + Seq::<char>::empty()
            =~= route_lines(cmd, action, table, a, gateway, dev));
    } else {
        lemma_route_lines_append(cmd, action, table, a, b.drop_last(), gateway, dev);
        assert((a + b).drop_last() =~= a + b.drop_last());
        assert((a + b).last() == b.last());
        assert(route_lines(cmd, action, table, a + b, gateway, dev) =~= route_lines(
            cmd,
            action,
            table,
            a,
            gateway,
            dev,
        ) + route_lines(cmd, action, table, b, gateway, dev));
    }
}


proof fn lemma_line_then_newline(p: Seq<char>)
    requires
        single_line(p),
    ensures
        line_count(p + "\n"@) == 1,
{
    reveal_strlit("\n");
    assert("\n"@ =~= seq!['\n']);
    assert(seq!['\n'].drop_last() =~= Seq::<char>::empty());
    assert(line_count(Seq::<char>::empty()) == 0);
    assert(line_count(seq!['\n']) == 1);
    lemma_single_line_count(p);
    lemma_line_count_append(p, "\n"@);
}

proof fn lemma_rule_line_count(cmd: Seq<char>, action: Seq<char>, block: Seq<char>, table: Seq<char>)
    requires
        single_line(cmd),
        single_line(action),
        single_line(block),
        single_line(table),
    ensures
        line_count(rule_line(cmd, action, block, table)) == 1,
{
    reveal_strlit(" to ");
    reveal_strlit(" lookup ");
    lemma_single_line_append(cmd, action);
    lemma_single_line_append(cmd + action, " to "@);
    lemma_single_line_append(cmd + action + " to "@, block);
    lemma_single_line_append(cmd + action + " to "@ + block, " lookup "@);
    lemma_single_line_append(cmd + action + " to "@ + block + " lookup "@, table);
    lemma_line_then_newline(cmd + action + " to "@ + block + " lookup "@ + table);
}

proof fn lemma_route_line_count(
    cmd: Seq<char>,
    action: Seq<char>,
    table: Seq<char>,
    block: Seq<char>,
    gateway: Seq<char>,
    dev: Seq<char>,
)
    requires
        single_line(cmd),
        single_line(action),
        single_line(table),
        single_line(block),
        single_line(gateway),
        single_line(dev),
    ensures
        line_count(route_line(cmd, action, table, block, gateway, dev)) == 1,
{
    reveal_strlit(" table ");
    reveal_strlit(" ");
    reveal_strlit(" via ");
    reveal_strlit(" dev ");
    let p1 = cmd + action;
    lemma_single_line_append(cmd, action);
    let p2 = p1 + " table "@;
    lemma_single_line_append(p1, " table "@);
    let p3 = p2 + table;
    lemma_single_line_append(p2, table);
    let p4 = p3 + " "@;
    lemma_single_line_append(p3, " "@);
    let p5 = p4 + block;
    lemma_single_line_append(p4, block);
    let p6 = p5 + " via "@;
    lemma_single_line_append(p5, " via "@);
    let p7 = p6 + gateway;
    lemma_single_line_append(p6, gateway);
    let p8 = p7 + " dev "@;
    lemma_single_line_append(p7, " dev "@);
    let p9 = p8 + dev;
    lemma_single_line_append(p8, dev);
    lemma_line_then_newline(p9);
}

proof fn lemma_action_single_line(delete: bool)
    ensures
        single_line(action_word(delete)),
{
    reveal_strlit("delete");
    reveal_strlit("add");
}

/// With single-line command, action and table, a rule list has one line per
/// block.
proof fn lemma_rule_lines_count(cmd: Seq<char>, action: Seq<char>, s: Seq<CidrView>, table: Seq<char>)
    requires
        single_line(cmd),
        single_line(action),
        single_line(table),
    ensures
        line_count(rule_lines(cmd, action, s, table)) == s.len(),
    decreases s.len(),
{
    if s.len() > 0 {
        lemma_rule_lines_count(cmd, action, s.drop_last(), table);
        lemma_cidr_text_single_line(s.last());
        lemma_rule_line_count(cmd, action, cidr_text(s.last()), table);
        lemma_line_count_append(
            rule_lines(cmd, action, s.drop_last(), table),
            rule_line(cmd, action, cidr_text(s.last()), table),
        );
    }
}

/// With single-line command, action, table, gateway and device, a route
/// list has one line per block.
proof fn lemma_route_lines_count(
    cmd: Seq<char>,
    action: Seq<char>,
    table: Seq<char>,
    s: Seq<CidrView>,
    gateway: Seq<char>,
    dev: Seq<char>,
)
    requires
        single_line(cmd),
        single_line(action),
        single_line(table),
        single_line(gateway),
        single_line(dev),
    ensures
        line_count(route_lines(cmd, action, table, s, gateway, dev)) == s.len(),
    decreases s.len(),
{
    if s.len() > 0 {
        lemma_route_lines_count(cmd, action, table, s.drop_last(), gateway, dev);
        lemma_cidr_text_single_line(s.last());
        lemma_route_line_count(cmd, action, table, cidr_text(s.last()), gateway, dev);
        lemma_line_count_append(
            route_lines(cmd, action, table, s.drop_last(), gateway, dev),
            route_line(cmd, action, table, cidr_text(s.last()), gateway, dev),
        );
    }
}

/// A routing policy rule script has one line per block, when the table name
/// is a single line.
pub proof fn lemma_rule_script_lines(v4: Seq<CidrView>, v6: Seq<CidrView>, delete: bool, table: Seq<char>)
    requires
        single_line(table),
    ensures
        line_count(iproute2_rule_script(v4, v6, delete, table)) == v4.len() + v6.len(),
{
    reveal_strlit("ip rule ");
    reveal_strlit("ip -6 rule ");
    lemma_action_single_line(delete);
    lemma_rule_lines_count("ip rule "@, action_word(delete), v4, table);
    lemma_rule_lines_count("ip -6 rule "@, action_word(delete), v6, table);
    lemma_line_count_append(
        rule_lines("ip rule "@, action_word(delete), v4, table),
        rule_lines("ip -6 rule "@, action_word(delete), v6, table),
    );
}

/// A route script has one line per block, when the table name, the gateways
/// and the device are single lines.
pub proof fn lemma_route_script_lines(
    v4: Seq<CidrView>,
    v6: Seq<CidrView>,
    delete: bool,
    table: Seq<char>,
    ipv4_gateway: Seq<char>,
    ipv6_gateway: Seq<char>,
    dev: Seq<char>,
)
    requires
        single_line(table),
        single_line(ipv4_gateway),
        single_line(ipv6_gateway),
        single_line(dev),
    ensures
        line_count(
            iproute2_route_script(v4, v6, delete, table, ipv4_gateway, ipv6_gateway, dev),
        ) == v4.len() + v6.len(),
{
    reveal_strlit("ip route ");
    reveal_strlit("ip -6 route ");
    lemma_action_single_line(delete);
    lemma_route_lines_count("ip route "@, action_word(delete), table, v4, ipv4_gateway, dev);
    lemma_route_lines_count("ip -6 route "@, action_word(delete), table, v6, ipv6_gateway, dev);
    lemma_line_count_append(
        route_lines("ip route "@, action_word(delete), table, v4, ipv4_gateway, dev),
        route_lines("ip -6 route "@, action_word(delete), table, v6, ipv6_gateway, dev),
    );
}


proof fn lemma_joined_single_line(s: Seq<CidrView>, sep: Seq<char>)
    requires
        single_line(sep),
    ensures
        single_line(joined(s, sep)),
    decreases s.len(),
{
    if s.len() == 1 {
        lemma_cidr_text_single_line(s[0]);
    } else if s.len() > 1 {
        lemma_joined_single_line(s.drop_last(), sep);
        lemma_cidr_text_single_line(s.last());
        lemma_single_line_append(joined(s.drop_last(), sep), sep);
        lemma_single_line_append(joined(s.drop_last(), sep) + sep, cidr_text(s.last()));
    }
}

proof fn lemma_nft_section_lines(table: Seq<char>, set: Seq<char>, s: Seq<CidrView>)
    requires
        single_line(table),
        single_line(set),
    ensures
        line_count(nft_section(table, set, s)) == 2,
{
    reveal_strlit("flush set inet ");
    reveal_strlit(" ");
    reveal_strlit("add element inet ");
    reveal_strlit(" { ");
    reveal_strlit(", ");
    reveal_strlit(" }\n");
    reveal_strlit(" { }\n");
    reveal_strlit("\n");
    let f1 = "flush set inet "@ + table;
    lemma_single_line_append("flush set inet "@, table);
    let f2 = f1 + " "@;
    lemma_single_line_append(f1, " "@);
    let f3 = f2 + set;
    lemma_single_line_append(f2, set);
    lemma_line_then_newline(f3);
    let a1 = "add element inet "@ + table;
    lemma_single_line_append("add element inet "@, table);
    let a2 = a1 + " "@;
    lemma_single_line_append(a1, " "@);
    let a3 = a2 + set;
    lemma_single_line_append(a2, set);
    let tail = if s.len() > 0 {
        a3 + " { "@ + joined(s, ", "@) + " }\n"@
    } else {
        a3 + " { }\n"@
    };
    if s.len() > 0 {
        let a4 = a3 + " { "@;
        lemma_single_line_append(a3, " { "@);
        lemma_joined_single_line(s, ", "@);
        let a5 = a4 + joined(s, ", "@);
        lemma_single_line_append(a4, joined(s, ", "@));
        assert(" }\n"@ =~= seq![' ', '}'] + "\n"@);
        lemma_single_line_append(a5, seq![' ', '}']);
        lemma_line_then_newline(a5 + seq![' ', '}']);
        assert(a5 + " }\n"@ =~= a5 + seq![' ', '}'] + "\n"@);
    } else {
        assert(" { }\n"@ =~= seq![' ', '{', ' ', '}'] + "\n"@);
        lemma_single_line_append(a3, seq![' ', '{', ' ', '}']);
        lemma_line_then_newline(a3 + seq![' ', '{', ' ', '}']);
        assert(a3 + " { }\n"@ =~= a3 + seq![' ', '{', ' ', '}'] + "\n"@);
    }
    lemma_line_count_append(f3 + "\n"@, tail);
    assert(nft_section(table, set, s) == f3 + "\n"@ + tail);
}

/// An nftables script has four lines, a flush and an add for each set, when
/// the table and set names are single lines.
pub proof fn lemma_nftables_script_lines(
    v4: Seq<CidrView>,
    v6: Seq<CidrView>,
    table: Seq<char>,
    ipv4set: Seq<char>,
    ipv6set: Seq<char>,
)
    requires
        single_line(table),
        single_line(ipv4set),
        single_line(ipv6set),
    ensures
        line_count(nftables_script(v4, v6, table, ipv4set, ipv6set)) == 4,
{
    lemma_nft_section_lines(table, ipv4set, v4);
    lemma_nft_section_lines(table, ipv6set, v6);
    lemma_line_count_append(nft_section(table, ipv4set, v4), nft_section(table, ipv6set, v6));
}


/// The part of a rule line after its verb: ` to <block> lookup <table>` and a
/// newline.
pub open spec fn rule_line_tail(block: Seq<char>, table: Seq<char>) -> Seq<char> {
    " to "@ + block + " lookup "@ + table + "\n"@
}

/// The part of a route line after its verb:
/// ` table <table> <block> via <gateway> dev <dev>` and a newline.
pub open spec fn route_line_tail(
    table: Seq<char>,
    block: Seq<char>,
    gateway: Seq<char>,
    dev: Seq<char>,
) -> Seq<char> {
    " table "@ + table + " "@ + block + " via "@ + gateway + " dev "@ + dev + "\n"@
}

/// The lines of a rule list, one per block.
pub open spec fn rule_line_seq(cmd: Seq<char>, action: Seq<char>, s: Seq<CidrView>, table: Seq<char>) -> Seq<
    Seq<char>,
> {
    s.map_values(|c: CidrView| rule_line(cmd, action, cidr_text(c), table))
}

/// The lines of a route list, one per block.
pub open spec fn route_line_seq(
    cmd: Seq<char>,
    action: Seq<char>,
    table: Seq<char>,
    s: Seq<CidrView>,
    gateway: Seq<char>,
    dev: Seq<char>,
) -> Seq<Seq<char>> {
    s.map_values(|c: CidrView| route_line(cmd, action, table, cidr_text(c), gateway, dev))
}

/// The lines of a routing policy rule script: the IPv4 lines, then the IPv6
/// lines.
pub open spec fn rule_script_lines(v4: Seq<CidrView>, v6: Seq<CidrView>, delete: bool, table: Seq<char>) -> Seq<
    Seq<char>,
> {
    rule_line_seq("ip rule "@, action_word(delete), v4, table) + rule_line_seq(
        "ip -6 rule "@,
        action_word(delete),
        v6,
        table,
    )
}

/// The lines of a route script: the IPv4 lines, then the IPv6 lines.
pub open spec fn route_script_lines(
    v4: Seq<CidrView>,
    v6: Seq<CidrView>,
    delete: bool,
    table: Seq<char>,
    ipv4_gateway: Seq<char>,
    ipv6_gateway: Seq<char>,
    dev: Seq<char>,
) -> Seq<Seq<char>> {
    route_line_seq("ip route "@, action_word(delete), table, v4, ipv4_gateway, dev)
        + route_line_seq("ip -6 route "@, action_word(delete), table, v6, ipv6_gateway, dev)
}

/// The block of the `i`-th line of a script: IPv4 blocks first, then IPv6.
pub open spec fn script_block(v4: Seq<CidrView>, v6: Seq<CidrView>, i: int) -> CidrView {
    if i < v4.len() {
        v4[i]
    } else {
        v6[i - v4.len()]
    }
}

proof fn lemma_rule_lines_flatten(cmd: Seq<char>, action: Seq<char>, s: Seq<CidrView>, table: Seq<char>)
    ensures
        rule_lines(cmd, action, s, table) == rule_line_seq(cmd, action, s, table).flatten(),
    decreases s.len(),
{
    if s.len() > 0 {
        lemma_rule_lines_flatten(cmd, action, s.drop_last(), table);
        let line = rule_line(cmd, action, cidr_text(s.last()), table);
        assert(rule_line_seq(cmd, action, s, table) =~= rule_line_seq(
            cmd,
            action,
            s.drop_last(),
            table,
        ).push(line));
        rule_line_seq(cmd, action, s.drop_last(), table).lemma_flatten_push(line);
    } else {
        assert(rule_line_seq(cmd, action, s, table) =~= Seq::<Seq<char>>::empty());
    }
}

proof fn lemma_route_lines_flatten(
    cmd: Seq<char>,
    action: Seq<char>,
    table: Seq<char>,
    s: Seq<CidrView>,
    gateway: Seq<char>,
    dev: Seq<char>,
)
    ensures
        route_lines(cmd, action, table, s, gateway, dev) == route_line_seq(
            cmd,
            action,
            table,
            s,
            gateway,
            dev,
        ).flatten(),
    decreases s.len(),
{
    if s.len() > 0 {
        lemma_route_lines_flatten(cmd, action, table, s.drop_last(), gateway, dev);
        let line = route_line(cmd, action, table, cidr_text(s.last()), gateway, dev);
        assert(route_line_seq(cmd, action, table, s, gateway, dev) =~= route_line_seq(
            cmd,
            action,
            table,
            s.drop_last(),
            gateway,
            dev,
        ).push(line));
        route_line_seq(cmd, action, table, s.drop_last(), gateway, dev).lemma_flatten_push(line);
    } else {
        assert(route_line_seq(cmd, action, table, s, gateway, dev) =~= Seq::<Seq<char>>::empty());
    }
}

/// A delete rule script mirrors the add rule script for the same blocks: both
/// are their lines one after the other, they have one line per block, and the
/// `i`-th line of each is `ip rule ` (`ip -6 rule ` for an IPv6 block), the
/// verb `add` or `delete`, and the same rest of the line.
pub proof fn lemma_rule_delete_mirrors_add(v4: Seq<CidrView>, v6: Seq<CidrView>, table: Seq<char>)
    ensures
        iproute2_rule_script(v4, v6, false, table) == rule_script_lines(
            v4,
            v6,
            false,
            table,
        ).flatten(),
        iproute2_rule_script(v4, v6, true, table) == rule_script_lines(v4, v6, true, table).flatten(),
        rule_script_lines(v4, v6, false, table).len() == v4.len() + v6.len(),
        rule_script_lines(v4, v6, true, table).len() == v4.len() + v6.len(),
        forall|i: int|
            0 <= i < v4.len() + v6.len() ==> {
                let cmd = if i < v4.len() {
                    "ip rule "@
                } else {
                    "ip -6 rule "@
                };
                let tail = rule_line_tail(cidr_text(script_block(v4, v6, i)), table);
                &&& #[trigger] rule_script_lines(v4, v6, false, table)[i] == cmd + "add"@ + tail
                &&& rule_script_lines(v4, v6, true, table)[i] == cmd + "delete"@ + tail
            },
{
    reveal_strlit("add");
    reveal_strlit("delete");
    assert(action_word(false) == "add"@);
    assert(action_word(true) == "delete"@);
    lemma_rule_lines_flatten("ip rule "@, "add"@, v4, table);
    lemma_rule_lines_flatten("ip -6 rule "@, "add"@, v6, table);
    lemma_rule_lines_flatten("ip rule "@, "delete"@, v4, table);
    lemma_rule_lines_flatten("ip -6 rule "@, "delete"@, v6, table);
    lemma_flatten_concat(
        rule_line_seq("ip rule "@, "add"@, v4, table),
        rule_line_seq("ip -6 rule "@, "add"@, v6, table),
    );
    lemma_flatten_concat(
        rule_line_seq("ip rule "@, "delete"@, v4, table),
        rule_line_seq("ip -6 rule "@, "delete"@, v6, table),
    );
    assert forall|i: int| 0 <= i < v4.len() + v6.len() implies {
        let cmd = if i < v4.len() {
            "ip rule "@
        } else {
            "ip -6 rule "@
        };
        let tail = rule_line_tail(cidr_text(script_block(v4, v6, i)), table);
        &&& #[trigger] rule_script_lines(v4, v6, false, table)[i] == cmd + "add"@ + tail
        &&& rule_script_lines(v4, v6, true, table)[i] == cmd + "delete"@ + tail
    } by {
        let cmd = if i < v4.len() {
            "ip rule "@
        } else {
            "ip -6 rule "@
        };
        let block = cidr_text(script_block(v4, v6, i));
        let tail = rule_line_tail(block, table);
        assert(rule_line(cmd, "add"@, block, table) =~= cmd + "add"@ + tail);
        assert(rule_line(cmd, "delete"@, block, table) =~= cmd + "delete"@ + tail);
        assert(rule_script_lines(v4, v6, false, table)[i] == rule_line(cmd, "add"@, block, table));
        assert(rule_script_lines(v4, v6, true, table)[i] == rule_line(cmd, "delete"@, block, table));
    }
}

/// A delete route script mirrors the add route script for the same blocks:
/// both are their lines one after the other, they have one line per block,
/// and the `i`-th line of each is `ip route ` (`ip -6 route ` for an IPv6
/// block), the verb `add` or `delete`, and the same rest of the line.
pub proof fn lemma_route_delete_mirrors_add(
    v4: Seq<CidrView>,
    v6: Seq<CidrView>,
    table: Seq<char>,
    ipv4_gateway: Seq<char>,
    ipv6_gateway: Seq<char>,
    dev: Seq<char>,
)
    ensures
        iproute2_route_script(v4, v6, false, table, ipv4_gateway, ipv6_gateway, dev)
            == route_script_lines(v4, v6, false, table, ipv4_gateway, ipv6_gateway, dev).flatten(),
        iproute2_route_script(v4, v6, true, table, ipv4_gateway, ipv6_gateway, dev)
            == route_script_lines(v4, v6, true, table, ipv4_gateway, ipv6_gateway, dev).flatten(),
        route_script_lines(v4, v6, false, table, ipv4_gateway, ipv6_gateway, dev).len() == v4.len()
            + v6.len(),
        route_script_lines(v4, v6, true, table, ipv4_gateway, ipv6_gateway, dev).len() == v4.len()
            + v6.len(),
        forall|i: int|
            0 <= i < v4.len() + v6.len() ==> {
                let cmd = if i < v4.len() {
                    "ip route "@
                } else {
                    "ip -6 route "@
                };
                let gateway = if i < v4.len() {
                    ipv4_gateway
                } else {
                    ipv6_gateway
                };
                let tail = route_line_tail(table, cidr_text(script_block(v4, v6, i)), gateway, dev);
                &&& #[trigger] route_script_lines(
                    v4,
                    v6,
                    false,
                    table,
                    ipv4_gateway,
                    ipv6_gateway,
                    dev,
                )[i] == cmd + "add"@ + tail
                &&& route_script_lines(v4, v6, true, table, ipv4_gateway, ipv6_gateway, dev)[i]
                    == cmd + "delete"@ + tail
            },
{
    reveal_strlit("add");
    reveal_strlit("delete");
    assert(action_word(false) == "add"@);
    assert(action_word(true) == "delete"@);
    lemma_route_lines_flatten("ip route "@, "add"@, table, v4, ipv4_gateway, dev);
    lemma_route_lines_flatten("ip -6 route "@, "add"@, table, v6, ipv6_gateway, dev);
    lemma_route_lines_flatten("ip route "@, "delete"@, table, v4, ipv4_gateway, dev);
    lemma_route_lines_flatten("ip -6 route "@, "delete"@, table, v6, ipv6_gateway, dev);
    lemma_flatten_concat(
        route_line_seq("ip route "@, "add"@, table, v4, ipv4_gateway, dev),
        route_line_seq("ip -6 route "@, "add"@, table, v6, ipv6_gateway, dev),
    );
    lemma_flatten_concat(
        route_line_seq("ip route "@, "delete"@, table, v4, ipv4_gateway, dev),
        route_line_seq("ip -6 route "@, "delete"@, table, v6, ipv6_gateway, dev),
    );
    assert forall|i: int| 0 <= i < v4.len() + v6.len() implies {
        let cmd = if i < v4.len() {
            "ip route "@
        } else {
            "ip -6 route "@
        };
        let gateway = if i < v4.len() {
            ipv4_gateway
        } else {
            ipv6_gateway
        };
        let tail = route_line_tail(table, cidr_text(script_block(v4, v6, i)), gateway, dev);
        &&& #[trigger] route_script_lines(v4, v6, false, table, ipv4_gateway, ipv6_gateway, dev)[i]
            == cmd + "add"@ + tail
        &&& route_script_lines(v4, v6, true, table, ipv4_gateway, ipv6_gateway, dev)[i] == cmd
            + "delete"@ + tail
    } by {
        lemma_route_script_line(v4, v6, false, table, ipv4_gateway, ipv6_gateway, dev, i);
        lemma_route_script_line(v4, v6, true, table, ipv4_gateway, ipv6_gateway, dev, i);
    }
}

proof fn lemma_route_script_line(
    v4: Seq<CidrView>,
    v6: Seq<CidrView>,
    delete: bool,
    table: Seq<char>,
    ipv4_gateway: Seq<char>,
    ipv6_gateway: Seq<char>,
    dev: Seq<char>,
    i: int,
)
    requires
        0 <= i < v4.len() + v6.len(),
    ensures
        route_script_lines(v4, v6, delete, table, ipv4_gateway, ipv6_gateway, dev)[i] == (if i
            < v4.len() {
            "ip route "@
        } else {
            "ip -6 route "@
        }) + action_word(delete) + route_line_tail(
            table,
            cidr_text(script_block(v4, v6, i)),
            if i < v4.len() {
                ipv4_gateway
            } else {
                ipv6_gateway
            },
            dev,
        ),
{
    let cmd = if i < v4.len() {
        "ip route "@
    } else {
        "ip -6 route "@
    };
    let gateway = if i < v4.len() {
        ipv4_gateway
    } else {
        ipv6_gateway
    };
    let block = cidr_text(script_block(v4, v6, i));
    let action = action_word(delete);
    assert(route_line(cmd, action, table, block, gateway, dev) =~= cmd + action + route_line_tail(
        table,
        block,
        gateway,
        dev,
    ));
    assert(route_script_lines(v4, v6, delete, table, ipv4_gateway, ipv6_gateway, dev)[i]
        == route_line(cmd, action, table, block, gateway, dev));
}


/// The pieces of an element list: the text of each block, every one but the
/// first preceded by the separator.
pub open spec fn element_pieces(s: Seq<CidrView>, sep: Seq<char>) -> Seq<Seq<char>> {
    Seq::new(
        s.len(),
        |i: int|
            if i == 0 {
                cidr_text(s[i])
            } else {
                sep + cidr_text(s[i])
            },
    )
}

/// The element list of an nftables set names every block, in order: it is
/// the text of each block, separated by `sep`, and its length is the sum of
/// the texts' lengths and of one separator between each two blocks.
pub proof fn lemma_joined_lists_every_block(s: Seq<CidrView>, sep: Seq<char>)
    ensures
        joined(s, sep) == element_pieces(s, sep).flatten(),
    decreases s.len(),
{
    if s.len() == 0 {
        assert(element_pieces(s, sep) =~= Seq::<Seq<char>>::empty());
    } else if s.len() == 1 {
        assert(element_pieces(s, sep) =~= seq![cidr_text(s[0])]);
        seq![cidr_text(s[0])].lemma_flatten_push(Seq::empty());
        assert(Seq::<Seq<char>>::empty().push(cidr_text(s[0])) =~= seq![cidr_text(s[0])]);
        Seq::<Seq<char>>::empty().lemma_flatten_push(cidr_text(s[0]));
        assert(Seq::<Seq<char>>::empty().flatten() =~= Seq::<char>::empty());
        assert(Seq::<char>::empty() + cidr_text(s[0]) =~= cidr_text(s[0]));
    } else {
        lemma_joined_lists_every_block(s.drop_last(), sep);
        let last = sep + cidr_text(s.last());
        assert(element_pieces(s, sep) =~= element_pieces(s.drop_last(), sep).push(last));
        element_pieces(s.drop_last(), sep).lemma_flatten_push(last);
        assert(joined(s, sep) =~= joined(s.drop_last(), sep) + last);
    }
}

/// The lengths of the texts of the blocks, added up.
pub open spec fn texts_len(s: Seq<CidrView>) -> nat
    decreases s.len(),
{
    if s.len() == 0 {
        0
    } else {
        texts_len(s.drop_last()) + cidr_text(s.last()).len()
    }
}

/// An element list is as long as the texts of its blocks and one separator
/// between each two of them.
pub proof fn lemma_joined_len(s: Seq<CidrView>, sep: Seq<char>)
    requires
        s.len() > 0,
    ensures
        joined(s, sep).len() == texts_len(s) + (s.len() - 1) * sep.len(),
    decreases s.len(),
{
    if s.len() == 1 {
        assert(s.drop_last() =~= Seq::<CidrView>::empty());
        assert(texts_len(s.drop_last()) == 0);
        assert(s.last() == s[0]);
        assert(texts_len(s) == cidr_text(s[0]).len());
        assert((s.len() - 1) * sep.len() == 0);
    } else {
        lemma_joined_len(s.drop_last(), sep);
        let n = s.len() as int;
        let k = sep.len() as int;
        assert((n - 1) * k == (n - 2) * k + k) by (nonlinear_arith);
        assert(joined(s, sep).len() == joined(s.drop_last(), sep).len() + k + cidr_text(s.last()).len());
    }
}

} // verus!
