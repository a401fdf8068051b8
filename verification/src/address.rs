//! Text form of IP addresses and CIDR blocks: dotted decimal for IPv4 and the
//! RFC 5952 canonical form for IPv6, as the standard library prints them.

use vstd::prelude::*;
use crate::geoip::{Cidr, CidrView};
use crate::text::{
    decimal,
    hex,
    digit_value,
    digits_value,
    lemma_numeral_reads_back,
    lemma_numeral_single_line,
    lemma_single_line_append,
    push_char,
    push_decimal,
    push_hex,
    single_line,
};
use crate::error::Error;

verus! {

/// Dotted decimal form of a 4-byte IPv4 address, such as `192.168.0.1`.
pub open spec fn ipv4_text(b: Seq<u8>) -> Seq<char>
    recommends
        b.len() == 4,
{
    decimal(b[0] as nat) + seq!['.'] + decimal(b[1] as nat) + seq!['.'] + decimal(b[2] as nat)
        + seq!['.'] + decimal(b[3] as nat)
}

/// The `i`-th 16-bit group of a 16-byte address (network byte order).
pub open spec fn group(b: Seq<u8>, i: int) -> nat {
    (b[2 * i] as nat) * 256 + (b[2 * i + 1] as nat)
}

/// The eight 16-bit groups of a 16-byte address.
pub open spec fn groups(b: Seq<u8>) -> Seq<nat> {
    Seq::new(8, |i: int| group(b, i))
}

/// Length of the run of zero groups that starts at index `i`.
pub open spec fn zero_run(s: Seq<nat>, i: int) -> nat
    decreases s.len() - i,
{
    if i < 0 || i >= s.len() || s[i] != 0 {
        0
    } else {
        1 + zero_run(s, i + 1)
    }
}

/// `i` starts a longest run of zero groups, and no earlier index starts one as
/// long.
pub open spec fn is_longest_run_start(s: Seq<nat>, i: int) -> bool {
    &&& 0 <= i < s.len()
    &&& forall|j: int| 0 <= j < s.len() ==> zero_run(s, j) <= zero_run(s, i)
    &&& forall|j: int| 0 <= j < i ==> zero_run(s, j) < zero_run(s, i)
}

/// The groups in lower-case hex, separated by colons.
pub open spec fn hex_groups(s: Seq<nat>) -> Seq<char>
    decreases s.len(),
{
    if s.len() == 0 {
        Seq::empty()
    } else if s.len() == 1 {
        hex(s[0])
    } else {
        hex_groups(s.drop_last()) + seq![':'] + hex(s.last())
    }
}

/// Bytes `::ffff:a.b.c.d`: an IPv4 address mapped into IPv6.
pub open spec fn is_ipv4_mapped(b: Seq<u8>) -> bool {
    &&& forall|i: int| 0 <= i < 10 ==> b[i] == 0
    &&& b[10] == 0xff
    &&& b[11] == 0xff
}

/// RFC 5952 text of a 16-byte IPv6 address: an IPv4-mapped address is written
/// `::ffff:` and dotted decimal; otherwise the first longest run of two or more
/// zero groups becomes `::` and the other groups are written in lower-case hex
/// without leading zeros.
pub open spec fn ipv6_text(b: Seq<u8>) -> Seq<char>
    recommends
        b.len() == 16,
{
    if is_ipv4_mapped(b) {
        seq![':', ':', 'f', 'f', 'f', 'f', ':'] + ipv4_text(b.subrange(12, 16))
    } else {
        let s = groups(b);
        let start = choose|i: int| is_longest_run_start(s, i);
        let len = zero_run(s, start);
        if len > 1 {
            hex_groups(s.subrange(0, start)) + seq![':', ':'] + hex_groups(
                s.subrange(start + len, 8),
            )
        } else {
            hex_groups(s)
        }
    }
}

/// A block's address is 4 or 16 bytes long, so it has a text form.
pub open spec fn valid_cidr(c: CidrView) -> bool {
    c.ip.len() == 4 || c.ip.len() == 16
}

/// Text form of a block: the address, `/` and the prefix length.
pub open spec fn cidr_text(c: CidrView) -> Seq<char> {
    (if c.ip.len() == 4 {
        ipv4_text(c.ip)
    } else {
        ipv6_text(c.ip)
    }) + seq!['/'] + decimal(c.prefix as nat)
}

/// Appends the dotted decimal form of `b[off..off + 4]`.
fn push_ipv4(out: &mut String, b: &Vec<u8>, off: usize)
    requires
        off <= 12,
        off + 4 <= b@.len(),
    ensures
        final(out)@ == old(out)@ + ipv4_text(b@.subrange(off as int, off + 4)),
{
    let ghost q = b@.subrange(off as int, off + 4);
    push_decimal(out, b[off] as u32);
    push_char(out, '.');
    push_decimal(out, b[off + 1] as u32);
    push_char(out, '.');
    push_decimal(out, b[off + 2] as u32);
    push_char(out, '.');
    push_decimal(out, b[off + 3] as u32);
    assert(final(out)@ =~= old(out)@ + ipv4_text(q));
}

proof fn lemma_longest_run_start_unique(s: Seq<nat>, i: int, j: int)
    requires
        is_longest_run_start(s, i),
        is_longest_run_start(s, j),
    ensures
        i == j,
{
    if i < j {
        assert(zero_run(s, i) < zero_run(s, j));
        assert(zero_run(s, i) >= zero_run(s, j));
    } else if j < i {
        assert(zero_run(s, j) < zero_run(s, i));
        assert(zero_run(s, j) >= zero_run(s, i));
    }
}

/// The length of the zero run that starts at `i`.
fn run_length(segs: &Vec<u32>, i: usize, Ghost(s): Ghost<Seq<nat>>) -> (n: usize)
    requires
        i < segs@.len() == 8,
        s.len() == segs@.len(),
        forall|k: int| 0 <= k < s.len() ==> s[k] == segs@[k] as nat,
    ensures
        n == zero_run(s, i as int),
{
    let mut n: usize = 0;
    while i + n < segs.len() && segs[i + n] == 0
        invariant
            i < segs@.len() == 8,
            i + n <= segs@.len(),
            s.len() == segs@.len(),
            forall|k: int| 0 <= k < s.len() ==> s[k] == segs@[k] as nat,
            zero_run(s, i as int) == n + zero_run(s, i + n),
        decreases segs@.len() - (i + n),
    {
        n = n + 1;
    }
    n
}

/// Appends the hex groups `segs[lo..hi]`, separated by colons.
fn push_groups(out: &mut String, segs: &Vec<u32>, lo: usize, hi: usize, Ghost(s): Ghost<Seq<nat>>)
    requires
        lo <= hi <= segs@.len(),
        s.len() == segs@.len(),
        forall|k: int| 0 <= k < s.len() ==> s[k] == segs@[k] as nat,
    ensures
        final(out)@ == old(out)@ + hex_groups(s.subrange(lo as int, hi as int)),
{
    let mut k = lo;
    while k < hi
        invariant
            lo <= k <= hi <= segs@.len(),
            s.len() == segs@.len(),
            forall|j: int| 0 <= j < s.len() ==> s[j] == segs@[j] as nat,
            out@ == old(out)@ + hex_groups(s.subrange(lo as int, k as int)),
        decreases hi - k,
    {
        let ghost before = out@;
        if k > lo {
            push_char(out, ':');
        }
        push_hex(out, segs[k]);
        assert(s.subrange(lo as int, k + 1).drop_last() =~= s.subrange(lo as int, k as int));
        if k == lo {
            assert(hex_groups(s.subrange(lo as int, k as int)) =~= Seq::<char>::empty());
        }
        assert(out@ =~= old(out)@ + hex_groups(s.subrange(lo as int, k + 1)));
        k = k + 1;
    }
}

/// Appends the RFC 5952 form of the 16-byte address `b`.
fn push_ipv6(out: &mut String, b: &Vec<u8>)
    requires
        b@.len() == 16,
    ensures
        final(out)@ == old(out)@ + ipv6_text(b@),
{
    let mapped = b[0] == 0 && b[1] == 0 && b[2] == 0 && b[3] == 0 && b[4] == 0 && b[5] == 0
        && b[6] == 0 && b[7] == 0 && b[8] == 0 && b[9] == 0 && b[10] == 0xff && b[11] == 0xff;
    if mapped {
        assert(is_ipv4_mapped(b@));
        push_char(out, ':');
        push_char(out, ':');
        push_char(out, 'f');
        push_char(out, 'f');
        push_char(out, 'f');
        push_char(out, 'f');
        push_char(out, ':');
        push_ipv4(out, b, 12);
        assert(final(out)@ =~= old(out)@ + ipv6_text(b@));
        return;
    }
    assert(!is_ipv4_mapped(b@));
    let ghost s = groups(b@);
    let mut segs: Vec<u32> = Vec::new();
    for i in 0..8
        invariant
            b@.len() == 16,
            s == groups(b@),
            segs@.len() == i,
            forall|k: int| 0 <= k < i ==> s[k] == segs@[k] as nat,
    {
        segs.push((b[2 * i] as u32) * 256 + (b[2 * i + 1] as u32));
    }
    let mut best: usize = 0;
    let mut best_len: usize = 0;
    for i in 0..8
        invariant
            segs@.len() == 8,
            s.len() == 8,
            forall|k: int| 0 <= k < 8 ==> s[k] == segs@[k] as nat,
            i > 0 ==> best_len == zero_run(s, best as int),
            i == 0 ==> best == 0,
            i > 0 ==> best < i,
            forall|j: int| 0 <= j < i ==> zero_run(s, j) <= best_len,
            forall|j: int| 0 <= j < best ==> zero_run(s, j) < best_len,
            best < 8,
    {
        let n = run_length(&segs, i, Ghost(s));
        if i == 0 || n > best_len {
            best = i;
            best_len = n;
        }
    }
    assert(is_longest_run_start(s, best as int));
    let ghost chosen = choose|i: int| is_longest_run_start(s, i);
    proof {
        lemma_longest_run_start_unique(s, best as int, chosen);
    }
    if best_len > 1 {
        assert(zero_run(s, best as int) <= 8 - best) by {
            lemma_zero_run_bound(s, best as int);
        }
        push_groups(out, &segs, 0, best, Ghost(s));
        push_char(out, ':');
        push_char(out, ':');
        push_groups(out, &segs, best + best_len, 8, Ghost(s));
    } else {
        push_groups(out, &segs, 0, 8, Ghost(s));
        assert(s.subrange(0, 8) =~= s);
    }
    assert(final(out)@ =~= old(out)@ + ipv6_text(b@));
}

proof fn lemma_zero_run_bound(s: Seq<nat>, i: int)
    requires
        0 <= i <= s.len(),
    ensures
        zero_run(s, i) <= s.len() - i,
    decreases s.len() - i,
{
    if i < s.len() {
        lemma_zero_run_bound(s, i + 1);
    }
}

impl Cidr {
    /// Text form of the block, such as `10.0.0.0/8` or `2001:db8::/32`.
    ///
    /// Fails with [`Error::InvalidIpLength`] when the address is neither 4 nor
    /// 16 bytes long.
    pub fn to_string(&self) -> (r: Result<String, Error>)
        ensures
            match r {
                Ok(t) => valid_cidr(self@) && t@ == cidr_text(self@),
                Err(e) => !valid_cidr(self@) && e == Error::InvalidIpLength,
            },
    {
        let mut out = String::new();
        if self.ip.len() == 4 {
            push_ipv4(&mut out, &self.ip, 0);
            assert(self.ip@.subrange(0, 4) =~= self.ip@);
        } else if self.ip.len() == 16 {
            push_ipv6(&mut out, &self.ip);
        } else {
            return Err(Error::InvalidIpLength);
        }
        push_char(&mut out, '/');
        push_decimal(&mut out, self.prefix);
        Ok(out)
    }
}


proof fn lemma_hex_groups_single_line(s: Seq<nat>)
    ensures
        single_line(hex_groups(s)),
    decreases s.len(),
{
    if s.len() == 1 {
        lemma_numeral_single_line(s[0], 16);
    } else if s.len() > 1 {
        lemma_hex_groups_single_line(s.drop_last());
        lemma_numeral_single_line(s.last(), 16);
        lemma_single_line_append(hex_groups(s.drop_last()), seq![':']);
        lemma_single_line_append(hex_groups(s.drop_last()) + seq![':'], hex(s.last()));
    }
}

proof fn lemma_ipv4_text_single_line(b: Seq<u8>)
    ensures
        single_line(ipv4_text(b)),
{
    lemma_numeral_single_line(b[0] as nat, 10);
    lemma_numeral_single_line(b[1] as nat, 10);
    lemma_numeral_single_line(b[2] as nat, 10);
    lemma_numeral_single_line(b[3] as nat, 10);
    let dot = seq!['.'];
    lemma_single_line_append(decimal(b[0] as nat), dot);
    lemma_single_line_append(decimal(b[0] as nat) + dot, decimal(b[1] as nat));
    lemma_single_line_append(decimal(b[0] as nat) + dot + decimal(b[1] as nat), dot);
    lemma_single_line_append(
        decimal(b[0] as nat) + dot + decimal(b[1] as nat) + dot,
        decimal(b[2] as nat),
    );
    lemma_single_line_append(
        decimal(b[0] as nat) + dot + decimal(b[1] as nat) + dot + decimal(b[2] as nat),
        dot,
    );
    lemma_single_line_append(
        decimal(b[0] as nat) + dot + decimal(b[1] as nat) + dot + decimal(b[2] as nat) + dot,
        decimal(b[3] as nat),
    );
}

/// The text of a block is a single line.
pub proof fn lemma_cidr_text_single_line(c: CidrView)
    ensures
        single_line(cidr_text(c)),
{
    let addr = if c.ip.len() == 4 {
        ipv4_text(c.ip)
    } else {
        ipv6_text(c.ip)
    };
    if c.ip.len() == 4 {
        lemma_ipv4_text_single_line(c.ip);
    } else if is_ipv4_mapped(c.ip) {
        lemma_ipv4_text_single_line(c.ip.subrange(12, 16));
        lemma_single_line_append(
            seq![':', ':', 'f', 'f', 'f', 'f', ':'],
            ipv4_text(c.ip.subrange(12, 16)),
        );
    } else {
        let s = groups(c.ip);
        let start = choose|i: int| is_longest_run_start(s, i);
        let len = zero_run(s, start);
        if len > 1 {
            lemma_hex_groups_single_line(s.subrange(0, start));
            lemma_hex_groups_single_line(s.subrange(start + len, 8));
            lemma_single_line_append(hex_groups(s.subrange(0, start)), seq![':', ':']);
            lemma_single_line_append(
                hex_groups(s.subrange(0, start)) + seq![':', ':'],
                hex_groups(s.subrange(start + len, 8)),
            );
        } else {
            lemma_hex_groups_single_line(s);
        }
    }
    lemma_numeral_single_line(c.prefix as nat, 10);
    lemma_single_line_append(addr, seq!['/']);
    lemma_single_line_append(addr + seq!['/'], decimal(c.prefix as nat));
}


/// `d` is a non-empty string of decimal digits that denotes `n`.
pub open spec fn decimal_digits_of(d: Seq<char>, n: nat) -> bool {
    &&& d.len() > 0
    &&& forall|i: int| 0 <= i < d.len() ==> #[trigger] digit_value(d[i]) < 10
    &&& digits_value(d, 10) == n
}

/// The text of an IPv4 block reads back as the block: four decimal numbers
/// for the four bytes, separated by dots, then `/` and the prefix in decimal.
pub proof fn lemma_ipv4_cidr_text_reads_back(c: CidrView)
    requires
        c.ip.len() == 4,
    ensures
        exists|d0: Seq<char>, d1: Seq<char>, d2: Seq<char>, d3: Seq<char>, dp: Seq<char>|
            {
                &&& cidr_text(c) == d0 + seq!['.'] + d1 + seq!['.'] + d2 + seq!['.'] + d3 + seq!['/']
                    + dp
                &&& #[trigger] decimal_digits_of(d0, c.ip[0] as nat)
                &&& #[trigger] decimal_digits_of(d1, c.ip[1] as nat)
                &&& #[trigger] decimal_digits_of(d2, c.ip[2] as nat)
                &&& #[trigger] decimal_digits_of(d3, c.ip[3] as nat)
                &&& #[trigger] decimal_digits_of(dp, c.prefix as nat)
            },
{
    lemma_numeral_reads_back(c.ip[0] as nat, 10);
    lemma_numeral_reads_back(c.ip[1] as nat, 10);
    lemma_numeral_reads_back(c.ip[2] as nat, 10);
    lemma_numeral_reads_back(c.ip[3] as nat, 10);
    lemma_numeral_reads_back(c.prefix as nat, 10);
    let d0 = decimal(c.ip[0] as nat);
    let d1 = decimal(c.ip[1] as nat);
    let d2 = decimal(c.ip[2] as nat);
    let d3 = decimal(c.ip[3] as nat);
    let dp = decimal(c.prefix as nat);
    assert(decimal_digits_of(d0, c.ip[0] as nat));
    assert(decimal_digits_of(d1, c.ip[1] as nat));
    assert(decimal_digits_of(d2, c.ip[2] as nat));
    assert(decimal_digits_of(d3, c.ip[3] as nat));
    assert(decimal_digits_of(dp, c.prefix as nat));
    assert(cidr_text(c) == d0 + seq!['.'] + d1 + seq!['.'] + d2 + seq!['.'] + d3 + seq!['/'] + dp);
}

/// The text of an IPv6 block ends with `/` and the prefix in decimal.
pub proof fn lemma_ipv6_cidr_text_prefix(c: CidrView)
    requires
        c.ip.len() == 16,
    ensures
        exists|dp: Seq<char>|
            cidr_text(c) == ipv6_text(c.ip) + seq!['/'] + dp && #[trigger] decimal_digits_of(
                dp,
                c.prefix as nat,
            ),
{
    lemma_numeral_reads_back(c.prefix as nat, 10);
    let dp = decimal(c.prefix as nat);
    assert(decimal_digits_of(dp, c.prefix as nat));
}


/// The pieces of a colon-separated group list: each group in hex, every one
/// but the first preceded by a colon.
pub open spec fn group_pieces(s: Seq<nat>) -> Seq<Seq<char>> {
    Seq::new(
        s.len(),
        |i: int|
            if i == 0 {
                hex(s[i])
            } else {
                seq![':'] + hex(s[i])
            },
    )
}

/// A colon-separated group list writes every group, in order, each as a hex
/// numeral that reads back as the group, with a colon between each two.
pub proof fn lemma_hex_groups_reads_back(s: Seq<nat>)
    ensures
        hex_groups(s) == group_pieces(s).flatten(),
        forall|i: int|
            0 <= i < s.len() ==> digits_value(#[trigger] hex(s[i]), 16) == s[i] && hex(s[i]).len()
                > 0,
    decreases s.len(),
{
    assert forall|i: int| 0 <= i < s.len() implies digits_value(#[trigger] hex(s[i]), 16) == s[i]
        && hex(s[i]).len() > 0 by {
        lemma_numeral_reads_back(s[i], 16);
    }
    if s.len() == 0 {
        assert(group_pieces(s) =~= Seq::<Seq<char>>::empty());
    } else if s.len() == 1 {
        assert(group_pieces(s) =~= Seq::<Seq<char>>::empty().push(hex(s[0])));
        Seq::<Seq<char>>::empty().lemma_flatten_push(hex(s[0]));
        assert(Seq::<Seq<char>>::empty().flatten() =~= Seq::<char>::empty());
        assert(Seq::<char>::empty() + hex(s[0]) =~= hex(s[0]));
    } else {
        lemma_hex_groups_reads_back(s.drop_last());
        let last = seq![':'] + hex(s.last());
        assert(group_pieces(s) =~= group_pieces(s.drop_last()).push(last));
        group_pieces(s.drop_last()).lemma_flatten_push(last);
        assert(hex_groups(s) =~= hex_groups(s.drop_last()) + last);
    }
}

} // verus!
