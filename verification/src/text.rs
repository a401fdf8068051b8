//! Text building blocks: decimal and hexadecimal numerals.

use vstd::prelude::*;

verus! {

/// Appends one character to a string.
///
/// Trusted: `String::push`, documented to append the given `char` to the end
/// of the string.
#[verifier::external_body]
pub(crate) fn push_char(s: &mut String, c: char)
    ensures
        final(s)@ == old(s)@.push(c),
{
    s.push(c);
}

/// The character of a digit below 16: `0`-`9`, then `a`-`f` (lower case).
pub open spec fn digit_char(d: nat) -> char {
    if d < 10 {
        (d + 48) as char
    } else {
        (d + 87) as char
    }
}

/// The digits of `n` written in base `radix`, most significant first, without
/// leading zeros (zero itself is written `0`).
pub open spec fn numeral(n: nat, radix: nat) -> Seq<char>
    recommends
        2 <= radix <= 16,
    decreases n,
{
    if n < radix || radix < 2 {
        seq![digit_char(n % radix)]
    } else {
        proof {
            assert(n / radix < n) by (nonlinear_arith)
                requires
                    radix >= 2,
                    n >= radix,
            ;
        }
        numeral(n / radix, radix) + seq![digit_char(n % radix)]
    }
}

/// `n` in decimal, as `format!("{}", n)` writes it.
pub open spec fn decimal(n: nat) -> Seq<char> {
    numeral(n, 10)
}

/// `n` in lower-case hexadecimal, as `format!("{:x}", n)` writes it.
pub open spec fn hex(n: nat) -> Seq<char> {
    numeral(n, 16)
}

fn digit(d: u32) -> (c: char)
    requires
        d < 16,
    ensures
        c == digit_char(d as nat),
{
    if d < 10 {
        ((d as u8) + 48) as char
    } else {
        ((d as u8) + 87) as char
    }
}

/// Appends the base-`radix` numeral of `n` to `out`.
pub fn push_numeral(out: &mut String, n: u32, radix: u32)
    requires
        2 <= radix <= 16,
    ensures
        final(out)@ == old(out)@ + numeral(n as nat, radix as nat),
    decreases n,
{
    if n < radix {
        push_char(out, digit(n % radix));
    } else {
        assert(n / radix < n) by (nonlinear_arith)
            requires
                radix >= 2,
                n >= radix,
        ;
        push_numeral(out, n / radix, radix);
        push_char(out, digit(n % radix));
    }
}

/// Appends the decimal numeral of `n` to `out`.
pub fn push_decimal(out: &mut String, n: u32)
    ensures
        final(out)@ == old(out)@ + decimal(n as nat),
{
    push_numeral(out, n, 10);
}

/// Appends the lower-case hexadecimal numeral of `n` to `out`.
pub fn push_hex(out: &mut String, n: u32)
    ensures
        final(out)@ == old(out)@ + hex(n as nat),
{
    push_numeral(out, n, 16);
}

/// `c` with `a`-`z` mapped to `A`-`Z`; every other character unchanged.
pub open spec fn ascii_upper_char(c: char) -> char {
    if 'a' <= c && c <= 'z' {
        ((c as u32) - 32) as char
    } else {
        c
    }
}

/// `s` with its ASCII letters in upper case, as `str::to_ascii_uppercase`.
pub open spec fn ascii_upper(s: Seq<char>) -> Seq<char> {
    s.map_values(|c: char| ascii_upper_char(c))
}

fn upper_char(c: char) -> (r: char)
    ensures
        r == ascii_upper_char(c),
{
    if 'a' <= c && c <= 'z' {
        ((c as u8) - 32) as char
    } else {
        c
    }
}

/// A copy of `s` with its ASCII letters in upper case.
pub fn to_ascii_uppercase(s: &str) -> (r: String)
    ensures
        r@ == ascii_upper(s@),
{
    let mut out = String::new();
    let n = s.unicode_len();
    for i in 0..n
        invariant
            n == s@.len(),
            out@ == ascii_upper(s@.take(i as int)),
    {
        push_char(&mut out, upper_char(s.get_char(i)));
        assert(ascii_upper(s@.take(i + 1)) =~= ascii_upper(s@.take(i as int)).push(
            ascii_upper_char(s@[i as int]),
        ));
    }
    assert(s@.take(n as int) =~= s@);
    out
}

/// Whether two strings hold the same characters.
pub fn same_text(a: &str, b: &str) -> (r: bool)
    ensures
        r == (a@ == b@),
{
    let n = a.unicode_len();
    if n != b.unicode_len() {
        return false;
    }
    for i in 0..n
        invariant
            n == a@.len(),
            n == b@.len(),
            forall|k: int| 0 <= k < i ==> a@[k] == b@[k],
    {
        if a.get_char(i) != b.get_char(i) {
            return false;
        }
    }
    assert(a@ =~= b@);
    true
}

/// Whether `s` is the placeholder country code `NULL`.
pub fn is_null_code(s: &str) -> (r: bool)
    ensures
        r == (s@ == "NULL"@),
{
    same_text(s, "NULL")
}

/// The number of newline characters in `s`.
pub open spec fn line_count(s: Seq<char>) -> nat
    decreases s.len(),
{
    if s.len() == 0 {
        0
    } else {
        line_count(s.drop_last()) + if s.last() == '\n' {
            1nat
        } else {
            0nat
        }
    }
}

/// `s` holds no newline character.
pub open spec fn single_line(s: Seq<char>) -> bool {
    forall|i: int| 0 <= i < s.len() ==> s[i] != '\n'
}

/// Newlines of a concatenation are those of its parts.
pub proof fn lemma_line_count_append(a: Seq<char>, b: Seq<char>)
    ensures
        line_count(a + b) == line_count(a) + line_count(b),
    decreases b.len(),
{
    if b.len() == 0 {
        assert(a + b =~= a);
    } else {
        lemma_line_count_append(a, b.drop_last());
        assert((a + b).drop_last() =~= a + b.drop_last());
    }
}

/// A text without newline characters counts no lines.
pub proof fn lemma_single_line_count(s: Seq<char>)
    requires
        single_line(s),
    ensures
        line_count(s) == 0,
    decreases s.len(),
{
    if s.len() > 0 {
        lemma_single_line_count(s.drop_last());
    }
}

/// Numerals hold only digits.
pub proof fn lemma_numeral_single_line(n: nat, radix: nat)
    requires
        2 <= radix <= 16,
    ensures
        single_line(numeral(n, radix)),
    decreases n,
{
    if n >= radix {
        assert(n / radix < n) by (nonlinear_arith)
            requires
                radix >= 2,
                n >= radix,
        ;
        lemma_numeral_single_line(n / radix, radix);
    }
    assert(n % radix < 16);
}


/// Joining texts without newlines gives a text without newlines.
pub proof fn lemma_single_line_append(a: Seq<char>, b: Seq<char>)
    requires
        single_line(a),
        single_line(b),
    ensures
        single_line(a + b),
{
    assert forall|i: int| 0 <= i < (a + b).len() implies (a + b)[i] != '\n' by {
        if i < a.len() {
            assert((a + b)[i] == a[i]);
        } else {
            assert((a + b)[i] == b[i - a.len()]);
        }
    }
}


/// The value of a digit character: `0`-`9` are 0 to 9 and `a`-`f` are 10 to
/// 15; any other character is no digit, and counts as 16.
pub open spec fn digit_value(c: char) -> nat {
    if '0' <= c && c <= '9' {
        (c as u32 - 48) as nat
    } else if 'a' <= c && c <= 'f' {
        (c as u32 - 87) as nat
    } else {
        16
    }
}

/// The number that a string of digits denotes in base `radix`, most
/// significant digit first.
pub open spec fn digits_value(s: Seq<char>, radix: nat) -> nat
    decreases s.len(),
{
    if s.len() == 0 {
        0
    } else {
        digits_value(s.drop_last(), radix) * radix + digit_value(s.last())
    }
}

/// A numeral reads back as its number: it is a non-empty string of digits of
/// its base, it denotes `n`, and it has no leading zero unless `n` is zero.
pub proof fn lemma_numeral_reads_back(n: nat, radix: nat)
    requires
        2 <= radix <= 16,
    ensures
        numeral(n, radix).len() > 0,
        forall|i: int| 0 <= i < numeral(n, radix).len() ==> digit_value(#[trigger] numeral(n, radix)[i]) < radix,
        digits_value(numeral(n, radix), radix) == n,
        numeral(n, radix)[0] == '0' ==> n == 0,
    decreases n,
{
    let d = n % radix;
    assert(d < radix);
    assert(digit_value(digit_char(d)) == d);
    if n >= radix {
        let q = n / radix;
        assert(q < n && q >= 1 && q * radix + d == n) by (nonlinear_arith)
            requires
                radix >= 2,
                n >= radix,
                q == n / radix,
                d == n % radix,
        ;
        lemma_numeral_reads_back(q, radix);
        let s = numeral(n, radix);
        assert(s.drop_last() =~= numeral(q, radix));
        assert(s.last() == digit_char(d));
        assert(digits_value(s, radix) == digits_value(numeral(q, radix), radix) * radix
            + digit_value(digit_char(d)));
        assert(digits_value(s, radix) == q * radix + d);
        assert(s[0] == numeral(q, radix)[0]);
        assert forall|i: int| 0 <= i < s.len() implies digit_value(#[trigger] s[i]) < radix by {
            if i < s.len() - 1 {
                assert(s[i] == numeral(q, radix)[i]);
            }
        }
    } else {
        assert(d == n) by (nonlinear_arith)
            requires
                n < radix,
                d == n % radix,
        ;
        let s = numeral(n, radix);
        assert(s.drop_last() =~= Seq::<char>::empty());
        assert(digits_value(s.drop_last(), radix) == 0);
        assert(0 * radix == 0);
        assert(digits_value(s, radix) == 0 * radix + digit_value(digit_char(d)));
    }
}

/// The ASCII upper-case form of a text has the same length, no lower-case
/// ASCII letter, each lower-case letter turned into its capital (32 code
/// points lower) and every other character unchanged.
pub proof fn lemma_ascii_upper(s: Seq<char>)
    ensures
        ascii_upper(s).len() == s.len(),
        forall|i: int|
            0 <= i < s.len() ==> !('a' <= #[trigger] ascii_upper(s)[i] && ascii_upper(s)[i] <= 'z'),
        forall|i: int|
            0 <= i < s.len() && 'a' <= #[trigger] s[i] && s[i] <= 'z' ==> 'A' <= ascii_upper(s)[i]
                && ascii_upper(s)[i] <= 'Z' && ascii_upper(s)[i] as u32 + 32 == s[i] as u32,
        forall|i: int|
            0 <= i < s.len() && !('a' <= #[trigger] s[i] && s[i] <= 'z') ==> ascii_upper(s)[i]
                == s[i],
{
}

} // verus!
