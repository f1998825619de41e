//! Turning byte counts into short decimal text with binary units.

use vstd::prelude::*;
use vstd::string::StringExecFns;

verus! {

/// Bytes in a kibibyte.
pub const KB: u64 = 1024;

/// Bytes in a mebibyte.
pub const MB: u64 = 1048576;

/// Bytes in a gibibyte.
pub const GB: u64 = 1073741824;

/// `String::push` of std appends the given character to the end of the string.
pub assume_specification[ String::push ](s: &mut String, ch: char)
    ensures
        final(s)@ == old(s)@.push(ch),
;

/// The character that writes the decimal digit `d`.
pub open spec fn digit_char(d: nat) -> char
    recommends
        d < 10,
{
    (48 + d) as char
}

/// The decimal numeral of `n`, without leading zeros.
pub open spec fn decimal(n: nat) -> Seq<char>
    decreases n,
{
    if n < 10 {
        seq![digit_char(n)]
    } else {
        decimal(n / 10).push(digit_char(n % 10))
    }
}

/// `amount / unit` in hundredths, rounded to the nearest hundredth; a value
/// that lies exactly between two hundredths goes to the even one.
pub open spec fn hundredths(amount: nat, unit: nat) -> nat
    recommends
        unit > 0,
{
    let scaled = amount * 100;
    let q = scaled / unit;
    let r = scaled % unit;
    if 2 * r > unit || (2 * r == unit && q % 2 == 1) {
        q + 1
    } else {
        q
    }
}

/// A count of hundredths written with two decimals: 1234 is "12.34".
pub open spec fn two_decimals(h: nat) -> Seq<char> {
    decimal(h / 100).push('.').push(digit_char((h / 10) % 10)).push(digit_char(h % 10))
}

/// What `format_bytes` writes for `bytes`: the largest of GB, MB and KB that
/// the count reaches, with two decimals, or the plain count of bytes below
/// a kibibyte.
pub open spec fn human_size(bytes: nat) -> Seq<char> {
    if bytes >= GB {
        two_decimals(hundredths(bytes, GB as nat)) + " GB"@
    } else if bytes >= MB {
        two_decimals(hundredths(bytes, MB as nat)) + " MB"@
    } else if bytes >= KB {
        two_decimals(hundredths(bytes, KB as nat)) + " KB"@
    } else {
        decimal(bytes) + " bytes"@
    }
}

/// The character of one decimal digit.
fn digit_of(d: u8) -> (c: char)
    requires
        d < 10,
    ensures
        c == digit_char(d as nat),
{
    (48u8 + d) as char
}

/// Appends the decimal numeral of `n` to `out`.
pub fn push_decimal(out: &mut String, n: u64)
    ensures
        final(out)@ == old(out)@ + decimal(n as nat),
    decreases n,
{
    if n >= 10 {
        push_decimal(out, n / 10);
    }
    let d: u8 = (n % 10) as u8;
    out.push(digit_of(d));
}

/// `amount / unit` in hundredths, rounded to the nearest, ties to even.
fn rounded_hundredths(amount: u64, unit: u64) -> (h: u64)
    requires
        unit >= 100,
    ensures
        h == hundredths(amount as nat, unit as nat),
{
    let scaled: u128 = (amount as u128) * 100;
    let wide: u128 = unit as u128;
    let q: u128 = scaled / wide;
    let r: u128 = scaled % wide;
    assert(q <= amount) by (nonlinear_arith)
        requires
            q == scaled / wide,
            scaled == amount * 100,
            wide >= 100,
    ;
    if 2 * r > wide || (2 * r == wide && q % 2 == 1) {
        assert(q < amount) by (nonlinear_arith)
            requires
                q == scaled / wide,
                r == scaled % wide,
                scaled == amount * 100,
                wide >= 100,
                2 * r >= wide,
                q <= amount,
        ;
        (q + 1) as u64
    } else {
        q as u64
    }
}

/// Appends `h` hundredths to `out` with two decimals.
fn push_two_decimals(out: &mut String, h: u64)
    ensures
        final(out)@ == old(out)@ + two_decimals(h as nat),
{
    push_decimal(out, h / 100);
    out.push('.');
    out.push(digit_of(((h / 10) % 10) as u8));
    out.push(digit_of((h % 10) as u8));
}

/// Writes a byte count for a reader: in GB from a gibibyte on, else in MB
/// from a mebibyte on, else in KB from a kibibyte on, each with two decimals,
/// else as a whole number of bytes.
pub fn format_bytes(bytes: u64) -> (text: String)
    ensures
        text@ == human_size(bytes as nat),
{
    let mut text = String::new();
    if bytes >= GB {
        push_two_decimals(&mut text, rounded_hundredths(bytes, GB));
        text.append(" GB");
    } else if bytes >= MB {
        push_two_decimals(&mut text, rounded_hundredths(bytes, MB));
        text.append(" MB");
    } else if bytes >= KB {
        push_two_decimals(&mut text, rounded_hundredths(bytes, KB));
        text.append(" KB");
    } else {
        push_decimal(&mut text, bytes);
        text.append(" bytes");
    }
    text
}

} // verus!
