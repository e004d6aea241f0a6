//! Fitting text and numbers into the room there is for them.

use crate::binary64::{rounded_quotient, scaled_quotient};
use crate::text::{decimal, decimal_string, digit_char, digit_str, push_decimal};
use vstd::prelude::*;
use vstd::utf8::encode_utf8;

verus! {

/// The first `n` characters of `s`, or all of them where there are fewer.
pub open spec fn first_chars(s: Seq<char>, n: int) -> Seq<char> {
    if n <= 0 {
        Seq::empty()
    } else if n >= s.len() {
        s
    } else {
        s.take(n)
    }
}

/// `s` cut to fit `max_len`. A text whose UTF-8 encoding has no more than
/// `max_len` bytes stays whole. Any other is cut to its first `max_len`
/// characters where `max_len` is three or less, and else to three
/// characters fewer, followed by three dots.
pub open spec fn truncated(s: Seq<char>, max_len: usize) -> Seq<char> {
    if encode_utf8(s).len() <= max_len {
        s
    } else if max_len <= 3 {
        first_chars(s, max_len as int)
    } else {
        first_chars(s, max_len - 3) + "..."@
    }
}

/// The first `n` characters of `s`, or all of them where there are fewer.
fn leading(s: &str, n: usize) -> (r: &str)
    ensures
        r@ == first_chars(s@, n as int),
{
    let len = s.unicode_len();
    if n >= len {
        s
    } else {
        let r = s.substring_char(0, n);
        assert(s@.subrange(0, n as int) =~= first_chars(s@, n as int));
        r
    }
}

/// Cuts `s` to fit `max_len`, with three dots where something is left
/// out and there is room for them.
pub fn truncate_str(s: &str, max_len: usize) -> (r: String)
    ensures
        r@ == truncated(s@, max_len),
{
    if s.as_bytes().len() <= max_len {
        String::from_str(s)
    } else if max_len <= 3 {
        String::from_str(leading(s, max_len))
    } else {
        let mut out = String::from_str(leading(s, max_len - 3));
        out.append("...");
        out
    }
}

/// A thousand, a million and a thousand millions: from each of them on a
/// count is written in that unit.
pub const THOUSAND: u64 = 1_000;

pub const MILLION: u64 = 1_000_000;

pub const BILLION: u64 = 1_000_000_000;

/// The binary units of storage.
pub const KIB: u64 = 1024;

pub const MIB: u64 = 1024 * 1024;

pub const GIB: u64 = 1024 * 1024 * 1024;

pub const TIB: u64 = 1024 * 1024 * 1024 * 1024;

/// A number of tenths as a decimal fraction with one place.
pub open spec fn tenths_text(tenths: nat) -> Seq<char> {
    decimal(tenths / 10) + seq!['.', digit_char((tenths % 10) as int)]
}

/// A number of hundredths as a decimal fraction with two places.
pub open spec fn hundredths_text(hundredths: nat) -> Seq<char> {
    decimal(hundredths / 100) + seq![
        '.',
        digit_char((hundredths / 10 % 10) as int),
        digit_char((hundredths % 10) as int),
    ]
}

/// A count in short. Below a thousand it is written out. From there on
/// it is given in thousands (`K`), millions (`M`) or thousand millions
/// (`B`), whichever is the greatest unit it reaches, with one decimal
/// place, and as binary64 arithmetic rounds the quotient.
pub open spec fn count_text(count: u64) -> Seq<char> {
    if count >= BILLION {
        tenths_text(scaled_quotient(count as nat, BILLION as nat, 10)) + "B"@
    } else if count >= MILLION {
        tenths_text(scaled_quotient(count as nat, MILLION as nat, 10)) + "M"@
    } else if count >= THOUSAND {
        tenths_text(scaled_quotient(count as nat, THOUSAND as nat, 10)) + "K"@
    } else {
        decimal(count as nat)
    }
}

/// A size in bytes in short. Below 1024 it is written out, followed by
/// ` B`. From there on it is given in the greatest binary unit it
/// reaches (`KB`, `MB`, `GB` or `TB`, each 1024 of the one before), with
/// two decimal places, and as binary64 arithmetic rounds the quotient.
pub open spec fn bytes_text(bytes: u64) -> Seq<char> {
    if bytes >= TIB {
        hundredths_text(scaled_quotient(bytes as nat, TIB as nat, 100)) + " TB"@
    } else if bytes >= GIB {
        hundredths_text(scaled_quotient(bytes as nat, GIB as nat, 100)) + " GB"@
    } else if bytes >= MIB {
        hundredths_text(scaled_quotient(bytes as nat, MIB as nat, 100)) + " MB"@
    } else if bytes >= KIB {
        hundredths_text(scaled_quotient(bytes as nat, KIB as nat, 100)) + " KB"@
    } else {
        decimal(bytes as nat) + " B"@
    }
}

/// `count / divisor` with one decimal place, followed by `unit`.
fn in_tenths(count: u64, divisor: u64, unit: &str) -> (r: String)
    requires
        divisor == THOUSAND || divisor == MILLION || divisor == BILLION,
        divisor <= count,
        divisor == THOUSAND ==> count < MILLION,
    ensures
        r@ == tenths_text(scaled_quotient(count as nat, divisor as nat, 10)) + unit@,
{
    let tenths = rounded_quotient(count, divisor, 10);
    let mut out = String::new();
    push_decimal(&mut out, tenths / 10);
    out.append(".");
    out.append(digit_str(tenths % 10));
    out.append(unit);
    proof {
        reveal_strlit(".");
        assert(out@ =~= tenths_text(tenths as nat) + unit@);
    }
    out
}

/// `bytes / divisor` with two decimal places, followed by `unit`.
fn in_hundredths(bytes: u64, divisor: u64, unit: &str) -> (r: String)
    requires
        divisor == KIB || divisor == MIB || divisor == GIB || divisor == TIB,
        divisor <= bytes,
        divisor == KIB ==> bytes < MIB,
    ensures
        r@ == hundredths_text(scaled_quotient(bytes as nat, divisor as nat, 100)) + unit@,
{
    let hundredths = rounded_quotient(bytes, divisor, 100);
    let mut out = String::new();
    push_decimal(&mut out, hundredths / 100);
    out.append(".");
    out.append(digit_str(hundredths / 10 % 10));
    out.append(digit_str(hundredths % 10));
    out.append(unit);
    proof {
        reveal_strlit(".");
        assert(out@ =~= hundredths_text(hundredths as nat) + unit@);
    }
    out
}

/// Writes a count in short, such as `999` or `1.5K`.
pub fn format_count(count: u64) -> (r: String)
    ensures
        r@ == count_text(count),
{
    if count >= BILLION {
        in_tenths(count, BILLION, "B")
    } else if count >= MILLION {
        in_tenths(count, MILLION, "M")
    } else if count >= THOUSAND {
        in_tenths(count, THOUSAND, "K")
    } else {
        decimal_string(count)
    }
}

/// Writes a size in bytes in short, such as `512 B` or `1.50 MB`.
pub fn format_bytes(bytes: u64) -> (r: String)
    ensures
        r@ == bytes_text(bytes),
{
    if bytes >= TIB {
        in_hundredths(bytes, TIB, " TB")
    } else if bytes >= GIB {
        in_hundredths(bytes, GIB, " GB")
    } else if bytes >= MIB {
        in_hundredths(bytes, MIB, " MB")
    } else if bytes >= KIB {
        in_hundredths(bytes, KIB, " KB")
    } else {
        let mut out = String::new();
        push_decimal(&mut out, bytes);
        out.append(" B");
        assert(out@ =~= bytes_text(bytes));
        out
    }
}

} // verus!
