//! Whole numbers as binary64 floating-point arithmetic sees them, worked
//! out in integers: the representable number nearest to a whole number,
//! the quotient of two such numbers, and that quotient written with a
//! fixed number of decimal places.
//!
//! A binary64 number is a whole multiple of a power of two, the multiple
//! being below two to the 53rd. Results that are no such number go to
//! the nearest one, and to the one with the even multiple where two are
//! equally near.

use vstd::arithmetic::div_mod::lemma_div_denominator;
use vstd::arithmetic::power2::{
    lemma2_to64, lemma_pow2_adds, lemma_pow2_pos, lemma_pow2_strictly_increases,
    lemma_pow2_unfold, pow2,
};
use vstd::prelude::*;

verus! {

/// Two to the 53rd: every whole number below it is a binary64 number.
pub const EXACT_LIMIT: u64 = 9_007_199_254_740_992;

/// Two to the 40th, the greatest divisor that `rounded_quotient` takes.
pub const MAX_DIVISOR: u64 = 1_099_511_627_776;

/// The quotient of `num` by `den` rounded to the nearest whole number, and
/// to the even one where it lies half-way between two.
pub open spec fn nearest(num: nat, den: nat) -> nat {
    let q = num / den;
    let r = num % den;
    if 2 * r < den {
        q
    } else if 2 * r > den {
        q + 1
    } else {
        q + q % 2
    }
}

/// How many of its low bits `c` has to lose to come below two to the
/// 53rd.
pub open spec fn dropped_bits(c: nat) -> nat
    decreases c,
{
    if c < EXACT_LIMIT {
        0
    } else {
        1 + dropped_bits(c / 2)
    }
}

/// The binary64 number nearest to `c`.
pub open spec fn nearest_binary64(c: nat) -> nat {
    let unit = pow2(dropped_bits(c));
    nearest(c, unit) * unit
}

/// The binary exponent of the quotient of `m` by `d`: how often `d`
/// doubles without passing `m`.
pub open spec fn quotient_exponent(m: nat, d: nat) -> nat
    decreases m - d,
{
    if d == 0 || m < 2 * d {
        0
    } else {
        1 + quotient_exponent(m, 2 * d)
    }
}

/// What binary64 arithmetic makes of `count / divisor`, in whole
/// `scale`-ths: `count` goes to the nearest binary64 number, the quotient
/// of that by `divisor` to the nearest binary64 number again, and this to
/// the nearest multiple of `1 / scale`. Meant for a `divisor` that is
/// itself a binary64 number and no greater than `count`, and for a
/// quotient below two to the 53rd.
pub open spec fn scaled_quotient(count: nat, divisor: nat, scale: nat) -> nat {
    let m = nearest_binary64(count);
    let unit = pow2((52 - quotient_exponent(m, divisor)) as nat);
    // The quotient is `mantissa / unit`.
    let mantissa = nearest(m * unit, divisor);
    nearest(mantissa * scale, unit)
}

/// A whole number below two to the 53rd is a binary64 number.
pub proof fn lemma_small_numbers_are_exact(c: nat)
    requires
        c < EXACT_LIMIT,
    ensures
        nearest_binary64(c) == c,
{
    lemma2_to64();
    assert(dropped_bits(c) == 0);
    assert(nearest(c, 1) == c);
}

/// `num / den` to the nearest whole number, halves to the even one.
pub(crate) fn round_half_even(num: u128, den: u128) -> (r: u128)
    requires
        den > 0,
        num / den < u128::MAX,
    ensures
        r == nearest(num as nat, den as nat),
        r <= num / den + 1,
{
    let q: u128 = num / den;
    let r: u128 = num % den;
    if r < den - r {
        q
    } else if r > den - r {
        q + 1
    } else {
        q + q % 2
    }
}

/// Two to the `e`.
pub(crate) fn power_of_two(e: u32) -> (r: u128)
    requires
        e <= 64,
    ensures
        r == pow2(e as nat),
{
    let mut r: u128 = 1;
    let mut i: u32 = 0;
    proof {
        lemma2_to64();
    }
    while i < e
        invariant
            i <= e <= 64,
            r == pow2(i as nat),
            pow2(64) == 0x1_0000_0000_0000_0000,
        decreases e - i,
    {
        proof {
            lemma_pow2_unfold((i + 1) as nat);
            if i + 1 < 64 {
                lemma_pow2_strictly_increases((i + 1) as nat, 64);
            }
        }
        r = r * 2;
        i += 1;
    }
    r
}

/// The binary64 number nearest to `count`.
pub(crate) fn to_binary64(count: u64) -> (m: u128)
    ensures
        m == nearest_binary64(count as nat),
        count < EXACT_LIMIT ==> m == count,
        m <= 2 * count,
{
    let mut top: u64 = count;
    let mut unit: u128 = 1;
    let ghost mut e: nat = 0;
    proof {
        lemma2_to64();
    }
    while top >= EXACT_LIMIT
        invariant
            dropped_bits(count as nat) == e + dropped_bits(top as nat),
            unit == pow2(e),
            0 < unit < 4096,
            unit > 1 ==> count >= EXACT_LIMIT,
            top as int == count as int / unit as int,
        decreases top,
    {
        proof {
            lemma_pow2_unfold(e + 1);
            lemma_div_denominator(count as int, unit as int, 2);
            assert(unit * top <= count) by (nonlinear_arith)
                requires
                    top as int == count as int / unit as int,
                    unit > 0,
            ;
            assert(unit < 2048) by (nonlinear_arith)
                requires
                    unit * top <= count,
                    top >= 9_007_199_254_740_992,
                    unit > 0,
                    count < 0x1_0000_0000_0000_0000,
            ;
            e = e + 1;
        }
        top = top / 2;
        unit = unit * 2;
    }
    let whole = round_half_even(count as u128, unit);
    assert(whole * unit <= count + unit) by (nonlinear_arith)
        requires
            whole <= count as int / unit as int + 1,
            unit > 0,
    ;
    assert(unit == 1 ==> whole == count) by {
        assert(nearest(count as nat, 1) == count);
    }
    assert(unit == 1 ==> whole * unit == whole) by (nonlinear_arith);
    whole * unit
}

/// `count / divisor` as binary64 arithmetic has it, in whole `scale`-ths.
pub(crate) fn rounded_quotient(count: u64, divisor: u64, scale: u64) -> (r: u64)
    requires
        0 < divisor <= MAX_DIVISOR,
        divisor <= count,
        count < divisor * EXACT_LIMIT / 2,
        0 < scale <= 100,
    ensures
        r == scaled_quotient(count as nat, divisor as nat, scale as nat),
{
    let m = to_binary64(count);
    let mut doubled: u128 = divisor as u128;
    let mut t: u32 = 0;
    proof {
        lemma2_to64();
        lemma_pow2_adds(32, 21);
    }
    while m >= 2 * doubled
        invariant
            quotient_exponent(m as nat, divisor as nat) == t + quotient_exponent(
                m as nat,
                doubled as nat,
            ),
            doubled == divisor * pow2(t as nat),
            doubled <= m || t == 0,
            0 < doubled <= 0x2_0000_0000_0000_0000,
            0 < divisor <= MAX_DIVISOR,
            m <= 0x2_0000_0000_0000_0000,
            m < divisor * EXACT_LIMIT,
            pow2(53) == EXACT_LIMIT,
            t <= 52,
        decreases m - doubled,
    {
        proof {
            lemma_pow2_unfold((t + 1) as nat);
            assert(2 * doubled == divisor * pow2((t + 1) as nat)) by (nonlinear_arith)
                requires
                    doubled == divisor * pow2(t as nat),
                    pow2((t + 1) as nat) == 2 * pow2(t as nat),
            ;
            assert(pow2((t + 1) as nat) < pow2(53)) by (nonlinear_arith)
                requires
                    divisor * pow2((t + 1) as nat) <= m,
                    m < divisor * pow2(53),
                    divisor > 0,
            ;
            if t + 1 > 53 {
                lemma_pow2_strictly_increases(53, (t + 1) as nat);
            }
        }
        doubled = 2 * doubled;
        t += 1;
    }
    let unit = power_of_two(52 - t);
    proof {
        lemma_pow2_adds(t as nat, (52 - t) as nat);
        lemma_pow2_adds(32, 20);
        lemma_pow2_pos((52 - t) as nat);
        assert(m * unit < divisor * 9_007_199_254_740_992) by (nonlinear_arith)
            requires
                m < 2 * doubled,
                doubled == divisor * pow2(t as nat),
                unit == pow2((52 - t) as nat),
                pow2(t as nat) * pow2((52 - t) as nat) == 4_503_599_627_370_496,
                unit > 0,
        ;
        assert(divisor * 9_007_199_254_740_992 <= 1_099_511_627_776 * 9_007_199_254_740_992)
            by (nonlinear_arith)
            requires
                divisor <= 1_099_511_627_776,
        ;
        assert((m * unit) / (divisor as int) < 9_007_199_254_740_992) by (nonlinear_arith)
            requires
                m * unit < divisor * 9_007_199_254_740_992,
                divisor > 0,
        ;
    }
    let mantissa = round_half_even(m * unit, divisor as u128);
    proof {
        assert(mantissa * scale <= 9_007_199_254_740_992 * 100) by (nonlinear_arith)
            requires
                mantissa <= 9_007_199_254_740_992,
                scale <= 100,
        ;
        assert((mantissa * scale) / (unit as int) <= mantissa * scale) by (nonlinear_arith)
            requires
                unit > 0,
                mantissa * scale >= 0,
        ;
    }
    let scaled = round_half_even(mantissa * (scale as u128), unit);
    scaled as u64
}

} // verus!
