//! Whole numbers and IEEE-754 binary32 bit patterns.
//!
//! A pattern holds a sign in its top bit, a biased exponent in the next
//! eight bits and a fraction in the low 23. A pattern with exponent `e`
//! between 1 and 254 and fraction `f` stands for `(2^23 + f) * 2^(e - 150)`,
//! negated where the sign is set.

use vstd::prelude::*;
use vstd::arithmetic::power2::{
    lemma2_to64,
    lemma2_to64_rest,
    lemma_pow2_adds,
    lemma_pow2_pos,
    lemma_pow2_strictly_increases,
    lemma_pow2_unfold,
    pow2,
};
use vstd::arithmetic::div_mod::{
    lemma_div_multiples_vanish,
    lemma_div_nonincreasing,
    lemma_fundamental_div_mod,
    lemma_fundamental_div_mod_converse,
    lemma_mod_bound,
};
use vstd::bits::{lemma_u64_shl_is_mul, lemma_u64_shr_is_div};

verus! {

/// The pattern of positive zero.
pub const ZERO: u32 = 0;

/// The pattern of one half.
pub const HALF: u32 = 0x3f00_0000;

/// The pattern of one.
pub const ONE: u32 = 0x3f80_0000;

/// The pattern of minus one.
pub const MINUS_ONE: u32 = 0xbf80_0000;

/// The pattern of two.
pub const TWO: u32 = 0x4000_0000;

/// The pattern of the square root of one half, rounded to nearest.
pub const SQRT_HALF: u32 = 0x3f35_04f3;

/// The pattern of 440.
pub const CONCERT_PITCH: u32 = 0x43dc_0000;

/// The pattern of 44100.
pub const RATE_44100: u32 = 0x472c_4400;

/// The biased exponent of a pattern.
pub open spec fn exponent(bits: u32) -> int {
    (bits as int / 0x80_0000) % 0x100
}

/// The fraction of a pattern.
pub open spec fn fraction(bits: u32) -> int {
    bits as int % 0x80_0000
}

/// Whether the sign of a pattern is set.
pub open spec fn is_negative(bits: u32) -> bool {
    bits >= 0x8000_0000
}

/// Whether a pattern stands for no number.
pub open spec fn is_nan(bits: u32) -> bool {
    exponent(bits) == 0xff && fraction(bits) != 0
}

/// The magnitude that a pattern stands for, cut down to a whole number.
/// Below one that is zero; an infinity counts as larger than any `i64`.
pub open spec fn whole_part(bits: u32) -> int {
    let e = exponent(bits);
    let m = 0x80_0000 + fraction(bits);
    if e < 127 {
        0
    } else if e <= 150 {
        m / (pow2((150 - e) as nat) as int)
    } else {
        m * pow2((e - 150) as nat)
    }
}

/// `x` where it fits an `i64`, else the bound that it lies beyond.
pub open spec fn saturated(x: int) -> i64 {
    if x < i64::MIN {
        i64::MIN
    } else if x > i64::MAX {
        i64::MAX
    } else {
        x as i64
    }
}

/// The number that a pattern stands for, rounded toward zero and held to
/// the range of `i64`; zero for a pattern that stands for no number.
pub open spec fn truncated(bits: u32) -> i64 {
    if is_nan(bits) {
        0
    } else if is_negative(bits) {
        saturated(-whole_part(bits))
    } else {
        saturated(whole_part(bits))
    }
}

/// The place of the highest set bit of `a`, for `a` of at least one.
pub open spec fn top_bit(a: int) -> nat
    decreases a,
{
    if a <= 1 {
        0
    } else {
        1 + top_bit(a / 2)
    }
}

/// `a / unit` rounded to the nearest whole number, a tie to the even one.
pub open spec fn rounded(a: int, unit: int) -> int {
    let q = a / unit;
    let rest = a % unit;
    if 2 * rest > unit || (2 * rest == unit && q % 2 == 1) {
        q + 1
    } else {
        q
    }
}

/// The pattern nearest to the whole number `x`, a tie going to the pattern
/// with an even fraction, for `x` of magnitude up to `2^63`.
pub open spec fn nearest(x: int) -> u32 {
    if x == 0 {
        0
    } else {
        let a = if x < 0 { -x } else { x };
        let p = top_bit(a);
        let sign: int = if x < 0 { 0x8000_0000 } else { 0 };
        let q = if p <= 23 {
            a * pow2((23 - p) as nat)
        } else {
            rounded(a, pow2((p - 23) as nat) as int)
        };
        (sign + (126 + p) * 0x80_0000 + q) as u32
    }
}

/// A number between `2^p` and `2^(p+1)` has its highest bit at place `p`.
pub proof fn lemma_top_bit(a: int, p: nat)
    requires
        pow2(p) <= a < 2 * pow2(p),
    ensures
        top_bit(a) == p,
    decreases p,
{
    lemma2_to64();
    if p == 0 {
    } else {
        lemma_pow2_unfold(p);
        lemma_top_bit(a / 2, (p - 1) as nat);
    }
}

/// The whole number that `bits` stands for: rounded toward zero, held to
/// the range of `i64`, and zero where `bits` stands for no number.
pub fn to_i64(bits: u32) -> (r: i64)
    ensures
        r == truncated(bits),
{
    let e: u32 = (bits / 0x80_0000) % 0x100;
    let f: u32 = bits % 0x80_0000;
    let neg: bool = bits >= 0x8000_0000;
    if e == 0xff && f != 0 {
        return 0;
    }
    if e < 127 {
        return 0;
    }
    let m: u64 = 0x80_0000u64 + (f as u64);
    if e >= 190 {
        proof {
            let k = (e - 150) as nat;
            lemma2_to64_rest();
            if k > 40 {
                lemma_pow2_strictly_increases(40, k);
            }
            assert(m * pow2(k) >= 0x80_0000 * pow2(40)) by (nonlinear_arith)
                requires
                    m >= 0x80_0000,
                    pow2(k) >= pow2(40),
            ;
        }
        return if neg {
            i64::MIN
        } else {
            i64::MAX
        };
    }
    let mag: u64 = if e <= 150 {
        let k: u64 = (150 - e) as u64;
        proof {
            lemma_u64_shr_is_div(m, k);
            lemma_pow2_pos(k as nat);
        }
        m >> k
    } else {
        let k: u64 = (e - 150) as u64;
        proof {
            lemma2_to64_rest();
            lemma_pow2_pos(k as nat);
            if k < 39 {
                lemma_pow2_strictly_increases(k as nat, 39);
            }
            assert(m * pow2(k as nat) < 0x100_0000 * pow2(39)) by (nonlinear_arith)
                requires
                    0 <= m < 0x100_0000,
                    0 < pow2(k as nat) <= pow2(39),
            ;
            lemma_u64_shl_is_mul(m, k);
        }
        m << k
    };
    assert(mag == whole_part(bits));
    assert(mag < 0x8000_0000_0000_0000) by {
        lemma2_to64_rest();
        if e <= 150 {
            lemma_pow2_pos((150 - e) as nat);
            lemma_div_nonincreasing(m as int, pow2((150 - e) as nat) as int);
        }
    }
    if neg {
        -(mag as i64)
    } else {
        mag as i64
    }
}

/// The pattern nearest to `x`, a tie going to the pattern with an even
/// fraction.
pub fn from_i64(x: i64) -> (r: u32)
    ensures
        r == nearest(x as int),
{
    if x == 0 {
        return 0;
    }
    let neg: bool = x < 0;
    let a: u64 = if neg {
        if x == i64::MIN {
            0x8000_0000_0000_0000u64
        } else {
            (-x) as u64
        }
    } else {
        x as u64
    };
    let mut p: u32 = 0;
    let mut pw: u64 = 1;
    proof {
        lemma2_to64();
        lemma2_to64_rest();
    }
    while a / 2 >= pw
        invariant
            1 <= a <= 0x8000_0000_0000_0000,
            pw == pow2(p as nat),
            1 <= pw <= a,
            p <= 63,
        decreases a - pw,
    {
        proof {
            lemma2_to64_rest();
            lemma_pow2_unfold((p + 1) as nat);
        }
        pw = pw * 2;
        p = p + 1;
    }
    proof {
        lemma_top_bit(a as int, p as nat);
    }
    let sign: u32 = if neg { 0x8000_0000 } else { 0 };
    let biased: u32 = (126 + p) * 0x80_0000;
    let q: u64 = if p <= 23 {
        let scale: u64 = 0x80_0000 / pw;
        proof {
            lemma2_to64();
            lemma_pow2_adds(p as nat, (23 - p) as nat);
            lemma_pow2_pos((23 - p) as nat);
            let s = pow2((23 - p) as nat) as int;
            assert(scale == s) by {
                lemma_div_multiples_vanish(s, pw as int);
                assert(pw * s == s * pw) by (nonlinear_arith);
            }
            assert(a * scale < 0x100_0000) by (nonlinear_arith)
                requires
                    a < 2 * pw,
                    pw * scale == 0x80_0000,
                    scale > 0,
            ;
        }
        a * scale
    } else {
        let unit: u64 = pw / 0x80_0000;
        proof {
            lemma2_to64();
            lemma_pow2_adds(23, (p - 23) as nat);
            lemma_pow2_pos((p - 23) as nat);
            let u = pow2((p - 23) as nat) as int;
            assert(unit == u) by {
                lemma_div_multiples_vanish(u, 0x80_0000);
                assert(0x80_0000 * u == u * 0x80_0000) by (nonlinear_arith);
            }
        }
        let whole: u64 = a / unit;
        let rest: u64 = a % unit;
        proof {
            assert(whole < 0x100_0000) by (nonlinear_arith)
                requires
                    a < 2 * pw,
                    pw == 0x80_0000 * unit,
                    unit > 0,
                    whole == a / unit,
            ;
        }
        if 2 * rest > unit || (2 * rest == unit && whole % 2 == 1) {
            whole + 1
        } else {
            whole
        }
    };
    sign + biased + (q as u32)
}

/// The pattern made of a sign, a biased exponent and a fraction holds
/// these three.
pub proof fn lemma_fields(negative: bool, e: int, f: int)
    requires
        0 <= e < 0x100,
        0 <= f < 0x80_0000,
    ensures
        ({
            let sign: int = if negative { 0x8000_0000 } else { 0 };
            let bits = (sign + e * 0x80_0000 + f) as u32;
            &&& bits == sign + e * 0x80_0000 + f
            &&& exponent(bits) == e
            &&& fraction(bits) == f
            &&& is_negative(bits) == negative
        }),
{
    let top: int = if negative { 0x100 } else { 0 };
    let sign: int = if negative { 0x8000_0000 } else { 0 };
    let whole = sign + e * 0x80_0000 + f;
    assert(whole == (top + e) * 0x80_0000 + f);
    lemma_fundamental_div_mod_converse(whole, 0x80_0000, top + e, f);
    lemma_fundamental_div_mod_converse(top + e, 0x100, if negative { 1 } else { 0 }, e);
}

/// A whole number of magnitude up to `2^24` has a pattern of its own: the
/// nearest pattern stands for the number itself, so that cutting the
/// pattern down to a whole number gives the number back.
pub proof fn lemma_small_numbers_come_back(x: int)
    requires
        -0x100_0000 <= x <= 0x100_0000,
    ensures
        truncated(nearest(x)) == x,
{
    lemma2_to64();
    if x == 0 {
        lemma_fields(false, 0, 0);
    } else {
        let a = if x < 0 { -x } else { x };
        let p = top_bit(a);
        lemma_top_bit_bounds(a);
        assert(p <= 24) by {
            if p > 24 {
                lemma_pow2_strictly_increases(24, p);
            }
        }
        if p <= 23 {
            let scale = pow2((23 - p) as nat) as int;
            lemma_pow2_adds(p, (23 - p) as nat);
            lemma_pow2_pos((23 - p) as nat);
            let q = a * scale;
            assert(0x80_0000 <= q < 0x100_0000) by (nonlinear_arith)
                requires
                    pow2(p) <= a < 2 * pow2(p),
                    pow2(p) * scale == 0x80_0000,
                    scale > 0,
                    q == a * scale,
            ;
            lemma_fields(x < 0, (127 + p) as int, q - 0x80_0000);
            assert(q / scale == a) by {
                lemma_div_multiples_vanish(a, scale);
            }
        } else {
            assert(a == 0x100_0000) by {
                lemma_pow2_unfold(24);
                lemma_pow2_unfold(23);
            }
            assert(pow2(1) == 2);
            assert(rounded(a, 2) == 0x80_0000);
            lemma_fields(x < 0, 151, 0);
        }
    }
}

/// A number of at least one lies between two to the place of its highest
/// bit and twice that.
pub proof fn lemma_top_bit_bounds(a: int)
    requires
        a >= 1,
    ensures
        pow2(top_bit(a)) <= a < 2 * pow2(top_bit(a)),
    decreases a,
{
    lemma2_to64();
    if a > 1 {
        lemma_top_bit_bounds(a / 2);
        lemma_pow2_unfold(top_bit(a));
    }
}

/// Rounding moves a number by no more than half a unit, and where it moves
/// it by exactly half a unit, the result is even.
pub proof fn lemma_rounded_is_nearest(a: int, unit: int)
    requires
        a >= 0,
        unit > 0,
    ensures
        -unit <= 2 * (rounded(a, unit) * unit - a) <= unit,
        (2 * (rounded(a, unit) * unit - a) == unit || 2 * (rounded(a, unit) * unit - a)
            == -unit) ==> rounded(a, unit) % 2 == 0,
{
    let q = a / unit;
    let rest = a % unit;
    lemma_fundamental_div_mod(a, unit);
    lemma_mod_bound(a, unit);
    assert(a == unit * q + rest);
    assert(unit * q == q * unit) by (nonlinear_arith);
    assert((q + 1) * unit == q * unit + unit) by (nonlinear_arith);
}

/// The pattern nearest to a whole number beyond `2^24` in magnitude stands
/// for that number rounded to the unit of its size: the unit is two to the
/// place of the highest bit less 23, and cutting the pattern down to a
/// whole number gives that many units.
pub proof fn lemma_nearest_stands_for_rounded(x: int)
    requires
        0x100_0000 <= x <= 0x8000_0000_0000_0000 || -0x8000_0000_0000_0000 <= x <= -0x100_0000,
    ensures
        ({
            let a = if x < 0 { -x } else { x };
            let unit = pow2((top_bit(a) - 23) as nat) as int;
            &&& top_bit(a) >= 24
            &&& !is_nan(nearest(x))
            &&& is_negative(nearest(x)) == (x < 0)
            &&& whole_part(nearest(x)) == rounded(a, unit) * unit
        }),
{
    lemma2_to64();
    lemma2_to64_rest();
    let a = if x < 0 { -x } else { x };
    let p = top_bit(a);
    lemma_top_bit_bounds(a);
    assert(24 <= p <= 63) by {
        if p < 24 {
            lemma_pow2_strictly_increases(p + 1, 25);
            lemma_pow2_unfold(p + 1);
        }
        if p > 63 {
            lemma_pow2_strictly_increases(63, p);
        }
    }
    let k = (p - 23) as nat;
    let unit = pow2(k) as int;
    lemma_pow2_pos(k);
    lemma_pow2_adds(23, k);
    let q = a / unit;
    lemma_fundamental_div_mod(a, unit);
    lemma_mod_bound(a, unit);
    assert(0x80_0000 <= q < 0x100_0000) by (nonlinear_arith)
        requires
            0x80_0000 * unit <= a < 2 * (0x80_0000 * unit),
            a == unit * q + a % unit,
            0 <= a % unit < unit,
            unit > 0,
    ;
    let r = rounded(a, unit);
    assert(r == q || r == q + 1);
    if r < 0x100_0000 {
        lemma_fields(x < 0, (127 + p) as int, r - 0x80_0000);
        assert((127 + p) - 150 == k);
    } else {
        lemma_fields(x < 0, (128 + p) as int, 0);
        assert((128 + p) - 150 == k + 1);
        lemma_pow2_unfold(k + 1);
        assert(0x80_0000 * (2 * unit) == 0x100_0000 * unit) by (nonlinear_arith);
    }
}

} // verus!
