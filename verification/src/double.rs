//! IEEE 754 doubles, held as their bit patterns.
//!
//! The value of a finite double is a whole multiple of two to the power -1074, so that its
//! magnitude is a natural number in that unit.

use vstd::arithmetic::power2::pow2;
use vstd::prelude::*;

verus! {

/// Whether the sign bit is set.
pub open spec fn negative(bits: u64) -> bool {
    bits >= 0x8000_0000_0000_0000
}

/// The exponent field.
pub open spec fn exponent(bits: u64) -> int {
    (bits as int / 0x10_0000_0000_0000) % 0x800
}

/// The fraction field.
pub open spec fn fraction(bits: u64) -> int {
    bits as int % 0x10_0000_0000_0000
}

/// Whether the bits are those of a value that is not a number.
pub open spec fn not_a_number(bits: u64) -> bool {
    exponent(bits) == 0x7ff && fraction(bits) != 0
}

/// The magnitude, in units of two to the power -1074.
pub open spec fn magnitude(bits: u64) -> int {
    if exponent(bits) == 0 {
        fraction(bits)
    } else {
        (0x10_0000_0000_0000 + fraction(bits)) * pow2((exponent(bits) - 1) as nat)
    }
}

/// The whole part of a double as an unsigned number: zero for negative values and where there is
/// no number, the largest unsigned number where the value is beyond it.
pub open spec fn whole(bits: u64) -> int {
    if negative(bits) || not_a_number(bits) {
        0
    } else if magnitude(bits) / (pow2(1074) as int) > u64::MAX {
        u64::MAX as int
    } else {
        magnitude(bits) / (pow2(1074) as int)
    }
}

proof fn lemma_small(m: int, e: int)
    requires
        0 <= m < 0x20_0000_0000_0000,
        1 <= e < 1023,
    ensures
        (m * pow2((e - 1) as nat)) / (pow2(1074) as int) == 0,
{
    vstd::arithmetic::power2::lemma2_to64_rest();
    vstd::arithmetic::power2::lemma_pow2_adds(53, 1021);
    vstd::arithmetic::power2::lemma_pow2_pos(1074);
    vstd::arithmetic::power2::lemma_pow2_pos((e - 1) as nat);
    if e < 1022 {
        vstd::arithmetic::power2::lemma_pow2_strictly_increases((e - 1) as nat, 1021);
    }
    let p = pow2((e - 1) as nat) as int;
    let q = pow2(1021) as int;
    assert(0 <= m * p < 0x20_0000_0000_0000 * q) by (nonlinear_arith)
        requires
            0 <= m < 0x20_0000_0000_0000,
            0 < p <= q,
    ;
    vstd::arithmetic::div_mod::lemma_basic_div(m * p, pow2(1074) as int);
}

proof fn lemma_large(m: int, e: int)
    requires
        0x10_0000_0000_0000 <= m,
        1086 < e,
    ensures
        (m * pow2((e - 1) as nat)) / (pow2(1074) as int) > u64::MAX,
{
    vstd::arithmetic::power2::lemma2_to64_rest();
    vstd::arithmetic::power2::lemma_pow2_adds(1074, (e - 1075) as nat);
    vstd::arithmetic::power2::lemma_pow2_pos(1074);
    vstd::arithmetic::power2::lemma2_to64();
    if e > 1087 {
        vstd::arithmetic::power2::lemma_pow2_strictly_increases(12, (e - 1075) as nat);
    }
    let p = pow2(1074) as int;
    let q = pow2((e - 1075) as nat) as int;
    assert(m * pow2((e - 1) as nat) == (m * q) * p) by (nonlinear_arith)
        requires
            pow2((e - 1) as nat) == p * q,
    ;
    vstd::arithmetic::div_mod::lemma_div_by_multiple(m * q, p);
    assert(m * q >= 0x10_0000_0000_0000 * 4096) by (nonlinear_arith)
        requires
            0x10_0000_0000_0000 <= m,
            q >= 4096,
    ;
}

proof fn lemma_left(m: int, e: int)
    requires
        0 <= m < 0x20_0000_0000_0000,
        1075 <= e <= 1086,
    ensures
        (m * pow2((e - 1) as nat)) / (pow2(1074) as int) == m * pow2((e - 1075) as nat),
        m * pow2((e - 1075) as nat) <= u64::MAX,
{
    vstd::arithmetic::power2::lemma2_to64();
    vstd::arithmetic::power2::lemma_pow2_adds(1074, (e - 1075) as nat);
    vstd::arithmetic::power2::lemma_pow2_pos(1074);
    if e < 1086 {
        vstd::arithmetic::power2::lemma_pow2_strictly_increases((e - 1075) as nat, 11);
    }
    let p = pow2(1074) as int;
    let q = pow2((e - 1075) as nat) as int;
    assert(m * pow2((e - 1) as nat) == (m * q) * p) by (nonlinear_arith)
        requires
            pow2((e - 1) as nat) == p * q,
    ;
    vstd::arithmetic::div_mod::lemma_div_by_multiple(m * q, p);
    assert(m * q <= 0x1f_ffff_ffff_ffff * 2048) by (nonlinear_arith)
        requires
            0 <= m <= 0x1f_ffff_ffff_ffff,
            0 <= q <= 2048,
    ;
}

proof fn lemma_right(m: int, e: int)
    requires
        0 <= m,
        1023 <= e < 1075,
    ensures
        (m * pow2((e - 1) as nat)) / (pow2(1074) as int) == m / (pow2((1075 - e) as nat) as int),
{
    vstd::arithmetic::power2::lemma_pow2_adds((e - 1) as nat, (1075 - e) as nat);
    vstd::arithmetic::power2::lemma_pow2_pos((e - 1) as nat);
    vstd::arithmetic::power2::lemma_pow2_pos((1075 - e) as nat);
    let p = pow2((e - 1) as nat) as int;
    let q = pow2((1075 - e) as nat) as int;
    assert(0 <= m * p) by (nonlinear_arith)
        requires
            0 <= m,
            0 < p,
    ;
    vstd::arithmetic::div_mod::lemma_div_denominator(m * p, p, q);
    vstd::arithmetic::div_mod::lemma_div_by_multiple(m, p);
}

/// The whole part of a double as an unsigned number.
pub fn to_u64(bits: u64) -> (r: u64)
    ensures
        r == whole(bits),
{
    if bits >= 0x8000_0000_0000_0000 {
        return 0;
    }
    let e: u64 = bits / 0x10_0000_0000_0000;
    let f: u64 = bits % 0x10_0000_0000_0000;
    assert(e == exponent(bits) && f == fraction(bits));
    if e == 0x7ff && f != 0 {
        return 0;
    }
    let m: u64 = 0x10_0000_0000_0000 + f;
    if e < 1023 {
        proof {
            if e == 0 {
                vstd::arithmetic::power2::lemma2_to64();
                vstd::arithmetic::power2::lemma2_to64_rest();
                vstd::arithmetic::power2::lemma_pow2_strictly_increases(53, 1074);
                vstd::arithmetic::div_mod::lemma_basic_div(f as int, pow2(1074) as int);
            } else {
                lemma_small(m as int, e as int);
            }
        }
        0
    } else if e > 1086 {
        proof {
            lemma_large(m as int, e as int);
        }
        u64::MAX
    } else if e >= 1075 {
        proof {
            lemma_left(m as int, e as int);
            vstd::bits::lemma_u64_shl_is_mul(m, (e - 1075) as u64);
        }
        m << (e - 1075)
    } else {
        proof {
            lemma_right(m as int, e as int);
            vstd::bits::lemma_u64_shr_is_div(m, (1075 - e) as u64);
        }
        m >> (1075 - e)
    }
}

/// Two doubles that are not negative are ordered as their bit patterns are.
pub proof fn lemma_order(a: u64, b: u64)
    requires
        !negative(a),
        !negative(b),
    ensures
        a <= b <==> magnitude(a) <= magnitude(b),
{
    if a < b {
        lemma_increases(a, b);
    } else if b < a {
        lemma_increases(b, a);
    }
}

proof fn lemma_increases(a: u64, b: u64)
    requires
        a < b,
        !negative(b),
    ensures
        magnitude(a) < magnitude(b),
{
    let ea = exponent(a);
    let eb = exponent(b);
    let fa = fraction(a);
    let fb = fraction(b);
    let u: int = 0x10_0000_0000_0000;
    assert(a == ea * u + fa && b == eb * u + fb);
    assert(ea <= eb);
    vstd::arithmetic::power2::lemma2_to64();
    if eb == 0 {
    } else if ea == eb {
        let p = pow2((eb - 1) as nat) as int;
        vstd::arithmetic::power2::lemma_pow2_pos((eb - 1) as nat);
        assert((u + fa) * p < (u + fb) * p) by (nonlinear_arith)
            requires
                fa < fb,
                0 < p,
        ;
    } else {
        let q = pow2((eb - 1) as nat) as int;
        vstd::arithmetic::power2::lemma_pow2_pos((eb - 1) as nat);
        assert((u + fb) * q >= u * q) by (nonlinear_arith)
            requires
                0 <= fb,
                0 < q,
        ;
        if ea == 0 {
            assert(u * q >= u) by (nonlinear_arith)
                requires
                    0 < q,
                    0 < u,
            ;
        } else {
            let p = pow2((ea - 1) as nat) as int;
            vstd::arithmetic::power2::lemma_pow2_pos((ea - 1) as nat);
            vstd::arithmetic::power2::lemma_pow2_unfold(ea as nat);
            if ea < eb - 1 {
                vstd::arithmetic::power2::lemma_pow2_strictly_increases(ea as nat, (eb - 1) as nat);
            }
            assert((u + fa) * p < u * q) by (nonlinear_arith)
                requires
                    0 <= fa < u,
                    0 < p,
                    q >= 2 * p,
            ;
        }
    }
}

/// Whether the value is exactly one half.
pub open spec fn half(bits: u64) -> bool {
    !negative(bits) && 2 * magnitude(bits) == pow2(1074)
}

/// Whether the value is exactly one half.
pub fn is_half(bits: u64) -> (r: bool)
    ensures
        r == half(bits),
{
    proof {
        lemma_half(bits);
    }
    bits == 0x3fe0_0000_0000_0000
}

/// One half has one bit pattern.
pub proof fn lemma_half(bits: u64)
    ensures
        half(bits) <==> bits == 0x3fe0_0000_0000_0000,
{
    let one_half: u64 = 0x3fe0_0000_0000_0000;
    assert(exponent(one_half) == 1022 && fraction(one_half) == 0);
    vstd::arithmetic::power2::lemma2_to64_rest();
    vstd::arithmetic::power2::lemma_pow2_adds(52, 1021);
    vstd::arithmetic::power2::lemma_pow2_unfold(1074);
    assert(half(one_half));
    if half(bits) {
        lemma_order(bits, one_half);
        lemma_order(one_half, bits);
    }
}

/// Whether the value lies between two positive ones, both included.
pub open spec fn between(bits: u64, low: u64, high: u64) -> bool {
    !negative(bits) && !not_a_number(bits) && magnitude(low) <= magnitude(bits) <= magnitude(high)
}

/// Whether the value lies between two positive ones, both included.
pub fn is_between(bits: u64, low: u64, high: u64) -> (r: bool)
    requires
        0 < low,
        !negative(low),
        !negative(high),
        !not_a_number(high),
    ensures
        r == between(bits, low, high),
{
    proof {
        if !negative(bits) {
            lemma_order(low, bits);
            lemma_order(bits, high);
        }
        if bits <= high && not_a_number(bits) {
            assert(exponent(high) == 0x7ff && fraction(high) != 0);
        }
    }
    low <= bits && bits <= high
}

/// The whole part of a double by its fields: with an exponent of 1023 or more the fraction, behind
/// its leading one, is shifted by the exponent less 1075; with a smaller exponent the value is below
/// one. A negative value, or one that is not a number, has none, and one of two to the power 64 or
/// more has the largest.
pub proof fn lemma_whole_by_fields(bits: u64, e: int, f: int)
    requires
        0 <= e < 0x800,
        0 <= f < 0x10_0000_0000_0000,
        bits < 0x8000_0000_0000_0000 ==> bits == e * 0x10_0000_0000_0000 + f,
    ensures
        bits >= 0x8000_0000_0000_0000 ==> whole(bits) == 0,
        bits < 0x8000_0000_0000_0000 && e < 1023 ==> whole(bits) == 0,
        bits < 0x8000_0000_0000_0000 && 1023 <= e < 1075 ==> whole(bits) == (0x10_0000_0000_0000
            + f) / (pow2((1075 - e) as nat) as int),
        bits < 0x8000_0000_0000_0000 && 1075 <= e <= 1086 ==> whole(bits) == (0x10_0000_0000_0000
            + f) * pow2((e - 1075) as nat),
        bits < 0x8000_0000_0000_0000 && 1086 < e < 0x7ff ==> whole(bits) == 0xffff_ffff_ffff_ffff,
        bits < 0x8000_0000_0000_0000 && e == 0x7ff && f == 0 ==> whole(bits)
            == 0xffff_ffff_ffff_ffff,
        bits < 0x8000_0000_0000_0000 && e == 0x7ff && f != 0 ==> whole(bits) == 0,
{
    if bits < 0x8000_0000_0000_0000 {
        assert(exponent(bits) == e && fraction(bits) == f);
        let m: int = 0x10_0000_0000_0000 + f;
        if e == 0 {
            vstd::arithmetic::power2::lemma2_to64();
            vstd::arithmetic::power2::lemma2_to64_rest();
            vstd::arithmetic::power2::lemma_pow2_strictly_increases(53, 1074);
            vstd::arithmetic::div_mod::lemma_basic_div(f, pow2(1074) as int);
        } else if e < 1023 {
            lemma_small(m, e);
        } else if e < 1075 {
            lemma_right(m, e);
            let q = pow2((1075 - e) as nat) as int;
            vstd::arithmetic::power2::lemma_pow2_pos((1075 - e) as nat);
            assert(m / q <= m) by (nonlinear_arith)
                requires
                    0 <= m,
                    1 <= q,
            ;
        } else if e <= 1086 {
            lemma_left(m, e);
        } else {
            lemma_large(m, e);
        }
    }
}

/// A value lies between two positive ones exactly where its bit pattern does.
pub proof fn lemma_between(bits: u64, low: u64, high: u64)
    requires
        0 < low,
        low < 0x7ff0_0000_0000_0000,
        high < 0x7ff0_0000_0000_0000,
    ensures
        between(bits, low, high) <==> low <= bits <= high,
{
    assert(exponent(high) < 0x7ff);
    if !negative(bits) {
        lemma_order(low, bits);
        lemma_order(bits, high);
        if bits <= high {
            assert(exponent(bits) < 0x7ff);
        }
    }
}

} // verus!
