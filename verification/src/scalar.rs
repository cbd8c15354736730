//! Lane-level widening conversions.
//!
//! Integer lanes widen by the language's own sign or zero extension, so
//! their contracts are stated directly with `as` casts.  Float lanes are
//! carried as bit patterns, and widening a 32-bit float bit pattern to a
//! 64-bit one, or converting a signed 32-bit integer to a 64-bit float bit
//! pattern, is defined here exactly, field by field.

use vstd::prelude::*;
use vstd::arithmetic::power2::pow2;
use vstd::arithmetic::power2::lemma_pow2_adds;
use vstd::arithmetic::power2::lemma_pow2_strictly_increases;
use vstd::arithmetic::power2::lemma2_to64;
use vstd::arithmetic::power2::lemma2_to64_rest;
use vstd::arithmetic::power2::lemma_pow2_pos;
use vstd::bits::lemma_u64_shl_is_mul;

verus! {

/// The index of the highest set bit of `m`, with `msb(0) == 0`.
pub open spec fn msb(m: nat) -> nat
    decreases m,
{
    if m < 2 {
        0
    } else {
        1 + msb(m / 2)
    }
}

/// `msb` names the highest set bit: `pow2(msb(m)) <= m < pow2(msb(m) + 1)`.
pub proof fn lemma_msb_bounds(m: nat)
    requires
        1 <= m,
    ensures
        pow2(msb(m)) <= m < pow2(msb(m) + 1),
    decreases m,
{
    if m < 2 {
        lemma2_to64();
    } else {
        lemma_msb_bounds(m / 2);
        lemma_pow2_adds(1, msb(m / 2));
        lemma_pow2_adds(1, msb(m / 2) + 1);
        lemma2_to64();
    }
}

/// A bound on the input bounds the highest set bit.
pub proof fn lemma_msb_lt(m: nat, j: nat)
    requires
        1 <= m,
        m < pow2(j),
    ensures
        msb(m) < j,
{
    lemma_msb_bounds(m);
    if msb(m) >= j {
        if msb(m) > j {
            lemma_pow2_strictly_increases(j, msb(m));
        }
        assert(pow2(j) <= pow2(msb(m)));
        assert(false);
    }
}

/// The index of the highest set bit, computed by repeated halving.
pub fn msb_u32(m: u32) -> (r: u32)
    requires
        1 <= m,
    ensures
        r == msb(m as nat),
        r < 32,
{
    let mut t: u32 = m;
    let mut k: u32 = 0;
    proof {
        lemma2_to64();
    }
    while t >= 2
        invariant
            1 <= t,
            k < 32,
            msb(m as nat) == k + msb(t as nat),
            pow2(k as nat) * (t as nat) <= m as nat,
        decreases t,
    {
        proof {
            lemma_pow2_adds(k as nat, 1);
            lemma2_to64();
            assert(pow2((k + 1) as nat) * ((t / 2) as nat) <= pow2(k as nat) * (t as nat))
                by (nonlinear_arith)
                requires
                    pow2((k + 1) as nat) == pow2(k as nat) * 2,
                    t >= 2,
            ;
            if k + 1 >= 32 {
                if k + 1 > 32 {
                    lemma_pow2_strictly_increases(32, (k + 1) as nat);
                }
                assert(pow2(32) <= pow2((k + 1) as nat) * ((t / 2) as nat)) by (nonlinear_arith)
                    requires
                        pow2(32) <= pow2((k + 1) as nat),
                        1 <= t / 2,
                ;
                assert(false);
            }
        }
        t = t / 2;
        k = k + 1;
    }
    k
}

/// The bit pattern of the 64-bit float with the same value as the 32-bit
/// float whose bit pattern is `b`.
///
/// The sign is kept; a normal value's exponent is re-biased and its
/// fraction shifted up by 29 bits; a subnormal value is normalized, which
/// every subnormal 32-bit float allows, since its value sits far inside
/// the 64-bit normal range; infinities stay infinities.  A NaN keeps its
/// payload, shifted up by 29 bits, and has the quiet bit set, as the
/// hardware widening instructions do.
pub open spec fn widen_f32_bits(b: u32) -> u64 {
    let s = (b >> 31) as int;
    let e = ((b >> 23) & 0xFF) as int;
    let m = (b & 0x7F_FFFF) as int;
    if e == 0xFF {
        if m == 0 {
            (s * 0x8000_0000_0000_0000 + 0x7FF0_0000_0000_0000) as u64
        } else {
            (s * 0x8000_0000_0000_0000 + 0x7FF8_0000_0000_0000 + (m % 0x40_0000)
                * 0x2000_0000) as u64
        }
    } else if e == 0 {
        if m == 0 {
            (s * 0x8000_0000_0000_0000) as u64
        } else {
            let k = msb(m as nat);
            (s * 0x8000_0000_0000_0000 + (k + 874) * 0x10_0000_0000_0000 + (m - pow2(k)) * pow2(
                (52 - k) as nat,
            )) as u64
        }
    } else {
        (s * 0x8000_0000_0000_0000 + (e + 896) * 0x10_0000_0000_0000 + m * 0x2000_0000) as u64
    }
}

/// The bit pattern of the 64-bit float whose value is exactly the signed
/// 32-bit integer `x`; exact for every input, since the 53-bit mantissa
/// covers every 32-bit integer.
pub open spec fn f64_bits_of_i32(x: i32) -> u64 {
    if x == 0 {
        0
    } else {
        let s: int = if x < 0 {
            1
        } else {
            0
        };
        let mag: int = if x >= 0 {
            x as int
        } else {
            -(x as int)
        };
        let k = msb(mag as nat);
        (s * 0x8000_0000_0000_0000 + (k + 1023) * 0x10_0000_0000_0000 + (mag - pow2(k)) * pow2(
            (52 - k) as nat,
        )) as u64
    }
}

/// The three fields of a 32-bit float bit pattern are bounded.
proof fn lemma_split_fields(b: u32)
    ensures
        (b >> 31) < 2,
        ((b >> 23) & 0xFF) < 0x100,
        (b & 0x7F_FFFF) < 0x80_0000,
{
    assert((b >> 31) < 2 && ((b >> 23) & 0xFF) < 0x100 && (b & 0x7F_FFFF) < 0x80_0000)
        by (bit_vector);
}

/// The facts needed to compute the normalized mantissa term in 64 bits:
/// the leading bit is within the value, the term stays below `pow2(52)`,
/// and both shifted constants fit.
proof fn lemma_normalize_bounds(m: nat, k: nat)
    requires
        1 <= m,
        k == msb(m),
        k < 32,
    ensures
        pow2(k) <= m < 2 * pow2(k),
        (m - pow2(k)) * pow2((52 - k) as nat) < pow2(52),
        pow2(k) < 0x1_0000_0000,
        pow2((52 - k) as nat) <= 0x10_0000_0000_0000,
        pow2(52) == 0x10_0000_0000_0000,
{
    lemma_msb_bounds(m);
    lemma_pow2_adds(k, 1);
    lemma_pow2_adds(k, (52 - k) as nat);
    lemma_pow2_pos((52 - k) as nat);
    lemma2_to64();
    lemma2_to64_rest();
    if k > 0 {
        lemma_pow2_strictly_increases(k, 32);
        lemma_pow2_strictly_increases((52 - k) as nat, 52);
    }
    assert(pow2(1) == 2);
    assert((m - pow2(k)) * pow2((52 - k) as nat) < pow2(k) * pow2((52 - k) as nat))
        by (nonlinear_arith)
        requires
            pow2(k) <= m,
            m < pow2(k) * 2,
            pow2((52 - k) as nat) >= 1,
    ;
}

/// Widens one lane: the checked computation of `widen_f32_bits`.
pub fn widen_lane_f32(b: u32) -> (r: u64)
    ensures
        r == widen_f32_bits(b),
{
    proof {
        lemma_split_fields(b);
    }
    let s: u64 = ((b >> 31) as u64) * 0x8000_0000_0000_0000;
    let e: u32 = (b >> 23) & 0xFF;
    let m: u32 = b & 0x7F_FFFF;
    if e == 0xFF {
        if m == 0 {
            s + 0x7FF0_0000_0000_0000
        } else {
            s + 0x7FF8_0000_0000_0000 + ((m % 0x40_0000) as u64) * 0x2000_0000
        }
    } else if e == 0 {
        if m == 0 {
            s
        } else {
            let k: u32 = msb_u32(m);
            proof {
                lemma2_to64();
                lemma_msb_lt(m as nat, 23);
                lemma_normalize_bounds(m as nat, k as nat);
                lemma_u64_shl_is_mul(1, k as u64);
                lemma_u64_shl_is_mul(1, (52 - k) as u64);
            }
            let p: u64 = 1u64 << (k as u64);
            let q: u64 = 1u64 << ((52 - k) as u64);
            s + ((k as u64) + 874) * 0x10_0000_0000_0000 + ((m as u64) - p) * q
        }
    } else {
        s + ((e as u64) + 896) * 0x10_0000_0000_0000 + (m as u64) * 0x2000_0000
    }
}

/// Converts one lane: the checked computation of `f64_bits_of_i32`.
pub fn widen_lane_i32(x: i32) -> (r: u64)
    ensures
        r == f64_bits_of_i32(x),
{
    if x == 0 {
        return 0;
    }
    let s: u64 = if x < 0 {
        0x8000_0000_0000_0000u64
    } else {
        0u64
    };
    let xi: i64 = x as i64;
    let mag: u32 = if xi >= 0 {
        xi as u32
    } else {
        ((-xi) as u64) as u32
    };
    let k: u32 = msb_u32(mag);
    proof {
        lemma2_to64();
        lemma_normalize_bounds(mag as nat, k as nat);
        lemma_u64_shl_is_mul(1, k as u64);
        lemma_u64_shl_is_mul(1, (52 - k) as u64);
    }
    let p: u64 = 1u64 << (k as u64);
    let q: u64 = 1u64 << ((52 - k) as u64);
    s + ((k as u64) + 1023) * 0x10_0000_0000_0000 + ((mag as u64) - p) * q
}

/// Widening an unsigned byte preserves the value: no truncation, no
/// wraparound.
pub proof fn lemma_widen_u8_exact(x: u8)
    ensures
        (x as u16) as int == x as int,
{
}

/// Widening a signed byte preserves the value by sign extension: lane
/// `-1` widens to `-1`, not to `255`.
pub proof fn lemma_widen_i8_exact(x: i8)
    ensures
        (x as i16) as int == x as int,
{
}

/// Widening an unsigned 16-bit lane preserves the value.
pub proof fn lemma_widen_u16_exact(x: u16)
    ensures
        (x as u32) as int == x as int,
{
}

/// Widening a signed 16-bit lane preserves the value by sign extension.
pub proof fn lemma_widen_i16_exact(x: i16)
    ensures
        (x as i32) as int == x as int,
{
}

/// Widening an unsigned 32-bit lane preserves the value.
pub proof fn lemma_widen_u32_exact(x: u32)
    ensures
        (x as u64) as int == x as int,
{
}

/// Widening a signed 32-bit lane preserves the value by sign extension.
pub proof fn lemma_widen_i32_exact(x: i32)
    ensures
        (x as i64) as int == x as int,
{
}

/// The value of the finite 32-bit float with bit pattern `b`, scaled by
/// `pow2(1075)`, which turns every finite value of either float width
/// into an integer.
pub open spec fn scaled_value_f32_bits(b: u32) -> int
    recommends
        ((b >> 23) & 0xFF) != 0xFF,
{
    let sign: int = if (b >> 31) == 1 {
        -1
    } else {
        1
    };
    let e = ((b >> 23) & 0xFF) as int;
    let m = (b & 0x7F_FFFF) as int;
    if e == 0 {
        sign * m * pow2(926)
    } else {
        sign * (m + 0x80_0000) * pow2((e + 925) as nat)
    }
}

/// The value of the finite 64-bit float with bit pattern `b`, scaled by
/// `pow2(1075)`.
pub open spec fn scaled_value_f64_bits(b: u64) -> int
    recommends
        ((b >> 52) & 0x7FF) != 0x7FF,
{
    let sign: int = if (b >> 63) == 1 {
        -1
    } else {
        1
    };
    let e = ((b >> 52) & 0x7FF) as int;
    let m = (b & 0xF_FFFF_FFFF_FFFF) as int;
    if e == 0 {
        sign * m * 2
    } else {
        sign * (m + 0x10_0000_0000_0000) * pow2(e as nat)
    }
}

/// The fields of a bit pattern assembled from a sign, an exponent and a
/// mantissa below their field widths come back out unchanged.
proof fn lemma_assembled_fields(s: u64, e: u64, m: u64, v: u64)
    requires
        s < 2,
        e < 0x800,
        m < 0x10_0000_0000_0000,
        v == s * 0x8000_0000_0000_0000 + e * 0x10_0000_0000_0000 + m,
    ensures
        (v >> 63) == s,
        ((v >> 52) & 0x7FF) == e,
        (v & 0xF_FFFF_FFFF_FFFF) == m,
{
    assert((v >> 63) == s && ((v >> 52) & 0x7FF) == e && (v & 0xF_FFFF_FFFF_FFFF) == m)
        by (bit_vector)
        requires
            s < 2,
            e < 0x800,
            m < 0x10_0000_0000_0000,
            v == s * 0x8000_0000_0000_0000 + e * 0x10_0000_0000_0000 + m,
    ;
}

/// Widening a finite 32-bit float bit pattern yields a finite 64-bit
/// float bit pattern with exactly the same value.
pub proof fn lemma_widen_f32_exact(b: u32)
    requires
        ((b >> 23) & 0xFF) != 0xFF,
    ensures
        ((widen_f32_bits(b) >> 52) & 0x7FF) != 0x7FF,
        scaled_value_f64_bits(widen_f32_bits(b)) == scaled_value_f32_bits(b),
{
    lemma_split_fields(b);
    lemma2_to64();
    lemma2_to64_rest();
    let s = ((b >> 31) as u64);
    let e = (((b >> 23) & 0xFF) as u64);
    let m = ((b & 0x7F_FFFF) as u64);
    let v = widen_f32_bits(b);
    let sgn: int = if s == 1 {
        -1
    } else {
        1
    };
    if e == 0 && m == 0 {
        lemma_assembled_fields(s, 0, 0, v);
        assert(sgn * 0 * 2 == 0);
        assert(sgn * 0 * pow2(926) == 0) by (nonlinear_arith);
    } else if e == 0 {
        let k = msb(m as nat);
        lemma_msb_lt(m as nat, 23);
        lemma_normalize_bounds(m as nat, k);
        let mm = (m - pow2(k)) * pow2((52 - k) as nat);
        lemma_assembled_fields(s, (k + 874) as u64, mm as u64, v);
        lemma_pow2_adds(k, (52 - k) as nat);
        assert(mm + pow2(52) == m * pow2((52 - k) as nat)) by (nonlinear_arith)
            requires
                pow2(k) <= m,
                mm == (m - pow2(k)) * pow2((52 - k) as nat),
                pow2(52) == pow2(k) * pow2((52 - k) as nat),
        ;
        lemma_pow2_adds((52 - k) as nat, k + 874);
        assert((mm + pow2(52)) * pow2(k + 874) == m * pow2(926)) by (nonlinear_arith)
            requires
                mm + pow2(52) == m * pow2((52 - k) as nat),
                pow2((52 - k) as nat) * pow2(k + 874) == pow2((52 - k) as nat + k + 874),
                (52 - k) as nat + k + 874 == 926,
        ;
        assert((sgn * (mm + pow2(52))) * pow2(k + 874) == (sgn * m) * pow2(926))
            by (nonlinear_arith)
            requires
                (mm + pow2(52)) * pow2(k + 874) == m * pow2(926),
        ;
    } else {
        let mm = m * 0x2000_0000;
        lemma_assembled_fields(s, (e + 896) as u64, mm as u64, v);
        lemma_pow2_adds(29, (e + 896) as nat);
        assert((mm + pow2(52)) * pow2((e + 896) as nat) == (m + 0x80_0000) * pow2(
            (e + 925) as nat,
        )) by (nonlinear_arith)
            requires
                m < 0x80_0000,
                mm == m * 0x2000_0000,
                pow2(52) == 0x10_0000_0000_0000,
                pow2(29) == 0x2000_0000,
                pow2(29) * pow2((e + 896) as nat) == pow2((e + 925) as nat),
        ;
        assert((sgn * (mm + pow2(52))) * pow2((e + 896) as nat) == (sgn * (m + 0x80_0000)) * pow2(
            (e + 925) as nat,
        )) by (nonlinear_arith)
            requires
                (mm + pow2(52)) * pow2((e + 896) as nat) == (m + 0x80_0000) * pow2(
                    (e + 925) as nat,
                ),
        ;
    }
}

/// Widening an infinite or NaN 32-bit float bit pattern keeps the sign
/// and the class: an infinity stays an infinity, and a NaN stays a NaN
/// carrying its payload shifted up 29 bits with the quiet bit set.
pub proof fn lemma_widen_f32_special(b: u32)
    requires
        ((b >> 23) & 0xFF) == 0xFF,
    ensures
        ((widen_f32_bits(b) >> 52) & 0x7FF) == 0x7FF,
        (widen_f32_bits(b) >> 63) == (b >> 31) as u64,
        (b & 0x7F_FFFF) == 0 ==> (widen_f32_bits(b) & 0xF_FFFF_FFFF_FFFF) == 0,
        (b & 0x7F_FFFF) != 0 ==> (widen_f32_bits(b) & 0xF_FFFF_FFFF_FFFF) == 0x8_0000_0000_0000
            + ((b & 0x3F_FFFF) as u64) * 0x2000_0000,
{
    lemma_split_fields(b);
    let s = ((b >> 31) as u64);
    let m = ((b & 0x7F_FFFF) as u64);
    let v = widen_f32_bits(b);
    if m == 0 {
        lemma_assembled_fields(s, 0x7FF, 0, v);
    } else {
        assert((b & 0x7F_FFFF) % 0x40_0000 == (b & 0x3F_FFFF)) by (bit_vector);
        lemma_assembled_fields(
            s,
            0x7FF,
            (0x8_0000_0000_0000 + ((b & 0x3F_FFFF) as u64) * 0x2000_0000) as u64,
            v,
        );
    }
}

/// Converting a signed 32-bit integer to a 64-bit float bit pattern
/// represents exactly the integer's value.
pub proof fn lemma_i32_conversion_exact(x: i32)
    ensures
        ((f64_bits_of_i32(x) >> 52) & 0x7FF) != 0x7FF,
        scaled_value_f64_bits(f64_bits_of_i32(x)) == (x as int) * pow2(1075),
{
    lemma2_to64();
    lemma2_to64_rest();
    let v = f64_bits_of_i32(x);
    if x == 0 {
        lemma_assembled_fields(0, 0, 0, v);
    } else {
        let s: u64 = if x < 0 {
            1
        } else {
            0
        };
        let mag: int = if x >= 0 {
            x as int
        } else {
            -(x as int)
        };
        let k = msb(mag as nat);
        lemma_msb_lt(mag as nat, 32);
        lemma_normalize_bounds(mag as nat, k);
        let mm = (mag - pow2(k)) * pow2((52 - k) as nat);
        lemma_assembled_fields(s, (k + 1023) as u64, mm as u64, v);
        lemma_pow2_adds(k, (52 - k) as nat);
        assert(mm + pow2(52) == mag * pow2((52 - k) as nat)) by (nonlinear_arith)
            requires
                pow2(k) <= mag,
                mm == (mag - pow2(k)) * pow2((52 - k) as nat),
                pow2(52) == pow2(k) * pow2((52 - k) as nat),
        ;
        lemma_pow2_adds((52 - k) as nat, k + 1023);
        assert((mm + pow2(52)) * pow2(k + 1023) == mag * pow2(1075)) by (nonlinear_arith)
            requires
                mm + pow2(52) == mag * pow2((52 - k) as nat),
                pow2((52 - k) as nat) * pow2(k + 1023) == pow2((52 - k) as nat + k + 1023),
                (52 - k) as nat + k + 1023 == 1075,
        ;
        let sgn: int = if s == 1 {
            -1
        } else {
            1
        };
        assert((sgn * (mm + pow2(52))) * pow2(k + 1023) == (sgn * mag) * pow2(1075))
            by (nonlinear_arith)
            requires
                (mm + pow2(52)) * pow2(k + 1023) == mag * pow2(1075),
        ;
        assert(sgn * mag == x as int) by (nonlinear_arith)
            requires
                x < 0 ==> sgn == -1 && mag == -(x as int),
                x >= 0 ==> sgn == 1 && mag == x as int,
        ;
    }
}

} // verus!
