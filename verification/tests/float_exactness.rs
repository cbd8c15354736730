//! The lane-level float conversions against the host's own conversions:
//! every 32-bit float bit pattern must widen to the 64-bit pattern the
//! native widening produces, and every 32-bit integer must convert to
//! the exact 64-bit float.

use faster::widen_lane_f32;
use faster::widen_lane_i32;

fn native_widen(bits: u32) -> u64 {
    (f32::from_bits(bits) as f64).to_bits()
}

#[test]
fn widen_zero_and_signed_zero() {
    assert_eq!(widen_lane_f32(0x0000_0000), 0x0000_0000_0000_0000);
    assert_eq!(widen_lane_f32(0x8000_0000), 0x8000_0000_0000_0000);
}

#[test]
fn widen_simple_normals() {
    for v in [
        1.0f32, -1.0, 0.5, -0.5, 2.0, 1.5, -123.75, 3.14159, 1e30, -1e-30, f32::MAX,
        f32::MIN, f32::MIN_POSITIVE,
    ] {
        let b = v.to_bits();
        assert_eq!(widen_lane_f32(b), native_widen(b));
        assert_eq!(f64::from_bits(widen_lane_f32(b)), v as f64);
    }
}

#[test]
fn widen_one_is_exact() {
    assert_eq!(widen_lane_f32(0x3F80_0000), 0x3FF0_0000_0000_0000);
}

#[test]
fn widen_subnormals() {
    // Smallest, largest, and a middle subnormal, both signs.
    for b in [
        0x0000_0001u32,
        0x0000_0002,
        0x0000_0003,
        0x007F_FFFF,
        0x0040_0000,
        0x0012_3456,
        0x8000_0001,
        0x807F_FFFF,
        0x8040_0000,
    ] {
        assert_eq!(widen_lane_f32(b), native_widen(b), "pattern {b:#010X}");
        assert!(f32::from_bits(b).is_subnormal());
    }
}

#[test]
fn widen_infinities() {
    assert_eq!(widen_lane_f32(0x7F80_0000), f64::INFINITY.to_bits());
    assert_eq!(widen_lane_f32(0xFF80_0000), f64::NEG_INFINITY.to_bits());
}

#[test]
fn widen_nan_payloads() {
    // A quiet NaN keeps its payload, shifted up 29 bits; a signaling NaN
    // comes out quieted with the payload kept, as the hardware
    // conversion does.
    for b in [
        0x7FC0_0000u32,  // canonical quiet NaN
        0x7FC0_0001,
        0x7FFF_FFFF,
        0xFFC0_0000,
        0xFFD5_5555,
        0x7F80_0001,  // signaling
        0x7FBF_FFFF,
        0xFF80_0001,
    ] {
        assert_eq!(widen_lane_f32(b), native_widen(b), "pattern {b:#010X}");
        assert!(f64::from_bits(widen_lane_f32(b)).is_nan());
    }
}

#[test]
fn widen_sweep_of_bit_patterns() {
    // A deterministic sweep across the whole pattern space, hitting all
    // exponent fields.
    let mut b: u32 = 0;
    loop {
        assert_eq!(widen_lane_f32(b), native_widen(b), "pattern {b:#010X}");
        assert_eq!(widen_lane_f32(b ^ 0x8000_0000), native_widen(b ^ 0x8000_0000));
        b = match b.checked_add(0x0007_F713) {
            Some(next) => next,
            None => break,
        };
        if b > 0x8000_0000 {
            break;
        }
    }
}

#[test]
fn convert_i32_zero_and_units() {
    assert_eq!(widen_lane_i32(0), 0.0f64.to_bits());
    assert_eq!(widen_lane_i32(1), 1.0f64.to_bits());
    assert_eq!(widen_lane_i32(-1), (-1.0f64).to_bits());
}

#[test]
fn convert_i32_extremes() {
    assert_eq!(widen_lane_i32(i32::MIN), (-2147483648.0f64).to_bits());
    assert_eq!(widen_lane_i32(i32::MAX), 2147483647.0f64.to_bits());
}

#[test]
fn convert_i32_sweep() {
    let mut x: i64 = i32::MIN as i64;
    while x <= i32::MAX as i64 {
        let v = x as i32;
        assert_eq!(widen_lane_i32(v), (v as f64).to_bits(), "value {v}");
        x += 40_503_719;
    }
    for v in [2, -2, 255, -255, 65536, -65537, 16_777_216, -16_777_217] {
        assert_eq!(widen_lane_i32(v), (v as f64).to_bits());
    }
}
