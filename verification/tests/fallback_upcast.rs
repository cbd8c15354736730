//! The fallback converter: lane partition and value preservation for
//! every registered pair.

use faster::Upcast;
use faster::f32x16;
use faster::f32x4;
use faster::f32x8;
use faster::f64x2;
use faster::f64x4;
use faster::f64x8;
use faster::i16x16;
use faster::i16x8;
use faster::i32x16;
use faster::i32x4;
use faster::i32x8;
use faster::i64x2;
use faster::i64x4;
use faster::i64x8;
use faster::i8x16;
use faster::i8x32;
use faster::u16x16;
use faster::u16x8;
use faster::u32x16;
use faster::u32x4;
use faster::u32x8;
use faster::u64x2;
use faster::u64x4;
use faster::u64x8;
use faster::u8x16;
use faster::u8x32;

#[test]
fn upcast_u16x8_counts_through_the_lanes() {
    // Widening [0, 1, 2, ..., 7] must give [0, 1, 2, 3] and [4, 5, 6, 7].
    let v = u16x8::new(0, 1, 2, 3, 4, 5, 6, 7);
    let (lo, hi): (u32x4, u32x4) = v.upcast();
    for i in 0..4 {
        assert_eq!(lo.extract(i), i as u32);
        assert_eq!(hi.extract(i), 4 + i as u32);
    }
}

#[test]
fn upcast_i32x4_extremes_to_i64x2() {
    let v = i32x4::new(i32::MIN, -1, 0, i32::MAX);
    let (lo, hi): (i64x2, i64x2) = v.upcast();
    assert_eq!(lo.extract(0), -2147483648i64);
    assert_eq!(lo.extract(1), -1i64);
    assert_eq!(hi.extract(0), 0i64);
    assert_eq!(hi.extract(1), 2147483647i64);
}

#[test]
fn upcast_i8x16_sign_extends() {
    // Lane -1 (0xFF) must widen to -1 (0xFFFF), not to 255.
    let v = i8x16::new(-1, -128, 127, 0, 1, -2, 2, -3, 3, -4, 4, -5, 5, -6, 6, -7);
    let (lo, hi): (i16x8, i16x8) = v.upcast();
    assert_eq!(lo.extract(0), -1i16);
    assert_eq!(lo.extract(0) as u16, 0xFFFF);
    assert_eq!(lo.extract(1), -128i16);
    assert_eq!(lo.extract(2), 127i16);
    for i in 0..8 {
        assert_eq!(lo.extract(i) as i8, v.extract(i));
        assert_eq!(hi.extract(i) as i8, v.extract(i + 8));
    }
}

#[test]
fn upcast_u8x16_zero_extends() {
    let v = u8x16::new(0, 1, 0x7F, 0x80, 0xFF, 5, 6, 7, 8, 9, 10, 11, 12, 13, 14, 0xFE);
    let (lo, hi): (u16x8, u16x8) = v.upcast();
    for i in 0..8 {
        assert_eq!(lo.extract(i), v.extract(i) as u16);
        assert_eq!(hi.extract(i), v.extract(i + 8) as u16);
    }
    assert_eq!(hi.extract(7), 0xFE);
}

#[test]
fn upcast_u8x32_partitions_the_halves() {
    let mut lanes = [0u8; 32];
    for (i, lane) in lanes.iter_mut().enumerate() {
        *lane = (7 * i + 3) as u8;
    }
    let v = u8x32::new(
        lanes[0], lanes[1], lanes[2], lanes[3], lanes[4], lanes[5], lanes[6], lanes[7], lanes[8],
        lanes[9], lanes[10], lanes[11], lanes[12], lanes[13], lanes[14], lanes[15], lanes[16],
        lanes[17], lanes[18], lanes[19], lanes[20], lanes[21], lanes[22], lanes[23], lanes[24],
        lanes[25], lanes[26], lanes[27], lanes[28], lanes[29], lanes[30], lanes[31],
    );
    let (lo, hi): (u16x16, u16x16) = v.upcast();
    for i in 0..16 {
        assert_eq!(lo.extract(i), lanes[i] as u16);
        assert_eq!(hi.extract(i), lanes[i + 16] as u16);
    }
}

#[test]
fn upcast_i8x32_partitions_the_halves() {
    let mut lanes = [0i8; 32];
    for (i, lane) in lanes.iter_mut().enumerate() {
        *lane = (13 * i as i32 - 128) as i8;
    }
    let v = i8x32::new(
        lanes[0], lanes[1], lanes[2], lanes[3], lanes[4], lanes[5], lanes[6], lanes[7], lanes[8],
        lanes[9], lanes[10], lanes[11], lanes[12], lanes[13], lanes[14], lanes[15], lanes[16],
        lanes[17], lanes[18], lanes[19], lanes[20], lanes[21], lanes[22], lanes[23], lanes[24],
        lanes[25], lanes[26], lanes[27], lanes[28], lanes[29], lanes[30], lanes[31],
    );
    let (lo, hi): (i16x16, i16x16) = v.upcast();
    for i in 0..16 {
        assert_eq!(lo.extract(i), lanes[i] as i16);
        assert_eq!(hi.extract(i), lanes[i + 16] as i16);
    }
}

#[test]
fn upcast_u16x16_partitions_the_halves() {
    let v = u16x16::new(
        0, 1, 0x7FFF, 0x8000, 0xFFFF, 5, 6, 7, 1000, 2000, 3000, 4000, 50000, 60000, 65534, 65535,
    );
    let (lo, hi): (u32x8, u32x8) = v.upcast();
    for i in 0..8 {
        assert_eq!(lo.extract(i), v.extract(i) as u32);
        assert_eq!(hi.extract(i), v.extract(i + 8) as u32);
    }
}

#[test]
fn upcast_i16x16_sign_extends() {
    let v = i16x16::new(
        i16::MIN, -1, 0, i16::MAX, 2, -2, 3, -3, 100, -100, 1000, -1000, 10000, -10000, 32000,
        -32000,
    );
    let (lo, hi): (i32x8, i32x8) = v.upcast();
    for i in 0..8 {
        assert_eq!(lo.extract(i), v.extract(i) as i32);
        assert_eq!(hi.extract(i), v.extract(i + 8) as i32);
    }
}

#[test]
fn upcast_i16x8_sign_extends() {
    let v = i16x8::new(i16::MIN, -1, 0, i16::MAX, 7, -7, 300, -300);
    let (lo, hi): (i32x4, i32x4) = v.upcast();
    for i in 0..4 {
        assert_eq!(lo.extract(i), v.extract(i) as i32);
        assert_eq!(hi.extract(i), v.extract(i + 4) as i32);
    }
}

#[test]
fn upcast_u32x4_zero_extends_to_u64x2() {
    let v = u32x4::new(0, u32::MAX, 0x8000_0000, 12345);
    let (lo, hi): (u64x2, u64x2) = v.upcast();
    assert_eq!(lo.extract(0), 0u64);
    assert_eq!(lo.extract(1), 0xFFFF_FFFFu64);
    assert_eq!(hi.extract(0), 0x8000_0000u64);
    assert_eq!(hi.extract(1), 12345u64);
}

#[test]
fn upcast_u32x8_zero_extends_to_u64x4() {
    let v = u32x8::new(0, 1, u32::MAX, 0x8000_0000, 2, 3, 0xDEAD_BEEF, 0xCAFE_F00D);
    let (lo, hi): (u64x4, u64x4) = v.upcast();
    for i in 0..4 {
        assert_eq!(lo.extract(i), v.extract(i) as u64);
        assert_eq!(hi.extract(i), v.extract(i + 4) as u64);
    }
}

#[test]
fn upcast_i32x8_sign_extends_to_i64x4() {
    let v = i32x8::new(i32::MIN, -1, 0, i32::MAX, 7, -7, 1 << 30, -(1 << 30));
    let (lo, hi): (i64x4, i64x4) = v.upcast();
    for i in 0..4 {
        assert_eq!(lo.extract(i), v.extract(i) as i64);
        assert_eq!(hi.extract(i), v.extract(i + 4) as i64);
    }
}

#[test]
fn upcast_u32x16_zero_extends_to_u64x8() {
    let v = u32x16::new(
        0, 1, 2, 3, u32::MAX, 5, 6, 7, 8, 9, 0x8000_0000, 11, 12, 13, 14, 0xFFFF_FFFE,
    );
    let (lo, hi): (u64x8, u64x8) = v.upcast();
    for i in 0..8 {
        assert_eq!(lo.extract(i), v.extract(i) as u64);
        assert_eq!(hi.extract(i), v.extract(i + 8) as u64);
    }
}

#[test]
fn upcast_i32x16_sign_extends_to_i64x8() {
    let v = i32x16::new(
        i32::MIN, -1, 0, i32::MAX, 2, -2, 3, -3, 4, -4, 5, -5, 6, -6, 7, -7,
    );
    let (lo, hi): (i64x8, i64x8) = <i32x16 as Upcast<i64x8>>::upcast(v);
    for i in 0..8 {
        assert_eq!(lo.extract(i), v.extract(i) as i64);
        assert_eq!(hi.extract(i), v.extract(i + 8) as i64);
    }
}

#[test]
fn upcast_f32x4_matches_native_float_widening() {
    let bits: [u32; 4] = [
        1.5f32.to_bits(),
        (-0.25f32).to_bits(),
        3.25f32.to_bits(),
        (-123.75f32).to_bits(),
    ];
    let v = f32x4::new(bits[0], bits[1], bits[2], bits[3]);
    let (lo, hi): (f64x2, f64x2) = v.upcast();
    for i in 0..2 {
        assert_eq!(lo.extract(i), (f32::from_bits(bits[i]) as f64).to_bits());
        assert_eq!(hi.extract(i), (f32::from_bits(bits[i + 2]) as f64).to_bits());
    }
    assert_eq!(f64::from_bits(lo.extract(0)), 1.5f64);
    assert_eq!(f64::from_bits(hi.extract(1)), -123.75f64);
}

#[test]
fn upcast_i32x4_matches_native_float_conversion() {
    let v = i32x4::new(i32::MIN, -1, 0, i32::MAX);
    let (lo, hi): (f64x2, f64x2) = v.upcast();
    assert_eq!(f64::from_bits(lo.extract(0)), -2147483648.0f64);
    assert_eq!(f64::from_bits(lo.extract(1)), -1.0f64);
    assert_eq!(f64::from_bits(hi.extract(0)), 0.0f64);
    assert_eq!(f64::from_bits(hi.extract(1)), 2147483647.0f64);
}

#[test]
fn upcast_f32x8_matches_native_float_widening() {
    let values = [0.5f32, -1.0, 2.75, -3.5, 1e30, -1e-30, 1234.5, -0.0];
    let bits: Vec<u32> = values.iter().map(|x| x.to_bits()).collect();
    let v = f32x8::new(
        bits[0], bits[1], bits[2], bits[3], bits[4], bits[5], bits[6], bits[7],
    );
    let (lo, hi): (f64x4, f64x4) = v.upcast();
    for i in 0..4 {
        assert_eq!(lo.extract(i), (values[i] as f64).to_bits());
        assert_eq!(hi.extract(i), (values[i + 4] as f64).to_bits());
    }
}

#[test]
fn upcast_i32x8_matches_native_float_conversion() {
    let v = i32x8::new(i32::MIN, -1, 0, i32::MAX, 7, -7, 1 << 24, -(1 << 24));
    let (lo, hi): (f64x4, f64x4) = v.upcast();
    for i in 0..4 {
        assert_eq!(lo.extract(i), (v.extract(i) as f64).to_bits());
        assert_eq!(hi.extract(i), (v.extract(i + 4) as f64).to_bits());
    }
}

#[test]
fn upcast_f32x16_matches_native_float_widening() {
    let values = [
        0.0f32, -0.0, 1.0, -1.0, 0.5, -0.5, 3.14159, -2.71828, 1e10, -1e10, 1e-10, -1e-10,
        f32::MAX, f32::MIN, f32::MIN_POSITIVE, -f32::MIN_POSITIVE,
    ];
    let bits: Vec<u32> = values.iter().map(|x| x.to_bits()).collect();
    let v = f32x16::new(
        bits[0], bits[1], bits[2], bits[3], bits[4], bits[5], bits[6], bits[7], bits[8], bits[9],
        bits[10], bits[11], bits[12], bits[13], bits[14], bits[15],
    );
    let (lo, hi): (f64x8, f64x8) = v.upcast();
    for i in 0..8 {
        assert_eq!(lo.extract(i), (values[i] as f64).to_bits());
        assert_eq!(hi.extract(i), (values[i + 8] as f64).to_bits());
    }
}

#[test]
fn upcast_i32x16_matches_native_float_conversion() {
    let v = i32x16::new(
        i32::MIN, -1, 0, i32::MAX, 2, -2, 1 << 23, -(1 << 23), 16_777_217, -16_777_217, 5, -5, 6,
        -6, 7, -7,
    );
    let (lo, hi): (f64x8, f64x8) = <i32x16 as Upcast<f64x8>>::upcast(v);
    for i in 0..8 {
        assert_eq!(lo.extract(i), (v.extract(i) as f64).to_bits());
        assert_eq!(hi.extract(i), (v.extract(i + 8) as f64).to_bits());
    }
}
