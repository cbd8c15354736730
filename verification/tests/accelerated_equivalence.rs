//! The accelerated converter and the fallback converter must produce
//! bit-identical output vectors on every input, for every pair where
//! both exist; pairs without an accelerated implementation resolve to
//! the fallback on every build.

use faster::Upcast;
use faster::f32x16;
use faster::f32x4;
use faster::f32x8;
use faster::f64x2;
use faster::f64x4;
use faster::f64x8;
use faster::i16x16;
use faster::i16x8;
use faster::i32x16;
use faster::i32x4;
use faster::i32x8;
use faster::i64x2;
use faster::i64x4;
use faster::i64x8;
use faster::u16x16;
use faster::u16x8;
use faster::u32x16;
use faster::u32x4;
use faster::u32x8;
use faster::u64x2;
use faster::u64x4;
use faster::u64x8;
use faster::u8x16;
use faster::u8x32;
use faster::x86;

fn sample_bytes() -> Vec<[u8; 32]> {
    let mut samples = vec![[0u8; 32], [0xFFu8; 32], [1u8; 32], [0x80u8; 32]];
    let mut ramp = [0u8; 32];
    for (i, b) in ramp.iter_mut().enumerate() {
        *b = i as u8;
    }
    samples.push(ramp);
    let mut mixed = [0u8; 32];
    for (i, b) in mixed.iter_mut().enumerate() {
        *b = (i as u8).wrapping_mul(37).wrapping_add(0x9E);
    }
    samples.push(mixed);
    samples
}

fn sample_words() -> Vec<[u32; 16]> {
    let mut samples = vec![
        [0u32; 16],
        [u32::MAX; 16],
        [1u32; 16],
        [0x8000_0000u32; 16],
    ];
    let mut mixed = [0u32; 16];
    for (i, w) in mixed.iter_mut().enumerate() {
        *w = (i as u32).wrapping_mul(0x9E37_79B9).wrapping_add(0x0123_4567);
    }
    samples.push(mixed);
    samples
}

#[test]
fn equivalence_u8x16_to_u16x8() {
    for s in sample_bytes() {
        let v = u8x16::new(
            s[0], s[1], s[2], s[3], s[4], s[5], s[6], s[7], s[8], s[9], s[10], s[11], s[12], s[13],
            s[14], s[15],
        );
        let (flo, fhi): (u16x8, u16x8) = v.upcast();
        let (alo, ahi) = x86::upcast_u8x16_to_u16x8(v);
        for i in 0..8 {
            assert_eq!(flo.extract(i), alo.extract(i));
            assert_eq!(fhi.extract(i), ahi.extract(i));
        }
    }
}

#[test]
fn equivalence_i8x16_to_i16x8() {
    for s in sample_bytes() {
        let v = u8x16::new(
            s[0], s[1], s[2], s[3], s[4], s[5], s[6], s[7], s[8], s[9], s[10], s[11], s[12], s[13],
            s[14], s[15],
        )
        .as_i8x16();
        let (flo, fhi): (i16x8, i16x8) = v.upcast();
        let (alo, ahi) = x86::upcast_i8x16_to_i16x8(v);
        for i in 0..8 {
            assert_eq!(flo.extract(i), alo.extract(i));
            assert_eq!(fhi.extract(i), ahi.extract(i));
        }
    }
}

#[test]
fn equivalence_u16x8_to_u32x4() {
    let v = u16x8::new(0, 1, 0x7FFF, 0x8000, 0xFFFF, 0xFFFE, 0x1234, 0xABCD);
    let (flo, fhi): (u32x4, u32x4) = v.upcast();
    let (alo, ahi) = x86::upcast_u16x8_to_u32x4(v);
    for i in 0..4 {
        assert_eq!(flo.extract(i), alo.extract(i));
        assert_eq!(fhi.extract(i), ahi.extract(i));
    }
}

#[test]
fn equivalence_i16x8_to_i32x4() {
    let v = i16x8::new(i16::MIN, -1, 0, i16::MAX, 1, -2, 0x1234, -0x1234);
    let (flo, fhi): (i32x4, i32x4) = v.upcast();
    let (alo, ahi) = x86::upcast_i16x8_to_i32x4(v);
    for i in 0..4 {
        assert_eq!(flo.extract(i), alo.extract(i));
        assert_eq!(fhi.extract(i), ahi.extract(i));
    }
}

#[test]
fn equivalence_u8x32_to_u16x16() {
    for s in sample_bytes() {
        let v = u8x32::new(
            s[0], s[1], s[2], s[3], s[4], s[5], s[6], s[7], s[8], s[9], s[10], s[11], s[12], s[13],
            s[14], s[15], s[16], s[17], s[18], s[19], s[20], s[21], s[22], s[23], s[24], s[25],
            s[26], s[27], s[28], s[29], s[30], s[31],
        );
        let (flo, fhi): (u16x16, u16x16) = v.upcast();
        let (alo, ahi) = x86::upcast_u8x32_to_u16x16(v);
        for i in 0..16 {
            assert_eq!(flo.extract(i), alo.extract(i));
            assert_eq!(fhi.extract(i), ahi.extract(i));
        }
    }
}

#[test]
fn equivalence_i8x32_to_i16x16() {
    for s in sample_bytes() {
        let v = u8x32::new(
            s[0], s[1], s[2], s[3], s[4], s[5], s[6], s[7], s[8], s[9], s[10], s[11], s[12], s[13],
            s[14], s[15], s[16], s[17], s[18], s[19], s[20], s[21], s[22], s[23], s[24], s[25],
            s[26], s[27], s[28], s[29], s[30], s[31],
        )
        .as_i8x32();
        let (flo, fhi): (i16x16, i16x16) = v.upcast();
        let (alo, ahi) = x86::upcast_i8x32_to_i16x16(v);
        for i in 0..16 {
            assert_eq!(flo.extract(i), alo.extract(i));
            assert_eq!(fhi.extract(i), ahi.extract(i));
        }
    }
}

#[test]
fn equivalence_u16x16_to_u32x8() {
    let v = u16x16::new(
        0, 1, 0x7FFF, 0x8000, 0xFFFF, 0xFFFE, 0x1234, 0xABCD, 2, 3, 4, 5, 60000, 50000, 40000,
        30000,
    );
    let (flo, fhi): (u32x8, u32x8) = v.upcast();
    let (alo, ahi) = x86::upcast_u16x16_to_u32x8(v);
    for i in 0..8 {
        assert_eq!(flo.extract(i), alo.extract(i));
        assert_eq!(fhi.extract(i), ahi.extract(i));
    }
}

#[test]
fn equivalence_i16x16_to_i32x8() {
    let v = i16x16::new(
        i16::MIN, -1, 0, i16::MAX, 1, -2, 0x1234, -0x1234, 2, -3, 4, -5, 30000, -30000, 12345,
        -12345,
    );
    let (flo, fhi): (i32x8, i32x8) = v.upcast();
    let (alo, ahi) = x86::upcast_i16x16_to_i32x8(v);
    for i in 0..8 {
        assert_eq!(flo.extract(i), alo.extract(i));
        assert_eq!(fhi.extract(i), ahi.extract(i));
    }
}

#[test]
fn equivalence_i32x4_to_i64x2() {
    let v = i32x4::new(i32::MIN, -1, 0, i32::MAX);
    let (flo, fhi): (i64x2, i64x2) = v.upcast();
    let (alo, ahi) = x86::upcast_i32x4_to_i64x2(v);
    for i in 0..2 {
        assert_eq!(flo.extract(i), alo.extract(i));
        assert_eq!(fhi.extract(i), ahi.extract(i));
    }
}

#[test]
fn equivalence_u32x4_to_u64x2() {
    let v = u32x4::new(0, u32::MAX, 0x8000_0000, 0x1234_5678);
    let (flo, fhi): (u64x2, u64x2) = v.upcast();
    let (alo, ahi) = x86::upcast_u32x4_to_u64x2(v);
    for i in 0..2 {
        assert_eq!(flo.extract(i), alo.extract(i));
        assert_eq!(fhi.extract(i), ahi.extract(i));
    }
}

#[test]
fn equivalence_i32x4_to_f64x2() {
    let v = i32x4::new(i32::MIN, -1, 0, i32::MAX);
    let (flo, fhi): (f64x2, f64x2) = v.upcast();
    let (alo, ahi) = x86::upcast_i32x4_to_f64x2(v);
    for i in 0..2 {
        assert_eq!(flo.extract(i), alo.extract(i));
        assert_eq!(fhi.extract(i), ahi.extract(i));
    }
}

#[test]
fn equivalence_f32x4_to_f64x2() {
    let samples = [
        [
            0.0f32.to_bits(),
            (-1.5f32).to_bits(),
            f32::INFINITY.to_bits(),
            f32::MIN_POSITIVE.to_bits(),
        ],
        [
            (-0.0f32).to_bits(),
            f32::NEG_INFINITY.to_bits(),
            f32::NAN.to_bits(),
            0x7FC0_1234,  // quiet NaN with a payload
        ],
        [
            0x0000_0001,  // smallest subnormal
            0x807F_FFFF,  // largest negative subnormal
            f32::MAX.to_bits(),
            1.0f32.to_bits(),
        ],
    ];
    for bits in samples {
        let v = f32x4::new(bits[0], bits[1], bits[2], bits[3]);
        let (flo, fhi): (f64x2, f64x2) = v.upcast();
        let (alo, ahi) = x86::upcast_f32x4_to_f64x2(v);
        for i in 0..2 {
            assert_eq!(flo.extract(i), alo.extract(i));
            assert_eq!(fhi.extract(i), ahi.extract(i));
        }
    }
}

#[test]
fn equivalence_i32x8_to_i64x4_and_f64x4() {
    let v = i32x8::new(i32::MIN, -1, 0, i32::MAX, 7, -7, 1 << 30, -(1 << 30));
    let (flo, fhi): (i64x4, i64x4) = v.upcast();
    let (alo, ahi) = x86::upcast_i32x8_to_i64x4(v);
    for i in 0..4 {
        assert_eq!(flo.extract(i), alo.extract(i));
        assert_eq!(fhi.extract(i), ahi.extract(i));
    }
    let (glo, ghi): (f64x4, f64x4) = v.upcast();
    let (blo, bhi) = x86::upcast_i32x8_to_f64x4(v);
    for i in 0..4 {
        assert_eq!(glo.extract(i), blo.extract(i));
        assert_eq!(ghi.extract(i), bhi.extract(i));
    }
}

#[test]
fn equivalence_u32x8_to_u64x4() {
    let v = u32x8::new(0, 1, u32::MAX, 0x8000_0000, 2, 3, 0xDEAD_BEEF, 0xCAFE_F00D);
    let (flo, fhi): (u64x4, u64x4) = v.upcast();
    let (alo, ahi) = x86::upcast_u32x8_to_u64x4(v);
    for i in 0..4 {
        assert_eq!(flo.extract(i), alo.extract(i));
        assert_eq!(fhi.extract(i), ahi.extract(i));
    }
}

#[test]
fn equivalence_f32x8_to_f64x4() {
    let values = [0.5f32, -1.0, 2.75, -3.5, 1e30, -1e-30, 1234.5, -0.0];
    let bits: Vec<u32> = values.iter().map(|x| x.to_bits()).collect();
    let v = f32x8::new(
        bits[0], bits[1], bits[2], bits[3], bits[4], bits[5], bits[6], bits[7],
    );
    let (flo, fhi): (f64x4, f64x4) = v.upcast();
    let (alo, ahi) = x86::upcast_f32x8_to_f64x4(v);
    for i in 0..4 {
        assert_eq!(flo.extract(i), alo.extract(i));
        assert_eq!(fhi.extract(i), ahi.extract(i));
    }
}

#[test]
fn fallback_only_pairs_resolve_to_the_fallback() {
    for s in sample_words() {
        let v = u32x16::new(
            s[0], s[1], s[2], s[3], s[4], s[5], s[6], s[7], s[8], s[9], s[10], s[11], s[12], s[13],
            s[14], s[15],
        );
        let (flo, fhi): (u64x8, u64x8) = v.upcast();
        let (alo, ahi) = x86::upcast_u32x16_to_u64x8(v);
        for i in 0..8 {
            assert_eq!(flo.extract(i), alo.extract(i));
            assert_eq!(fhi.extract(i), ahi.extract(i));
        }
    }
    let w = i32x16::new(
        i32::MIN, -1, 0, i32::MAX, 2, -2, 3, -3, 4, -4, 5, -5, 6, -6, 7, -7,
    );
    let (flo, fhi): (i64x8, i64x8) = <i32x16 as Upcast<i64x8>>::upcast(w);
    let (alo, ahi) = x86::upcast_i32x16_to_i64x8(w);
    for i in 0..8 {
        assert_eq!(flo.extract(i), alo.extract(i));
        assert_eq!(fhi.extract(i), ahi.extract(i));
    }
    let (glo, ghi): (f64x8, f64x8) = <i32x16 as Upcast<f64x8>>::upcast(w);
    let (blo, bhi) = x86::upcast_i32x16_to_f64x8(w);
    for i in 0..8 {
        assert_eq!(glo.extract(i), blo.extract(i));
        assert_eq!(ghi.extract(i), bhi.extract(i));
    }
    let bits: Vec<u32> = (0..16).map(|i| (i as f32 * 1.5 - 8.0).to_bits()).collect();
    let f = f32x16::new(
        bits[0], bits[1], bits[2], bits[3], bits[4], bits[5], bits[6], bits[7], bits[8], bits[9],
        bits[10], bits[11], bits[12], bits[13], bits[14], bits[15],
    );
    let (hlo, hhi): (f64x8, f64x8) = f.upcast();
    let (clo, chi) = x86::upcast_f32x16_to_f64x8(f);
    for i in 0..8 {
        assert_eq!(hlo.extract(i), clo.extract(i));
        assert_eq!(hhi.extract(i), chi.extract(i));
    }
}
