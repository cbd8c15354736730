//! The accelerated converter, modeled instruction by instruction.
//!
//! Each function below either models one native instruction of the
//! 128-bit/256-bit SIMD families — a widening move that reads the lowest
//! lanes of its input, a lane shuffle driven by an immediate control
//! byte, or the move that takes the low half of a 256-bit register — or
//! composes those models into the shuffle-then-widen shape that the
//! hardware calls for: the low half of the input is widened directly,
//! and the high half is first repositioned into the low lanes by
//! shuffling the register as coarser words, then widened the same way,
//! because the native widening moves only read the lowest lanes of
//! their input register.
//!
//! Every composed path carries the same contract as the fallback
//! converter's `upcast`, so the two implementations agree bit for bit on
//! every input.

use vstd::prelude::*;

use crate::reinterpret::lemma_i16_roundtrip;
use crate::reinterpret::lemma_i32_roundtrip;
use crate::reinterpret::lemma_i8_roundtrip;
use crate::reinterpret::lemma_word32_of_bytes;
use crate::reinterpret::lemma_word32_of_halves;
use crate::reinterpret::lemma_word64_of_bytes;
use crate::reinterpret::lemma_word64_of_halves;
use crate::reinterpret::lemma_word64_of_words;
use crate::scalar::f64_bits_of_i32;
use crate::scalar::widen_f32_bits;
use crate::scalar::widen_lane_f32;
use crate::scalar::widen_lane_i32;
use crate::upcast::Upcast;
use crate::vecs::f32x16;
use crate::vecs::f32x4;
use crate::vecs::f32x8;
use crate::vecs::f64x2;
use crate::vecs::f64x4;
use crate::vecs::f64x8;
use crate::vecs::i16x16;
use crate::vecs::i16x8;
use crate::vecs::i32x16;
use crate::vecs::i32x4;
use crate::vecs::i32x8;
use crate::vecs::i64x2;
use crate::vecs::i64x4;
use crate::vecs::i64x8;
use crate::vecs::i8x16;
use crate::vecs::i8x32;
use crate::vecs::u16x16;
use crate::vecs::u16x8;
use crate::vecs::u32x16;
use crate::vecs::u32x4;
use crate::vecs::u32x8;
use crate::vecs::u64x2;
use crate::vecs::u64x4;
use crate::vecs::u64x8;
use crate::vecs::u8x16;
use crate::vecs::u8x32;

verus! {

/// Two-bit selector field `j` of an immediate shuffle control byte.
pub open spec fn sel4(imm: u8, j: u32) -> int
    recommends
        j < 4,
{
    ((imm >> ((2 * j) as u8)) & 3) as int
}

/// Every selector field of a control byte picks one of the four lanes.
proof fn lemma_sel4_bounds(imm: u8)
    ensures
        ((imm >> 0u8) & 3) < 4,
        ((imm >> 2u8) & 3) < 4,
        ((imm >> 4u8) & 3) < 4,
        ((imm >> 6u8) & 3) < 4,
{
    assert(((imm >> 0u8) & 3) < 4 && ((imm >> 2u8) & 3) < 4 && ((imm >> 4u8) & 3) < 4 && ((imm
        >> 6u8) & 3) < 4) by (bit_vector);
}

/// The selector fields of the control byte `0x0E` pick lanes 2, 3, 0, 0:
/// the pattern that moves the upper half of a register into the lower
/// lanes.
proof fn lemma_sel_0e()
    ensures
        sel4(0x0E, 0) == 2,
        sel4(0x0E, 1) == 3,
        sel4(0x0E, 2) == 0,
        sel4(0x0E, 3) == 0,
{
    assert(((0x0Eu8 >> ((2 * 0u32) as u8)) & 3) as int == 2 && ((0x0Eu8 >> ((2 * 1u32) as u8))
        & 3) as int == 3 && ((0x0Eu8 >> ((2 * 2u32) as u8)) & 3) as int == 0 && ((0x0Eu8 >> ((2
        * 3u32) as u8)) & 3) as int == 0) by (bit_vector);
}

/// Models the 128-bit lane shuffle with an immediate control: result lane
/// `j` is input lane `sel4(imm, j)`.
pub fn shuffle_epi32(v: u32x4, imm: u8) -> (r: u32x4)
    ensures
        r@.len() == 4,
        forall|j: int| 0 <= j < 4 ==> r@[j] == v@[sel4(imm, j as u32)],
{
    proof {
        lemma_sel4_bounds(imm);
    }
    u32x4::new(
        v.extract(((imm >> 0u8) & 3) as usize),
        v.extract(((imm >> 2u8) & 3) as usize),
        v.extract(((imm >> 4u8) & 3) as usize),
        v.extract(((imm >> 6u8) & 3) as usize),
    )
}

/// Models the 256-bit 64-bit-lane permute with an immediate control:
/// result lane `j` is input lane `sel4(imm, j)`.
pub fn permute4x64_epi64(v: u64x4, imm: u8) -> (r: u64x4)
    ensures
        r@.len() == 4,
        forall|j: int| 0 <= j < 4 ==> r@[j] == v@[sel4(imm, j as u32)],
{
    proof {
        lemma_sel4_bounds(imm);
    }
    u64x4::new(
        v.extract(((imm >> 0u8) & 3) as usize),
        v.extract(((imm >> 2u8) & 3) as usize),
        v.extract(((imm >> 4u8) & 3) as usize),
        v.extract(((imm >> 6u8) & 3) as usize),
    )
}

/// Models the move that takes the low 128 bits of a 256-bit register.
pub fn castsi256_si128(v: u64x4) -> (r: u64x2)
    ensures
        r@.len() == 2,
        r@[0] == v@[0],
        r@[1] == v@[1],
{
    u64x2::new(v.extract(0), v.extract(1))
}

/// Models the 128-bit widening move: the low eight unsigned byte lanes, zero-extended to 16 bits.
pub fn cvtepu8_epi16(v: u8x16) -> (r: u16x8)
    ensures
        r@.len() == 8,
        forall|i: int| 0 <= i < 8 ==> r@[i] == v@[i] as u16,
{
    u16x8::new(
        v.extract(0) as u16,
        v.extract(1) as u16,
        v.extract(2) as u16,
        v.extract(3) as u16,
        v.extract(4) as u16,
        v.extract(5) as u16,
        v.extract(6) as u16,
        v.extract(7) as u16,
    )
}

/// Models the 128-bit widening move: the low eight signed byte lanes, sign-extended to 16 bits.
pub fn cvtepi8_epi16(v: i8x16) -> (r: i16x8)
    ensures
        r@.len() == 8,
        forall|i: int| 0 <= i < 8 ==> r@[i] == v@[i] as i16,
{
    i16x8::new(
        v.extract(0) as i16,
        v.extract(1) as i16,
        v.extract(2) as i16,
        v.extract(3) as i16,
        v.extract(4) as i16,
        v.extract(5) as i16,
        v.extract(6) as i16,
        v.extract(7) as i16,
    )
}

/// Models the 128-bit widening move: the low four unsigned 16-bit lanes, zero-extended to 32 bits.
pub fn cvtepu16_epi32(v: u16x8) -> (r: u32x4)
    ensures
        r@.len() == 4,
        forall|i: int| 0 <= i < 4 ==> r@[i] == v@[i] as u32,
{
    u32x4::new(
        v.extract(0) as u32,
        v.extract(1) as u32,
        v.extract(2) as u32,
        v.extract(3) as u32,
    )
}

/// Models the 128-bit widening move: the low four signed 16-bit lanes, sign-extended to 32 bits.
pub fn cvtepi16_epi32(v: i16x8) -> (r: i32x4)
    ensures
        r@.len() == 4,
        forall|i: int| 0 <= i < 4 ==> r@[i] == v@[i] as i32,
{
    i32x4::new(
        v.extract(0) as i32,
        v.extract(1) as i32,
        v.extract(2) as i32,
        v.extract(3) as i32,
    )
}

/// Models the 128-bit widening move: the low two unsigned 32-bit lanes, zero-extended to 64 bits.
pub fn cvtepu32_epi64(v: u32x4) -> (r: u64x2)
    ensures
        r@.len() == 2,
        forall|i: int| 0 <= i < 2 ==> r@[i] == v@[i] as u64,
{
    u64x2::new(
        v.extract(0) as u64,
        v.extract(1) as u64,
    )
}

/// Models the 128-bit widening move: the low two signed 32-bit lanes, sign-extended to 64 bits.
pub fn cvtepi32_epi64(v: i32x4) -> (r: i64x2)
    ensures
        r@.len() == 2,
        forall|i: int| 0 <= i < 2 ==> r@[i] == v@[i] as i64,
{
    i64x2::new(
        v.extract(0) as i64,
        v.extract(1) as i64,
    )
}

/// Models the 128-bit widening move: the low two 32-bit float lanes, widened to 64-bit floats.
pub fn cvtps_pd(v: f32x4) -> (r: f64x2)
    ensures
        r@.len() == 2,
        forall|i: int| 0 <= i < 2 ==> r@[i] == widen_f32_bits(v@[i]),
{
    f64x2::new(
        widen_lane_f32(v.extract(0)),
        widen_lane_f32(v.extract(1)),
    )
}

/// Models the 128-bit widening move: the low two signed 32-bit lanes, converted to 64-bit floats.
pub fn cvtepi32_pd(v: i32x4) -> (r: f64x2)
    ensures
        r@.len() == 2,
        forall|i: int| 0 <= i < 2 ==> r@[i] == f64_bits_of_i32(v@[i]),
{
    f64x2::new(
        widen_lane_i32(v.extract(0)),
        widen_lane_i32(v.extract(1)),
    )
}

/// Models the 256-bit widening move: all sixteen unsigned byte lanes, zero-extended to 16 bits.
pub fn cvtepu8_epi16_256(v: u8x16) -> (r: u16x16)
    ensures
        r@.len() == 16,
        forall|i: int| 0 <= i < 16 ==> r@[i] == v@[i] as u16,
{
    u16x16::new(
        v.extract(0) as u16,
        v.extract(1) as u16,
        v.extract(2) as u16,
        v.extract(3) as u16,
        v.extract(4) as u16,
        v.extract(5) as u16,
        v.extract(6) as u16,
        v.extract(7) as u16,
        v.extract(8) as u16,
        v.extract(9) as u16,
        v.extract(10) as u16,
        v.extract(11) as u16,
        v.extract(12) as u16,
        v.extract(13) as u16,
        v.extract(14) as u16,
        v.extract(15) as u16,
    )
}

/// Models the 256-bit widening move: all sixteen signed byte lanes, sign-extended to 16 bits.
pub fn cvtepi8_epi16_256(v: i8x16) -> (r: i16x16)
    ensures
        r@.len() == 16,
        forall|i: int| 0 <= i < 16 ==> r@[i] == v@[i] as i16,
{
    i16x16::new(
        v.extract(0) as i16,
        v.extract(1) as i16,
        v.extract(2) as i16,
        v.extract(3) as i16,
        v.extract(4) as i16,
        v.extract(5) as i16,
        v.extract(6) as i16,
        v.extract(7) as i16,
        v.extract(8) as i16,
        v.extract(9) as i16,
        v.extract(10) as i16,
        v.extract(11) as i16,
        v.extract(12) as i16,
        v.extract(13) as i16,
        v.extract(14) as i16,
        v.extract(15) as i16,
    )
}

/// Models the 256-bit widening move: all eight unsigned 16-bit lanes, zero-extended to 32 bits.
pub fn cvtepu16_epi32_256(v: u16x8) -> (r: u32x8)
    ensures
        r@.len() == 8,
        forall|i: int| 0 <= i < 8 ==> r@[i] == v@[i] as u32,
{
    u32x8::new(
        v.extract(0) as u32,
        v.extract(1) as u32,
        v.extract(2) as u32,
        v.extract(3) as u32,
        v.extract(4) as u32,
        v.extract(5) as u32,
        v.extract(6) as u32,
        v.extract(7) as u32,
    )
}

/// Models the 256-bit widening move: all eight signed 16-bit lanes, sign-extended to 32 bits.
pub fn cvtepi16_epi32_256(v: i16x8) -> (r: i32x8)
    ensures
        r@.len() == 8,
        forall|i: int| 0 <= i < 8 ==> r@[i] == v@[i] as i32,
{
    i32x8::new(
        v.extract(0) as i32,
        v.extract(1) as i32,
        v.extract(2) as i32,
        v.extract(3) as i32,
        v.extract(4) as i32,
        v.extract(5) as i32,
        v.extract(6) as i32,
        v.extract(7) as i32,
    )
}

/// Models the 256-bit widening move: all four unsigned 32-bit lanes, zero-extended to 64 bits.
pub fn cvtepu32_epi64_256(v: u32x4) -> (r: u64x4)
    ensures
        r@.len() == 4,
        forall|i: int| 0 <= i < 4 ==> r@[i] == v@[i] as u64,
{
    u64x4::new(
        v.extract(0) as u64,
        v.extract(1) as u64,
        v.extract(2) as u64,
        v.extract(3) as u64,
    )
}

/// Models the 256-bit widening move: all four signed 32-bit lanes, sign-extended to 64 bits.
pub fn cvtepi32_epi64_256(v: i32x4) -> (r: i64x4)
    ensures
        r@.len() == 4,
        forall|i: int| 0 <= i < 4 ==> r@[i] == v@[i] as i64,
{
    i64x4::new(
        v.extract(0) as i64,
        v.extract(1) as i64,
        v.extract(2) as i64,
        v.extract(3) as i64,
    )
}

/// Models the 256-bit widening move: all four 32-bit float lanes, widened to 64-bit floats.
pub fn cvtps_pd_256(v: f32x4) -> (r: f64x4)
    ensures
        r@.len() == 4,
        forall|i: int| 0 <= i < 4 ==> r@[i] == widen_f32_bits(v@[i]),
{
    f64x4::new(
        widen_lane_f32(v.extract(0)),
        widen_lane_f32(v.extract(1)),
        widen_lane_f32(v.extract(2)),
        widen_lane_f32(v.extract(3)),
    )
}

/// Models the 256-bit widening move: all four signed 32-bit lanes, converted to 64-bit floats.
pub fn cvtepi32_pd_256(v: i32x4) -> (r: f64x4)
    ensures
        r@.len() == 4,
        forall|i: int| 0 <= i < 4 ==> r@[i] == f64_bits_of_i32(v@[i]),
{
    f64x4::new(
        widen_lane_i32(v.extract(0)),
        widen_lane_i32(v.extract(1)),
        widen_lane_i32(v.extract(2)),
        widen_lane_i32(v.extract(3)),
    )
}

/// Widens on a 128-bit register: the low half by the widening move directly,
/// the high half by first shuffling the register's upper half into the low
/// lanes as 32-bit words.
pub fn upcast_u8x16_to_u16x8(v: u8x16) -> (r: (u16x8, u16x8))
    ensures
        r.0@ == <u8x16 as Upcast<u16x8>>::widened_lo(v),
        r.1@ == <u8x16 as Upcast<u16x8>>::widened_hi(v),
{
    let lo = cvtepu8_epi16(v);
    let shuffled = shuffle_epi32(v.be_u32s(), 0x0E);
    let high = shuffled.be_u8s();
    let hi = cvtepu8_epi16(high);
    proof {
        lemma_sel_0e();
        lemma_word32_of_bytes(v@[8], v@[9], v@[10], v@[11]);
        lemma_word32_of_bytes(v@[12], v@[13], v@[14], v@[15]);
        assert(high@[0] == v@[8]);
        assert(high@[1] == v@[9]);
        assert(high@[2] == v@[10]);
        assert(high@[3] == v@[11]);
        assert(high@[4] == v@[12]);
        assert(high@[5] == v@[13]);
        assert(high@[6] == v@[14]);
        assert(high@[7] == v@[15]);
        assert(lo@ =~= <u8x16 as Upcast<u16x8>>::widened_lo(v));
        assert(hi@ =~= <u8x16 as Upcast<u16x8>>::widened_hi(v));
    }
    (lo, hi)
}

/// Widens on a 128-bit register: the low half by the widening move directly,
/// the high half by first shuffling the register's upper half into the low
/// lanes as 32-bit words.
pub fn upcast_i8x16_to_i16x8(v: i8x16) -> (r: (i16x8, i16x8))
    ensures
        r.0@ == <i8x16 as Upcast<i16x8>>::widened_lo(v),
        r.1@ == <i8x16 as Upcast<i16x8>>::widened_hi(v),
{
    let bits = v.as_u8x16();
    let lo = cvtepi8_epi16(v);
    let shuffled = shuffle_epi32(bits.be_u32s(), 0x0E);
    let high_bits = shuffled.be_u8s();
    let high = high_bits.as_i8x16();
    let hi = cvtepi8_epi16(high);
    proof {
        lemma_sel_0e();
        lemma_word32_of_bytes(bits@[8], bits@[9], bits@[10], bits@[11]);
        lemma_word32_of_bytes(bits@[12], bits@[13], bits@[14], bits@[15]);
        lemma_i8_roundtrip(v@[8]);
        lemma_i8_roundtrip(v@[9]);
        lemma_i8_roundtrip(v@[10]);
        lemma_i8_roundtrip(v@[11]);
        lemma_i8_roundtrip(v@[12]);
        lemma_i8_roundtrip(v@[13]);
        lemma_i8_roundtrip(v@[14]);
        lemma_i8_roundtrip(v@[15]);
        assert(high_bits@[0] == bits@[8]);
        assert(high@[0] == v@[8]);
        assert(high_bits@[1] == bits@[9]);
        assert(high@[1] == v@[9]);
        assert(high_bits@[2] == bits@[10]);
        assert(high@[2] == v@[10]);
        assert(high_bits@[3] == bits@[11]);
        assert(high@[3] == v@[11]);
        assert(high_bits@[4] == bits@[12]);
        assert(high@[4] == v@[12]);
        assert(high_bits@[5] == bits@[13]);
        assert(high@[5] == v@[13]);
        assert(high_bits@[6] == bits@[14]);
        assert(high@[6] == v@[14]);
        assert(high_bits@[7] == bits@[15]);
        assert(high@[7] == v@[15]);
        assert(lo@ =~= <i8x16 as Upcast<i16x8>>::widened_lo(v));
        assert(hi@ =~= <i8x16 as Upcast<i16x8>>::widened_hi(v));
    }
    (lo, hi)
}

/// Widens on a 128-bit register: the low half by the widening move directly,
/// the high half by first shuffling the register's upper half into the low
/// lanes as 32-bit words.
pub fn upcast_u16x8_to_u32x4(v: u16x8) -> (r: (u32x4, u32x4))
    ensures
        r.0@ == <u16x8 as Upcast<u32x4>>::widened_lo(v),
        r.1@ == <u16x8 as Upcast<u32x4>>::widened_hi(v),
{
    let lo = cvtepu16_epi32(v);
    let shuffled = shuffle_epi32(v.be_u32s(), 0x0E);
    let high = shuffled.be_u16s();
    let hi = cvtepu16_epi32(high);
    proof {
        lemma_sel_0e();
        lemma_word32_of_halves(v@[4], v@[5]);
        lemma_word32_of_halves(v@[6], v@[7]);
        assert(high@[0] == v@[4]);
        assert(high@[1] == v@[5]);
        assert(high@[2] == v@[6]);
        assert(high@[3] == v@[7]);
        assert(lo@ =~= <u16x8 as Upcast<u32x4>>::widened_lo(v));
        assert(hi@ =~= <u16x8 as Upcast<u32x4>>::widened_hi(v));
    }
    (lo, hi)
}

/// Widens on a 128-bit register: the low half by the widening move directly,
/// the high half by first shuffling the register's upper half into the low
/// lanes as 32-bit words.
pub fn upcast_i16x8_to_i32x4(v: i16x8) -> (r: (i32x4, i32x4))
    ensures
        r.0@ == <i16x8 as Upcast<i32x4>>::widened_lo(v),
        r.1@ == <i16x8 as Upcast<i32x4>>::widened_hi(v),
{
    let bits = v.as_u16x8();
    let lo = cvtepi16_epi32(v);
    let shuffled = shuffle_epi32(bits.be_u32s(), 0x0E);
    let high_bits = shuffled.be_u16s();
    let high = high_bits.as_i16x8();
    let hi = cvtepi16_epi32(high);
    proof {
        lemma_sel_0e();
        lemma_word32_of_halves(bits@[4], bits@[5]);
        lemma_word32_of_halves(bits@[6], bits@[7]);
        lemma_i16_roundtrip(v@[4]);
        lemma_i16_roundtrip(v@[5]);
        lemma_i16_roundtrip(v@[6]);
        lemma_i16_roundtrip(v@[7]);
        assert(high_bits@[0] == bits@[4]);
        assert(high@[0] == v@[4]);
        assert(high_bits@[1] == bits@[5]);
        assert(high@[1] == v@[5]);
        assert(high_bits@[2] == bits@[6]);
        assert(high@[2] == v@[6]);
        assert(high_bits@[3] == bits@[7]);
        assert(high@[3] == v@[7]);
        assert(lo@ =~= <i16x8 as Upcast<i32x4>>::widened_lo(v));
        assert(hi@ =~= <i16x8 as Upcast<i32x4>>::widened_hi(v));
    }
    (lo, hi)
}

/// Widens on a 128-bit register: the low half by the widening move directly,
/// the high half by first shuffling the register's upper half into the low
/// lanes as 32-bit words.
pub fn upcast_f32x4_to_f64x2(v: f32x4) -> (r: (f64x2, f64x2))
    ensures
        r.0@ == <f32x4 as Upcast<f64x2>>::widened_lo(v),
        r.1@ == <f32x4 as Upcast<f64x2>>::widened_hi(v),
{
    let lo = cvtps_pd(v);
    let shuffled = shuffle_epi32(v.be_u32s(), 0x0E);
    let high = shuffled.be_f32s();
    let hi = cvtps_pd(high);
    proof {
        lemma_sel_0e();
        assert(high@[0] == v@[2]);
        assert(high@[1] == v@[3]);
        assert(lo@ =~= <f32x4 as Upcast<f64x2>>::widened_lo(v));
        assert(hi@ =~= <f32x4 as Upcast<f64x2>>::widened_hi(v));
    }
    (lo, hi)
}

/// Widens on a 128-bit register: the low half by the widening move directly,
/// the high half by first shuffling the register's upper half into the low
/// lanes as 32-bit words.
pub fn upcast_i32x4_to_f64x2(v: i32x4) -> (r: (f64x2, f64x2))
    ensures
        r.0@ == <i32x4 as Upcast<f64x2>>::widened_lo(v),
        r.1@ == <i32x4 as Upcast<f64x2>>::widened_hi(v),
{
    let lo = cvtepi32_pd(v);
    let shuffled = shuffle_epi32(v.as_u32x4(), 0x0E);
    let high = shuffled.as_i32x4();
    let hi = cvtepi32_pd(high);
    proof {
        lemma_sel_0e();
        lemma_i32_roundtrip(v@[2]);
        lemma_i32_roundtrip(v@[3]);
        assert(high@[0] == v@[2]);
        assert(high@[1] == v@[3]);
        assert(lo@ =~= <i32x4 as Upcast<f64x2>>::widened_lo(v));
        assert(hi@ =~= <i32x4 as Upcast<f64x2>>::widened_hi(v));
    }
    (lo, hi)
}

/// Widens on a 128-bit register: the low half by the widening move directly,
/// the high half by first shuffling the register's upper half into the low
/// lanes as 32-bit words.
pub fn upcast_i32x4_to_i64x2(v: i32x4) -> (r: (i64x2, i64x2))
    ensures
        r.0@ == <i32x4 as Upcast<i64x2>>::widened_lo(v),
        r.1@ == <i32x4 as Upcast<i64x2>>::widened_hi(v),
{
    let lo = cvtepi32_epi64(v);
    let shuffled = shuffle_epi32(v.as_u32x4(), 0x0E);
    let high = shuffled.as_i32x4();
    let hi = cvtepi32_epi64(high);
    proof {
        lemma_sel_0e();
        lemma_i32_roundtrip(v@[2]);
        lemma_i32_roundtrip(v@[3]);
        assert(high@[0] == v@[2]);
        assert(high@[1] == v@[3]);
        assert(lo@ =~= <i32x4 as Upcast<i64x2>>::widened_lo(v));
        assert(hi@ =~= <i32x4 as Upcast<i64x2>>::widened_hi(v));
    }
    (lo, hi)
}

/// Widens on a 128-bit register: the low half by the widening move directly,
/// the high half by first shuffling the register's upper half into the low
/// lanes as 32-bit words.
pub fn upcast_u32x4_to_u64x2(v: u32x4) -> (r: (u64x2, u64x2))
    ensures
        r.0@ == <u32x4 as Upcast<u64x2>>::widened_lo(v),
        r.1@ == <u32x4 as Upcast<u64x2>>::widened_hi(v),
{
    let lo = cvtepu32_epi64(v);
    let high = shuffle_epi32(v, 0x0E);
    let hi = cvtepu32_epi64(high);
    proof {
        lemma_sel_0e();
        assert(high@[0] == v@[2]);
        assert(high@[1] == v@[3]);
        assert(lo@ =~= <u32x4 as Upcast<u64x2>>::widened_lo(v));
        assert(hi@ =~= <u32x4 as Upcast<u64x2>>::widened_hi(v));
    }
    (lo, hi)
}

/// Widens on a 256-bit register: the low half by the widening move directly,
/// the high half by first permuting the register's upper half into the low
/// lanes as 64-bit words.
pub fn upcast_u8x32_to_u16x16(v: u8x32) -> (r: (u16x16, u16x16))
    ensures
        r.0@ == <u8x32 as Upcast<u16x16>>::widened_lo(v),
        r.1@ == <u8x32 as Upcast<u16x16>>::widened_hi(v),
{
    let words = v.be_u64s();
    let low = castsi256_si128(words).be_u8s();
    let lo = cvtepu8_epi16_256(low);
    let permuted = permute4x64_epi64(words, 0x0E);
    let high = castsi256_si128(permuted).be_u8s();
    let hi = cvtepu8_epi16_256(high);
    proof {
        lemma_sel_0e();
        lemma_word64_of_bytes(v@[0], v@[1], v@[2], v@[3], v@[4], v@[5], v@[6], v@[7]);
        lemma_word64_of_bytes(v@[8], v@[9], v@[10], v@[11], v@[12], v@[13], v@[14], v@[15]);
        lemma_word64_of_bytes(v@[16], v@[17], v@[18], v@[19], v@[20], v@[21], v@[22], v@[23]);
        lemma_word64_of_bytes(v@[24], v@[25], v@[26], v@[27], v@[28], v@[29], v@[30], v@[31]);
        assert(low@[0] == v@[0]);
        assert(low@[1] == v@[1]);
        assert(low@[2] == v@[2]);
        assert(low@[3] == v@[3]);
        assert(low@[4] == v@[4]);
        assert(low@[5] == v@[5]);
        assert(low@[6] == v@[6]);
        assert(low@[7] == v@[7]);
        assert(low@[8] == v@[8]);
        assert(low@[9] == v@[9]);
        assert(low@[10] == v@[10]);
        assert(low@[11] == v@[11]);
        assert(low@[12] == v@[12]);
        assert(low@[13] == v@[13]);
        assert(low@[14] == v@[14]);
        assert(low@[15] == v@[15]);
        assert(high@[0] == v@[16]);
        assert(high@[1] == v@[17]);
        assert(high@[2] == v@[18]);
        assert(high@[3] == v@[19]);
        assert(high@[4] == v@[20]);
        assert(high@[5] == v@[21]);
        assert(high@[6] == v@[22]);
        assert(high@[7] == v@[23]);
        assert(high@[8] == v@[24]);
        assert(high@[9] == v@[25]);
        assert(high@[10] == v@[26]);
        assert(high@[11] == v@[27]);
        assert(high@[12] == v@[28]);
        assert(high@[13] == v@[29]);
        assert(high@[14] == v@[30]);
        assert(high@[15] == v@[31]);
        assert(lo@ =~= <u8x32 as Upcast<u16x16>>::widened_lo(v));
        assert(hi@ =~= <u8x32 as Upcast<u16x16>>::widened_hi(v));
    }
    (lo, hi)
}

/// Widens on a 256-bit register: the low half by the widening move directly,
/// the high half by first permuting the register's upper half into the low
/// lanes as 64-bit words.
pub fn upcast_i8x32_to_i16x16(v: i8x32) -> (r: (i16x16, i16x16))
    ensures
        r.0@ == <i8x32 as Upcast<i16x16>>::widened_lo(v),
        r.1@ == <i8x32 as Upcast<i16x16>>::widened_hi(v),
{
    let bits = v.as_u8x32();
    let words = bits.be_u64s();
    let low_bits = castsi256_si128(words).be_u8s();
    let low = low_bits.as_i8x16();
    let lo = cvtepi8_epi16_256(low);
    let permuted = permute4x64_epi64(words, 0x0E);
    let high_bits = castsi256_si128(permuted).be_u8s();
    let high = high_bits.as_i8x16();
    let hi = cvtepi8_epi16_256(high);
    proof {
        lemma_sel_0e();
        lemma_word64_of_bytes(bits@[0], bits@[1], bits@[2], bits@[3], bits@[4], bits@[5], bits@[6], bits@[7]);
        lemma_word64_of_bytes(bits@[8], bits@[9], bits@[10], bits@[11], bits@[12], bits@[13], bits@[14], bits@[15]);
        lemma_word64_of_bytes(bits@[16], bits@[17], bits@[18], bits@[19], bits@[20], bits@[21], bits@[22], bits@[23]);
        lemma_word64_of_bytes(bits@[24], bits@[25], bits@[26], bits@[27], bits@[28], bits@[29], bits@[30], bits@[31]);
        lemma_i8_roundtrip(v@[0]);
        lemma_i8_roundtrip(v@[1]);
        lemma_i8_roundtrip(v@[2]);
        lemma_i8_roundtrip(v@[3]);
        lemma_i8_roundtrip(v@[4]);
        lemma_i8_roundtrip(v@[5]);
        lemma_i8_roundtrip(v@[6]);
        lemma_i8_roundtrip(v@[7]);
        lemma_i8_roundtrip(v@[8]);
        lemma_i8_roundtrip(v@[9]);
        lemma_i8_roundtrip(v@[10]);
        lemma_i8_roundtrip(v@[11]);
        lemma_i8_roundtrip(v@[12]);
        lemma_i8_roundtrip(v@[13]);
        lemma_i8_roundtrip(v@[14]);
        lemma_i8_roundtrip(v@[15]);
        lemma_i8_roundtrip(v@[16]);
        lemma_i8_roundtrip(v@[17]);
        lemma_i8_roundtrip(v@[18]);
        lemma_i8_roundtrip(v@[19]);
        lemma_i8_roundtrip(v@[20]);
        lemma_i8_roundtrip(v@[21]);
        lemma_i8_roundtrip(v@[22]);
        lemma_i8_roundtrip(v@[23]);
        lemma_i8_roundtrip(v@[24]);
        lemma_i8_roundtrip(v@[25]);
        lemma_i8_roundtrip(v@[26]);
        lemma_i8_roundtrip(v@[27]);
        lemma_i8_roundtrip(v@[28]);
        lemma_i8_roundtrip(v@[29]);
        lemma_i8_roundtrip(v@[30]);
        lemma_i8_roundtrip(v@[31]);
        assert(low_bits@[0] == bits@[0]);
        assert(low@[0] == v@[0]);
        assert(low_bits@[1] == bits@[1]);
        assert(low@[1] == v@[1]);
        assert(low_bits@[2] == bits@[2]);
        assert(low@[2] == v@[2]);
        assert(low_bits@[3] == bits@[3]);
        assert(low@[3] == v@[3]);
        assert(low_bits@[4] == bits@[4]);
        assert(low@[4] == v@[4]);
        assert(low_bits@[5] == bits@[5]);
        assert(low@[5] == v@[5]);
        assert(low_bits@[6] == bits@[6]);
        assert(low@[6] == v@[6]);
        assert(low_bits@[7] == bits@[7]);
        assert(low@[7] == v@[7]);
        assert(low_bits@[8] == bits@[8]);
        assert(low@[8] == v@[8]);
        assert(low_bits@[9] == bits@[9]);
        assert(low@[9] == v@[9]);
        assert(low_bits@[10] == bits@[10]);
        assert(low@[10] == v@[10]);
        assert(low_bits@[11] == bits@[11]);
        assert(low@[11] == v@[11]);
        assert(low_bits@[12] == bits@[12]);
        assert(low@[12] == v@[12]);
        assert(low_bits@[13] == bits@[13]);
        assert(low@[13] == v@[13]);
        assert(low_bits@[14] == bits@[14]);
        assert(low@[14] == v@[14]);
        assert(low_bits@[15] == bits@[15]);
        assert(low@[15] == v@[15]);
        assert(high_bits@[0] == bits@[16]);
        assert(high@[0] == v@[16]);
        assert(high_bits@[1] == bits@[17]);
        assert(high@[1] == v@[17]);
        assert(high_bits@[2] == bits@[18]);
        assert(high@[2] == v@[18]);
        assert(high_bits@[3] == bits@[19]);
        assert(high@[3] == v@[19]);
        assert(high_bits@[4] == bits@[20]);
        assert(high@[4] == v@[20]);
        assert(high_bits@[5] == bits@[21]);
        assert(high@[5] == v@[21]);
        assert(high_bits@[6] == bits@[22]);
        assert(high@[6] == v@[22]);
        assert(high_bits@[7] == bits@[23]);
        assert(high@[7] == v@[23]);
        assert(high_bits@[8] == bits@[24]);
        assert(high@[8] == v@[24]);
        assert(high_bits@[9] == bits@[25]);
        assert(high@[9] == v@[25]);
        assert(high_bits@[10] == bits@[26]);
        assert(high@[10] == v@[26]);
        assert(high_bits@[11] == bits@[27]);
        assert(high@[11] == v@[27]);
        assert(high_bits@[12] == bits@[28]);
        assert(high@[12] == v@[28]);
        assert(high_bits@[13] == bits@[29]);
        assert(high@[13] == v@[29]);
        assert(high_bits@[14] == bits@[30]);
        assert(high@[14] == v@[30]);
        assert(high_bits@[15] == bits@[31]);
        assert(high@[15] == v@[31]);
        assert(lo@ =~= <i8x32 as Upcast<i16x16>>::widened_lo(v));
        assert(hi@ =~= <i8x32 as Upcast<i16x16>>::widened_hi(v));
    }
    (lo, hi)
}

/// Widens on a 256-bit register: the low half by the widening move directly,
/// the high half by first permuting the register's upper half into the low
/// lanes as 64-bit words.
pub fn upcast_u16x16_to_u32x8(v: u16x16) -> (r: (u32x8, u32x8))
    ensures
        r.0@ == <u16x16 as Upcast<u32x8>>::widened_lo(v),
        r.1@ == <u16x16 as Upcast<u32x8>>::widened_hi(v),
{
    let words = v.be_u64s();
    let low = castsi256_si128(words).be_u16s();
    let lo = cvtepu16_epi32_256(low);
    let permuted = permute4x64_epi64(words, 0x0E);
    let high = castsi256_si128(permuted).be_u16s();
    let hi = cvtepu16_epi32_256(high);
    proof {
        lemma_sel_0e();
        lemma_word64_of_halves(v@[0], v@[1], v@[2], v@[3]);
        lemma_word64_of_halves(v@[4], v@[5], v@[6], v@[7]);
        lemma_word64_of_halves(v@[8], v@[9], v@[10], v@[11]);
        lemma_word64_of_halves(v@[12], v@[13], v@[14], v@[15]);
        assert(low@[0] == v@[0]);
        assert(low@[1] == v@[1]);
        assert(low@[2] == v@[2]);
        assert(low@[3] == v@[3]);
        assert(low@[4] == v@[4]);
        assert(low@[5] == v@[5]);
        assert(low@[6] == v@[6]);
        assert(low@[7] == v@[7]);
        assert(high@[0] == v@[8]);
        assert(high@[1] == v@[9]);
        assert(high@[2] == v@[10]);
        assert(high@[3] == v@[11]);
        assert(high@[4] == v@[12]);
        assert(high@[5] == v@[13]);
        assert(high@[6] == v@[14]);
        assert(high@[7] == v@[15]);
        assert(lo@ =~= <u16x16 as Upcast<u32x8>>::widened_lo(v));
        assert(hi@ =~= <u16x16 as Upcast<u32x8>>::widened_hi(v));
    }
    (lo, hi)
}

/// Widens on a 256-bit register: the low half by the widening move directly,
/// the high half by first permuting the register's upper half into the low
/// lanes as 64-bit words.
pub fn upcast_i16x16_to_i32x8(v: i16x16) -> (r: (i32x8, i32x8))
    ensures
        r.0@ == <i16x16 as Upcast<i32x8>>::widened_lo(v),
        r.1@ == <i16x16 as Upcast<i32x8>>::widened_hi(v),
{
    let bits = v.as_u16x16();
    let words = bits.be_u64s();
    let low_bits = castsi256_si128(words).be_u16s();
    let low = low_bits.as_i16x8();
    let lo = cvtepi16_epi32_256(low);
    let permuted = permute4x64_epi64(words, 0x0E);
    let high_bits = castsi256_si128(permuted).be_u16s();
    let high = high_bits.as_i16x8();
    let hi = cvtepi16_epi32_256(high);
    proof {
        lemma_sel_0e();
        lemma_word64_of_halves(bits@[0], bits@[1], bits@[2], bits@[3]);
        lemma_word64_of_halves(bits@[4], bits@[5], bits@[6], bits@[7]);
        lemma_word64_of_halves(bits@[8], bits@[9], bits@[10], bits@[11]);
        lemma_word64_of_halves(bits@[12], bits@[13], bits@[14], bits@[15]);
        lemma_i16_roundtrip(v@[0]);
        lemma_i16_roundtrip(v@[1]);
        lemma_i16_roundtrip(v@[2]);
        lemma_i16_roundtrip(v@[3]);
        lemma_i16_roundtrip(v@[4]);
        lemma_i16_roundtrip(v@[5]);
        lemma_i16_roundtrip(v@[6]);
        lemma_i16_roundtrip(v@[7]);
        lemma_i16_roundtrip(v@[8]);
        lemma_i16_roundtrip(v@[9]);
        lemma_i16_roundtrip(v@[10]);
        lemma_i16_roundtrip(v@[11]);
        lemma_i16_roundtrip(v@[12]);
        lemma_i16_roundtrip(v@[13]);
        lemma_i16_roundtrip(v@[14]);
        lemma_i16_roundtrip(v@[15]);
        assert(low_bits@[0] == bits@[0]);
        assert(low@[0] == v@[0]);
        assert(low_bits@[1] == bits@[1]);
        assert(low@[1] == v@[1]);
        assert(low_bits@[2] == bits@[2]);
        assert(low@[2] == v@[2]);
        assert(low_bits@[3] == bits@[3]);
        assert(low@[3] == v@[3]);
        assert(low_bits@[4] == bits@[4]);
        assert(low@[4] == v@[4]);
        assert(low_bits@[5] == bits@[5]);
        assert(low@[5] == v@[5]);
        assert(low_bits@[6] == bits@[6]);
        assert(low@[6] == v@[6]);
        assert(low_bits@[7] == bits@[7]);
        assert(low@[7] == v@[7]);
        assert(high_bits@[0] == bits@[8]);
        assert(high@[0] == v@[8]);
        assert(high_bits@[1] == bits@[9]);
        assert(high@[1] == v@[9]);
        assert(high_bits@[2] == bits@[10]);
        assert(high@[2] == v@[10]);
        assert(high_bits@[3] == bits@[11]);
        assert(high@[3] == v@[11]);
        assert(high_bits@[4] == bits@[12]);
        assert(high@[4] == v@[12]);
        assert(high_bits@[5] == bits@[13]);
        assert(high@[5] == v@[13]);
        assert(high_bits@[6] == bits@[14]);
        assert(high@[6] == v@[14]);
        assert(high_bits@[7] == bits@[15]);
        assert(high@[7] == v@[15]);
        assert(lo@ =~= <i16x16 as Upcast<i32x8>>::widened_lo(v));
        assert(hi@ =~= <i16x16 as Upcast<i32x8>>::widened_hi(v));
    }
    (lo, hi)
}

/// Widens on a 256-bit register: the low half by the widening move directly,
/// the high half by first permuting the register's upper half into the low
/// lanes as 64-bit words.
pub fn upcast_f32x8_to_f64x4(v: f32x8) -> (r: (f64x4, f64x4))
    ensures
        r.0@ == <f32x8 as Upcast<f64x4>>::widened_lo(v),
        r.1@ == <f32x8 as Upcast<f64x4>>::widened_hi(v),
{
    let words = v.be_u64s();
    let low = castsi256_si128(words).be_f32s();
    let lo = cvtps_pd_256(low);
    let permuted = permute4x64_epi64(words, 0x0E);
    let high = castsi256_si128(permuted).be_f32s();
    let hi = cvtps_pd_256(high);
    proof {
        lemma_sel_0e();
        lemma_word64_of_words(v@[0], v@[1]);
        lemma_word64_of_words(v@[2], v@[3]);
        lemma_word64_of_words(v@[4], v@[5]);
        lemma_word64_of_words(v@[6], v@[7]);
        assert(low@[0] == v@[0]);
        assert(low@[1] == v@[1]);
        assert(low@[2] == v@[2]);
        assert(low@[3] == v@[3]);
        assert(high@[0] == v@[4]);
        assert(high@[1] == v@[5]);
        assert(high@[2] == v@[6]);
        assert(high@[3] == v@[7]);
        assert(lo@ =~= <f32x8 as Upcast<f64x4>>::widened_lo(v));
        assert(hi@ =~= <f32x8 as Upcast<f64x4>>::widened_hi(v));
    }
    (lo, hi)
}

/// Widens on a 256-bit register: the low half by the widening move directly,
/// the high half by first permuting the register's upper half into the low
/// lanes as 64-bit words.
pub fn upcast_i32x8_to_f64x4(v: i32x8) -> (r: (f64x4, f64x4))
    ensures
        r.0@ == <i32x8 as Upcast<f64x4>>::widened_lo(v),
        r.1@ == <i32x8 as Upcast<f64x4>>::widened_hi(v),
{
    let bits = v.as_u32x8();
    let words = bits.be_u64s();
    let low_bits = castsi256_si128(words).be_u32s();
    let low = low_bits.as_i32x4();
    let lo = cvtepi32_pd_256(low);
    let permuted = permute4x64_epi64(words, 0x0E);
    let high_bits = castsi256_si128(permuted).be_u32s();
    let high = high_bits.as_i32x4();
    let hi = cvtepi32_pd_256(high);
    proof {
        lemma_sel_0e();
        lemma_word64_of_words(bits@[0], bits@[1]);
        lemma_word64_of_words(bits@[2], bits@[3]);
        lemma_word64_of_words(bits@[4], bits@[5]);
        lemma_word64_of_words(bits@[6], bits@[7]);
        lemma_i32_roundtrip(v@[0]);
        lemma_i32_roundtrip(v@[1]);
        lemma_i32_roundtrip(v@[2]);
        lemma_i32_roundtrip(v@[3]);
        lemma_i32_roundtrip(v@[4]);
        lemma_i32_roundtrip(v@[5]);
        lemma_i32_roundtrip(v@[6]);
        lemma_i32_roundtrip(v@[7]);
        assert(low_bits@[0] == bits@[0]);
        assert(low@[0] == v@[0]);
        assert(low_bits@[1] == bits@[1]);
        assert(low@[1] == v@[1]);
        assert(low_bits@[2] == bits@[2]);
        assert(low@[2] == v@[2]);
        assert(low_bits@[3] == bits@[3]);
        assert(low@[3] == v@[3]);
        assert(high_bits@[0] == bits@[4]);
        assert(high@[0] == v@[4]);
        assert(high_bits@[1] == bits@[5]);
        assert(high@[1] == v@[5]);
        assert(high_bits@[2] == bits@[6]);
        assert(high@[2] == v@[6]);
        assert(high_bits@[3] == bits@[7]);
        assert(high@[3] == v@[7]);
        assert(lo@ =~= <i32x8 as Upcast<f64x4>>::widened_lo(v));
        assert(hi@ =~= <i32x8 as Upcast<f64x4>>::widened_hi(v));
    }
    (lo, hi)
}

/// Widens on a 256-bit register: the low half by the widening move directly,
/// the high half by first permuting the register's upper half into the low
/// lanes as 64-bit words.
pub fn upcast_i32x8_to_i64x4(v: i32x8) -> (r: (i64x4, i64x4))
    ensures
        r.0@ == <i32x8 as Upcast<i64x4>>::widened_lo(v),
        r.1@ == <i32x8 as Upcast<i64x4>>::widened_hi(v),
{
    let bits = v.as_u32x8();
    let words = bits.be_u64s();
    let low_bits = castsi256_si128(words).be_u32s();
    let low = low_bits.as_i32x4();
    let lo = cvtepi32_epi64_256(low);
    let permuted = permute4x64_epi64(words, 0x0E);
    let high_bits = castsi256_si128(permuted).be_u32s();
    let high = high_bits.as_i32x4();
    let hi = cvtepi32_epi64_256(high);
    proof {
        lemma_sel_0e();
        lemma_word64_of_words(bits@[0], bits@[1]);
        lemma_word64_of_words(bits@[2], bits@[3]);
        lemma_word64_of_words(bits@[4], bits@[5]);
        lemma_word64_of_words(bits@[6], bits@[7]);
        lemma_i32_roundtrip(v@[0]);
        lemma_i32_roundtrip(v@[1]);
        lemma_i32_roundtrip(v@[2]);
        lemma_i32_roundtrip(v@[3]);
        lemma_i32_roundtrip(v@[4]);
        lemma_i32_roundtrip(v@[5]);
        lemma_i32_roundtrip(v@[6]);
        lemma_i32_roundtrip(v@[7]);
        assert(low_bits@[0] == bits@[0]);
        assert(low@[0] == v@[0]);
        assert(low_bits@[1] == bits@[1]);
        assert(low@[1] == v@[1]);
        assert(low_bits@[2] == bits@[2]);
        assert(low@[2] == v@[2]);
        assert(low_bits@[3] == bits@[3]);
        assert(low@[3] == v@[3]);
        assert(high_bits@[0] == bits@[4]);
        assert(high@[0] == v@[4]);
        assert(high_bits@[1] == bits@[5]);
        assert(high@[1] == v@[5]);
        assert(high_bits@[2] == bits@[6]);
        assert(high@[2] == v@[6]);
        assert(high_bits@[3] == bits@[7]);
        assert(high@[3] == v@[7]);
        assert(lo@ =~= <i32x8 as Upcast<i64x4>>::widened_lo(v));
        assert(hi@ =~= <i32x8 as Upcast<i64x4>>::widened_hi(v));
    }
    (lo, hi)
}

/// Widens on a 256-bit register: the low half by the widening move directly,
/// the high half by first permuting the register's upper half into the low
/// lanes as 64-bit words.
pub fn upcast_u32x8_to_u64x4(v: u32x8) -> (r: (u64x4, u64x4))
    ensures
        r.0@ == <u32x8 as Upcast<u64x4>>::widened_lo(v),
        r.1@ == <u32x8 as Upcast<u64x4>>::widened_hi(v),
{
    let words = v.be_u64s();
    let low = castsi256_si128(words).be_u32s();
    let lo = cvtepu32_epi64_256(low);
    let permuted = permute4x64_epi64(words, 0x0E);
    let high = castsi256_si128(permuted).be_u32s();
    let hi = cvtepu32_epi64_256(high);
    proof {
        lemma_sel_0e();
        lemma_word64_of_words(v@[0], v@[1]);
        lemma_word64_of_words(v@[2], v@[3]);
        lemma_word64_of_words(v@[4], v@[5]);
        lemma_word64_of_words(v@[6], v@[7]);
        assert(low@[0] == v@[0]);
        assert(low@[1] == v@[1]);
        assert(low@[2] == v@[2]);
        assert(low@[3] == v@[3]);
        assert(high@[0] == v@[4]);
        assert(high@[1] == v@[5]);
        assert(high@[2] == v@[6]);
        assert(high@[3] == v@[7]);
        assert(lo@ =~= <u32x8 as Upcast<u64x4>>::widened_lo(v));
        assert(hi@ =~= <u32x8 as Upcast<u64x4>>::widened_hi(v));
    }
    (lo, hi)
}

/// This pair has no accelerated implementation on any supported extension
/// level, so every build resolves it to the fallback converter, whatever
/// its capability flags say.
pub fn upcast_f32x16_to_f64x8(v: f32x16) -> (r: (f64x8, f64x8))
    ensures
        r.0@ == <f32x16 as Upcast<f64x8>>::widened_lo(v),
        r.1@ == <f32x16 as Upcast<f64x8>>::widened_hi(v),
{
    let r: (f64x8, f64x8) = v.upcast();
    r
}

/// This pair has no accelerated implementation on any supported extension
/// level, so every build resolves it to the fallback converter, whatever
/// its capability flags say.
pub fn upcast_i32x16_to_f64x8(v: i32x16) -> (r: (f64x8, f64x8))
    ensures
        r.0@ == <i32x16 as Upcast<f64x8>>::widened_lo(v),
        r.1@ == <i32x16 as Upcast<f64x8>>::widened_hi(v),
{
    let r: (f64x8, f64x8) = v.upcast();
    r
}

/// This pair has no accelerated implementation on any supported extension
/// level, so every build resolves it to the fallback converter, whatever
/// its capability flags say.
pub fn upcast_i32x16_to_i64x8(v: i32x16) -> (r: (i64x8, i64x8))
    ensures
        r.0@ == <i32x16 as Upcast<i64x8>>::widened_lo(v),
        r.1@ == <i32x16 as Upcast<i64x8>>::widened_hi(v),
{
    let r: (i64x8, i64x8) = v.upcast();
    r
}

/// This pair has no accelerated implementation on any supported extension
/// level, so every build resolves it to the fallback converter, whatever
/// its capability flags say.
pub fn upcast_u32x16_to_u64x8(v: u32x16) -> (r: (u64x8, u64x8))
    ensures
        r.0@ == <u32x16 as Upcast<u64x8>>::widened_lo(v),
        r.1@ == <u32x16 as Upcast<u64x8>>::widened_hi(v),
{
    let r: (u64x8, u64x8) = v.upcast();
    r
}


/// A pair with no accelerated implementation produces output determined
/// by the input lanes alone: on inputs with equal lanes the widened
/// halves are equal, whatever capability configuration a build declares.
pub proof fn lemma_upcast_f32x16_to_f64x8_determined(a: f32x16, b: f32x16)
    requires
        a@ == b@,
    ensures
        <f32x16 as Upcast<f64x8>>::widened_lo(a) == <f32x16 as Upcast<f64x8>>::widened_lo(b),
        <f32x16 as Upcast<f64x8>>::widened_hi(a) == <f32x16 as Upcast<f64x8>>::widened_hi(b),
{
    assert(<f32x16 as Upcast<f64x8>>::widened_lo(a) =~= <f32x16 as Upcast<f64x8>>::widened_lo(b));
    assert(<f32x16 as Upcast<f64x8>>::widened_hi(a) =~= <f32x16 as Upcast<f64x8>>::widened_hi(b));
}


/// A pair with no accelerated implementation produces output determined
/// by the input lanes alone: on inputs with equal lanes the widened
/// halves are equal, whatever capability configuration a build declares.
pub proof fn lemma_upcast_i32x16_to_f64x8_determined(a: i32x16, b: i32x16)
    requires
        a@ == b@,
    ensures
        <i32x16 as Upcast<f64x8>>::widened_lo(a) == <i32x16 as Upcast<f64x8>>::widened_lo(b),
        <i32x16 as Upcast<f64x8>>::widened_hi(a) == <i32x16 as Upcast<f64x8>>::widened_hi(b),
{
    assert(<i32x16 as Upcast<f64x8>>::widened_lo(a) =~= <i32x16 as Upcast<f64x8>>::widened_lo(b));
    assert(<i32x16 as Upcast<f64x8>>::widened_hi(a) =~= <i32x16 as Upcast<f64x8>>::widened_hi(b));
}


/// A pair with no accelerated implementation produces output determined
/// by the input lanes alone: on inputs with equal lanes the widened
/// halves are equal, whatever capability configuration a build declares.
pub proof fn lemma_upcast_i32x16_to_i64x8_determined(a: i32x16, b: i32x16)
    requires
        a@ == b@,
    ensures
        <i32x16 as Upcast<i64x8>>::widened_lo(a) == <i32x16 as Upcast<i64x8>>::widened_lo(b),
        <i32x16 as Upcast<i64x8>>::widened_hi(a) == <i32x16 as Upcast<i64x8>>::widened_hi(b),
{
    assert(<i32x16 as Upcast<i64x8>>::widened_lo(a) =~= <i32x16 as Upcast<i64x8>>::widened_lo(b));
    assert(<i32x16 as Upcast<i64x8>>::widened_hi(a) =~= <i32x16 as Upcast<i64x8>>::widened_hi(b));
}


/// A pair with no accelerated implementation produces output determined
/// by the input lanes alone: on inputs with equal lanes the widened
/// halves are equal, whatever capability configuration a build declares.
pub proof fn lemma_upcast_u32x16_to_u64x8_determined(a: u32x16, b: u32x16)
    requires
        a@ == b@,
    ensures
        <u32x16 as Upcast<u64x8>>::widened_lo(a) == <u32x16 as Upcast<u64x8>>::widened_lo(b),
        <u32x16 as Upcast<u64x8>>::widened_hi(a) == <u32x16 as Upcast<u64x8>>::widened_hi(b),
{
    assert(<u32x16 as Upcast<u64x8>>::widened_lo(a) =~= <u32x16 as Upcast<u64x8>>::widened_lo(b));
    assert(<u32x16 as Upcast<u64x8>>::widened_hi(a) =~= <u32x16 as Upcast<u64x8>>::widened_hi(b));
}

} // verus!
