//! Bit reinterpretation between vector shapes of the same total size.
//!
//! The accelerated converter routes data through shuffles that act on
//! coarser lanes than the logical element type.  These functions model
//! that rewiring exactly: a vector's lanes are packed little-endian into
//! wider words, or unpacked back, and the contracts say which source lane
//! every piece of the result came from.  On hardware this is a single
//! reinterpreting move of one register's bits; here it is a checked
//! permutation of lane bits, confined to this module.

use vstd::prelude::*;

use crate::vecs::f32x4;
use crate::vecs::f32x8;
use crate::vecs::u16x16;
use crate::vecs::u16x8;
use crate::vecs::u32x4;
use crate::vecs::u32x8;
use crate::vecs::u64x2;
use crate::vecs::u64x4;
use crate::vecs::u8x16;
use crate::vecs::u8x32;

verus! {

/// The 32-bit word whose little-endian bytes are `b0` through `b3`.
pub open spec fn word32_of_bytes(b0: u8, b1: u8, b2: u8, b3: u8) -> u32 {
    (b0 as u32) | ((b1 as u32) << 8u32) | ((b2 as u32) << 16u32) | ((b3 as u32) << 24u32)
}

/// Byte `k` of the 32-bit word `w`, counting from the lowest.
pub open spec fn byte_of_word32(w: u32, k: u32) -> u8
    recommends
        k < 4,
{
    ((w >> (8u32 * k)) & 0xFF) as u8
}

/// The 32-bit word whose low and high 16-bit halves are `h0` and `h1`.
pub open spec fn word32_of_halves(h0: u16, h1: u16) -> u32 {
    (h0 as u32) | ((h1 as u32) << 16u32)
}

/// Half `k` of the 32-bit word `w`, counting from the lowest.
pub open spec fn half_of_word32(w: u32, k: u32) -> u16
    recommends
        k < 2,
{
    ((w >> (16u32 * k)) & 0xFFFF) as u16
}

/// The 64-bit word whose little-endian bytes are `b0` through `b7`.
pub open spec fn word64_of_bytes(
    b0: u8,
    b1: u8,
    b2: u8,
    b3: u8,
    b4: u8,
    b5: u8,
    b6: u8,
    b7: u8,
) -> u64 {
    (b0 as u64) | ((b1 as u64) << 8u64) | ((b2 as u64) << 16u64) | ((b3 as u64) << 24u64) | ((
    b4 as u64) << 32u64) | ((b5 as u64) << 40u64) | ((b6 as u64) << 48u64) | ((b7 as u64)
        << 56u64)
}

/// Byte `k` of the 64-bit word `w`, counting from the lowest.
pub open spec fn byte_of_word64(w: u64, k: u64) -> u8
    recommends
        k < 8,
{
    ((w >> (8u64 * k)) & 0xFF) as u8
}

/// The 64-bit word whose little-endian 16-bit halves are `h0` through `h3`.
pub open spec fn word64_of_halves(h0: u16, h1: u16, h2: u16, h3: u16) -> u64 {
    (h0 as u64) | ((h1 as u64) << 16u64) | ((h2 as u64) << 32u64) | ((h3 as u64) << 48u64)
}

/// 16-bit half `k` of the 64-bit word `w`, counting from the lowest.
pub open spec fn half_of_word64(w: u64, k: u64) -> u16
    recommends
        k < 4,
{
    ((w >> (16u64 * k)) & 0xFFFF) as u16
}

/// The 64-bit word whose low and high 32-bit words are `w0` and `w1`.
pub open spec fn word64_of_words(w0: u32, w1: u32) -> u64 {
    (w0 as u64) | ((w1 as u64) << 32u64)
}

/// 32-bit word `k` of the 64-bit word `w`, counting from the lowest.
pub open spec fn word_of_word64(w: u64, k: u64) -> u32
    recommends
        k < 2,
{
    ((w >> (32u64 * k)) & 0xFFFF_FFFF) as u32
}

/// Packing four bytes into a 32-bit word and taking them out again is the
/// identity.
pub proof fn lemma_word32_of_bytes(b0: u8, b1: u8, b2: u8, b3: u8)
    ensures
        byte_of_word32(word32_of_bytes(b0, b1, b2, b3), 0) == b0,
        byte_of_word32(word32_of_bytes(b0, b1, b2, b3), 1) == b1,
        byte_of_word32(word32_of_bytes(b0, b1, b2, b3), 2) == b2,
        byte_of_word32(word32_of_bytes(b0, b1, b2, b3), 3) == b3,
{
    assert(byte_of_word32(word32_of_bytes(b0, b1, b2, b3), 0) == b0 && byte_of_word32(
        word32_of_bytes(b0, b1, b2, b3),
        1,
    ) == b1 && byte_of_word32(word32_of_bytes(b0, b1, b2, b3), 2) == b2 && byte_of_word32(
        word32_of_bytes(b0, b1, b2, b3),
        3,
    ) == b3) by (bit_vector);
}

/// Packing two halves into a 32-bit word and taking them out again is the
/// identity.
pub proof fn lemma_word32_of_halves(h0: u16, h1: u16)
    ensures
        half_of_word32(word32_of_halves(h0, h1), 0) == h0,
        half_of_word32(word32_of_halves(h0, h1), 1) == h1,
{
    assert(half_of_word32(word32_of_halves(h0, h1), 0) == h0 && half_of_word32(
        word32_of_halves(h0, h1),
        1,
    ) == h1) by (bit_vector);
}

/// Packing eight bytes into a 64-bit word and taking them out again is the
/// identity.
pub proof fn lemma_word64_of_bytes(b0: u8, b1: u8, b2: u8, b3: u8, b4: u8, b5: u8, b6: u8, b7: u8)
    ensures
        byte_of_word64(word64_of_bytes(b0, b1, b2, b3, b4, b5, b6, b7), 0) == b0,
        byte_of_word64(word64_of_bytes(b0, b1, b2, b3, b4, b5, b6, b7), 1) == b1,
        byte_of_word64(word64_of_bytes(b0, b1, b2, b3, b4, b5, b6, b7), 2) == b2,
        byte_of_word64(word64_of_bytes(b0, b1, b2, b3, b4, b5, b6, b7), 3) == b3,
        byte_of_word64(word64_of_bytes(b0, b1, b2, b3, b4, b5, b6, b7), 4) == b4,
        byte_of_word64(word64_of_bytes(b0, b1, b2, b3, b4, b5, b6, b7), 5) == b5,
        byte_of_word64(word64_of_bytes(b0, b1, b2, b3, b4, b5, b6, b7), 6) == b6,
        byte_of_word64(word64_of_bytes(b0, b1, b2, b3, b4, b5, b6, b7), 7) == b7,
{
    assert(byte_of_word64(word64_of_bytes(b0, b1, b2, b3, b4, b5, b6, b7), 0) == b0
        && byte_of_word64(word64_of_bytes(b0, b1, b2, b3, b4, b5, b6, b7), 1) == b1
        && byte_of_word64(word64_of_bytes(b0, b1, b2, b3, b4, b5, b6, b7), 2) == b2
        && byte_of_word64(word64_of_bytes(b0, b1, b2, b3, b4, b5, b6, b7), 3) == b3
        && byte_of_word64(word64_of_bytes(b0, b1, b2, b3, b4, b5, b6, b7), 4) == b4
        && byte_of_word64(word64_of_bytes(b0, b1, b2, b3, b4, b5, b6, b7), 5) == b5
        && byte_of_word64(word64_of_bytes(b0, b1, b2, b3, b4, b5, b6, b7), 6) == b6
        && byte_of_word64(word64_of_bytes(b0, b1, b2, b3, b4, b5, b6, b7), 7) == b7)
        by (bit_vector);
}

/// Packing four halves into a 64-bit word and taking them out again is the
/// identity.
pub proof fn lemma_word64_of_halves(h0: u16, h1: u16, h2: u16, h3: u16)
    ensures
        half_of_word64(word64_of_halves(h0, h1, h2, h3), 0) == h0,
        half_of_word64(word64_of_halves(h0, h1, h2, h3), 1) == h1,
        half_of_word64(word64_of_halves(h0, h1, h2, h3), 2) == h2,
        half_of_word64(word64_of_halves(h0, h1, h2, h3), 3) == h3,
{
    assert(half_of_word64(word64_of_halves(h0, h1, h2, h3), 0) == h0 && half_of_word64(
        word64_of_halves(h0, h1, h2, h3),
        1,
    ) == h1 && half_of_word64(word64_of_halves(h0, h1, h2, h3), 2) == h2 && half_of_word64(
        word64_of_halves(h0, h1, h2, h3),
        3,
    ) == h3) by (bit_vector);
}

/// Packing two 32-bit words into a 64-bit word and taking them out again
/// is the identity.
pub proof fn lemma_word64_of_words(w0: u32, w1: u32)
    ensures
        word_of_word64(word64_of_words(w0, w1), 0) == w0,
        word_of_word64(word64_of_words(w0, w1), 1) == w1,
{
    assert(word_of_word64(word64_of_words(w0, w1), 0) == w0 && word_of_word64(
        word64_of_words(w0, w1),
        1,
    ) == w1) by (bit_vector);
}

/// A signed byte survives the round trip through its unsigned bit pattern.
pub proof fn lemma_i8_roundtrip(x: i8)
    ensures
        ((x as u8) as i8) == x,
{
    assert(((x as u8) as i8) == x) by (bit_vector);
}

/// A signed 16-bit lane survives the round trip through its unsigned bit
/// pattern.
pub proof fn lemma_i16_roundtrip(x: i16)
    ensures
        ((x as u16) as i16) == x,
{
    assert(((x as u16) as i16) == x) by (bit_vector);
}

/// A signed 32-bit lane survives the round trip through its unsigned bit
/// pattern.
pub proof fn lemma_i32_roundtrip(x: i32)
    ensures
        ((x as u32) as i32) == x,
{
    assert(((x as u32) as i32) == x) by (bit_vector);
}

impl u8x16 {
    /// The lanes packed little-endian into 4 words of u32 bits each.
    pub fn be_u32s(self) -> (r: u32x4)
        ensures
            r@.len() == 4,
            forall|i: int|
                0 <= i < 4 ==> r@[i] == word32_of_bytes(self@[4 * i], self@[4 * i + 1], self@[4 * i + 2], self@[4 * i + 3]),
    {
        u32x4::new(
            (self.extract(0) as u32) | ((self.extract(1) as u32) << 8u32) | ((self.extract(2) as u32) << 16u32) | ((self.extract(3) as u32) << 24u32),
            (self.extract(4) as u32) | ((self.extract(5) as u32) << 8u32) | ((self.extract(6) as u32) << 16u32) | ((self.extract(7) as u32) << 24u32),
            (self.extract(8) as u32) | ((self.extract(9) as u32) << 8u32) | ((self.extract(10) as u32) << 16u32) | ((self.extract(11) as u32) << 24u32),
            (self.extract(12) as u32) | ((self.extract(13) as u32) << 8u32) | ((self.extract(14) as u32) << 16u32) | ((self.extract(15) as u32) << 24u32),
        )
    }
}

impl u16x8 {
    /// The lanes packed little-endian into 4 words of u32 bits each.
    pub fn be_u32s(self) -> (r: u32x4)
        ensures
            r@.len() == 4,
            forall|i: int|
                0 <= i < 4 ==> r@[i] == word32_of_halves(self@[2 * i], self@[2 * i + 1]),
    {
        u32x4::new(
            (self.extract(0) as u32) | ((self.extract(1) as u32) << 16u32),
            (self.extract(2) as u32) | ((self.extract(3) as u32) << 16u32),
            (self.extract(4) as u32) | ((self.extract(5) as u32) << 16u32),
            (self.extract(6) as u32) | ((self.extract(7) as u32) << 16u32),
        )
    }
}

impl u32x4 {
    /// The words unpacked little-endian into the 16 lanes of the result.
    pub fn be_u8s(self) -> (r: u8x16)
        ensures
            r@.len() == 16,
            forall|j: int|
                0 <= j < 16 ==> r@[j] == byte_of_word32(self@[j / 4], (j % 4) as u32),
    {
        u8x16::new(
            ((self.extract(0) >> 0u32) & 0xff) as u8,
            ((self.extract(0) >> 8u32) & 0xff) as u8,
            ((self.extract(0) >> 16u32) & 0xff) as u8,
            ((self.extract(0) >> 24u32) & 0xff) as u8,
            ((self.extract(1) >> 0u32) & 0xff) as u8,
            ((self.extract(1) >> 8u32) & 0xff) as u8,
            ((self.extract(1) >> 16u32) & 0xff) as u8,
            ((self.extract(1) >> 24u32) & 0xff) as u8,
            ((self.extract(2) >> 0u32) & 0xff) as u8,
            ((self.extract(2) >> 8u32) & 0xff) as u8,
            ((self.extract(2) >> 16u32) & 0xff) as u8,
            ((self.extract(2) >> 24u32) & 0xff) as u8,
            ((self.extract(3) >> 0u32) & 0xff) as u8,
            ((self.extract(3) >> 8u32) & 0xff) as u8,
            ((self.extract(3) >> 16u32) & 0xff) as u8,
            ((self.extract(3) >> 24u32) & 0xff) as u8,
        )
    }

    /// The words unpacked little-endian into the 8 lanes of the result.
    pub fn be_u16s(self) -> (r: u16x8)
        ensures
            r@.len() == 8,
            forall|j: int|
                0 <= j < 8 ==> r@[j] == half_of_word32(self@[j / 2], (j % 2) as u32),
    {
        u16x8::new(
            ((self.extract(0) >> 0u32) & 0xffff) as u16,
            ((self.extract(0) >> 16u32) & 0xffff) as u16,
            ((self.extract(1) >> 0u32) & 0xffff) as u16,
            ((self.extract(1) >> 16u32) & 0xffff) as u16,
            ((self.extract(2) >> 0u32) & 0xffff) as u16,
            ((self.extract(2) >> 16u32) & 0xffff) as u16,
            ((self.extract(3) >> 0u32) & 0xffff) as u16,
            ((self.extract(3) >> 16u32) & 0xffff) as u16,
        )
    }

    /// The words carried over unchanged as 32-bit float bit patterns.
    pub fn be_f32s(self) -> (r: f32x4)
        ensures
            r@.len() == 4,
            forall|i: int| 0 <= i < 4 ==> r@[i] == self@[i],
    {
        f32x4::new(self.extract(0), self.extract(1), self.extract(2), self.extract(3))
    }
}

impl f32x4 {
    /// The lane bit patterns carried over unchanged as 32-bit words.
    pub fn be_u32s(self) -> (r: u32x4)
        ensures
            r@.len() == 4,
            forall|i: int| 0 <= i < 4 ==> r@[i] == self@[i],
    {
        u32x4::new(self.extract(0), self.extract(1), self.extract(2), self.extract(3))
    }
}

impl u8x32 {
    /// The lanes packed little-endian into 4 words of u64 bits each.
    pub fn be_u64s(self) -> (r: u64x4)
        ensures
            r@.len() == 4,
            forall|i: int|
                0 <= i < 4 ==> r@[i] == word64_of_bytes(self@[8 * i], self@[8 * i + 1], self@[8 * i + 2], self@[8 * i + 3], self@[8 * i + 4], self@[8 * i + 5], self@[8 * i + 6], self@[8 * i + 7]),
    {
        u64x4::new(
            (self.extract(0) as u64) | ((self.extract(1) as u64) << 8u64) | ((self.extract(2) as u64) << 16u64) | ((self.extract(3) as u64) << 24u64) | ((self.extract(4) as u64) << 32u64) | ((self.extract(5) as u64) << 40u64) | ((self.extract(6) as u64) << 48u64) | ((self.extract(7) as u64) << 56u64),
            (self.extract(8) as u64) | ((self.extract(9) as u64) << 8u64) | ((self.extract(10) as u64) << 16u64) | ((self.extract(11) as u64) << 24u64) | ((self.extract(12) as u64) << 32u64) | ((self.extract(13) as u64) << 40u64) | ((self.extract(14) as u64) << 48u64) | ((self.extract(15) as u64) << 56u64),
            (self.extract(16) as u64) | ((self.extract(17) as u64) << 8u64) | ((self.extract(18) as u64) << 16u64) | ((self.extract(19) as u64) << 24u64) | ((self.extract(20) as u64) << 32u64) | ((self.extract(21) as u64) << 40u64) | ((self.extract(22) as u64) << 48u64) | ((self.extract(23) as u64) << 56u64),
            (self.extract(24) as u64) | ((self.extract(25) as u64) << 8u64) | ((self.extract(26) as u64) << 16u64) | ((self.extract(27) as u64) << 24u64) | ((self.extract(28) as u64) << 32u64) | ((self.extract(29) as u64) << 40u64) | ((self.extract(30) as u64) << 48u64) | ((self.extract(31) as u64) << 56u64),
        )
    }
}

impl u16x16 {
    /// The lanes packed little-endian into 4 words of u64 bits each.
    pub fn be_u64s(self) -> (r: u64x4)
        ensures
            r@.len() == 4,
            forall|i: int|
                0 <= i < 4 ==> r@[i] == word64_of_halves(self@[4 * i], self@[4 * i + 1], self@[4 * i + 2], self@[4 * i + 3]),
    {
        u64x4::new(
            (self.extract(0) as u64) | ((self.extract(1) as u64) << 16u64) | ((self.extract(2) as u64) << 32u64) | ((self.extract(3) as u64) << 48u64),
            (self.extract(4) as u64) | ((self.extract(5) as u64) << 16u64) | ((self.extract(6) as u64) << 32u64) | ((self.extract(7) as u64) << 48u64),
            (self.extract(8) as u64) | ((self.extract(9) as u64) << 16u64) | ((self.extract(10) as u64) << 32u64) | ((self.extract(11) as u64) << 48u64),
            (self.extract(12) as u64) | ((self.extract(13) as u64) << 16u64) | ((self.extract(14) as u64) << 32u64) | ((self.extract(15) as u64) << 48u64),
        )
    }
}

impl u32x8 {
    /// The lanes packed little-endian into 4 words of u64 bits each.
    pub fn be_u64s(self) -> (r: u64x4)
        ensures
            r@.len() == 4,
            forall|i: int|
                0 <= i < 4 ==> r@[i] == word64_of_words(self@[2 * i], self@[2 * i + 1]),
    {
        u64x4::new(
            (self.extract(0) as u64) | ((self.extract(1) as u64) << 32u64),
            (self.extract(2) as u64) | ((self.extract(3) as u64) << 32u64),
            (self.extract(4) as u64) | ((self.extract(5) as u64) << 32u64),
            (self.extract(6) as u64) | ((self.extract(7) as u64) << 32u64),
        )
    }
}

impl f32x8 {
    /// The lanes packed little-endian into 4 words of u64 bits each.
    pub fn be_u64s(self) -> (r: u64x4)
        ensures
            r@.len() == 4,
            forall|i: int|
                0 <= i < 4 ==> r@[i] == word64_of_words(self@[2 * i], self@[2 * i + 1]),
    {
        u64x4::new(
            (self.extract(0) as u64) | ((self.extract(1) as u64) << 32u64),
            (self.extract(2) as u64) | ((self.extract(3) as u64) << 32u64),
            (self.extract(4) as u64) | ((self.extract(5) as u64) << 32u64),
            (self.extract(6) as u64) | ((self.extract(7) as u64) << 32u64),
        )
    }
}

impl u64x2 {
    /// The words unpacked little-endian into the 16 lanes of the result.
    pub fn be_u8s(self) -> (r: u8x16)
        ensures
            r@.len() == 16,
            forall|j: int|
                0 <= j < 16 ==> r@[j] == byte_of_word64(self@[j / 8], (j % 8) as u64),
    {
        u8x16::new(
            ((self.extract(0) >> 0u64) & 0xff) as u8,
            ((self.extract(0) >> 8u64) & 0xff) as u8,
            ((self.extract(0) >> 16u64) & 0xff) as u8,
            ((self.extract(0) >> 24u64) & 0xff) as u8,
            ((self.extract(0) >> 32u64) & 0xff) as u8,
            ((self.extract(0) >> 40u64) & 0xff) as u8,
            ((self.extract(0) >> 48u64) & 0xff) as u8,
            ((self.extract(0) >> 56u64) & 0xff) as u8,
            ((self.extract(1) >> 0u64) & 0xff) as u8,
            ((self.extract(1) >> 8u64) & 0xff) as u8,
            ((self.extract(1) >> 16u64) & 0xff) as u8,
            ((self.extract(1) >> 24u64) & 0xff) as u8,
            ((self.extract(1) >> 32u64) & 0xff) as u8,
            ((self.extract(1) >> 40u64) & 0xff) as u8,
            ((self.extract(1) >> 48u64) & 0xff) as u8,
            ((self.extract(1) >> 56u64) & 0xff) as u8,
        )
    }

    /// The words unpacked little-endian into the 8 lanes of the result.
    pub fn be_u16s(self) -> (r: u16x8)
        ensures
            r@.len() == 8,
            forall|j: int|
                0 <= j < 8 ==> r@[j] == half_of_word64(self@[j / 4], (j % 4) as u64),
    {
        u16x8::new(
            ((self.extract(0) >> 0u64) & 0xffff) as u16,
            ((self.extract(0) >> 16u64) & 0xffff) as u16,
            ((self.extract(0) >> 32u64) & 0xffff) as u16,
            ((self.extract(0) >> 48u64) & 0xffff) as u16,
            ((self.extract(1) >> 0u64) & 0xffff) as u16,
            ((self.extract(1) >> 16u64) & 0xffff) as u16,
            ((self.extract(1) >> 32u64) & 0xffff) as u16,
            ((self.extract(1) >> 48u64) & 0xffff) as u16,
        )
    }

    /// The words unpacked little-endian into the 4 lanes of the result.
    pub fn be_u32s(self) -> (r: u32x4)
        ensures
            r@.len() == 4,
            forall|j: int|
                0 <= j < 4 ==> r@[j] == word_of_word64(self@[j / 2], (j % 2) as u64),
    {
        u32x4::new(
            ((self.extract(0) >> 0u64) & 0xffffffff) as u32,
            ((self.extract(0) >> 32u64) & 0xffffffff) as u32,
            ((self.extract(1) >> 0u64) & 0xffffffff) as u32,
            ((self.extract(1) >> 32u64) & 0xffffffff) as u32,
        )
    }

    /// The words unpacked little-endian into the 4 lanes of the result.
    pub fn be_f32s(self) -> (r: f32x4)
        ensures
            r@.len() == 4,
            forall|j: int|
                0 <= j < 4 ==> r@[j] == word_of_word64(self@[j / 2], (j % 2) as u64),
    {
        f32x4::new(
            ((self.extract(0) >> 0u64) & 0xffffffff) as u32,
            ((self.extract(0) >> 32u64) & 0xffffffff) as u32,
            ((self.extract(1) >> 0u64) & 0xffffffff) as u32,
            ((self.extract(1) >> 32u64) & 0xffffffff) as u32,
        )
    }
}

} // verus!
