//! The portable fallback converter: every registered pair widened lane by
//! lane, with no assumption on the build target.
//!
//! Each implementation pins both output vectors exactly: the low output
//! holds the widened lanes `[0, N/2)` of the input, the high output the
//! widened lanes `[N/2, N)`, in lane order.

use vstd::prelude::*;

use crate::scalar::f64_bits_of_i32;
use crate::scalar::widen_f32_bits;
use crate::scalar::widen_lane_f32;
use crate::scalar::widen_lane_i32;
use crate::upcast::Upcast;
use crate::vecs::u8x16;
use crate::vecs::i8x16;
use crate::vecs::u8x32;
use crate::vecs::i8x32;
use crate::vecs::u16x8;
use crate::vecs::i16x8;
use crate::vecs::u16x16;
use crate::vecs::i16x16;
use crate::vecs::u32x4;
use crate::vecs::i32x4;
use crate::vecs::u32x8;
use crate::vecs::i32x8;
use crate::vecs::u32x16;
use crate::vecs::i32x16;
use crate::vecs::u64x2;
use crate::vecs::i64x2;
use crate::vecs::u64x4;
use crate::vecs::i64x4;
use crate::vecs::u64x8;
use crate::vecs::i64x8;
use crate::vecs::f32x4;
use crate::vecs::f32x8;
use crate::vecs::f32x16;
use crate::vecs::f64x2;
use crate::vecs::f64x4;
use crate::vecs::f64x8;

verus! {

impl Upcast<u16x8> for u8x16 {
    open spec fn widened_lo(self) -> Seq<u16> {
        Seq::new(8, |i: int| self@[i] as u16)
    }

    open spec fn widened_hi(self) -> Seq<u16> {
        Seq::new(8, |i: int| self@[i + 8] as u16)
    }

    fn upcast(self) -> (r: (u16x8, u16x8)) {
        let r = (
            u16x8::new(
                self.extract(0) as u16,
                self.extract(1) as u16,
                self.extract(2) as u16,
                self.extract(3) as u16,
                self.extract(4) as u16,
                self.extract(5) as u16,
                self.extract(6) as u16,
                self.extract(7) as u16,
            ),
            u16x8::new(
                self.extract(8) as u16,
                self.extract(9) as u16,
                self.extract(10) as u16,
                self.extract(11) as u16,
                self.extract(12) as u16,
                self.extract(13) as u16,
                self.extract(14) as u16,
                self.extract(15) as u16,
            ),
        );
        proof {
            assert(r.0@ =~= <u8x16 as Upcast<u16x8>>::widened_lo(self));
            assert(r.1@ =~= <u8x16 as Upcast<u16x8>>::widened_hi(self));
        }
        r
    }
}

impl Upcast<i16x8> for i8x16 {
    open spec fn widened_lo(self) -> Seq<i16> {
        Seq::new(8, |i: int| self@[i] as i16)
    }

    open spec fn widened_hi(self) -> Seq<i16> {
        Seq::new(8, |i: int| self@[i + 8] as i16)
    }

    fn upcast(self) -> (r: (i16x8, i16x8)) {
        let r = (
            i16x8::new(
                self.extract(0) as i16,
                self.extract(1) as i16,
                self.extract(2) as i16,
                self.extract(3) as i16,
                self.extract(4) as i16,
                self.extract(5) as i16,
                self.extract(6) as i16,
                self.extract(7) as i16,
            ),
            i16x8::new(
                self.extract(8) as i16,
                self.extract(9) as i16,
                self.extract(10) as i16,
                self.extract(11) as i16,
                self.extract(12) as i16,
                self.extract(13) as i16,
                self.extract(14) as i16,
                self.extract(15) as i16,
            ),
        );
        proof {
            assert(r.0@ =~= <i8x16 as Upcast<i16x8>>::widened_lo(self));
            assert(r.1@ =~= <i8x16 as Upcast<i16x8>>::widened_hi(self));
        }
        r
    }
}

impl Upcast<u32x4> for u16x8 {
    open spec fn widened_lo(self) -> Seq<u32> {
        Seq::new(4, |i: int| self@[i] as u32)
    }

    open spec fn widened_hi(self) -> Seq<u32> {
        Seq::new(4, |i: int| self@[i + 4] as u32)
    }

    fn upcast(self) -> (r: (u32x4, u32x4)) {
        let r = (
            u32x4::new(
                self.extract(0) as u32,
                self.extract(1) as u32,
                self.extract(2) as u32,
                self.extract(3) as u32,
            ),
            u32x4::new(
                self.extract(4) as u32,
                self.extract(5) as u32,
                self.extract(6) as u32,
                self.extract(7) as u32,
            ),
        );
        proof {
            assert(r.0@ =~= <u16x8 as Upcast<u32x4>>::widened_lo(self));
            assert(r.1@ =~= <u16x8 as Upcast<u32x4>>::widened_hi(self));
        }
        r
    }
}

impl Upcast<i32x4> for i16x8 {
    open spec fn widened_lo(self) -> Seq<i32> {
        Seq::new(4, |i: int| self@[i] as i32)
    }

    open spec fn widened_hi(self) -> Seq<i32> {
        Seq::new(4, |i: int| self@[i + 4] as i32)
    }

    fn upcast(self) -> (r: (i32x4, i32x4)) {
        let r = (
            i32x4::new(
                self.extract(0) as i32,
                self.extract(1) as i32,
                self.extract(2) as i32,
                self.extract(3) as i32,
            ),
            i32x4::new(
                self.extract(4) as i32,
                self.extract(5) as i32,
                self.extract(6) as i32,
                self.extract(7) as i32,
            ),
        );
        proof {
            assert(r.0@ =~= <i16x8 as Upcast<i32x4>>::widened_lo(self));
            assert(r.1@ =~= <i16x8 as Upcast<i32x4>>::widened_hi(self));
        }
        r
    }
}

impl Upcast<u16x16> for u8x32 {
    open spec fn widened_lo(self) -> Seq<u16> {
        Seq::new(16, |i: int| self@[i] as u16)
    }

    open spec fn widened_hi(self) -> Seq<u16> {
        Seq::new(16, |i: int| self@[i + 16] as u16)
    }

    fn upcast(self) -> (r: (u16x16, u16x16)) {
        let r = (
            u16x16::new(
                self.extract(0) as u16,
                self.extract(1) as u16,
                self.extract(2) as u16,
                self.extract(3) as u16,
                self.extract(4) as u16,
                self.extract(5) as u16,
                self.extract(6) as u16,
                self.extract(7) as u16,
                self.extract(8) as u16,
                self.extract(9) as u16,
                self.extract(10) as u16,
                self.extract(11) as u16,
                self.extract(12) as u16,
                self.extract(13) as u16,
                self.extract(14) as u16,
                self.extract(15) as u16,
            ),
            u16x16::new(
                self.extract(16) as u16,
                self.extract(17) as u16,
                self.extract(18) as u16,
                self.extract(19) as u16,
                self.extract(20) as u16,
                self.extract(21) as u16,
                self.extract(22) as u16,
                self.extract(23) as u16,
                self.extract(24) as u16,
                self.extract(25) as u16,
                self.extract(26) as u16,
                self.extract(27) as u16,
                self.extract(28) as u16,
                self.extract(29) as u16,
                self.extract(30) as u16,
                self.extract(31) as u16,
            ),
        );
        proof {
            assert(r.0@ =~= <u8x32 as Upcast<u16x16>>::widened_lo(self));
            assert(r.1@ =~= <u8x32 as Upcast<u16x16>>::widened_hi(self));
        }
        r
    }
}

impl Upcast<i16x16> for i8x32 {
    open spec fn widened_lo(self) -> Seq<i16> {
        Seq::new(16, |i: int| self@[i] as i16)
    }

    open spec fn widened_hi(self) -> Seq<i16> {
        Seq::new(16, |i: int| self@[i + 16] as i16)
    }

    fn upcast(self) -> (r: (i16x16, i16x16)) {
        let r = (
            i16x16::new(
                self.extract(0) as i16,
                self.extract(1) as i16,
                self.extract(2) as i16,
                self.extract(3) as i16,
                self.extract(4) as i16,
                self.extract(5) as i16,
                self.extract(6) as i16,
                self.extract(7) as i16,
                self.extract(8) as i16,
                self.extract(9) as i16,
                self.extract(10) as i16,
                self.extract(11) as i16,
                self.extract(12) as i16,
                self.extract(13) as i16,
                self.extract(14) as i16,
                self.extract(15) as i16,
            ),
            i16x16::new(
                self.extract(16) as i16,
                self.extract(17) as i16,
                self.extract(18) as i16,
                self.extract(19) as i16,
                self.extract(20) as i16,
                self.extract(21) as i16,
                self.extract(22) as i16,
                self.extract(23) as i16,
                self.extract(24) as i16,
                self.extract(25) as i16,
                self.extract(26) as i16,
                self.extract(27) as i16,
                self.extract(28) as i16,
                self.extract(29) as i16,
                self.extract(30) as i16,
                self.extract(31) as i16,
            ),
        );
        proof {
            assert(r.0@ =~= <i8x32 as Upcast<i16x16>>::widened_lo(self));
            assert(r.1@ =~= <i8x32 as Upcast<i16x16>>::widened_hi(self));
        }
        r
    }
}

impl Upcast<u32x8> for u16x16 {
    open spec fn widened_lo(self) -> Seq<u32> {
        Seq::new(8, |i: int| self@[i] as u32)
    }

    open spec fn widened_hi(self) -> Seq<u32> {
        Seq::new(8, |i: int| self@[i + 8] as u32)
    }

    fn upcast(self) -> (r: (u32x8, u32x8)) {
        let r = (
            u32x8::new(
                self.extract(0) as u32,
                self.extract(1) as u32,
                self.extract(2) as u32,
                self.extract(3) as u32,
                self.extract(4) as u32,
                self.extract(5) as u32,
                self.extract(6) as u32,
                self.extract(7) as u32,
            ),
            u32x8::new(
                self.extract(8) as u32,
                self.extract(9) as u32,
                self.extract(10) as u32,
                self.extract(11) as u32,
                self.extract(12) as u32,
                self.extract(13) as u32,
                self.extract(14) as u32,
                self.extract(15) as u32,
            ),
        );
        proof {
            assert(r.0@ =~= <u16x16 as Upcast<u32x8>>::widened_lo(self));
            assert(r.1@ =~= <u16x16 as Upcast<u32x8>>::widened_hi(self));
        }
        r
    }
}

impl Upcast<i32x8> for i16x16 {
    open spec fn widened_lo(self) -> Seq<i32> {
        Seq::new(8, |i: int| self@[i] as i32)
    }

    open spec fn widened_hi(self) -> Seq<i32> {
        Seq::new(8, |i: int| self@[i + 8] as i32)
    }

    fn upcast(self) -> (r: (i32x8, i32x8)) {
        let r = (
            i32x8::new(
                self.extract(0) as i32,
                self.extract(1) as i32,
                self.extract(2) as i32,
                self.extract(3) as i32,
                self.extract(4) as i32,
                self.extract(5) as i32,
                self.extract(6) as i32,
                self.extract(7) as i32,
            ),
            i32x8::new(
                self.extract(8) as i32,
                self.extract(9) as i32,
                self.extract(10) as i32,
                self.extract(11) as i32,
                self.extract(12) as i32,
                self.extract(13) as i32,
                self.extract(14) as i32,
                self.extract(15) as i32,
            ),
        );
        proof {
            assert(r.0@ =~= <i16x16 as Upcast<i32x8>>::widened_lo(self));
            assert(r.1@ =~= <i16x16 as Upcast<i32x8>>::widened_hi(self));
        }
        r
    }
}

impl Upcast<f64x2> for f32x4 {
    open spec fn widened_lo(self) -> Seq<u64> {
        Seq::new(2, |i: int| widen_f32_bits(self@[i]))
    }

    open spec fn widened_hi(self) -> Seq<u64> {
        Seq::new(2, |i: int| widen_f32_bits(self@[i + 2]))
    }

    fn upcast(self) -> (r: (f64x2, f64x2)) {
        let r = (
            f64x2::new(
                widen_lane_f32(self.extract(0)),
                widen_lane_f32(self.extract(1)),
            ),
            f64x2::new(
                widen_lane_f32(self.extract(2)),
                widen_lane_f32(self.extract(3)),
            ),
        );
        proof {
            assert(r.0@ =~= <f32x4 as Upcast<f64x2>>::widened_lo(self));
            assert(r.1@ =~= <f32x4 as Upcast<f64x2>>::widened_hi(self));
        }
        r
    }
}

impl Upcast<f64x2> for i32x4 {
    open spec fn widened_lo(self) -> Seq<u64> {
        Seq::new(2, |i: int| f64_bits_of_i32(self@[i]))
    }

    open spec fn widened_hi(self) -> Seq<u64> {
        Seq::new(2, |i: int| f64_bits_of_i32(self@[i + 2]))
    }

    fn upcast(self) -> (r: (f64x2, f64x2)) {
        let r = (
            f64x2::new(
                widen_lane_i32(self.extract(0)),
                widen_lane_i32(self.extract(1)),
            ),
            f64x2::new(
                widen_lane_i32(self.extract(2)),
                widen_lane_i32(self.extract(3)),
            ),
        );
        proof {
            assert(r.0@ =~= <i32x4 as Upcast<f64x2>>::widened_lo(self));
            assert(r.1@ =~= <i32x4 as Upcast<f64x2>>::widened_hi(self));
        }
        r
    }
}

impl Upcast<i64x2> for i32x4 {
    open spec fn widened_lo(self) -> Seq<i64> {
        Seq::new(2, |i: int| self@[i] as i64)
    }

    open spec fn widened_hi(self) -> Seq<i64> {
        Seq::new(2, |i: int| self@[i + 2] as i64)
    }

    fn upcast(self) -> (r: (i64x2, i64x2)) {
        let r = (
            i64x2::new(
                self.extract(0) as i64,
                self.extract(1) as i64,
            ),
            i64x2::new(
                self.extract(2) as i64,
                self.extract(3) as i64,
            ),
        );
        proof {
            assert(r.0@ =~= <i32x4 as Upcast<i64x2>>::widened_lo(self));
            assert(r.1@ =~= <i32x4 as Upcast<i64x2>>::widened_hi(self));
        }
        r
    }
}

impl Upcast<u64x2> for u32x4 {
    open spec fn widened_lo(self) -> Seq<u64> {
        Seq::new(2, |i: int| self@[i] as u64)
    }

    open spec fn widened_hi(self) -> Seq<u64> {
        Seq::new(2, |i: int| self@[i + 2] as u64)
    }

    fn upcast(self) -> (r: (u64x2, u64x2)) {
        let r = (
            u64x2::new(
                self.extract(0) as u64,
                self.extract(1) as u64,
            ),
            u64x2::new(
                self.extract(2) as u64,
                self.extract(3) as u64,
            ),
        );
        proof {
            assert(r.0@ =~= <u32x4 as Upcast<u64x2>>::widened_lo(self));
            assert(r.1@ =~= <u32x4 as Upcast<u64x2>>::widened_hi(self));
        }
        r
    }
}

impl Upcast<f64x4> for f32x8 {
    open spec fn widened_lo(self) -> Seq<u64> {
        Seq::new(4, |i: int| widen_f32_bits(self@[i]))
    }

    open spec fn widened_hi(self) -> Seq<u64> {
        Seq::new(4, |i: int| widen_f32_bits(self@[i + 4]))
    }

    fn upcast(self) -> (r: (f64x4, f64x4)) {
        let r = (
            f64x4::new(
                widen_lane_f32(self.extract(0)),
                widen_lane_f32(self.extract(1)),
                widen_lane_f32(self.extract(2)),
                widen_lane_f32(self.extract(3)),
            ),
            f64x4::new(
                widen_lane_f32(self.extract(4)),
                widen_lane_f32(self.extract(5)),
                widen_lane_f32(self.extract(6)),
                widen_lane_f32(self.extract(7)),
            ),
        );
        proof {
            assert(r.0@ =~= <f32x8 as Upcast<f64x4>>::widened_lo(self));
            assert(r.1@ =~= <f32x8 as Upcast<f64x4>>::widened_hi(self));
        }
        r
    }
}

impl Upcast<f64x4> for i32x8 {
    open spec fn widened_lo(self) -> Seq<u64> {
        Seq::new(4, |i: int| f64_bits_of_i32(self@[i]))
    }

    open spec fn widened_hi(self) -> Seq<u64> {
        Seq::new(4, |i: int| f64_bits_of_i32(self@[i + 4]))
    }

    fn upcast(self) -> (r: (f64x4, f64x4)) {
        let r = (
            f64x4::new(
                widen_lane_i32(self.extract(0)),
                widen_lane_i32(self.extract(1)),
                widen_lane_i32(self.extract(2)),
                widen_lane_i32(self.extract(3)),
            ),
            f64x4::new(
                widen_lane_i32(self.extract(4)),
                widen_lane_i32(self.extract(5)),
                widen_lane_i32(self.extract(6)),
                widen_lane_i32(self.extract(7)),
            ),
        );
        proof {
            assert(r.0@ =~= <i32x8 as Upcast<f64x4>>::widened_lo(self));
            assert(r.1@ =~= <i32x8 as Upcast<f64x4>>::widened_hi(self));
        }
        r
    }
}

impl Upcast<i64x4> for i32x8 {
    open spec fn widened_lo(self) -> Seq<i64> {
        Seq::new(4, |i: int| self@[i] as i64)
    }

    open spec fn widened_hi(self) -> Seq<i64> {
        Seq::new(4, |i: int| self@[i + 4] as i64)
    }

    fn upcast(self) -> (r: (i64x4, i64x4)) {
        let r = (
            i64x4::new(
                self.extract(0) as i64,
                self.extract(1) as i64,
                self.extract(2) as i64,
                self.extract(3) as i64,
            ),
            i64x4::new(
                self.extract(4) as i64,
                self.extract(5) as i64,
                self.extract(6) as i64,
                self.extract(7) as i64,
            ),
        );
        proof {
            assert(r.0@ =~= <i32x8 as Upcast<i64x4>>::widened_lo(self));
            assert(r.1@ =~= <i32x8 as Upcast<i64x4>>::widened_hi(self));
        }
        r
    }
}

impl Upcast<u64x4> for u32x8 {
    open spec fn widened_lo(self) -> Seq<u64> {
        Seq::new(4, |i: int| self@[i] as u64)
    }

    open spec fn widened_hi(self) -> Seq<u64> {
        Seq::new(4, |i: int| self@[i + 4] as u64)
    }

    fn upcast(self) -> (r: (u64x4, u64x4)) {
        let r = (
            u64x4::new(
                self.extract(0) as u64,
                self.extract(1) as u64,
                self.extract(2) as u64,
                self.extract(3) as u64,
            ),
            u64x4::new(
                self.extract(4) as u64,
                self.extract(5) as u64,
                self.extract(6) as u64,
                self.extract(7) as u64,
            ),
        );
        proof {
            assert(r.0@ =~= <u32x8 as Upcast<u64x4>>::widened_lo(self));
            assert(r.1@ =~= <u32x8 as Upcast<u64x4>>::widened_hi(self));
        }
        r
    }
}

impl Upcast<f64x8> for f32x16 {
    open spec fn widened_lo(self) -> Seq<u64> {
        Seq::new(8, |i: int| widen_f32_bits(self@[i]))
    }

    open spec fn widened_hi(self) -> Seq<u64> {
        Seq::new(8, |i: int| widen_f32_bits(self@[i + 8]))
    }

    fn upcast(self) -> (r: (f64x8, f64x8)) {
        let r = (
            f64x8::new(
                widen_lane_f32(self.extract(0)),
                widen_lane_f32(self.extract(1)),
                widen_lane_f32(self.extract(2)),
                widen_lane_f32(self.extract(3)),
                widen_lane_f32(self.extract(4)),
                widen_lane_f32(self.extract(5)),
                widen_lane_f32(self.extract(6)),
                widen_lane_f32(self.extract(7)),
            ),
            f64x8::new(
                widen_lane_f32(self.extract(8)),
                widen_lane_f32(self.extract(9)),
                widen_lane_f32(self.extract(10)),
                widen_lane_f32(self.extract(11)),
                widen_lane_f32(self.extract(12)),
                widen_lane_f32(self.extract(13)),
                widen_lane_f32(self.extract(14)),
                widen_lane_f32(self.extract(15)),
            ),
        );
        proof {
            assert(r.0@ =~= <f32x16 as Upcast<f64x8>>::widened_lo(self));
            assert(r.1@ =~= <f32x16 as Upcast<f64x8>>::widened_hi(self));
        }
        r
    }
}

impl Upcast<f64x8> for i32x16 {
    open spec fn widened_lo(self) -> Seq<u64> {
        Seq::new(8, |i: int| f64_bits_of_i32(self@[i]))
    }

    open spec fn widened_hi(self) -> Seq<u64> {
        Seq::new(8, |i: int| f64_bits_of_i32(self@[i + 8]))
    }

    fn upcast(self) -> (r: (f64x8, f64x8)) {
        let r = (
            f64x8::new(
                widen_lane_i32(self.extract(0)),
                widen_lane_i32(self.extract(1)),
                widen_lane_i32(self.extract(2)),
                widen_lane_i32(self.extract(3)),
                widen_lane_i32(self.extract(4)),
                widen_lane_i32(self.extract(5)),
                widen_lane_i32(self.extract(6)),
                widen_lane_i32(self.extract(7)),
            ),
            f64x8::new(
                widen_lane_i32(self.extract(8)),
                widen_lane_i32(self.extract(9)),
                widen_lane_i32(self.extract(10)),
                widen_lane_i32(self.extract(11)),
                widen_lane_i32(self.extract(12)),
                widen_lane_i32(self.extract(13)),
                widen_lane_i32(self.extract(14)),
                widen_lane_i32(self.extract(15)),
            ),
        );
        proof {
            assert(r.0@ =~= <i32x16 as Upcast<f64x8>>::widened_lo(self));
            assert(r.1@ =~= <i32x16 as Upcast<f64x8>>::widened_hi(self));
        }
        r
    }
}

impl Upcast<i64x8> for i32x16 {
    open spec fn widened_lo(self) -> Seq<i64> {
        Seq::new(8, |i: int| self@[i] as i64)
    }

    open spec fn widened_hi(self) -> Seq<i64> {
        Seq::new(8, |i: int| self@[i + 8] as i64)
    }

    fn upcast(self) -> (r: (i64x8, i64x8)) {
        let r = (
            i64x8::new(
                self.extract(0) as i64,
                self.extract(1) as i64,
                self.extract(2) as i64,
                self.extract(3) as i64,
                self.extract(4) as i64,
                self.extract(5) as i64,
                self.extract(6) as i64,
                self.extract(7) as i64,
            ),
            i64x8::new(
                self.extract(8) as i64,
                self.extract(9) as i64,
                self.extract(10) as i64,
                self.extract(11) as i64,
                self.extract(12) as i64,
                self.extract(13) as i64,
                self.extract(14) as i64,
                self.extract(15) as i64,
            ),
        );
        proof {
            assert(r.0@ =~= <i32x16 as Upcast<i64x8>>::widened_lo(self));
            assert(r.1@ =~= <i32x16 as Upcast<i64x8>>::widened_hi(self));
        }
        r
    }
}

impl Upcast<u64x8> for u32x16 {
    open spec fn widened_lo(self) -> Seq<u64> {
        Seq::new(8, |i: int| self@[i] as u64)
    }

    open spec fn widened_hi(self) -> Seq<u64> {
        Seq::new(8, |i: int| self@[i + 8] as u64)
    }

    fn upcast(self) -> (r: (u64x8, u64x8)) {
        let r = (
            u64x8::new(
                self.extract(0) as u64,
                self.extract(1) as u64,
                self.extract(2) as u64,
                self.extract(3) as u64,
                self.extract(4) as u64,
                self.extract(5) as u64,
                self.extract(6) as u64,
                self.extract(7) as u64,
            ),
            u64x8::new(
                self.extract(8) as u64,
                self.extract(9) as u64,
                self.extract(10) as u64,
                self.extract(11) as u64,
                self.extract(12) as u64,
                self.extract(13) as u64,
                self.extract(14) as u64,
                self.extract(15) as u64,
            ),
        );
        proof {
            assert(r.0@ =~= <u32x16 as Upcast<u64x8>>::widened_lo(self));
            assert(r.1@ =~= <u32x16 as Upcast<u64x8>>::widened_hi(self));
        }
        r
    }
}

} // verus!
