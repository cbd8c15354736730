//! Portable SIMD widening conversions.
//!
//! A packed vector of `N` narrow lanes is widened, lane for lane, into two
//! packed vectors of `N / 2` lanes of twice the width: the first covers the
//! low half of the input, the second the high half, in lane order.  Two
//! peer converters implement the same contract — a portable lane-wise
//! fallback, and a register-level accelerated path modeled instruction by
//! instruction — and both are verified against the same widened lanes, so
//! they agree bit for bit on every input.

pub mod fallback;
pub mod reinterpret;
pub mod scalar;
pub mod upcast;
pub mod vecs;
pub mod x86;

pub use scalar::f64_bits_of_i32;
pub use scalar::msb;
pub use scalar::msb_u32;
pub use scalar::widen_f32_bits;
pub use scalar::widen_lane_f32;
pub use scalar::widen_lane_i32;
pub use upcast::Capabilities;
pub use upcast::Extension;
pub use upcast::Implementation;
pub use upcast::Pair;
pub use upcast::implementation_for;
pub use upcast::required_extension;
pub use upcast::Upcast;
pub use upcast::select_implementation;
pub use vecs::f32x16;
pub use vecs::f32x4;
pub use vecs::f32x8;
pub use vecs::f64x2;
pub use vecs::f64x4;
pub use vecs::f64x8;
pub use vecs::i16x16;
pub use vecs::i16x8;
pub use vecs::i32x16;
pub use vecs::i32x4;
pub use vecs::i32x8;
pub use vecs::i64x2;
pub use vecs::i64x4;
pub use vecs::i64x8;
pub use vecs::i8x16;
pub use vecs::i8x32;
pub use vecs::u16x16;
pub use vecs::u16x8;
pub use vecs::u32x16;
pub use vecs::u32x4;
pub use vecs::u32x8;
pub use vecs::u64x2;
pub use vecs::u64x4;
pub use vecs::u64x8;
pub use vecs::u8x16;
pub use vecs::u8x32;
