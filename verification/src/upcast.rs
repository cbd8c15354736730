//! The shared widening contract, and the build-time selection rule between
//! the accelerated and the fallback converter.

use vstd::prelude::*;

verus! {

/// Widening conversion from a narrow vector type to a pair of vectors of
/// the wide type, each holding half the lanes.
pub trait Upcast<W: View>: Sized {
    /// The widened low half of the lanes: lanes `[0, N/2)` of the input.
    spec fn widened_lo(self) -> W::V;

    /// The widened high half of the lanes: lanes `[N/2, N)` of the input.
    spec fn widened_hi(self) -> W::V;

    /// Widens every lane, handing back two vectors of half the lane count:
    /// the first covers the low half of the input, the second the high
    /// half, in lane order.
    fn upcast(self) -> (r: (W, W))
        ensures
            r.0@ == self.widened_lo(),
            r.1@ == self.widened_hi(),
    ;
}

/// Which implementation of a conversion pair a build carries: the pair's
/// accelerated path, or the portable fallback.
#[derive(Clone, Copy, PartialEq, Eq, Structural, Debug)]
pub enum Implementation {
    Accelerated,
    Fallback,
}

/// The build-time selection rule: a pair resolves to its accelerated
/// implementation exactly when one exists and the build's declared
/// capabilities include every extension that implementation requires.
/// The choice is fixed when the artifact is produced; nothing re-decides
/// it at run time.
pub fn select_implementation(has_accelerated: bool, extensions_present: bool) -> (r:
    Implementation)
    ensures
        r == Implementation::Accelerated <==> has_accelerated && extensions_present,
{
    if has_accelerated && extensions_present {
        Implementation::Accelerated
    } else {
        Implementation::Fallback
    }
}

/// An instruction-set extension that an accelerated implementation may
/// require of the build target.
#[derive(Clone, Copy, PartialEq, Eq, Structural, Debug)]
pub enum Extension {
    Sse2,
    Sse41,
    Avx2,
}

/// The instruction-set extensions a build target declares.  Each flag is
/// fixed for the lifetime of a build; nothing samples the processor at
/// run time.
#[derive(Clone, Copy, PartialEq, Eq, Structural, Debug)]
pub struct Capabilities {
    pub sse2: bool,
    pub sse41: bool,
    pub avx2: bool,
}

/// Whether the declared capabilities include the given extension.
pub open spec fn spec_has_extension(caps: Capabilities, ext: Extension) -> bool {
    match ext {
        Extension::Sse2 => caps.sse2,
        Extension::Sse41 => caps.sse41,
        Extension::Avx2 => caps.avx2,
    }
}

/// A registered widening conversion pair.  Every supported pair is a
/// variant here; a pair outside this enumeration has no conversion at
/// all, and asking for one does not compile.
#[derive(Clone, Copy, PartialEq, Eq, Structural, Debug)]
pub enum Pair {
    U8x16ToU16x8,
    I8x16ToI16x8,
    U16x8ToU32x4,
    I16x8ToI32x4,
    U8x32ToU16x16,
    I8x32ToI16x16,
    U16x16ToU32x8,
    I16x16ToI32x8,
    F32x4ToF64x2,
    I32x4ToF64x2,
    I32x4ToI64x2,
    U32x4ToU64x2,
    F32x8ToF64x4,
    I32x8ToF64x4,
    I32x8ToI64x4,
    U32x8ToU64x4,
    F32x16ToF64x8,
    I32x16ToF64x8,
    I32x16ToI64x8,
    U32x16ToU64x8,
}

/// The extension a pair's accelerated implementation requires, or `None`
/// for a pair that has no accelerated implementation on any supported
/// extension level.  Each pair is decided on its own: the 256-bit pairs
/// need a newer extension than the 128-bit ones, and the widest pairs
/// have none at all — a static decision, not a per-build one.
pub open spec fn spec_required_extension(pair: Pair) -> Option<Extension> {
    match pair {
        Pair::U8x16ToU16x8 => Some(Extension::Sse41),
        Pair::I8x16ToI16x8 => Some(Extension::Sse41),
        Pair::U16x8ToU32x4 => Some(Extension::Sse41),
        Pair::I16x8ToI32x4 => Some(Extension::Sse41),
        Pair::U8x32ToU16x16 => Some(Extension::Avx2),
        Pair::I8x32ToI16x16 => Some(Extension::Avx2),
        Pair::U16x16ToU32x8 => Some(Extension::Avx2),
        Pair::I16x16ToI32x8 => Some(Extension::Avx2),
        Pair::F32x4ToF64x2 => Some(Extension::Sse2),
        Pair::I32x4ToF64x2 => Some(Extension::Sse2),
        Pair::I32x4ToI64x2 => Some(Extension::Sse41),
        Pair::U32x4ToU64x2 => Some(Extension::Sse41),
        Pair::F32x8ToF64x4 => Some(Extension::Avx2),
        Pair::I32x8ToF64x4 => Some(Extension::Avx2),
        Pair::I32x8ToI64x4 => Some(Extension::Avx2),
        Pair::U32x8ToU64x4 => Some(Extension::Avx2),
        Pair::F32x16ToF64x8 => None,
        Pair::I32x16ToF64x8 => None,
        Pair::I32x16ToI64x8 => None,
        Pair::U32x16ToU64x8 => None,
    }
}

/// The extension a pair's accelerated implementation requires, or `None`
/// where only the fallback exists.
pub fn required_extension(pair: Pair) -> (r: Option<Extension>)
    ensures
        r == spec_required_extension(pair),
{
    match pair {
        Pair::U8x16ToU16x8 => Some(Extension::Sse41),
        Pair::I8x16ToI16x8 => Some(Extension::Sse41),
        Pair::U16x8ToU32x4 => Some(Extension::Sse41),
        Pair::I16x8ToI32x4 => Some(Extension::Sse41),
        Pair::U8x32ToU16x16 => Some(Extension::Avx2),
        Pair::I8x32ToI16x16 => Some(Extension::Avx2),
        Pair::U16x16ToU32x8 => Some(Extension::Avx2),
        Pair::I16x16ToI32x8 => Some(Extension::Avx2),
        Pair::F32x4ToF64x2 => Some(Extension::Sse2),
        Pair::I32x4ToF64x2 => Some(Extension::Sse2),
        Pair::I32x4ToI64x2 => Some(Extension::Sse41),
        Pair::U32x4ToU64x2 => Some(Extension::Sse41),
        Pair::F32x8ToF64x4 => Some(Extension::Avx2),
        Pair::I32x8ToF64x4 => Some(Extension::Avx2),
        Pair::I32x8ToI64x4 => Some(Extension::Avx2),
        Pair::U32x8ToU64x4 => Some(Extension::Avx2),
        Pair::F32x16ToF64x8 => None,
        Pair::I32x16ToF64x8 => None,
        Pair::I32x16ToI64x8 => None,
        Pair::U32x16ToU64x8 => None,
    }
}

/// The implementation a build carries for a pair: accelerated exactly
/// when the pair has an accelerated implementation and the build's
/// declared capabilities include the extension it requires; the fallback
/// otherwise.  Pairs are decided independently of one another.
pub fn implementation_for(pair: Pair, caps: Capabilities) -> (r: Implementation)
    ensures
        r == Implementation::Accelerated <==> (spec_required_extension(pair) matches Some(ext)
            && spec_has_extension(caps, ext)),
        spec_required_extension(pair) is None ==> r == Implementation::Fallback,
{
    match required_extension(pair) {
        None => Implementation::Fallback,
        Some(Extension::Sse2) => select_implementation(true, caps.sse2),
        Some(Extension::Sse41) => select_implementation(true, caps.sse41),
        Some(Extension::Avx2) => select_implementation(true, caps.avx2),
    }
}

} // verus!
