//! The packed vector types: construction, lane access, and the
//! build-time implementation selection rule.

use faster::Capabilities;
use faster::Extension;
use faster::Implementation;
use faster::Pair;
use faster::implementation_for;
use faster::required_extension;
use faster::i16x8;
use faster::i32x4;
use faster::i8x16;
use faster::select_implementation;
use faster::u16x8;
use faster::u32x4;
use faster::u8x16;

#[test]
fn new_and_extract_round_trip() {
    let v = u16x8::new(10, 11, 12, 13, 14, 15, 16, 17);
    for i in 0..8 {
        assert_eq!(v.extract(i), 10 + i as u16);
    }
}

#[test]
fn lane_counts() {
    assert_eq!(u8x16::len(), 16);
    assert_eq!(u16x8::len(), 8);
    assert_eq!(u32x4::len(), 4);
}

#[test]
fn splat_fills_every_lane() {
    let v = u8x16::splat(0xAB);
    for i in 0..16 {
        assert_eq!(v.extract(i), 0xAB);
    }
}

#[test]
fn replace_changes_one_lane_only() {
    let v = u32x4::new(1, 2, 3, 4);
    let w = v.replace(2, 99);
    assert_eq!(w.extract(0), 1);
    assert_eq!(w.extract(1), 2);
    assert_eq!(w.extract(2), 99);
    assert_eq!(w.extract(3), 4);
    assert_eq!(v.extract(2), 3);
}

#[test]
fn signed_unsigned_casts_keep_bits() {
    let v = i8x16::splat(-1);
    let u = v.as_u8x16();
    for i in 0..16 {
        assert_eq!(u.extract(i), 0xFF);
    }
    let w = u16x8::new(0x8000, 0xFFFF, 0, 1, 2, 3, 4, 5);
    let s = w.as_i16x8();
    assert_eq!(s.extract(0), i16::MIN);
    assert_eq!(s.extract(1), -1);
    let x = i32x4::new(-1, i32::MIN, 0, 7);
    let y = x.as_u32x4();
    assert_eq!(y.extract(0), u32::MAX);
    assert_eq!(y.extract(1), 0x8000_0000);
}

#[test]
fn selection_is_accelerated_only_with_support_and_capability() {
    assert_eq!(select_implementation(true, true), Implementation::Accelerated);
    assert_eq!(select_implementation(true, false), Implementation::Fallback);
    assert_eq!(select_implementation(false, true), Implementation::Fallback);
    assert_eq!(select_implementation(false, false), Implementation::Fallback);
}

#[test]
fn each_pair_requires_its_own_extension() {
    assert_eq!(required_extension(Pair::U8x16ToU16x8), Some(Extension::Sse41));
    assert_eq!(required_extension(Pair::F32x4ToF64x2), Some(Extension::Sse2));
    assert_eq!(required_extension(Pair::U16x16ToU32x8), Some(Extension::Avx2));
    assert_eq!(required_extension(Pair::F32x16ToF64x8), None);
    assert_eq!(required_extension(Pair::I32x16ToI64x8), None);
    assert_eq!(required_extension(Pair::U32x16ToU64x8), None);
}

#[test]
fn pairs_select_independently() {
    // A build with the older 128-bit extension but not the 256-bit one
    // accelerates the 128-bit pair and falls back on the 256-bit pair.
    let caps = Capabilities { sse2: true, sse41: true, avx2: false };
    assert_eq!(
        implementation_for(Pair::U8x16ToU16x8, caps),
        Implementation::Accelerated
    );
    assert_eq!(
        implementation_for(Pair::U8x32ToU16x16, caps),
        Implementation::Fallback
    );
    // A pair with no accelerated implementation stays on the fallback
    // whatever the capabilities say.
    let all = Capabilities { sse2: true, sse41: true, avx2: true };
    assert_eq!(
        implementation_for(Pair::U32x16ToU64x8, all),
        Implementation::Fallback
    );
}
