//! The modeled instructions themselves: lane shuffles under arbitrary
//! immediate controls, the low-half move, the widening moves, and the
//! little-endian packing round trips.

use faster::u16x8;
use faster::u32x4;
use faster::u64x2;
use faster::u64x4;
use faster::u8x16;
use faster::x86::castsi256_si128;
use faster::x86::cvtepu8_epi16;
use faster::x86::permute4x64_epi64;
use faster::x86::shuffle_epi32;

#[test]
fn shuffle_picks_lanes_by_selector_fields() {
    let v = u32x4::new(100, 200, 300, 400);
    // 0x0E = (2, 3, 0, 0): the upper half moved into the lower lanes.
    let r = shuffle_epi32(v, 0x0E);
    assert_eq!(r.extract(0), 300);
    assert_eq!(r.extract(1), 400);
    assert_eq!(r.extract(2), 100);
    assert_eq!(r.extract(3), 100);
    // 0x1B = (3, 2, 1, 0): full reversal.
    let rev = shuffle_epi32(v, 0x1B);
    for i in 0..4 {
        assert_eq!(rev.extract(i), v.extract(3 - i));
    }
    // 0xE4 = (0, 1, 2, 3): the identity.
    let same = shuffle_epi32(v, 0xE4);
    for i in 0..4 {
        assert_eq!(same.extract(i), v.extract(i));
    }
}

#[test]
fn permute_picks_64_bit_lanes_by_selector_fields() {
    let v = u64x4::new(11, 22, 33, 44);
    let r = permute4x64_epi64(v, 0x0E);
    assert_eq!(r.extract(0), 33);
    assert_eq!(r.extract(1), 44);
    assert_eq!(r.extract(2), 11);
    assert_eq!(r.extract(3), 11);
}

#[test]
fn cast_takes_the_low_half() {
    let v = u64x4::new(5, 6, 7, 8);
    let r = castsi256_si128(v);
    assert_eq!(r.extract(0), 5);
    assert_eq!(r.extract(1), 6);
}

#[test]
fn widening_move_reads_only_the_low_lanes() {
    let v = u8x16::new(
        9, 8, 7, 6, 5, 4, 3, 2, 0xFF, 0xFF, 0xFF, 0xFF, 0xFF, 0xFF, 0xFF, 0xFF,
    );
    let r: u16x8 = cvtepu8_epi16(v);
    for i in 0..8 {
        assert_eq!(r.extract(i), (9 - i) as u16);
    }
}

#[test]
fn byte_packing_is_little_endian_and_round_trips() {
    let v = u8x16::new(
        0x01, 0x02, 0x03, 0x04, 0x11, 0x12, 0x13, 0x14, 0x21, 0x22, 0x23, 0x24, 0x31, 0x32, 0x33,
        0x34,
    );
    let w = v.be_u32s();
    assert_eq!(w.extract(0), 0x0403_0201);
    assert_eq!(w.extract(1), 0x1413_1211);
    assert_eq!(w.extract(2), 0x2423_2221);
    assert_eq!(w.extract(3), 0x3433_3231);
    let back = w.be_u8s();
    for i in 0..16 {
        assert_eq!(back.extract(i), v.extract(i));
    }
}

#[test]
fn word64_packing_round_trips() {
    let v = u64x2::new(0x0807_0605_0403_0201, 0xF0E0_D0C0_B0A0_9080);
    let bytes = v.be_u8s();
    assert_eq!(bytes.extract(0), 0x01);
    assert_eq!(bytes.extract(7), 0x08);
    assert_eq!(bytes.extract(8), 0x80);
    assert_eq!(bytes.extract(15), 0xF0);
    let halves = v.be_u16s();
    assert_eq!(halves.extract(0), 0x0201);
    assert_eq!(halves.extract(3), 0x0807);
    let words = v.be_u32s();
    assert_eq!(words.extract(0), 0x0403_0201);
    assert_eq!(words.extract(3), 0xF0E0_D0C0);
}
