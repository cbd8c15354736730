//! The packed vector types: fixed-length, value-semantics aggregates of
//! lanes, indexed from lane 0 upward.
//!
//! Float lanes are carried as their IEEE 754 bit patterns, so that every
//! conversion in this crate is a checked function on integers.

use vstd::prelude::*;

verus! {

/// Sixteen unsigned 8-bit lanes.
#[derive(Clone, Copy)]
#[allow(non_camel_case_types)]
pub struct u8x16 {
    data: [u8; 16],
}

impl View for u8x16 {
    type V = Seq<u8>;

    closed spec fn view(&self) -> Seq<u8> {
        self.data@
    }
}

impl u8x16 {
    /// A vector with the given lanes, lane 0 first.
    pub fn new(x0: u8, x1: u8, x2: u8, x3: u8, x4: u8, x5: u8, x6: u8, x7: u8, x8: u8, x9: u8, x10: u8, x11: u8, x12: u8, x13: u8, x14: u8, x15: u8) -> (r: u8x16)
        ensures
            r@ == seq![x0, x1, x2, x3, x4, x5, x6, x7, x8, x9, x10, x11, x12, x13, x14, x15],
    {
        let r = u8x16 { data: [x0, x1, x2, x3, x4, x5, x6, x7, x8, x9, x10, x11, x12, x13, x14, x15] };
        proof {
            assert(r@ =~= seq![x0, x1, x2, x3, x4, x5, x6, x7, x8, x9, x10, x11, x12, x13, x14, x15]);
        }
        r
    }

    /// The lane count.
    pub fn len() -> (r: i32)
        ensures
            r == 16,
    {
        16
    }

    /// A vector with every lane equal to `value`.
    pub fn splat(value: u8) -> (r: u8x16)
        ensures
            r@.len() == 16,
            forall|i: int| 0 <= i < 16 ==> r@[i] == value,
    {
        u8x16::new(value, value, value, value, value, value, value, value, value, value, value, value, value, value, value, value)
    }

    /// The lane at `idx`, counting from the lowest lane.
    pub fn extract(self, idx: usize) -> (r: u8)
        requires
            idx < 16,
        ensures
            r == self@[idx as int],
    {
        self.data[idx]
    }

    /// A copy of `self` with the lane at `idx` replaced by `val`.
    pub fn replace(self, idx: usize, val: u8) -> (r: u8x16)
        requires
            idx < 16,
        ensures
            r@ == self@.update(idx as int, val),
    {
        let mut data = self.data;
        data[idx] = val;
        u8x16 { data }
    }
}

/// Sixteen signed 8-bit lanes.
#[derive(Clone, Copy)]
#[allow(non_camel_case_types)]
pub struct i8x16 {
    data: [i8; 16],
}

impl View for i8x16 {
    type V = Seq<i8>;

    closed spec fn view(&self) -> Seq<i8> {
        self.data@
    }
}

impl i8x16 {
    /// A vector with the given lanes, lane 0 first.
    pub fn new(x0: i8, x1: i8, x2: i8, x3: i8, x4: i8, x5: i8, x6: i8, x7: i8, x8: i8, x9: i8, x10: i8, x11: i8, x12: i8, x13: i8, x14: i8, x15: i8) -> (r: i8x16)
        ensures
            r@ == seq![x0, x1, x2, x3, x4, x5, x6, x7, x8, x9, x10, x11, x12, x13, x14, x15],
    {
        let r = i8x16 { data: [x0, x1, x2, x3, x4, x5, x6, x7, x8, x9, x10, x11, x12, x13, x14, x15] };
        proof {
            assert(r@ =~= seq![x0, x1, x2, x3, x4, x5, x6, x7, x8, x9, x10, x11, x12, x13, x14, x15]);
        }
        r
    }

    /// The lane count.
    pub fn len() -> (r: i32)
        ensures
            r == 16,
    {
        16
    }

    /// A vector with every lane equal to `value`.
    pub fn splat(value: i8) -> (r: i8x16)
        ensures
            r@.len() == 16,
            forall|i: int| 0 <= i < 16 ==> r@[i] == value,
    {
        i8x16::new(value, value, value, value, value, value, value, value, value, value, value, value, value, value, value, value)
    }

    /// The lane at `idx`, counting from the lowest lane.
    pub fn extract(self, idx: usize) -> (r: i8)
        requires
            idx < 16,
        ensures
            r == self@[idx as int],
    {
        self.data[idx]
    }

    /// A copy of `self` with the lane at `idx` replaced by `val`.
    pub fn replace(self, idx: usize, val: i8) -> (r: i8x16)
        requires
            idx < 16,
        ensures
            r@ == self@.update(idx as int, val),
    {
        let mut data = self.data;
        data[idx] = val;
        i8x16 { data }
    }
}

/// Thirty-two unsigned 8-bit lanes.
#[derive(Clone, Copy)]
#[allow(non_camel_case_types)]
pub struct u8x32 {
    data: [u8; 32],
}

impl View for u8x32 {
    type V = Seq<u8>;

    closed spec fn view(&self) -> Seq<u8> {
        self.data@
    }
}

impl u8x32 {
    /// A vector with the given lanes, lane 0 first.
    pub fn new(x0: u8, x1: u8, x2: u8, x3: u8, x4: u8, x5: u8, x6: u8, x7: u8, x8: u8, x9: u8, x10: u8, x11: u8, x12: u8, x13: u8, x14: u8, x15: u8, x16: u8, x17: u8, x18: u8, x19: u8, x20: u8, x21: u8, x22: u8, x23: u8, x24: u8, x25: u8, x26: u8, x27: u8, x28: u8, x29: u8, x30: u8, x31: u8) -> (r: u8x32)
        ensures
            r@ == seq![x0, x1, x2, x3, x4, x5, x6, x7, x8, x9, x10, x11, x12, x13, x14, x15, x16, x17, x18, x19, x20, x21, x22, x23, x24, x25, x26, x27, x28, x29, x30, x31],
    {
        let r = u8x32 { data: [x0, x1, x2, x3, x4, x5, x6, x7, x8, x9, x10, x11, x12, x13, x14, x15, x16, x17, x18, x19, x20, x21, x22, x23, x24, x25, x26, x27, x28, x29, x30, x31] };
        proof {
            assert(r@ =~= seq![x0, x1, x2, x3, x4, x5, x6, x7, x8, x9, x10, x11, x12, x13, x14, x15, x16, x17, x18, x19, x20, x21, x22, x23, x24, x25, x26, x27, x28, x29, x30, x31]);
        }
        r
    }

    /// The lane count.
    pub fn len() -> (r: i32)
        ensures
            r == 32,
    {
        32
    }

    /// A vector with every lane equal to `value`.
    pub fn splat(value: u8) -> (r: u8x32)
        ensures
            r@.len() == 32,
            forall|i: int| 0 <= i < 32 ==> r@[i] == value,
    {
        u8x32::new(value, value, value, value, value, value, value, value, value, value, value, value, value, value, value, value, value, value, value, value, value, value, value, value, value, value, value, value, value, value, value, value)
    }

    /// The lane at `idx`, counting from the lowest lane.
    pub fn extract(self, idx: usize) -> (r: u8)
        requires
            idx < 32,
        ensures
            r == self@[idx as int],
    {
        self.data[idx]
    }

    /// A copy of `self` with the lane at `idx` replaced by `val`.
    pub fn replace(self, idx: usize, val: u8) -> (r: u8x32)
        requires
            idx < 32,
        ensures
            r@ == self@.update(idx as int, val),
    {
        let mut data = self.data;
        data[idx] = val;
        u8x32 { data }
    }
}

/// Thirty-two signed 8-bit lanes.
#[derive(Clone, Copy)]
#[allow(non_camel_case_types)]
pub struct i8x32 {
    data: [i8; 32],
}

impl View for i8x32 {
    type V = Seq<i8>;

    closed spec fn view(&self) -> Seq<i8> {
        self.data@
    }
}

impl i8x32 {
    /// A vector with the given lanes, lane 0 first.
    pub fn new(x0: i8, x1: i8, x2: i8, x3: i8, x4: i8, x5: i8, x6: i8, x7: i8, x8: i8, x9: i8, x10: i8, x11: i8, x12: i8, x13: i8, x14: i8, x15: i8, x16: i8, x17: i8, x18: i8, x19: i8, x20: i8, x21: i8, x22: i8, x23: i8, x24: i8, x25: i8, x26: i8, x27: i8, x28: i8, x29: i8, x30: i8, x31: i8) -> (r: i8x32)
        ensures
            r@ == seq![x0, x1, x2, x3, x4, x5, x6, x7, x8, x9, x10, x11, x12, x13, x14, x15, x16, x17, x18, x19, x20, x21, x22, x23, x24, x25, x26, x27, x28, x29, x30, x31],
    {
        let r = i8x32 { data: [x0, x1, x2, x3, x4, x5, x6, x7, x8, x9, x10, x11, x12, x13, x14, x15, x16, x17, x18, x19, x20, x21, x22, x23, x24, x25, x26, x27, x28, x29, x30, x31] };
        proof {
            assert(r@ =~= seq![x0, x1, x2, x3, x4, x5, x6, x7, x8, x9, x10, x11, x12, x13, x14, x15, x16, x17, x18, x19, x20, x21, x22, x23, x24, x25, x26, x27, x28, x29, x30, x31]);
        }
        r
    }

    /// The lane count.
    pub fn len() -> (r: i32)
        ensures
            r == 32,
    {
        32
    }

    /// A vector with every lane equal to `value`.
    pub fn splat(value: i8) -> (r: i8x32)
        ensures
            r@.len() == 32,
            forall|i: int| 0 <= i < 32 ==> r@[i] == value,
    {
        i8x32::new(value, value, value, value, value, value, value, value, value, value, value, value, value, value, value, value, value, value, value, value, value, value, value, value, value, value, value, value, value, value, value, value)
    }

    /// The lane at `idx`, counting from the lowest lane.
    pub fn extract(self, idx: usize) -> (r: i8)
        requires
            idx < 32,
        ensures
            r == self@[idx as int],
    {
        self.data[idx]
    }

    /// A copy of `self` with the lane at `idx` replaced by `val`.
    pub fn replace(self, idx: usize, val: i8) -> (r: i8x32)
        requires
            idx < 32,
        ensures
            r@ == self@.update(idx as int, val),
    {
        let mut data = self.data;
        data[idx] = val;
        i8x32 { data }
    }
}

/// Eight unsigned 16-bit lanes.
#[derive(Clone, Copy)]
#[allow(non_camel_case_types)]
pub struct u16x8 {
    data: [u16; 8],
}

impl View for u16x8 {
    type V = Seq<u16>;

    closed spec fn view(&self) -> Seq<u16> {
        self.data@
    }
}

impl u16x8 {
    /// A vector with the given lanes, lane 0 first.
    pub fn new(x0: u16, x1: u16, x2: u16, x3: u16, x4: u16, x5: u16, x6: u16, x7: u16) -> (r: u16x8)
        ensures
            r@ == seq![x0, x1, x2, x3, x4, x5, x6, x7],
    {
        let r = u16x8 { data: [x0, x1, x2, x3, x4, x5, x6, x7] };
        proof {
            assert(r@ =~= seq![x0, x1, x2, x3, x4, x5, x6, x7]);
        }
        r
    }

    /// The lane count.
    pub fn len() -> (r: i32)
        ensures
            r == 8,
    {
        8
    }

    /// A vector with every lane equal to `value`.
    pub fn splat(value: u16) -> (r: u16x8)
        ensures
            r@.len() == 8,
            forall|i: int| 0 <= i < 8 ==> r@[i] == value,
    {
        u16x8::new(value, value, value, value, value, value, value, value)
    }

    /// The lane at `idx`, counting from the lowest lane.
    pub fn extract(self, idx: usize) -> (r: u16)
        requires
            idx < 8,
        ensures
            r == self@[idx as int],
    {
        self.data[idx]
    }

    /// A copy of `self` with the lane at `idx` replaced by `val`.
    pub fn replace(self, idx: usize, val: u16) -> (r: u16x8)
        requires
            idx < 8,
        ensures
            r@ == self@.update(idx as int, val),
    {
        let mut data = self.data;
        data[idx] = val;
        u16x8 { data }
    }
}

/// Eight signed 16-bit lanes.
#[derive(Clone, Copy)]
#[allow(non_camel_case_types)]
pub struct i16x8 {
    data: [i16; 8],
}

impl View for i16x8 {
    type V = Seq<i16>;

    closed spec fn view(&self) -> Seq<i16> {
        self.data@
    }
}

impl i16x8 {
    /// A vector with the given lanes, lane 0 first.
    pub fn new(x0: i16, x1: i16, x2: i16, x3: i16, x4: i16, x5: i16, x6: i16, x7: i16) -> (r: i16x8)
        ensures
            r@ == seq![x0, x1, x2, x3, x4, x5, x6, x7],
    {
        let r = i16x8 { data: [x0, x1, x2, x3, x4, x5, x6, x7] };
        proof {
            assert(r@ =~= seq![x0, x1, x2, x3, x4, x5, x6, x7]);
        }
        r
    }

    /// The lane count.
    pub fn len() -> (r: i32)
        ensures
            r == 8,
    {
        8
    }

    /// A vector with every lane equal to `value`.
    pub fn splat(value: i16) -> (r: i16x8)
        ensures
            r@.len() == 8,
            forall|i: int| 0 <= i < 8 ==> r@[i] == value,
    {
        i16x8::new(value, value, value, value, value, value, value, value)
    }

    /// The lane at `idx`, counting from the lowest lane.
    pub fn extract(self, idx: usize) -> (r: i16)
        requires
            idx < 8,
        ensures
            r == self@[idx as int],
    {
        self.data[idx]
    }

    /// A copy of `self` with the lane at `idx` replaced by `val`.
    pub fn replace(self, idx: usize, val: i16) -> (r: i16x8)
        requires
            idx < 8,
        ensures
            r@ == self@.update(idx as int, val),
    {
        let mut data = self.data;
        data[idx] = val;
        i16x8 { data }
    }
}

/// Sixteen unsigned 16-bit lanes.
#[derive(Clone, Copy)]
#[allow(non_camel_case_types)]
pub struct u16x16 {
    data: [u16; 16],
}

impl View for u16x16 {
    type V = Seq<u16>;

    closed spec fn view(&self) -> Seq<u16> {
        self.data@
    }
}

impl u16x16 {
    /// A vector with the given lanes, lane 0 first.
    pub fn new(x0: u16, x1: u16, x2: u16, x3: u16, x4: u16, x5: u16, x6: u16, x7: u16, x8: u16, x9: u16, x10: u16, x11: u16, x12: u16, x13: u16, x14: u16, x15: u16) -> (r: u16x16)
        ensures
            r@ == seq![x0, x1, x2, x3, x4, x5, x6, x7, x8, x9, x10, x11, x12, x13, x14, x15],
    {
        let r = u16x16 { data: [x0, x1, x2, x3, x4, x5, x6, x7, x8, x9, x10, x11, x12, x13, x14, x15] };
        proof {
            assert(r@ =~= seq![x0, x1, x2, x3, x4, x5, x6, x7, x8, x9, x10, x11, x12, x13, x14, x15]);
        }
        r
    }

    /// The lane count.
    pub fn len() -> (r: i32)
        ensures
            r == 16,
    {
        16
    }

    /// A vector with every lane equal to `value`.
    pub fn splat(value: u16) -> (r: u16x16)
        ensures
            r@.len() == 16,
            forall|i: int| 0 <= i < 16 ==> r@[i] == value,
    {
        u16x16::new(value, value, value, value, value, value, value, value, value, value, value, value, value, value, value, value)
    }

    /// The lane at `idx`, counting from the lowest lane.
    pub fn extract(self, idx: usize) -> (r: u16)
        requires
            idx < 16,
        ensures
            r == self@[idx as int],
    {
        self.data[idx]
    }

    /// A copy of `self` with the lane at `idx` replaced by `val`.
    pub fn replace(self, idx: usize, val: u16) -> (r: u16x16)
        requires
            idx < 16,
        ensures
            r@ == self@.update(idx as int, val),
    {
        let mut data = self.data;
        data[idx] = val;
        u16x16 { data }
    }
}

/// Sixteen signed 16-bit lanes.
#[derive(Clone, Copy)]
#[allow(non_camel_case_types)]
pub struct i16x16 {
    data: [i16; 16],
}

impl View for i16x16 {
    type V = Seq<i16>;

    closed spec fn view(&self) -> Seq<i16> {
        self.data@
    }
}

impl i16x16 {
    /// A vector with the given lanes, lane 0 first.
    pub fn new(x0: i16, x1: i16, x2: i16, x3: i16, x4: i16, x5: i16, x6: i16, x7: i16, x8: i16, x9: i16, x10: i16, x11: i16, x12: i16, x13: i16, x14: i16, x15: i16) -> (r: i16x16)
        ensures
            r@ == seq![x0, x1, x2, x3, x4, x5, x6, x7, x8, x9, x10, x11, x12, x13, x14, x15],
    {
        let r = i16x16 { data: [x0, x1, x2, x3, x4, x5, x6, x7, x8, x9, x10, x11, x12, x13, x14, x15] };
        proof {
            assert(r@ =~= seq![x0, x1, x2, x3, x4, x5, x6, x7, x8, x9, x10, x11, x12, x13, x14, x15]);
        }
        r
    }

    /// The lane count.
    pub fn len() -> (r: i32)
        ensures
            r == 16,
    {
        16
    }

    /// A vector with every lane equal to `value`.
    pub fn splat(value: i16) -> (r: i16x16)
        ensures
            r@.len() == 16,
            forall|i: int| 0 <= i < 16 ==> r@[i] == value,
    {
        i16x16::new(value, value, value, value, value, value, value, value, value, value, value, value, value, value, value, value)
    }

    /// The lane at `idx`, counting from the lowest lane.
    pub fn extract(self, idx: usize) -> (r: i16)
        requires
            idx < 16,
        ensures
            r == self@[idx as int],
    {
        self.data[idx]
    }

    /// A copy of `self` with the lane at `idx` replaced by `val`.
    pub fn replace(self, idx: usize, val: i16) -> (r: i16x16)
        requires
            idx < 16,
        ensures
            r@ == self@.update(idx as int, val),
    {
        let mut data = self.data;
        data[idx] = val;
        i16x16 { data }
    }
}

/// Four unsigned 32-bit lanes.
#[derive(Clone, Copy)]
#[allow(non_camel_case_types)]
pub struct u32x4 {
    data: [u32; 4],
}

impl View for u32x4 {
    type V = Seq<u32>;

    closed spec fn view(&self) -> Seq<u32> {
        self.data@
    }
}

impl u32x4 {
    /// A vector with the given lanes, lane 0 first.
    pub fn new(x0: u32, x1: u32, x2: u32, x3: u32) -> (r: u32x4)
        ensures
            r@ == seq![x0, x1, x2, x3],
    {
        let r = u32x4 { data: [x0, x1, x2, x3] };
        proof {
            assert(r@ =~= seq![x0, x1, x2, x3]);
        }
        r
    }

    /// The lane count.
    pub fn len() -> (r: i32)
        ensures
            r == 4,
    {
        4
    }

    /// A vector with every lane equal to `value`.
    pub fn splat(value: u32) -> (r: u32x4)
        ensures
            r@.len() == 4,
            forall|i: int| 0 <= i < 4 ==> r@[i] == value,
    {
        u32x4::new(value, value, value, value)
    }

    /// The lane at `idx`, counting from the lowest lane.
    pub fn extract(self, idx: usize) -> (r: u32)
        requires
            idx < 4,
        ensures
            r == self@[idx as int],
    {
        self.data[idx]
    }

    /// A copy of `self` with the lane at `idx` replaced by `val`.
    pub fn replace(self, idx: usize, val: u32) -> (r: u32x4)
        requires
            idx < 4,
        ensures
            r@ == self@.update(idx as int, val),
    {
        let mut data = self.data;
        data[idx] = val;
        u32x4 { data }
    }
}

/// Four signed 32-bit lanes.
#[derive(Clone, Copy)]
#[allow(non_camel_case_types)]
pub struct i32x4 {
    data: [i32; 4],
}

impl View for i32x4 {
    type V = Seq<i32>;

    closed spec fn view(&self) -> Seq<i32> {
        self.data@
    }
}

impl i32x4 {
    /// A vector with the given lanes, lane 0 first.
    pub fn new(x0: i32, x1: i32, x2: i32, x3: i32) -> (r: i32x4)
        ensures
            r@ == seq![x0, x1, x2, x3],
    {
        let r = i32x4 { data: [x0, x1, x2, x3] };
        proof {
            assert(r@ =~= seq![x0, x1, x2, x3]);
        }
        r
    }

    /// The lane count.
    pub fn len() -> (r: i32)
        ensures
            r == 4,
    {
        4
    }

    /// A vector with every lane equal to `value`.
    pub fn splat(value: i32) -> (r: i32x4)
        ensures
            r@.len() == 4,
            forall|i: int| 0 <= i < 4 ==> r@[i] == value,
    {
        i32x4::new(value, value, value, value)
    }

    /// The lane at `idx`, counting from the lowest lane.
    pub fn extract(self, idx: usize) -> (r: i32)
        requires
            idx < 4,
        ensures
            r == self@[idx as int],
    {
        self.data[idx]
    }

    /// A copy of `self` with the lane at `idx` replaced by `val`.
    pub fn replace(self, idx: usize, val: i32) -> (r: i32x4)
        requires
            idx < 4,
        ensures
            r@ == self@.update(idx as int, val),
    {
        let mut data = self.data;
        data[idx] = val;
        i32x4 { data }
    }
}

/// Eight unsigned 32-bit lanes.
#[derive(Clone, Copy)]
#[allow(non_camel_case_types)]
pub struct u32x8 {
    data: [u32; 8],
}

impl View for u32x8 {
    type V = Seq<u32>;

    closed spec fn view(&self) -> Seq<u32> {
        self.data@
    }
}

impl u32x8 {
    /// A vector with the given lanes, lane 0 first.
    pub fn new(x0: u32, x1: u32, x2: u32, x3: u32, x4: u32, x5: u32, x6: u32, x7: u32) -> (r: u32x8)
        ensures
            r@ == seq![x0, x1, x2, x3, x4, x5, x6, x7],
    {
        let r = u32x8 { data: [x0, x1, x2, x3, x4, x5, x6, x7] };
        proof {
            assert(r@ =~= seq![x0, x1, x2, x3, x4, x5, x6, x7]);
        }
        r
    }

    /// The lane count.
    pub fn len() -> (r: i32)
        ensures
            r == 8,
    {
        8
    }

    /// A vector with every lane equal to `value`.
    pub fn splat(value: u32) -> (r: u32x8)
        ensures
            r@.len() == 8,
            forall|i: int| 0 <= i < 8 ==> r@[i] == value,
    {
        u32x8::new(value, value, value, value, value, value, value, value)
    }

    /// The lane at `idx`, counting from the lowest lane.
    pub fn extract(self, idx: usize) -> (r: u32)
        requires
            idx < 8,
        ensures
            r == self@[idx as int],
    {
        self.data[idx]
    }

    /// A copy of `self` with the lane at `idx` replaced by `val`.
    pub fn replace(self, idx: usize, val: u32) -> (r: u32x8)
        requires
            idx < 8,
        ensures
            r@ == self@.update(idx as int, val),
    {
        let mut data = self.data;
        data[idx] = val;
        u32x8 { data }
    }
}

/// Eight signed 32-bit lanes.
#[derive(Clone, Copy)]
#[allow(non_camel_case_types)]
pub struct i32x8 {
    data: [i32; 8],
}

impl View for i32x8 {
    type V = Seq<i32>;

    closed spec fn view(&self) -> Seq<i32> {
        self.data@
    }
}

impl i32x8 {
    /// A vector with the given lanes, lane 0 first.
    pub fn new(x0: i32, x1: i32, x2: i32, x3: i32, x4: i32, x5: i32, x6: i32, x7: i32) -> (r: i32x8)
        ensures
            r@ == seq![x0, x1, x2, x3, x4, x5, x6, x7],
    {
        let r = i32x8 { data: [x0, x1, x2, x3, x4, x5, x6, x7] };
        proof {
            assert(r@ =~= seq![x0, x1, x2, x3, x4, x5, x6, x7]);
        }
        r
    }

    /// The lane count.
    pub fn len() -> (r: i32)
        ensures
            r == 8,
    {
        8
    }

    /// A vector with every lane equal to `value`.
    pub fn splat(value: i32) -> (r: i32x8)
        ensures
            r@.len() == 8,
            forall|i: int| 0 <= i < 8 ==> r@[i] == value,
    {
        i32x8::new(value, value, value, value, value, value, value, value)
    }

    /// The lane at `idx`, counting from the lowest lane.
    pub fn extract(self, idx: usize) -> (r: i32)
        requires
            idx < 8,
        ensures
            r == self@[idx as int],
    {
        self.data[idx]
    }

    /// A copy of `self` with the lane at `idx` replaced by `val`.
    pub fn replace(self, idx: usize, val: i32) -> (r: i32x8)
        requires
            idx < 8,
        ensures
            r@ == self@.update(idx as int, val),
    {
        let mut data = self.data;
        data[idx] = val;
        i32x8 { data }
    }
}

/// Sixteen unsigned 32-bit lanes.
#[derive(Clone, Copy)]
#[allow(non_camel_case_types)]
pub struct u32x16 {
    data: [u32; 16],
}

impl View for u32x16 {
    type V = Seq<u32>;

    closed spec fn view(&self) -> Seq<u32> {
        self.data@
    }
}

impl u32x16 {
    /// A vector with the given lanes, lane 0 first.
    pub fn new(x0: u32, x1: u32, x2: u32, x3: u32, x4: u32, x5: u32, x6: u32, x7: u32, x8: u32, x9: u32, x10: u32, x11: u32, x12: u32, x13: u32, x14: u32, x15: u32) -> (r: u32x16)
        ensures
            r@ == seq![x0, x1, x2, x3, x4, x5, x6, x7, x8, x9, x10, x11, x12, x13, x14, x15],
    {
        let r = u32x16 { data: [x0, x1, x2, x3, x4, x5, x6, x7, x8, x9, x10, x11, x12, x13, x14, x15] };
        proof {
            assert(r@ =~= seq![x0, x1, x2, x3, x4, x5, x6, x7, x8, x9, x10, x11, x12, x13, x14, x15]);
        }
        r
    }

    /// The lane count.
    pub fn len() -> (r: i32)
        ensures
            r == 16,
    {
        16
    }

    /// A vector with every lane equal to `value`.
    pub fn splat(value: u32) -> (r: u32x16)
        ensures
            r@.len() == 16,
            forall|i: int| 0 <= i < 16 ==> r@[i] == value,
    {
        u32x16::new(value, value, value, value, value, value, value, value, value, value, value, value, value, value, value, value)
    }

    /// The lane at `idx`, counting from the lowest lane.
    pub fn extract(self, idx: usize) -> (r: u32)
        requires
            idx < 16,
        ensures
            r == self@[idx as int],
    {
        self.data[idx]
    }

    /// A copy of `self` with the lane at `idx` replaced by `val`.
    pub fn replace(self, idx: usize, val: u32) -> (r: u32x16)
        requires
            idx < 16,
        ensures
            r@ == self@.update(idx as int, val),
    {
        let mut data = self.data;
        data[idx] = val;
        u32x16 { data }
    }
}

/// Sixteen signed 32-bit lanes.
#[derive(Clone, Copy)]
#[allow(non_camel_case_types)]
pub struct i32x16 {
    data: [i32; 16],
}

impl View for i32x16 {
    type V = Seq<i32>;

    closed spec fn view(&self) -> Seq<i32> {
        self.data@
    }
}

impl i32x16 {
    /// A vector with the given lanes, lane 0 first.
    pub fn new(x0: i32, x1: i32, x2: i32, x3: i32, x4: i32, x5: i32, x6: i32, x7: i32, x8: i32, x9: i32, x10: i32, x11: i32, x12: i32, x13: i32, x14: i32, x15: i32) -> (r: i32x16)
        ensures
            r@ == seq![x0, x1, x2, x3, x4, x5, x6, x7, x8, x9, x10, x11, x12, x13, x14, x15],
    {
        let r = i32x16 { data: [x0, x1, x2, x3, x4, x5, x6, x7, x8, x9, x10, x11, x12, x13, x14, x15] };
        proof {
            assert(r@ =~= seq![x0, x1, x2, x3, x4, x5, x6, x7, x8, x9, x10, x11, x12, x13, x14, x15]);
        }
        r
    }

    /// The lane count.
    pub fn len() -> (r: i32)
        ensures
            r == 16,
    {
        16
    }

    /// A vector with every lane equal to `value`.
    pub fn splat(value: i32) -> (r: i32x16)
        ensures
            r@.len() == 16,
            forall|i: int| 0 <= i < 16 ==> r@[i] == value,
    {
        i32x16::new(value, value, value, value, value, value, value, value, value, value, value, value, value, value, value, value)
    }

    /// The lane at `idx`, counting from the lowest lane.
    pub fn extract(self, idx: usize) -> (r: i32)
        requires
            idx < 16,
        ensures
            r == self@[idx as int],
    {
        self.data[idx]
    }

    /// A copy of `self` with the lane at `idx` replaced by `val`.
    pub fn replace(self, idx: usize, val: i32) -> (r: i32x16)
        requires
            idx < 16,
        ensures
            r@ == self@.update(idx as int, val),
    {
        let mut data = self.data;
        data[idx] = val;
        i32x16 { data }
    }
}

/// Two unsigned 64-bit lanes.
#[derive(Clone, Copy)]
#[allow(non_camel_case_types)]
pub struct u64x2 {
    data: [u64; 2],
}

impl View for u64x2 {
    type V = Seq<u64>;

    closed spec fn view(&self) -> Seq<u64> {
        self.data@
    }
}

impl u64x2 {
    /// A vector with the given lanes, lane 0 first.
    pub fn new(x0: u64, x1: u64) -> (r: u64x2)
        ensures
            r@ == seq![x0, x1],
    {
        let r = u64x2 { data: [x0, x1] };
        proof {
            assert(r@ =~= seq![x0, x1]);
        }
        r
    }

    /// The lane count.
    pub fn len() -> (r: i32)
        ensures
            r == 2,
    {
        2
    }

    /// A vector with every lane equal to `value`.
    pub fn splat(value: u64) -> (r: u64x2)
        ensures
            r@.len() == 2,
            forall|i: int| 0 <= i < 2 ==> r@[i] == value,
    {
        u64x2::new(value, value)
    }

    /// The lane at `idx`, counting from the lowest lane.
    pub fn extract(self, idx: usize) -> (r: u64)
        requires
            idx < 2,
        ensures
            r == self@[idx as int],
    {
        self.data[idx]
    }

    /// A copy of `self` with the lane at `idx` replaced by `val`.
    pub fn replace(self, idx: usize, val: u64) -> (r: u64x2)
        requires
            idx < 2,
        ensures
            r@ == self@.update(idx as int, val),
    {
        let mut data = self.data;
        data[idx] = val;
        u64x2 { data }
    }
}

/// Two signed 64-bit lanes.
#[derive(Clone, Copy)]
#[allow(non_camel_case_types)]
pub struct i64x2 {
    data: [i64; 2],
}

impl View for i64x2 {
    type V = Seq<i64>;

    closed spec fn view(&self) -> Seq<i64> {
        self.data@
    }
}

impl i64x2 {
    /// A vector with the given lanes, lane 0 first.
    pub fn new(x0: i64, x1: i64) -> (r: i64x2)
        ensures
            r@ == seq![x0, x1],
    {
        let r = i64x2 { data: [x0, x1] };
        proof {
            assert(r@ =~= seq![x0, x1]);
        }
        r
    }

    /// The lane count.
    pub fn len() -> (r: i32)
        ensures
            r == 2,
    {
        2
    }

    /// A vector with every lane equal to `value`.
    pub fn splat(value: i64) -> (r: i64x2)
        ensures
            r@.len() == 2,
            forall|i: int| 0 <= i < 2 ==> r@[i] == value,
    {
        i64x2::new(value, value)
    }

    /// The lane at `idx`, counting from the lowest lane.
    pub fn extract(self, idx: usize) -> (r: i64)
        requires
            idx < 2,
        ensures
            r == self@[idx as int],
    {
        self.data[idx]
    }

    /// A copy of `self` with the lane at `idx` replaced by `val`.
    pub fn replace(self, idx: usize, val: i64) -> (r: i64x2)
        requires
            idx < 2,
        ensures
            r@ == self@.update(idx as int, val),
    {
        let mut data = self.data;
        data[idx] = val;
        i64x2 { data }
    }
}

/// Four unsigned 64-bit lanes.
#[derive(Clone, Copy)]
#[allow(non_camel_case_types)]
pub struct u64x4 {
    data: [u64; 4],
}

impl View for u64x4 {
    type V = Seq<u64>;

    closed spec fn view(&self) -> Seq<u64> {
        self.data@
    }
}

impl u64x4 {
    /// A vector with the given lanes, lane 0 first.
    pub fn new(x0: u64, x1: u64, x2: u64, x3: u64) -> (r: u64x4)
        ensures
            r@ == seq![x0, x1, x2, x3],
    {
        let r = u64x4 { data: [x0, x1, x2, x3] };
        proof {
            assert(r@ =~= seq![x0, x1, x2, x3]);
        }
        r
    }

    /// The lane count.
    pub fn len() -> (r: i32)
        ensures
            r == 4,
    {
        4
    }

    /// A vector with every lane equal to `value`.
    pub fn splat(value: u64) -> (r: u64x4)
        ensures
            r@.len() == 4,
            forall|i: int| 0 <= i < 4 ==> r@[i] == value,
    {
        u64x4::new(value, value, value, value)
    }

    /// The lane at `idx`, counting from the lowest lane.
    pub fn extract(self, idx: usize) -> (r: u64)
        requires
            idx < 4,
        ensures
            r == self@[idx as int],
    {
        self.data[idx]
    }

    /// A copy of `self` with the lane at `idx` replaced by `val`.
    pub fn replace(self, idx: usize, val: u64) -> (r: u64x4)
        requires
            idx < 4,
        ensures
            r@ == self@.update(idx as int, val),
    {
        let mut data = self.data;
        data[idx] = val;
        u64x4 { data }
    }
}

/// Four signed 64-bit lanes.
#[derive(Clone, Copy)]
#[allow(non_camel_case_types)]
pub struct i64x4 {
    data: [i64; 4],
}

impl View for i64x4 {
    type V = Seq<i64>;

    closed spec fn view(&self) -> Seq<i64> {
        self.data@
    }
}

impl i64x4 {
    /// A vector with the given lanes, lane 0 first.
    pub fn new(x0: i64, x1: i64, x2: i64, x3: i64) -> (r: i64x4)
        ensures
            r@ == seq![x0, x1, x2, x3],
    {
        let r = i64x4 { data: [x0, x1, x2, x3] };
        proof {
            assert(r@ =~= seq![x0, x1, x2, x3]);
        }
        r
    }

    /// The lane count.
    pub fn len() -> (r: i32)
        ensures
            r == 4,
    {
        4
    }

    /// A vector with every lane equal to `value`.
    pub fn splat(value: i64) -> (r: i64x4)
        ensures
            r@.len() == 4,
            forall|i: int| 0 <= i < 4 ==> r@[i] == value,
    {
        i64x4::new(value, value, value, value)
    }

    /// The lane at `idx`, counting from the lowest lane.
    pub fn extract(self, idx: usize) -> (r: i64)
        requires
            idx < 4,
        ensures
            r == self@[idx as int],
    {
        self.data[idx]
    }

    /// A copy of `self` with the lane at `idx` replaced by `val`.
    pub fn replace(self, idx: usize, val: i64) -> (r: i64x4)
        requires
            idx < 4,
        ensures
            r@ == self@.update(idx as int, val),
    {
        let mut data = self.data;
        data[idx] = val;
        i64x4 { data }
    }
}

/// Eight unsigned 64-bit lanes.
#[derive(Clone, Copy)]
#[allow(non_camel_case_types)]
pub struct u64x8 {
    data: [u64; 8],
}

impl View for u64x8 {
    type V = Seq<u64>;

    closed spec fn view(&self) -> Seq<u64> {
        self.data@
    }
}

impl u64x8 {
    /// A vector with the given lanes, lane 0 first.
    pub fn new(x0: u64, x1: u64, x2: u64, x3: u64, x4: u64, x5: u64, x6: u64, x7: u64) -> (r: u64x8)
        ensures
            r@ == seq![x0, x1, x2, x3, x4, x5, x6, x7],
    {
        let r = u64x8 { data: [x0, x1, x2, x3, x4, x5, x6, x7] };
        proof {
            assert(r@ =~= seq![x0, x1, x2, x3, x4, x5, x6, x7]);
        }
        r
    }

    /// The lane count.
    pub fn len() -> (r: i32)
        ensures
            r == 8,
    {
        8
    }

    /// A vector with every lane equal to `value`.
    pub fn splat(value: u64) -> (r: u64x8)
        ensures
            r@.len() == 8,
            forall|i: int| 0 <= i < 8 ==> r@[i] == value,
    {
        u64x8::new(value, value, value, value, value, value, value, value)
    }

    /// The lane at `idx`, counting from the lowest lane.
    pub fn extract(self, idx: usize) -> (r: u64)
        requires
            idx < 8,
        ensures
            r == self@[idx as int],
    {
        self.data[idx]
    }

    /// A copy of `self` with the lane at `idx` replaced by `val`.
    pub fn replace(self, idx: usize, val: u64) -> (r: u64x8)
        requires
            idx < 8,
        ensures
            r@ == self@.update(idx as int, val),
    {
        let mut data = self.data;
        data[idx] = val;
        u64x8 { data }
    }
}

/// Eight signed 64-bit lanes.
#[derive(Clone, Copy)]
#[allow(non_camel_case_types)]
pub struct i64x8 {
    data: [i64; 8],
}

impl View for i64x8 {
    type V = Seq<i64>;

    closed spec fn view(&self) -> Seq<i64> {
        self.data@
    }
}

impl i64x8 {
    /// A vector with the given lanes, lane 0 first.
    pub fn new(x0: i64, x1: i64, x2: i64, x3: i64, x4: i64, x5: i64, x6: i64, x7: i64) -> (r: i64x8)
        ensures
            r@ == seq![x0, x1, x2, x3, x4, x5, x6, x7],
    {
        let r = i64x8 { data: [x0, x1, x2, x3, x4, x5, x6, x7] };
        proof {
            assert(r@ =~= seq![x0, x1, x2, x3, x4, x5, x6, x7]);
        }
        r
    }

    /// The lane count.
    pub fn len() -> (r: i32)
        ensures
            r == 8,
    {
        8
    }

    /// A vector with every lane equal to `value`.
    pub fn splat(value: i64) -> (r: i64x8)
        ensures
            r@.len() == 8,
            forall|i: int| 0 <= i < 8 ==> r@[i] == value,
    {
        i64x8::new(value, value, value, value, value, value, value, value)
    }

    /// The lane at `idx`, counting from the lowest lane.
    pub fn extract(self, idx: usize) -> (r: i64)
        requires
            idx < 8,
        ensures
            r == self@[idx as int],
    {
        self.data[idx]
    }

    /// A copy of `self` with the lane at `idx` replaced by `val`.
    pub fn replace(self, idx: usize, val: i64) -> (r: i64x8)
        requires
            idx < 8,
        ensures
            r@ == self@.update(idx as int, val),
    {
        let mut data = self.data;
        data[idx] = val;
        i64x8 { data }
    }
}

/// Four lanes, each holding the bit pattern of an IEEE 754
/// 32-bit binary float, stored as an unsigned 32-bit integer.
#[derive(Clone, Copy)]
#[allow(non_camel_case_types)]
pub struct f32x4 {
    data: [u32; 4],
}

impl View for f32x4 {
    type V = Seq<u32>;

    closed spec fn view(&self) -> Seq<u32> {
        self.data@
    }
}

impl f32x4 {
    /// A vector with the given lanes, lane 0 first.
    pub fn new(x0: u32, x1: u32, x2: u32, x3: u32) -> (r: f32x4)
        ensures
            r@ == seq![x0, x1, x2, x3],
    {
        let r = f32x4 { data: [x0, x1, x2, x3] };
        proof {
            assert(r@ =~= seq![x0, x1, x2, x3]);
        }
        r
    }

    /// The lane count.
    pub fn len() -> (r: i32)
        ensures
            r == 4,
    {
        4
    }

    /// A vector with every lane equal to `value`.
    pub fn splat(value: u32) -> (r: f32x4)
        ensures
            r@.len() == 4,
            forall|i: int| 0 <= i < 4 ==> r@[i] == value,
    {
        f32x4::new(value, value, value, value)
    }

    /// The bit pattern of the lane at `idx`, counting from the lowest lane.
    pub fn extract(self, idx: usize) -> (r: u32)
        requires
            idx < 4,
        ensures
            r == self@[idx as int],
    {
        self.data[idx]
    }

    /// A copy of `self` with the lane at `idx` replaced by `val`.
    pub fn replace(self, idx: usize, val: u32) -> (r: f32x4)
        requires
            idx < 4,
        ensures
            r@ == self@.update(idx as int, val),
    {
        let mut data = self.data;
        data[idx] = val;
        f32x4 { data }
    }
}

/// Eight lanes, each holding the bit pattern of an IEEE 754
/// 32-bit binary float, stored as an unsigned 32-bit integer.
#[derive(Clone, Copy)]
#[allow(non_camel_case_types)]
pub struct f32x8 {
    data: [u32; 8],
}

impl View for f32x8 {
    type V = Seq<u32>;

    closed spec fn view(&self) -> Seq<u32> {
        self.data@
    }
}

impl f32x8 {
    /// A vector with the given lanes, lane 0 first.
    pub fn new(x0: u32, x1: u32, x2: u32, x3: u32, x4: u32, x5: u32, x6: u32, x7: u32) -> (r: f32x8)
        ensures
            r@ == seq![x0, x1, x2, x3, x4, x5, x6, x7],
    {
        let r = f32x8 { data: [x0, x1, x2, x3, x4, x5, x6, x7] };
        proof {
            assert(r@ =~= seq![x0, x1, x2, x3, x4, x5, x6, x7]);
        }
        r
    }

    /// The lane count.
    pub fn len() -> (r: i32)
        ensures
            r == 8,
    {
        8
    }

    /// A vector with every lane equal to `value`.
    pub fn splat(value: u32) -> (r: f32x8)
        ensures
            r@.len() == 8,
            forall|i: int| 0 <= i < 8 ==> r@[i] == value,
    {
        f32x8::new(value, value, value, value, value, value, value, value)
    }

    /// The bit pattern of the lane at `idx`, counting from the lowest lane.
    pub fn extract(self, idx: usize) -> (r: u32)
        requires
            idx < 8,
        ensures
            r == self@[idx as int],
    {
        self.data[idx]
    }

    /// A copy of `self` with the lane at `idx` replaced by `val`.
    pub fn replace(self, idx: usize, val: u32) -> (r: f32x8)
        requires
            idx < 8,
        ensures
            r@ == self@.update(idx as int, val),
    {
        let mut data = self.data;
        data[idx] = val;
        f32x8 { data }
    }
}

/// Sixteen lanes, each holding the bit pattern of an IEEE 754
/// 32-bit binary float, stored as an unsigned 32-bit integer.
#[derive(Clone, Copy)]
#[allow(non_camel_case_types)]
pub struct f32x16 {
    data: [u32; 16],
}

impl View for f32x16 {
    type V = Seq<u32>;

    closed spec fn view(&self) -> Seq<u32> {
        self.data@
    }
}

impl f32x16 {
    /// A vector with the given lanes, lane 0 first.
    pub fn new(x0: u32, x1: u32, x2: u32, x3: u32, x4: u32, x5: u32, x6: u32, x7: u32, x8: u32, x9: u32, x10: u32, x11: u32, x12: u32, x13: u32, x14: u32, x15: u32) -> (r: f32x16)
        ensures
            r@ == seq![x0, x1, x2, x3, x4, x5, x6, x7, x8, x9, x10, x11, x12, x13, x14, x15],
    {
        let r = f32x16 { data: [x0, x1, x2, x3, x4, x5, x6, x7, x8, x9, x10, x11, x12, x13, x14, x15] };
        proof {
            assert(r@ =~= seq![x0, x1, x2, x3, x4, x5, x6, x7, x8, x9, x10, x11, x12, x13, x14, x15]);
        }
        r
    }

    /// The lane count.
    pub fn len() -> (r: i32)
        ensures
            r == 16,
    {
        16
    }

    /// A vector with every lane equal to `value`.
    pub fn splat(value: u32) -> (r: f32x16)
        ensures
            r@.len() == 16,
            forall|i: int| 0 <= i < 16 ==> r@[i] == value,
    {
        f32x16::new(value, value, value, value, value, value, value, value, value, value, value, value, value, value, value, value)
    }

    /// The bit pattern of the lane at `idx`, counting from the lowest lane.
    pub fn extract(self, idx: usize) -> (r: u32)
        requires
            idx < 16,
        ensures
            r == self@[idx as int],
    {
        self.data[idx]
    }

    /// A copy of `self` with the lane at `idx` replaced by `val`.
    pub fn replace(self, idx: usize, val: u32) -> (r: f32x16)
        requires
            idx < 16,
        ensures
            r@ == self@.update(idx as int, val),
    {
        let mut data = self.data;
        data[idx] = val;
        f32x16 { data }
    }
}

/// Two lanes, each holding the bit pattern of an IEEE 754
/// 64-bit binary float, stored as an unsigned 64-bit integer.
#[derive(Clone, Copy)]
#[allow(non_camel_case_types)]
pub struct f64x2 {
    data: [u64; 2],
}

impl View for f64x2 {
    type V = Seq<u64>;

    closed spec fn view(&self) -> Seq<u64> {
        self.data@
    }
}

impl f64x2 {
    /// A vector with the given lanes, lane 0 first.
    pub fn new(x0: u64, x1: u64) -> (r: f64x2)
        ensures
            r@ == seq![x0, x1],
    {
        let r = f64x2 { data: [x0, x1] };
        proof {
            assert(r@ =~= seq![x0, x1]);
        }
        r
    }

    /// The lane count.
    pub fn len() -> (r: i32)
        ensures
            r == 2,
    {
        2
    }

    /// A vector with every lane equal to `value`.
    pub fn splat(value: u64) -> (r: f64x2)
        ensures
            r@.len() == 2,
            forall|i: int| 0 <= i < 2 ==> r@[i] == value,
    {
        f64x2::new(value, value)
    }

    /// The bit pattern of the lane at `idx`, counting from the lowest lane.
    pub fn extract(self, idx: usize) -> (r: u64)
        requires
            idx < 2,
        ensures
            r == self@[idx as int],
    {
        self.data[idx]
    }

    /// A copy of `self` with the lane at `idx` replaced by `val`.
    pub fn replace(self, idx: usize, val: u64) -> (r: f64x2)
        requires
            idx < 2,
        ensures
            r@ == self@.update(idx as int, val),
    {
        let mut data = self.data;
        data[idx] = val;
        f64x2 { data }
    }
}

/// Four lanes, each holding the bit pattern of an IEEE 754
/// 64-bit binary float, stored as an unsigned 64-bit integer.
#[derive(Clone, Copy)]
#[allow(non_camel_case_types)]
pub struct f64x4 {
    data: [u64; 4],
}

impl View for f64x4 {
    type V = Seq<u64>;

    closed spec fn view(&self) -> Seq<u64> {
        self.data@
    }
}

impl f64x4 {
    /// A vector with the given lanes, lane 0 first.
    pub fn new(x0: u64, x1: u64, x2: u64, x3: u64) -> (r: f64x4)
        ensures
            r@ == seq![x0, x1, x2, x3],
    {
        let r = f64x4 { data: [x0, x1, x2, x3] };
        proof {
            assert(r@ =~= seq![x0, x1, x2, x3]);
        }
        r
    }

    /// The lane count.
    pub fn len() -> (r: i32)
        ensures
            r == 4,
    {
        4
    }

    /// A vector with every lane equal to `value`.
    pub fn splat(value: u64) -> (r: f64x4)
        ensures
            r@.len() == 4,
            forall|i: int| 0 <= i < 4 ==> r@[i] == value,
    {
        f64x4::new(value, value, value, value)
    }

    /// The bit pattern of the lane at `idx`, counting from the lowest lane.
    pub fn extract(self, idx: usize) -> (r: u64)
        requires
            idx < 4,
        ensures
            r == self@[idx as int],
    {
        self.data[idx]
    }

    /// A copy of `self` with the lane at `idx` replaced by `val`.
    pub fn replace(self, idx: usize, val: u64) -> (r: f64x4)
        requires
            idx < 4,
        ensures
            r@ == self@.update(idx as int, val),
    {
        let mut data = self.data;
        data[idx] = val;
        f64x4 { data }
    }
}

/// Eight lanes, each holding the bit pattern of an IEEE 754
/// 64-bit binary float, stored as an unsigned 64-bit integer.
#[derive(Clone, Copy)]
#[allow(non_camel_case_types)]
pub struct f64x8 {
    data: [u64; 8],
}

impl View for f64x8 {
    type V = Seq<u64>;

    closed spec fn view(&self) -> Seq<u64> {
        self.data@
    }
}

impl f64x8 {
    /// A vector with the given lanes, lane 0 first.
    pub fn new(x0: u64, x1: u64, x2: u64, x3: u64, x4: u64, x5: u64, x6: u64, x7: u64) -> (r: f64x8)
        ensures
            r@ == seq![x0, x1, x2, x3, x4, x5, x6, x7],
    {
        let r = f64x8 { data: [x0, x1, x2, x3, x4, x5, x6, x7] };
        proof {
            assert(r@ =~= seq![x0, x1, x2, x3, x4, x5, x6, x7]);
        }
        r
    }

    /// The lane count.
    pub fn len() -> (r: i32)
        ensures
            r == 8,
    {
        8
    }

    /// A vector with every lane equal to `value`.
    pub fn splat(value: u64) -> (r: f64x8)
        ensures
            r@.len() == 8,
            forall|i: int| 0 <= i < 8 ==> r@[i] == value,
    {
        f64x8::new(value, value, value, value, value, value, value, value)
    }

    /// The bit pattern of the lane at `idx`, counting from the lowest lane.
    pub fn extract(self, idx: usize) -> (r: u64)
        requires
            idx < 8,
        ensures
            r == self@[idx as int],
    {
        self.data[idx]
    }

    /// A copy of `self` with the lane at `idx` replaced by `val`.
    pub fn replace(self, idx: usize, val: u64) -> (r: f64x8)
        requires
            idx < 8,
        ensures
            r@ == self@.update(idx as int, val),
    {
        let mut data = self.data;
        data[idx] = val;
        f64x8 { data }
    }
}

impl i8x16 {
    /// The lanes reinterpreted one for one as u8 values, bits unchanged.
    pub fn as_u8x16(self) -> (r: u8x16)
        ensures
            r@.len() == 16,
            forall|i: int| 0 <= i < 16 ==> r@[i] == self@[i] as u8,
    {
        u8x16::new(
            self.extract(0) as u8,
            self.extract(1) as u8,
            self.extract(2) as u8,
            self.extract(3) as u8,
            self.extract(4) as u8,
            self.extract(5) as u8,
            self.extract(6) as u8,
            self.extract(7) as u8,
            self.extract(8) as u8,
            self.extract(9) as u8,
            self.extract(10) as u8,
            self.extract(11) as u8,
            self.extract(12) as u8,
            self.extract(13) as u8,
            self.extract(14) as u8,
            self.extract(15) as u8,
        )
    }
}

impl u8x16 {
    /// The lanes reinterpreted one for one as i8 values, bits unchanged.
    pub fn as_i8x16(self) -> (r: i8x16)
        ensures
            r@.len() == 16,
            forall|i: int| 0 <= i < 16 ==> r@[i] == self@[i] as i8,
    {
        i8x16::new(
            self.extract(0) as i8,
            self.extract(1) as i8,
            self.extract(2) as i8,
            self.extract(3) as i8,
            self.extract(4) as i8,
            self.extract(5) as i8,
            self.extract(6) as i8,
            self.extract(7) as i8,
            self.extract(8) as i8,
            self.extract(9) as i8,
            self.extract(10) as i8,
            self.extract(11) as i8,
            self.extract(12) as i8,
            self.extract(13) as i8,
            self.extract(14) as i8,
            self.extract(15) as i8,
        )
    }
}

impl i16x8 {
    /// The lanes reinterpreted one for one as u16 values, bits unchanged.
    pub fn as_u16x8(self) -> (r: u16x8)
        ensures
            r@.len() == 8,
            forall|i: int| 0 <= i < 8 ==> r@[i] == self@[i] as u16,
    {
        u16x8::new(
            self.extract(0) as u16,
            self.extract(1) as u16,
            self.extract(2) as u16,
            self.extract(3) as u16,
            self.extract(4) as u16,
            self.extract(5) as u16,
            self.extract(6) as u16,
            self.extract(7) as u16,
        )
    }
}

impl u16x8 {
    /// The lanes reinterpreted one for one as i16 values, bits unchanged.
    pub fn as_i16x8(self) -> (r: i16x8)
        ensures
            r@.len() == 8,
            forall|i: int| 0 <= i < 8 ==> r@[i] == self@[i] as i16,
    {
        i16x8::new(
            self.extract(0) as i16,
            self.extract(1) as i16,
            self.extract(2) as i16,
            self.extract(3) as i16,
            self.extract(4) as i16,
            self.extract(5) as i16,
            self.extract(6) as i16,
            self.extract(7) as i16,
        )
    }
}

impl i32x4 {
    /// The lanes reinterpreted one for one as u32 values, bits unchanged.
    pub fn as_u32x4(self) -> (r: u32x4)
        ensures
            r@.len() == 4,
            forall|i: int| 0 <= i < 4 ==> r@[i] == self@[i] as u32,
    {
        u32x4::new(
            self.extract(0) as u32,
            self.extract(1) as u32,
            self.extract(2) as u32,
            self.extract(3) as u32,
        )
    }
}

impl u32x4 {
    /// The lanes reinterpreted one for one as i32 values, bits unchanged.
    pub fn as_i32x4(self) -> (r: i32x4)
        ensures
            r@.len() == 4,
            forall|i: int| 0 <= i < 4 ==> r@[i] == self@[i] as i32,
    {
        i32x4::new(
            self.extract(0) as i32,
            self.extract(1) as i32,
            self.extract(2) as i32,
            self.extract(3) as i32,
        )
    }
}

impl i8x32 {
    /// The lanes reinterpreted one for one as u8 values, bits unchanged.
    pub fn as_u8x32(self) -> (r: u8x32)
        ensures
            r@.len() == 32,
            forall|i: int| 0 <= i < 32 ==> r@[i] == self@[i] as u8,
    {
        u8x32::new(
            self.extract(0) as u8,
            self.extract(1) as u8,
            self.extract(2) as u8,
            self.extract(3) as u8,
            self.extract(4) as u8,
            self.extract(5) as u8,
            self.extract(6) as u8,
            self.extract(7) as u8,
            self.extract(8) as u8,
            self.extract(9) as u8,
            self.extract(10) as u8,
            self.extract(11) as u8,
            self.extract(12) as u8,
            self.extract(13) as u8,
            self.extract(14) as u8,
            self.extract(15) as u8,
            self.extract(16) as u8,
            self.extract(17) as u8,
            self.extract(18) as u8,
            self.extract(19) as u8,
            self.extract(20) as u8,
            self.extract(21) as u8,
            self.extract(22) as u8,
            self.extract(23) as u8,
            self.extract(24) as u8,
            self.extract(25) as u8,
            self.extract(26) as u8,
            self.extract(27) as u8,
            self.extract(28) as u8,
            self.extract(29) as u8,
            self.extract(30) as u8,
            self.extract(31) as u8,
        )
    }
}

impl i16x16 {
    /// The lanes reinterpreted one for one as u16 values, bits unchanged.
    pub fn as_u16x16(self) -> (r: u16x16)
        ensures
            r@.len() == 16,
            forall|i: int| 0 <= i < 16 ==> r@[i] == self@[i] as u16,
    {
        u16x16::new(
            self.extract(0) as u16,
            self.extract(1) as u16,
            self.extract(2) as u16,
            self.extract(3) as u16,
            self.extract(4) as u16,
            self.extract(5) as u16,
            self.extract(6) as u16,
            self.extract(7) as u16,
            self.extract(8) as u16,
            self.extract(9) as u16,
            self.extract(10) as u16,
            self.extract(11) as u16,
            self.extract(12) as u16,
            self.extract(13) as u16,
            self.extract(14) as u16,
            self.extract(15) as u16,
        )
    }
}

impl i32x8 {
    /// The lanes reinterpreted one for one as u32 values, bits unchanged.
    pub fn as_u32x8(self) -> (r: u32x8)
        ensures
            r@.len() == 8,
            forall|i: int| 0 <= i < 8 ==> r@[i] == self@[i] as u32,
    {
        u32x8::new(
            self.extract(0) as u32,
            self.extract(1) as u32,
            self.extract(2) as u32,
            self.extract(3) as u32,
            self.extract(4) as u32,
            self.extract(5) as u32,
            self.extract(6) as u32,
            self.extract(7) as u32,
        )
    }
}

impl u8x32 {
    /// The lanes reinterpreted one for one as i8 values, bits unchanged.
    pub fn as_i8x32(self) -> (r: i8x32)
        ensures
            r@.len() == 32,
            forall|i: int| 0 <= i < 32 ==> r@[i] == self@[i] as i8,
    {
        i8x32::new(
            self.extract(0) as i8,
            self.extract(1) as i8,
            self.extract(2) as i8,
            self.extract(3) as i8,
            self.extract(4) as i8,
            self.extract(5) as i8,
            self.extract(6) as i8,
            self.extract(7) as i8,
            self.extract(8) as i8,
            self.extract(9) as i8,
            self.extract(10) as i8,
            self.extract(11) as i8,
            self.extract(12) as i8,
            self.extract(13) as i8,
            self.extract(14) as i8,
            self.extract(15) as i8,
            self.extract(16) as i8,
            self.extract(17) as i8,
            self.extract(18) as i8,
            self.extract(19) as i8,
            self.extract(20) as i8,
            self.extract(21) as i8,
            self.extract(22) as i8,
            self.extract(23) as i8,
            self.extract(24) as i8,
            self.extract(25) as i8,
            self.extract(26) as i8,
            self.extract(27) as i8,
            self.extract(28) as i8,
            self.extract(29) as i8,
            self.extract(30) as i8,
            self.extract(31) as i8,
        )
    }
}

impl u16x16 {
    /// The lanes reinterpreted one for one as i16 values, bits unchanged.
    pub fn as_i16x16(self) -> (r: i16x16)
        ensures
            r@.len() == 16,
            forall|i: int| 0 <= i < 16 ==> r@[i] == self@[i] as i16,
    {
        i16x16::new(
            self.extract(0) as i16,
            self.extract(1) as i16,
            self.extract(2) as i16,
            self.extract(3) as i16,
            self.extract(4) as i16,
            self.extract(5) as i16,
            self.extract(6) as i16,
            self.extract(7) as i16,
            self.extract(8) as i16,
            self.extract(9) as i16,
            self.extract(10) as i16,
            self.extract(11) as i16,
            self.extract(12) as i16,
            self.extract(13) as i16,
            self.extract(14) as i16,
            self.extract(15) as i16,
        )
    }
}

impl u32x8 {
    /// The lanes reinterpreted one for one as i32 values, bits unchanged.
    pub fn as_i32x8(self) -> (r: i32x8)
        ensures
            r@.len() == 8,
            forall|i: int| 0 <= i < 8 ==> r@[i] == self@[i] as i32,
    {
        i32x8::new(
            self.extract(0) as i32,
            self.extract(1) as i32,
            self.extract(2) as i32,
            self.extract(3) as i32,
            self.extract(4) as i32,
            self.extract(5) as i32,
            self.extract(6) as i32,
            self.extract(7) as i32,
        )
    }
}

} // verus!
