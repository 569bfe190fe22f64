//! Lossless conversion of Rust's integer types to the native width of the
//! heap's integer objects, which is that of `i64`.

use vstd::prelude::*;

verus! {

/// Whether the mathematical integer `v` can be held in the native width.
pub open spec fn fits_native(v: int) -> bool {
    i64::MIN <= v <= i64::MAX
}

/// The native number that stands for `v`, where there is one.
pub open spec fn native_of(v: int) -> Option<i64> {
    if fits_native(v) {
        Some(v as i64)
    } else {
        None
    }
}

/// A number that has no counterpart in the native width.
#[derive(Clone, Copy, Debug, PartialEq, Eq, Structural)]
pub struct ConversionError;

/// A number that can be turned into the native width when its value fits.
pub trait ToNative {
    /// The mathematical value of the number.
    spec fn as_int(&self) -> int;

    /// The same value in the native width, or `None` when it lies outside.
    /// Nothing is truncated, wrapped or clamped.
    fn to_i64(&self) -> (r: Option<i64>)
        ensures
            r == native_of(self.as_int()),
    ;
}

impl ToNative for i8 {
    open spec fn as_int(&self) -> int {
        *self as int
    }

    fn to_i64(&self) -> (r: Option<i64>) {
        Some(*self as i64)
    }
}

impl ToNative for i16 {
    open spec fn as_int(&self) -> int {
        *self as int
    }

    fn to_i64(&self) -> (r: Option<i64>) {
        Some(*self as i64)
    }
}

impl ToNative for i32 {
    open spec fn as_int(&self) -> int {
        *self as int
    }

    fn to_i64(&self) -> (r: Option<i64>) {
        Some(*self as i64)
    }
}

impl ToNative for i64 {
    open spec fn as_int(&self) -> int {
        *self as int
    }

    fn to_i64(&self) -> (r: Option<i64>) {
        Some(*self)
    }
}

impl ToNative for isize {
    open spec fn as_int(&self) -> int {
        *self as int
    }

    fn to_i64(&self) -> (r: Option<i64>) {
        Some(*self as i64)
    }
}

impl ToNative for i128 {
    open spec fn as_int(&self) -> int {
        *self as int
    }

    fn to_i64(&self) -> (r: Option<i64>) {
        if -0x8000_0000_0000_0000i128 <= *self && *self <= 0x7fff_ffff_ffff_ffffi128 {
            Some(*self as i64)
        } else {
            None
        }
    }
}

impl ToNative for u8 {
    open spec fn as_int(&self) -> int {
        *self as int
    }

    fn to_i64(&self) -> (r: Option<i64>) {
        Some(*self as i64)
    }
}

impl ToNative for u16 {
    open spec fn as_int(&self) -> int {
        *self as int
    }

    fn to_i64(&self) -> (r: Option<i64>) {
        Some(*self as i64)
    }
}

impl ToNative for u32 {
    open spec fn as_int(&self) -> int {
        *self as int
    }

    fn to_i64(&self) -> (r: Option<i64>) {
        Some(*self as i64)
    }
}

impl ToNative for u64 {
    open spec fn as_int(&self) -> int {
        *self as int
    }

    fn to_i64(&self) -> (r: Option<i64>) {
        if *self <= 0x7fff_ffff_ffff_ffffu64 {
            Some(*self as i64)
        } else {
            None
        }
    }
}

impl ToNative for usize {
    open spec fn as_int(&self) -> int {
        *self as int
    }

    fn to_i64(&self) -> (r: Option<i64>) {
        let wide: u64 = *self as u64;
        if wide <= 0x7fff_ffff_ffff_ffffu64 {
            Some(wide as i64)
        } else {
            None
        }
    }
}

impl ToNative for u128 {
    open spec fn as_int(&self) -> int {
        *self as int
    }

    fn to_i64(&self) -> (r: Option<i64>) {
        if *self <= 0x7fff_ffff_ffff_ffffu128 {
            Some(*self as i64)
        } else {
            None
        }
    }
}

} // verus!
