//! Numeric values that can serve as SPARQL literal operands: each one renders
//! itself as a decimal literal and coerces itself to the primitive types the
//! boolean and datetime kinds require.

use vstd::prelude::*;

use crate::decimal::{dec_int, format_i64, format_u64};

verus! {

/// A numeric value that the conversion into SPARQL literals accepts: it has a
/// literal rendering, and range-checked readings as an unsigned byte and as a
/// signed 64-bit integer.
pub trait NumericOperand: Sized {
    /// The characters of this number's literal rendering. An implementation
    /// that does not say leaves it arbitrary, promising nothing about it.
    open spec fn literal_view(self) -> Seq<char> {
        arbitrary()
    }

    /// This number read as an unsigned byte, if it lies in that range. An
    /// implementation that does not say leaves it arbitrary.
    open spec fn as_u8(self) -> Option<u8> {
        arbitrary()
    }

    /// This number read as a signed 64-bit integer, if it lies in that range.
    /// An implementation that does not say leaves it arbitrary.
    open spec fn as_i64(self) -> Option<i64> {
        arbitrary()
    }

    /// Render this number as its literal.
    fn literal(&self) -> (r: String)
        ensures
            r@ == self.literal_view(),
    ;

    /// Read this number as an unsigned byte.
    fn to_u8(&self) -> (r: Option<u8>)
        ensures
            r == self.as_u8(),
    ;

    /// Read this number as a signed 64-bit integer.
    fn to_i64(&self) -> (r: Option<i64>)
        ensures
            r == self.as_i64(),
    ;
}

impl NumericOperand for i32 {
    open spec fn literal_view(self) -> Seq<char> {
        dec_int(self as int)
    }

    open spec fn as_u8(self) -> Option<u8> {
        if 0 <= self <= u8::MAX {
            Some(self as u8)
        } else {
            None
        }
    }

    open spec fn as_i64(self) -> Option<i64> {
        Some(self as i64)
    }

    fn literal(&self) -> (r: String) {
        format_i64(*self as i64)
    }

    fn to_u8(&self) -> (r: Option<u8>) {
        if 0 <= *self && *self <= 255 {
            Some(*self as u8)
        } else {
            None
        }
    }

    fn to_i64(&self) -> (r: Option<i64>) {
        Some(*self as i64)
    }
}

impl NumericOperand for i64 {
    open spec fn literal_view(self) -> Seq<char> {
        dec_int(self as int)
    }

    open spec fn as_u8(self) -> Option<u8> {
        if 0 <= self <= u8::MAX {
            Some(self as u8)
        } else {
            None
        }
    }

    open spec fn as_i64(self) -> Option<i64> {
        Some(self)
    }

    fn literal(&self) -> (r: String) {
        format_i64(*self)
    }

    fn to_u8(&self) -> (r: Option<u8>) {
        if 0 <= *self && *self <= 255 {
            Some(*self as u8)
        } else {
            None
        }
    }

    fn to_i64(&self) -> (r: Option<i64>) {
        Some(*self)
    }
}

impl NumericOperand for u32 {
    open spec fn literal_view(self) -> Seq<char> {
        dec_int(self as int)
    }

    open spec fn as_u8(self) -> Option<u8> {
        if self <= u8::MAX {
            Some(self as u8)
        } else {
            None
        }
    }

    open spec fn as_i64(self) -> Option<i64> {
        Some(self as i64)
    }

    fn literal(&self) -> (r: String) {
        format_u64(*self as u64)
    }

    fn to_u8(&self) -> (r: Option<u8>) {
        if *self <= 255 {
            Some(*self as u8)
        } else {
            None
        }
    }

    fn to_i64(&self) -> (r: Option<i64>) {
        Some(*self as i64)
    }
}

impl NumericOperand for u64 {
    open spec fn literal_view(self) -> Seq<char> {
        dec_int(self as int)
    }

    open spec fn as_u8(self) -> Option<u8> {
        if self <= u8::MAX {
            Some(self as u8)
        } else {
            None
        }
    }

    open spec fn as_i64(self) -> Option<i64> {
        if self <= i64::MAX {
            Some(self as i64)
        } else {
            None
        }
    }

    fn literal(&self) -> (r: String) {
        format_u64(*self)
    }

    fn to_u8(&self) -> (r: Option<u8>) {
        if *self <= 255 {
            Some(*self as u8)
        } else {
            None
        }
    }

    fn to_i64(&self) -> (r: Option<i64>) {
        if *self <= 9223372036854775807u64 {
            Some(*self as i64)
        } else {
            None
        }
    }
}

impl NumericOperand for usize {
    open spec fn literal_view(self) -> Seq<char> {
        dec_int(self as int)
    }

    open spec fn as_u8(self) -> Option<u8> {
        if self <= u8::MAX {
            Some(self as u8)
        } else {
            None
        }
    }

    open spec fn as_i64(self) -> Option<i64> {
        if self <= i64::MAX {
            Some(self as i64)
        } else {
            None
        }
    }

    fn literal(&self) -> (r: String) {
        format_u64(*self as u64)
    }

    fn to_u8(&self) -> (r: Option<u8>) {
        if *self <= 255 {
            Some(*self as u8)
        } else {
            None
        }
    }

    fn to_i64(&self) -> (r: Option<i64>) {
        if *self as u64 <= 9223372036854775807u64 {
            Some(*self as i64)
        } else {
            None
        }
    }
}

} // verus!
