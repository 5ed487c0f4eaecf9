//! Conversion between the primitive numeric types through trait methods, a
//! functional replacement for the `as` operator.
//!
//! `ToPrim` gives every integer type a `to_<target>` method for every integer
//! target; `FromPrim` is the converse, written like the standard `From`; and
//! `AsPrim::as_` converts to a target named on the call:
//! `radius.as_::<u64>()`.
//!
//! Every method promises exactly the value of the corresponding `as` cast,
//! stated in each implementation's spec functions: where the source value is
//! out of the target's range, that is the host language's two's-complement
//! truncation.

use vstd::prelude::*;

verus! {

/// Conversion to each primitive integer type, one method per target.
/// Each method returns exactly what the `as` cast of the implementing type
/// returns, as its `..._spec` counterpart states.
pub trait ToPrim: Sized {

    /// The value of the cast to `i8`.
    spec fn to_i8_spec(self) -> i8;

    /// The value of the cast to `i16`.
    spec fn to_i16_spec(self) -> i16;

    /// The value of the cast to `i32`.
    spec fn to_i32_spec(self) -> i32;

    /// The value of the cast to `i64`.
    spec fn to_i64_spec(self) -> i64;

    /// The value of the cast to `i128`.
    spec fn to_i128_spec(self) -> i128;

    /// The value of the cast to `isize`.
    spec fn to_isize_spec(self) -> isize;

    /// The value of the cast to `u8`.
    spec fn to_u8_spec(self) -> u8;

    /// The value of the cast to `u16`.
    spec fn to_u16_spec(self) -> u16;

    /// The value of the cast to `u32`.
    spec fn to_u32_spec(self) -> u32;

    /// The value of the cast to `u64`.
    spec fn to_u64_spec(self) -> u64;

    /// The value of the cast to `u128`.
    spec fn to_u128_spec(self) -> u128;

    /// The value of the cast to `usize`.
    spec fn to_usize_spec(self) -> usize;


    fn to_i8(self) -> (r: i8)
        ensures
            r == self.to_i8_spec(),
    ;

    fn to_i16(self) -> (r: i16)
        ensures
            r == self.to_i16_spec(),
    ;

    fn to_i32(self) -> (r: i32)
        ensures
            r == self.to_i32_spec(),
    ;

    fn to_i64(self) -> (r: i64)
        ensures
            r == self.to_i64_spec(),
    ;

    fn to_i128(self) -> (r: i128)
        ensures
            r == self.to_i128_spec(),
    ;

    fn to_isize(self) -> (r: isize)
        ensures
            r == self.to_isize_spec(),
    ;

    fn to_u8(self) -> (r: u8)
        ensures
            r == self.to_u8_spec(),
    ;

    fn to_u16(self) -> (r: u16)
        ensures
            r == self.to_u16_spec(),
    ;

    fn to_u32(self) -> (r: u32)
        ensures
            r == self.to_u32_spec(),
    ;

    fn to_u64(self) -> (r: u64)
        ensures
            r == self.to_u64_spec(),
    ;

    fn to_u128(self) -> (r: u128)
        ensures
            r == self.to_u128_spec(),
    ;

    fn to_usize(self) -> (r: usize)
        ensures
            r == self.to_usize_spec(),
    ;

}

impl ToPrim for i8 {
    open spec fn to_i8_spec(self) -> i8 {
        self
    }

    fn to_i8(self) -> (r: i8) {
        self
    }

    open spec fn to_i16_spec(self) -> i16 {
        self as i16
    }

    fn to_i16(self) -> (r: i16) {
        #[verifier::truncate] (self as i16)
    }

    open spec fn to_i32_spec(self) -> i32 {
        self as i32
    }

    fn to_i32(self) -> (r: i32) {
        #[verifier::truncate] (self as i32)
    }

    open spec fn to_i64_spec(self) -> i64 {
        self as i64
    }

    fn to_i64(self) -> (r: i64) {
        #[verifier::truncate] (self as i64)
    }

    open spec fn to_i128_spec(self) -> i128 {
        self as i128
    }

    fn to_i128(self) -> (r: i128) {
        #[verifier::truncate] (self as i128)
    }

    open spec fn to_isize_spec(self) -> isize {
        self as isize
    }

    fn to_isize(self) -> (r: isize) {
        #[verifier::truncate] (self as isize)
    }

    open spec fn to_u8_spec(self) -> u8 {
        self as u8
    }

    fn to_u8(self) -> (r: u8) {
        #[verifier::truncate] (self as u8)
    }

    open spec fn to_u16_spec(self) -> u16 {
        self as u16
    }

    fn to_u16(self) -> (r: u16) {
        #[verifier::truncate] (self as u16)
    }

    open spec fn to_u32_spec(self) -> u32 {
        self as u32
    }

    fn to_u32(self) -> (r: u32) {
        #[verifier::truncate] (self as u32)
    }

    open spec fn to_u64_spec(self) -> u64 {
        self as u64
    }

    fn to_u64(self) -> (r: u64) {
        #[verifier::truncate] (self as u64)
    }

    open spec fn to_u128_spec(self) -> u128 {
        self as u128
    }

    fn to_u128(self) -> (r: u128) {
        #[verifier::truncate] (self as u128)
    }

    open spec fn to_usize_spec(self) -> usize {
        self as usize
    }

    fn to_usize(self) -> (r: usize) {
        #[verifier::truncate] (self as usize)
    }

}

impl ToPrim for i16 {
    open spec fn to_i8_spec(self) -> i8 {
        self as i8
    }

    fn to_i8(self) -> (r: i8) {
        #[verifier::truncate] (self as i8)
    }

    open spec fn to_i16_spec(self) -> i16 {
        self
    }

    fn to_i16(self) -> (r: i16) {
        self
    }

    open spec fn to_i32_spec(self) -> i32 {
        self as i32
    }

    fn to_i32(self) -> (r: i32) {
        #[verifier::truncate] (self as i32)
    }

    open spec fn to_i64_spec(self) -> i64 {
        self as i64
    }

    fn to_i64(self) -> (r: i64) {
        #[verifier::truncate] (self as i64)
    }

    open spec fn to_i128_spec(self) -> i128 {
        self as i128
    }

    fn to_i128(self) -> (r: i128) {
        #[verifier::truncate] (self as i128)
    }

    open spec fn to_isize_spec(self) -> isize {
        self as isize
    }

    fn to_isize(self) -> (r: isize) {
        #[verifier::truncate] (self as isize)
    }

    open spec fn to_u8_spec(self) -> u8 {
        self as u8
    }

    fn to_u8(self) -> (r: u8) {
        #[verifier::truncate] (self as u8)
    }

    open spec fn to_u16_spec(self) -> u16 {
        self as u16
    }

    fn to_u16(self) -> (r: u16) {
        #[verifier::truncate] (self as u16)
    }

    open spec fn to_u32_spec(self) -> u32 {
        self as u32
    }

    fn to_u32(self) -> (r: u32) {
        #[verifier::truncate] (self as u32)
    }

    open spec fn to_u64_spec(self) -> u64 {
        self as u64
    }

    fn to_u64(self) -> (r: u64) {
        #[verifier::truncate] (self as u64)
    }

    open spec fn to_u128_spec(self) -> u128 {
        self as u128
    }

    fn to_u128(self) -> (r: u128) {
        #[verifier::truncate] (self as u128)
    }

    open spec fn to_usize_spec(self) -> usize {
        self as usize
    }

    fn to_usize(self) -> (r: usize) {
        #[verifier::truncate] (self as usize)
    }

}

impl ToPrim for i32 {
    open spec fn to_i8_spec(self) -> i8 {
        self as i8
    }

    fn to_i8(self) -> (r: i8) {
        #[verifier::truncate] (self as i8)
    }

    open spec fn to_i16_spec(self) -> i16 {
        self as i16
    }

    fn to_i16(self) -> (r: i16) {
        #[verifier::truncate] (self as i16)
    }

    open spec fn to_i32_spec(self) -> i32 {
        self
    }

    fn to_i32(self) -> (r: i32) {
        self
    }

    open spec fn to_i64_spec(self) -> i64 {
        self as i64
    }

    fn to_i64(self) -> (r: i64) {
        #[verifier::truncate] (self as i64)
    }

    open spec fn to_i128_spec(self) -> i128 {
        self as i128
    }

    fn to_i128(self) -> (r: i128) {
        #[verifier::truncate] (self as i128)
    }

    open spec fn to_isize_spec(self) -> isize {
        self as isize
    }

    fn to_isize(self) -> (r: isize) {
        #[verifier::truncate] (self as isize)
    }

    open spec fn to_u8_spec(self) -> u8 {
        self as u8
    }

    fn to_u8(self) -> (r: u8) {
        #[verifier::truncate] (self as u8)
    }

    open spec fn to_u16_spec(self) -> u16 {
        self as u16
    }

    fn to_u16(self) -> (r: u16) {
        #[verifier::truncate] (self as u16)
    }

    open spec fn to_u32_spec(self) -> u32 {
        self as u32
    }

    fn to_u32(self) -> (r: u32) {
        #[verifier::truncate] (self as u32)
    }

    open spec fn to_u64_spec(self) -> u64 {
        self as u64
    }

    fn to_u64(self) -> (r: u64) {
        #[verifier::truncate] (self as u64)
    }

    open spec fn to_u128_spec(self) -> u128 {
        self as u128
    }

    fn to_u128(self) -> (r: u128) {
        #[verifier::truncate] (self as u128)
    }

    open spec fn to_usize_spec(self) -> usize {
        self as usize
    }

    fn to_usize(self) -> (r: usize) {
        #[verifier::truncate] (self as usize)
    }

}

impl ToPrim for i64 {
    open spec fn to_i8_spec(self) -> i8 {
        self as i8
    }

    fn to_i8(self) -> (r: i8) {
        #[verifier::truncate] (self as i8)
    }

    open spec fn to_i16_spec(self) -> i16 {
        self as i16
    }

    fn to_i16(self) -> (r: i16) {
        #[verifier::truncate] (self as i16)
    }

    open spec fn to_i32_spec(self) -> i32 {
        self as i32
    }

    fn to_i32(self) -> (r: i32) {
        #[verifier::truncate] (self as i32)
    }

    open spec fn to_i64_spec(self) -> i64 {
        self
    }

    fn to_i64(self) -> (r: i64) {
        self
    }

    open spec fn to_i128_spec(self) -> i128 {
        self as i128
    }

    fn to_i128(self) -> (r: i128) {
        #[verifier::truncate] (self as i128)
    }

    open spec fn to_isize_spec(self) -> isize {
        self as isize
    }

    fn to_isize(self) -> (r: isize) {
        #[verifier::truncate] (self as isize)
    }

    open spec fn to_u8_spec(self) -> u8 {
        self as u8
    }

    fn to_u8(self) -> (r: u8) {
        #[verifier::truncate] (self as u8)
    }

    open spec fn to_u16_spec(self) -> u16 {
        self as u16
    }

    fn to_u16(self) -> (r: u16) {
        #[verifier::truncate] (self as u16)
    }

    open spec fn to_u32_spec(self) -> u32 {
        self as u32
    }

    fn to_u32(self) -> (r: u32) {
        #[verifier::truncate] (self as u32)
    }

    open spec fn to_u64_spec(self) -> u64 {
        self as u64
    }

    fn to_u64(self) -> (r: u64) {
        #[verifier::truncate] (self as u64)
    }

    open spec fn to_u128_spec(self) -> u128 {
        self as u128
    }

    fn to_u128(self) -> (r: u128) {
        #[verifier::truncate] (self as u128)
    }

    open spec fn to_usize_spec(self) -> usize {
        self as usize
    }

    fn to_usize(self) -> (r: usize) {
        #[verifier::truncate] (self as usize)
    }

}

impl ToPrim for i128 {
    open spec fn to_i8_spec(self) -> i8 {
        self as i8
    }

    fn to_i8(self) -> (r: i8) {
        #[verifier::truncate] (self as i8)
    }

    open spec fn to_i16_spec(self) -> i16 {
        self as i16
    }

    fn to_i16(self) -> (r: i16) {
        #[verifier::truncate] (self as i16)
    }

    open spec fn to_i32_spec(self) -> i32 {
        self as i32
    }

    fn to_i32(self) -> (r: i32) {
        #[verifier::truncate] (self as i32)
    }

    open spec fn to_i64_spec(self) -> i64 {
        self as i64
    }

    fn to_i64(self) -> (r: i64) {
        #[verifier::truncate] (self as i64)
    }

    open spec fn to_i128_spec(self) -> i128 {
        self
    }

    fn to_i128(self) -> (r: i128) {
        self
    }

    open spec fn to_isize_spec(self) -> isize {
        self as isize
    }

    fn to_isize(self) -> (r: isize) {
        #[verifier::truncate] (self as isize)
    }

    open spec fn to_u8_spec(self) -> u8 {
        self as u8
    }

    fn to_u8(self) -> (r: u8) {
        #[verifier::truncate] (self as u8)
    }

    open spec fn to_u16_spec(self) -> u16 {
        self as u16
    }

    fn to_u16(self) -> (r: u16) {
        #[verifier::truncate] (self as u16)
    }

    open spec fn to_u32_spec(self) -> u32 {
        self as u32
    }

    fn to_u32(self) -> (r: u32) {
        #[verifier::truncate] (self as u32)
    }

    open spec fn to_u64_spec(self) -> u64 {
        self as u64
    }

    fn to_u64(self) -> (r: u64) {
        #[verifier::truncate] (self as u64)
    }

    open spec fn to_u128_spec(self) -> u128 {
        self as u128
    }

    fn to_u128(self) -> (r: u128) {
        #[verifier::truncate] (self as u128)
    }

    open spec fn to_usize_spec(self) -> usize {
        self as usize
    }

    fn to_usize(self) -> (r: usize) {
        #[verifier::truncate] (self as usize)
    }

}

impl ToPrim for isize {
    open spec fn to_i8_spec(self) -> i8 {
        self as i8
    }

    fn to_i8(self) -> (r: i8) {
        #[verifier::truncate] (self as i8)
    }

    open spec fn to_i16_spec(self) -> i16 {
        self as i16
    }

    fn to_i16(self) -> (r: i16) {
        #[verifier::truncate] (self as i16)
    }

    open spec fn to_i32_spec(self) -> i32 {
        self as i32
    }

    fn to_i32(self) -> (r: i32) {
        #[verifier::truncate] (self as i32)
    }

    open spec fn to_i64_spec(self) -> i64 {
        self as i64
    }

    fn to_i64(self) -> (r: i64) {
        #[verifier::truncate] (self as i64)
    }

    open spec fn to_i128_spec(self) -> i128 {
        self as i128
    }

    fn to_i128(self) -> (r: i128) {
        #[verifier::truncate] (self as i128)
    }

    open spec fn to_isize_spec(self) -> isize {
        self
    }

    fn to_isize(self) -> (r: isize) {
        self
    }

    open spec fn to_u8_spec(self) -> u8 {
        self as u8
    }

    fn to_u8(self) -> (r: u8) {
        #[verifier::truncate] (self as u8)
    }

    open spec fn to_u16_spec(self) -> u16 {
        self as u16
    }

    fn to_u16(self) -> (r: u16) {
        #[verifier::truncate] (self as u16)
    }

    open spec fn to_u32_spec(self) -> u32 {
        self as u32
    }

    fn to_u32(self) -> (r: u32) {
        #[verifier::truncate] (self as u32)
    }

    open spec fn to_u64_spec(self) -> u64 {
        self as u64
    }

    fn to_u64(self) -> (r: u64) {
        #[verifier::truncate] (self as u64)
    }

    open spec fn to_u128_spec(self) -> u128 {
        self as u128
    }

    fn to_u128(self) -> (r: u128) {
        #[verifier::truncate] (self as u128)
    }

    open spec fn to_usize_spec(self) -> usize {
        self as usize
    }

    fn to_usize(self) -> (r: usize) {
        #[verifier::truncate] (self as usize)
    }

}

impl ToPrim for u8 {
    open spec fn to_i8_spec(self) -> i8 {
        self as i8
    }

    fn to_i8(self) -> (r: i8) {
        #[verifier::truncate] (self as i8)
    }

    open spec fn to_i16_spec(self) -> i16 {
        self as i16
    }

    fn to_i16(self) -> (r: i16) {
        #[verifier::truncate] (self as i16)
    }

    open spec fn to_i32_spec(self) -> i32 {
        self as i32
    }

    fn to_i32(self) -> (r: i32) {
        #[verifier::truncate] (self as i32)
    }

    open spec fn to_i64_spec(self) -> i64 {
        self as i64
    }

    fn to_i64(self) -> (r: i64) {
        #[verifier::truncate] (self as i64)
    }

    open spec fn to_i128_spec(self) -> i128 {
        self as i128
    }

    fn to_i128(self) -> (r: i128) {
        #[verifier::truncate] (self as i128)
    }

    open spec fn to_isize_spec(self) -> isize {
        self as isize
    }

    fn to_isize(self) -> (r: isize) {
        #[verifier::truncate] (self as isize)
    }

    open spec fn to_u8_spec(self) -> u8 {
        self
    }

    fn to_u8(self) -> (r: u8) {
        self
    }

    open spec fn to_u16_spec(self) -> u16 {
        self as u16
    }

    fn to_u16(self) -> (r: u16) {
        #[verifier::truncate] (self as u16)
    }

    open spec fn to_u32_spec(self) -> u32 {
        self as u32
    }

    fn to_u32(self) -> (r: u32) {
        #[verifier::truncate] (self as u32)
    }

    open spec fn to_u64_spec(self) -> u64 {
        self as u64
    }

    fn to_u64(self) -> (r: u64) {
        #[verifier::truncate] (self as u64)
    }

    open spec fn to_u128_spec(self) -> u128 {
        self as u128
    }

    fn to_u128(self) -> (r: u128) {
        #[verifier::truncate] (self as u128)
    }

    open spec fn to_usize_spec(self) -> usize {
        self as usize
    }

    fn to_usize(self) -> (r: usize) {
        #[verifier::truncate] (self as usize)
    }

}

impl ToPrim for u16 {
    open spec fn to_i8_spec(self) -> i8 {
        self as i8
    }

    fn to_i8(self) -> (r: i8) {
        #[verifier::truncate] (self as i8)
    }

    open spec fn to_i16_spec(self) -> i16 {
        self as i16
    }

    fn to_i16(self) -> (r: i16) {
        #[verifier::truncate] (self as i16)
    }

    open spec fn to_i32_spec(self) -> i32 {
        self as i32
    }

    fn to_i32(self) -> (r: i32) {
        #[verifier::truncate] (self as i32)
    }

    open spec fn to_i64_spec(self) -> i64 {
        self as i64
    }

    fn to_i64(self) -> (r: i64) {
        #[verifier::truncate] (self as i64)
    }

    open spec fn to_i128_spec(self) -> i128 {
        self as i128
    }

    fn to_i128(self) -> (r: i128) {
        #[verifier::truncate] (self as i128)
    }

    open spec fn to_isize_spec(self) -> isize {
        self as isize
    }

    fn to_isize(self) -> (r: isize) {
        #[verifier::truncate] (self as isize)
    }

    open spec fn to_u8_spec(self) -> u8 {
        self as u8
    }

    fn to_u8(self) -> (r: u8) {
        #[verifier::truncate] (self as u8)
    }

    open spec fn to_u16_spec(self) -> u16 {
        self
    }

    fn to_u16(self) -> (r: u16) {
        self
    }

    open spec fn to_u32_spec(self) -> u32 {
        self as u32
    }

    fn to_u32(self) -> (r: u32) {
        #[verifier::truncate] (self as u32)
    }

    open spec fn to_u64_spec(self) -> u64 {
        self as u64
    }

    fn to_u64(self) -> (r: u64) {
        #[verifier::truncate] (self as u64)
    }

    open spec fn to_u128_spec(self) -> u128 {
        self as u128
    }

    fn to_u128(self) -> (r: u128) {
        #[verifier::truncate] (self as u128)
    }

    open spec fn to_usize_spec(self) -> usize {
        self as usize
    }

    fn to_usize(self) -> (r: usize) {
        #[verifier::truncate] (self as usize)
    }

}

impl ToPrim for u32 {
    open spec fn to_i8_spec(self) -> i8 {
        self as i8
    }

    fn to_i8(self) -> (r: i8) {
        #[verifier::truncate] (self as i8)
    }

    open spec fn to_i16_spec(self) -> i16 {
        self as i16
    }

    fn to_i16(self) -> (r: i16) {
        #[verifier::truncate] (self as i16)
    }

    open spec fn to_i32_spec(self) -> i32 {
        self as i32
    }

    fn to_i32(self) -> (r: i32) {
        #[verifier::truncate] (self as i32)
    }

    open spec fn to_i64_spec(self) -> i64 {
        self as i64
    }

    fn to_i64(self) -> (r: i64) {
        #[verifier::truncate] (self as i64)
    }

    open spec fn to_i128_spec(self) -> i128 {
        self as i128
    }

    fn to_i128(self) -> (r: i128) {
        #[verifier::truncate] (self as i128)
    }

    open spec fn to_isize_spec(self) -> isize {
        self as isize
    }

    fn to_isize(self) -> (r: isize) {
        #[verifier::truncate] (self as isize)
    }

    open spec fn to_u8_spec(self) -> u8 {
        self as u8
    }

    fn to_u8(self) -> (r: u8) {
        #[verifier::truncate] (self as u8)
    }

    open spec fn to_u16_spec(self) -> u16 {
        self as u16
    }

    fn to_u16(self) -> (r: u16) {
        #[verifier::truncate] (self as u16)
    }

    open spec fn to_u32_spec(self) -> u32 {
        self
    }

    fn to_u32(self) -> (r: u32) {
        self
    }

    open spec fn to_u64_spec(self) -> u64 {
        self as u64
    }

    fn to_u64(self) -> (r: u64) {
        #[verifier::truncate] (self as u64)
    }

    open spec fn to_u128_spec(self) -> u128 {
        self as u128
    }

    fn to_u128(self) -> (r: u128) {
        #[verifier::truncate] (self as u128)
    }

    open spec fn to_usize_spec(self) -> usize {
        self as usize
    }

    fn to_usize(self) -> (r: usize) {
        #[verifier::truncate] (self as usize)
    }

}

impl ToPrim for u64 {
    open spec fn to_i8_spec(self) -> i8 {
        self as i8
    }

    fn to_i8(self) -> (r: i8) {
        #[verifier::truncate] (self as i8)
    }

    open spec fn to_i16_spec(self) -> i16 {
        self as i16
    }

    fn to_i16(self) -> (r: i16) {
        #[verifier::truncate] (self as i16)
    }

    open spec fn to_i32_spec(self) -> i32 {
        self as i32
    }

    fn to_i32(self) -> (r: i32) {
        #[verifier::truncate] (self as i32)
    }

    open spec fn to_i64_spec(self) -> i64 {
        self as i64
    }

    fn to_i64(self) -> (r: i64) {
        #[verifier::truncate] (self as i64)
    }

    open spec fn to_i128_spec(self) -> i128 {
        self as i128
    }

    fn to_i128(self) -> (r: i128) {
        #[verifier::truncate] (self as i128)
    }

    open spec fn to_isize_spec(self) -> isize {
        self as isize
    }

    fn to_isize(self) -> (r: isize) {
        #[verifier::truncate] (self as isize)
    }

    open spec fn to_u8_spec(self) -> u8 {
        self as u8
    }

    fn to_u8(self) -> (r: u8) {
        #[verifier::truncate] (self as u8)
    }

    open spec fn to_u16_spec(self) -> u16 {
        self as u16
    }

    fn to_u16(self) -> (r: u16) {
        #[verifier::truncate] (self as u16)
    }

    open spec fn to_u32_spec(self) -> u32 {
        self as u32
    }

    fn to_u32(self) -> (r: u32) {
        #[verifier::truncate] (self as u32)
    }

    open spec fn to_u64_spec(self) -> u64 {
        self
    }

    fn to_u64(self) -> (r: u64) {
        self
    }

    open spec fn to_u128_spec(self) -> u128 {
        self as u128
    }

    fn to_u128(self) -> (r: u128) {
        #[verifier::truncate] (self as u128)
    }

    open spec fn to_usize_spec(self) -> usize {
        self as usize
    }

    fn to_usize(self) -> (r: usize) {
        #[verifier::truncate] (self as usize)
    }

}

impl ToPrim for u128 {
    open spec fn to_i8_spec(self) -> i8 {
        self as i8
    }

    fn to_i8(self) -> (r: i8) {
        #[verifier::truncate] (self as i8)
    }

    open spec fn to_i16_spec(self) -> i16 {
        self as i16
    }

    fn to_i16(self) -> (r: i16) {
        #[verifier::truncate] (self as i16)
    }

    open spec fn to_i32_spec(self) -> i32 {
        self as i32
    }

    fn to_i32(self) -> (r: i32) {
        #[verifier::truncate] (self as i32)
    }

    open spec fn to_i64_spec(self) -> i64 {
        self as i64
    }

    fn to_i64(self) -> (r: i64) {
        #[verifier::truncate] (self as i64)
    }

    open spec fn to_i128_spec(self) -> i128 {
        self as i128
    }

    fn to_i128(self) -> (r: i128) {
        #[verifier::truncate] (self as i128)
    }

    open spec fn to_isize_spec(self) -> isize {
        self as isize
    }

    fn to_isize(self) -> (r: isize) {
        #[verifier::truncate] (self as isize)
    }

    open spec fn to_u8_spec(self) -> u8 {
        self as u8
    }

    fn to_u8(self) -> (r: u8) {
        #[verifier::truncate] (self as u8)
    }

    open spec fn to_u16_spec(self) -> u16 {
        self as u16
    }

    fn to_u16(self) -> (r: u16) {
        #[verifier::truncate] (self as u16)
    }

    open spec fn to_u32_spec(self) -> u32 {
        self as u32
    }

    fn to_u32(self) -> (r: u32) {
        #[verifier::truncate] (self as u32)
    }

    open spec fn to_u64_spec(self) -> u64 {
        self as u64
    }

    fn to_u64(self) -> (r: u64) {
        #[verifier::truncate] (self as u64)
    }

    open spec fn to_u128_spec(self) -> u128 {
        self
    }

    fn to_u128(self) -> (r: u128) {
        self
    }

    open spec fn to_usize_spec(self) -> usize {
        self as usize
    }

    fn to_usize(self) -> (r: usize) {
        #[verifier::truncate] (self as usize)
    }

}

impl ToPrim for usize {
    open spec fn to_i8_spec(self) -> i8 {
        self as i8
    }

    fn to_i8(self) -> (r: i8) {
        #[verifier::truncate] (self as i8)
    }

    open spec fn to_i16_spec(self) -> i16 {
        self as i16
    }

    fn to_i16(self) -> (r: i16) {
        #[verifier::truncate] (self as i16)
    }

    open spec fn to_i32_spec(self) -> i32 {
        self as i32
    }

    fn to_i32(self) -> (r: i32) {
        #[verifier::truncate] (self as i32)
    }

    open spec fn to_i64_spec(self) -> i64 {
        self as i64
    }

    fn to_i64(self) -> (r: i64) {
        #[verifier::truncate] (self as i64)
    }

    open spec fn to_i128_spec(self) -> i128 {
        self as i128
    }

    fn to_i128(self) -> (r: i128) {
        #[verifier::truncate] (self as i128)
    }

    open spec fn to_isize_spec(self) -> isize {
        self as isize
    }

    fn to_isize(self) -> (r: isize) {
        #[verifier::truncate] (self as isize)
    }

    open spec fn to_u8_spec(self) -> u8 {
        self as u8
    }

    fn to_u8(self) -> (r: u8) {
        #[verifier::truncate] (self as u8)
    }

    open spec fn to_u16_spec(self) -> u16 {
        self as u16
    }

    fn to_u16(self) -> (r: u16) {
        #[verifier::truncate] (self as u16)
    }

    open spec fn to_u32_spec(self) -> u32 {
        self as u32
    }

    fn to_u32(self) -> (r: u32) {
        #[verifier::truncate] (self as u32)
    }

    open spec fn to_u64_spec(self) -> u64 {
        self as u64
    }

    fn to_u64(self) -> (r: u64) {
        #[verifier::truncate] (self as u64)
    }

    open spec fn to_u128_spec(self) -> u128 {
        self as u128
    }

    fn to_u128(self) -> (r: u128) {
        #[verifier::truncate] (self as u128)
    }

    open spec fn to_usize_spec(self) -> usize {
        self
    }

    fn to_usize(self) -> (r: usize) {
        self
    }

}


/// Conversion out of every primitive integer type, written like the
/// standard `From`: `u64::as_from(10_i32)`.
pub trait FromPrim<F>: Sized {
    /// What `as_from` returns: the source's cast to the implementing type.
    spec fn from_spec(value: F) -> Self;

    fn as_from(value: F) -> (r: Self)
        ensures
            r == Self::from_spec(value),
    ;
}

impl<F: ToPrim> FromPrim<F> for i8 {
    open spec fn from_spec(value: F) -> i8 {
        value.to_i8_spec()
    }

    fn as_from(value: F) -> (r: i8) {
        value.to_i8()
    }
}

impl<F: ToPrim> FromPrim<F> for i16 {
    open spec fn from_spec(value: F) -> i16 {
        value.to_i16_spec()
    }

    fn as_from(value: F) -> (r: i16) {
        value.to_i16()
    }
}

impl<F: ToPrim> FromPrim<F> for i32 {
    open spec fn from_spec(value: F) -> i32 {
        value.to_i32_spec()
    }

    fn as_from(value: F) -> (r: i32) {
        value.to_i32()
    }
}

impl<F: ToPrim> FromPrim<F> for i64 {
    open spec fn from_spec(value: F) -> i64 {
        value.to_i64_spec()
    }

    fn as_from(value: F) -> (r: i64) {
        value.to_i64()
    }
}

impl<F: ToPrim> FromPrim<F> for i128 {
    open spec fn from_spec(value: F) -> i128 {
        value.to_i128_spec()
    }

    fn as_from(value: F) -> (r: i128) {
        value.to_i128()
    }
}

impl<F: ToPrim> FromPrim<F> for isize {
    open spec fn from_spec(value: F) -> isize {
        value.to_isize_spec()
    }

    fn as_from(value: F) -> (r: isize) {
        value.to_isize()
    }
}

impl<F: ToPrim> FromPrim<F> for u8 {
    open spec fn from_spec(value: F) -> u8 {
        value.to_u8_spec()
    }

    fn as_from(value: F) -> (r: u8) {
        value.to_u8()
    }
}

impl<F: ToPrim> FromPrim<F> for u16 {
    open spec fn from_spec(value: F) -> u16 {
        value.to_u16_spec()
    }

    fn as_from(value: F) -> (r: u16) {
        value.to_u16()
    }
}

impl<F: ToPrim> FromPrim<F> for u32 {
    open spec fn from_spec(value: F) -> u32 {
        value.to_u32_spec()
    }

    fn as_from(value: F) -> (r: u32) {
        value.to_u32()
    }
}

impl<F: ToPrim> FromPrim<F> for u64 {
    open spec fn from_spec(value: F) -> u64 {
        value.to_u64_spec()
    }

    fn as_from(value: F) -> (r: u64) {
        value.to_u64()
    }
}

impl<F: ToPrim> FromPrim<F> for u128 {
    open spec fn from_spec(value: F) -> u128 {
        value.to_u128_spec()
    }

    fn as_from(value: F) -> (r: u128) {
        value.to_u128()
    }
}

impl<F: ToPrim> FromPrim<F> for usize {
    open spec fn from_spec(value: F) -> usize {
        value.to_usize_spec()
    }

    fn as_from(value: F) -> (r: usize) {
        value.to_usize()
    }
}

/// Conversion to a target named on the call: `value.as_::<u64>()`.
pub trait AsPrim: Sized {
    fn as_<I: FromPrim<Self>>(self) -> (r: I)
        ensures
            r == I::from_spec(self),
    ;
}

impl<F> AsPrim for F {
    fn as_<I: FromPrim<F>>(self) -> (r: I) {
        I::as_from(self)
    }
}

/// A widening cast keeps the value: going to a wider unsigned type and back
/// returns the argument.
pub proof fn lemma_u8_roundtrip_u64(x: u8)
    ensures
        x.to_u64_spec().to_u8_spec() == x,
{
}

/// Truncation keeps the low bits: a `u64` comes back from `u32` with its
/// thirty-two low bits.
pub proof fn lemma_u64_truncates_to_u32(x: u64)
    ensures
        x.to_u32_spec() == (x & 0xffff_ffff) as u32,
{
    assert((x as u32) == (x & 0xffff_ffff) as u32) by (bit_vector);
}

} // verus!
