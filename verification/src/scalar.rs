//! The closed set of numeric scalar kinds a process variable's value can
//! hold, their big-endian byte images, and the checked casts between them.
//!
//! Floating-point scalars are carried as their raw IEEE-754 bit patterns
//! (`F32`, `F64`); the core never computes with them numerically, it only
//! moves them, encodes their bytes, and casts them through the
//! `rustc_apfloat` wrappers in [`crate::casts`]. The casts between the
//! integer kinds are defined and verified here.

use vstd::prelude::*;
use crate::bytes::{be16_bytes, be32_bytes, be64_bytes};
use crate::bytes::{push_be16, push_be32, push_be64};

verus! {

/// A single-precision IEEE-754 value, carried as its raw bit pattern.
#[derive(Debug, Clone, Copy, PartialEq, Eq, Structural)]
pub struct F32 {
    pub bits: u32,
}

/// A double-precision IEEE-754 value, carried as its raw bit pattern.
#[derive(Debug, Clone, Copy, PartialEq, Eq, Structural)]
pub struct F64 {
    pub bits: u64,
}

/// A scalar kind a value container can hold: it has a fixed big-endian byte
/// image and a zero value used when a record is defaulted.
pub trait DbrScalar: Sized + Copy {
    /// The big-endian byte image of this scalar.
    spec fn be_bytes_spec(self) -> Seq<u8>;

    /// The scalar a defaulted record holds.
    spec fn zero_spec() -> Self;

    /// Builds the big-endian byte image of this scalar.
    fn to_be_byte_vec(&self) -> (r: Vec<u8>)
        ensures
            r@ == self.be_bytes_spec(),
    ;

    /// Returns the scalar a defaulted record holds.
    fn zero() -> (r: Self)
        ensures
            r == Self::zero_spec(),
    ;
}

impl DbrScalar for i8 {
    open spec fn be_bytes_spec(self) -> Seq<u8> {
        seq![self as u8]
    }

    open spec fn zero_spec() -> i8 {
        0i8
    }

    fn to_be_byte_vec(&self) -> (r: Vec<u8>) {
        let mut v: Vec<u8> = Vec::new();
        v.push(*self as u8);
        assert(v@ =~= self.be_bytes_spec());
        v
    }

    fn zero() -> (r: i8) {
        0i8
    }
}

impl DbrScalar for i16 {
    open spec fn be_bytes_spec(self) -> Seq<u8> {
        be16_bytes(self as u16)
    }

    open spec fn zero_spec() -> i16 {
        0i16
    }

    fn to_be_byte_vec(&self) -> (r: Vec<u8>) {
        let mut v: Vec<u8> = Vec::new();
        push_be16(&mut v, *self as u16);
        assert(v@ =~= self.be_bytes_spec());
        v
    }

    fn zero() -> (r: i16) {
        0i16
    }
}

impl DbrScalar for i32 {
    open spec fn be_bytes_spec(self) -> Seq<u8> {
        be32_bytes(self as u32)
    }

    open spec fn zero_spec() -> i32 {
        0i32
    }

    fn to_be_byte_vec(&self) -> (r: Vec<u8>) {
        let mut v: Vec<u8> = Vec::new();
        push_be32(&mut v, *self as u32);
        assert(v@ =~= self.be_bytes_spec());
        v
    }

    fn zero() -> (r: i32) {
        0i32
    }
}

impl DbrScalar for F32 {
    open spec fn be_bytes_spec(self) -> Seq<u8> {
        be32_bytes(self.bits)
    }

    open spec fn zero_spec() -> F32 {
        F32 { bits: 0 }
    }

    fn to_be_byte_vec(&self) -> (r: Vec<u8>) {
        let mut v: Vec<u8> = Vec::new();
        push_be32(&mut v, self.bits);
        assert(v@ =~= self.be_bytes_spec());
        v
    }

    fn zero() -> (r: F32) {
        F32 { bits: 0 }
    }
}

impl DbrScalar for F64 {
    open spec fn be_bytes_spec(self) -> Seq<u8> {
        be64_bytes(self.bits)
    }

    open spec fn zero_spec() -> F64 {
        F64 { bits: 0 }
    }

    fn to_be_byte_vec(&self) -> (r: Vec<u8>) {
        let mut v: Vec<u8> = Vec::new();
        push_be64(&mut v, self.bits);
        assert(v@ =~= self.be_bytes_spec());
        v
    }

    fn zero() -> (r: F64) {
        F64 { bits: 0 }
    }
}

/// A checked cast from one scalar kind to another. `cast_to` returns `Some`
/// exactly when the source value is representable in the target kind under
/// the protocol's conversion rules, and `cast_to_spec` says which value it
/// returns.
pub trait CastTo<U>: Sized + Copy {
    /// What the checked cast returns.
    spec fn cast_to_spec(self) -> Option<U>;

    /// Performs the checked cast.
    fn cast_to(self) -> (r: Option<U>)
        ensures
            r == self.cast_to_spec(),
    ;
}

impl CastTo<i16> for i8 {
    open spec fn cast_to_spec(self) -> Option<i16> {
        Some(self as i16)
    }

    fn cast_to(self) -> (r: Option<i16>) {
        Some(self as i16)
    }
}

impl CastTo<i32> for i8 {
    open spec fn cast_to_spec(self) -> Option<i32> {
        Some(self as i32)
    }

    fn cast_to(self) -> (r: Option<i32>) {
        Some(self as i32)
    }
}

impl CastTo<i8> for i16 {
    open spec fn cast_to_spec(self) -> Option<i8> {
        if -128 <= self && self <= 127 {
            Some(self as i8)
        } else {
            None
        }
    }

    fn cast_to(self) -> (r: Option<i8>) {
        if -128 <= self && self <= 127 {
            Some(self as i8)
        } else {
            None
        }
    }
}

impl CastTo<i32> for i16 {
    open spec fn cast_to_spec(self) -> Option<i32> {
        Some(self as i32)
    }

    fn cast_to(self) -> (r: Option<i32>) {
        Some(self as i32)
    }
}

impl CastTo<i8> for i32 {
    open spec fn cast_to_spec(self) -> Option<i8> {
        if -128 <= self && self <= 127 {
            Some(self as i8)
        } else {
            None
        }
    }

    fn cast_to(self) -> (r: Option<i8>) {
        if -128 <= self && self <= 127 {
            Some(self as i8)
        } else {
            None
        }
    }
}

impl CastTo<i16> for i32 {
    open spec fn cast_to_spec(self) -> Option<i16> {
        if -32768 <= self && self <= 32767 {
            Some(self as i16)
        } else {
            None
        }
    }

    fn cast_to(self) -> (r: Option<i16>) {
        if -32768 <= self && self <= 32767 {
            Some(self as i16)
        } else {
            None
        }
    }
}

impl CastTo<i8> for u16 {
    open spec fn cast_to_spec(self) -> Option<i8> {
        if self <= 127 {
            Some(self as i8)
        } else {
            None
        }
    }

    fn cast_to(self) -> (r: Option<i8>) {
        if self <= 127 {
            Some(self as i8)
        } else {
            None
        }
    }
}

impl CastTo<i16> for u16 {
    open spec fn cast_to_spec(self) -> Option<i16> {
        if self <= 32767 {
            Some(self as i16)
        } else {
            None
        }
    }

    fn cast_to(self) -> (r: Option<i16>) {
        if self <= 32767 {
            Some(self as i16)
        } else {
            None
        }
    }
}

impl CastTo<i32> for u16 {
    open spec fn cast_to_spec(self) -> Option<i32> {
        Some(self as i32)
    }

    fn cast_to(self) -> (r: Option<i32>) {
        Some(self as i32)
    }
}

} // verus!
