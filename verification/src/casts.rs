//! Checked casts that involve a floating-point kind.
//!
//! A float's numeric meaning is outside what the core reasons about: each
//! cast's result is given a name (an uninterpreted spec function of the
//! source value alone) and the trusted wrapper around the call promises
//! exactly that name. Casts between the integer kinds are defined directly in
//! [`crate::scalar`]; only the float-involving ones live here.
//!
//! The IEEE-754 arithmetic is performed by `rustc_apfloat`, which works on
//! raw bit patterns. A float-to-integer cast rounds toward zero (truncates)
//! and fails exactly when the source is NaN, an infinity, or out of the
//! target's range; integer-to-float and float-to-float casts round to nearest
//! (ties to even) and always succeed.

use vstd::prelude::*;
use rustc_apfloat::{Float, FloatConvert, Round, Status};
use rustc_apfloat::ieee::{Double, Single};
use crate::scalar::{CastTo, F32, F64};

verus! {

/// What casting a single-precision float (given by its bits) to `i8` returns.
pub uninterp spec fn f32_to_i8_cast(bits: u32) -> Option<i8>;

/// What casting a single-precision float (given by its bits) to `i16` returns.
pub uninterp spec fn f32_to_i16_cast(bits: u32) -> Option<i16>;

/// What casting a single-precision float (given by its bits) to `i32` returns.
pub uninterp spec fn f32_to_i32_cast(bits: u32) -> Option<i32>;

/// What casting a double-precision float (given by its bits) to `i8` returns.
pub uninterp spec fn f64_to_i8_cast(bits: u64) -> Option<i8>;

/// What casting a double-precision float (given by its bits) to `i16` returns.
pub uninterp spec fn f64_to_i16_cast(bits: u64) -> Option<i16>;

/// What casting a double-precision float (given by its bits) to `i32` returns.
pub uninterp spec fn f64_to_i32_cast(bits: u64) -> Option<i32>;

/// The bits of the double a single-precision float (given by its bits) widens to.
pub uninterp spec fn f32_to_f64_bits(bits: u32) -> u64;

/// The bits of the single a double-precision float (given by its bits) narrows to.
pub uninterp spec fn f64_to_f32_bits(bits: u64) -> u32;

/// The bits of the single-precision image of an `i8`.
pub uninterp spec fn i8_to_f32_bits(x: i8) -> u32;

/// The bits of the single-precision image of an `i16`.
pub uninterp spec fn i16_to_f32_bits(x: i16) -> u32;

/// The bits of the single-precision image of an `i32`.
pub uninterp spec fn i32_to_f32_bits(x: i32) -> u32;

/// The bits of the single-precision image of a `u16`.
pub uninterp spec fn u16_to_f32_bits(x: u16) -> u32;

/// The bits of the double-precision image of an `i8`.
pub uninterp spec fn i8_to_f64_bits(x: i8) -> u64;

/// The bits of the double-precision image of an `i16`.
pub uninterp spec fn i16_to_f64_bits(x: i16) -> u64;

/// The bits of the double-precision image of an `i32`.
pub uninterp spec fn i32_to_f64_bits(x: i32) -> u64;

/// The bits of the double-precision image of a `u16`.
pub uninterp spec fn u16_to_f64_bits(x: u16) -> u64;

/// Relies on `rustc_apfloat::ieee::Single::to_i128_r` rounding toward zero:
/// the result depends on the float's bits alone, and the invalid-operation
/// status flags exactly the NaN, infinite and out-of-range sources.
#[verifier::external_body]
fn cast_f32_to_i8(bits: u32) -> (r: Option<i8>)
    ensures
        r == f32_to_i8_cast(bits),
{
    let mut exact = false;
    let out = Single::from_bits(bits as u128).to_i128_r(8, Round::TowardZero, &mut exact);
    if out.status.intersects(Status::INVALID_OP) { None } else { Some(out.value as i8) }
}

/// Relies on `rustc_apfloat::ieee::Single::to_i128_r` rounding toward zero:
/// the result depends on the float's bits alone, and the invalid-operation
/// status flags exactly the NaN, infinite and out-of-range sources.
#[verifier::external_body]
fn cast_f32_to_i16(bits: u32) -> (r: Option<i16>)
    ensures
        r == f32_to_i16_cast(bits),
{
    let mut exact = false;
    let out = Single::from_bits(bits as u128).to_i128_r(16, Round::TowardZero, &mut exact);
    if out.status.intersects(Status::INVALID_OP) { None } else { Some(out.value as i16) }
}

/// Relies on `rustc_apfloat::ieee::Single::to_i128_r` rounding toward zero:
/// the result depends on the float's bits alone, and the invalid-operation
/// status flags exactly the NaN, infinite and out-of-range sources.
#[verifier::external_body]
fn cast_f32_to_i32(bits: u32) -> (r: Option<i32>)
    ensures
        r == f32_to_i32_cast(bits),
{
    let mut exact = false;
    let out = Single::from_bits(bits as u128).to_i128_r(32, Round::TowardZero, &mut exact);
    if out.status.intersects(Status::INVALID_OP) { None } else { Some(out.value as i32) }
}

/// Relies on `rustc_apfloat::ieee::Double::to_i128_r` rounding toward zero:
/// the result depends on the float's bits alone, and the invalid-operation
/// status flags exactly the NaN, infinite and out-of-range sources.
#[verifier::external_body]
fn cast_f64_to_i8(bits: u64) -> (r: Option<i8>)
    ensures
        r == f64_to_i8_cast(bits),
{
    let mut exact = false;
    let out = Double::from_bits(bits as u128).to_i128_r(8, Round::TowardZero, &mut exact);
    if out.status.intersects(Status::INVALID_OP) { None } else { Some(out.value as i8) }
}

/// Relies on `rustc_apfloat::ieee::Double::to_i128_r` rounding toward zero:
/// the result depends on the float's bits alone, and the invalid-operation
/// status flags exactly the NaN, infinite and out-of-range sources.
#[verifier::external_body]
fn cast_f64_to_i16(bits: u64) -> (r: Option<i16>)
    ensures
        r == f64_to_i16_cast(bits),
{
    let mut exact = false;
    let out = Double::from_bits(bits as u128).to_i128_r(16, Round::TowardZero, &mut exact);
    if out.status.intersects(Status::INVALID_OP) { None } else { Some(out.value as i16) }
}

/// Relies on `rustc_apfloat::ieee::Double::to_i128_r` rounding toward zero:
/// the result depends on the float's bits alone, and the invalid-operation
/// status flags exactly the NaN, infinite and out-of-range sources.
#[verifier::external_body]
fn cast_f64_to_i32(bits: u64) -> (r: Option<i32>)
    ensures
        r == f64_to_i32_cast(bits),
{
    let mut exact = false;
    let out = Double::from_bits(bits as u128).to_i128_r(32, Round::TowardZero, &mut exact);
    if out.status.intersects(Status::INVALID_OP) { None } else { Some(out.value as i32) }
}

/// Relies on `rustc_apfloat::FloatConvert::convert` from `Single` to
/// `Double`, which widens exactly and succeeds for every input: the result's
/// bits depend on the source bits alone.
#[verifier::external_body]
fn cast_f32_to_f64(bits: u32) -> (r: Option<F64>)
    ensures
        r == Some((F64 { bits: f32_to_f64_bits(bits) })),
{
    let mut loses_info = false;
    let wide: Double = Single::from_bits(bits as u128).convert(&mut loses_info).value;
    Some(F64 { bits: wide.to_bits() as u64 })
}

/// Relies on `rustc_apfloat::FloatConvert::convert` from `Double` to
/// `Single`, which rounds to nearest (ties to even), overflows to an
/// infinity, and succeeds for every input: the result's bits depend on the
/// source bits alone.
#[verifier::external_body]
fn cast_f64_to_f32(bits: u64) -> (r: Option<F32>)
    ensures
        r == Some((F32 { bits: f64_to_f32_bits(bits) })),
{
    let mut loses_info = false;
    let narrow: Single = Double::from_bits(bits as u128).convert(&mut loses_info).value;
    Some(F32 { bits: narrow.to_bits() as u32 })
}

/// Relies on `rustc_apfloat::ieee::Single::from_i128_r` rounding to nearest
/// (exact here, the value fits the mantissa): the result's bits depend on `x`
/// alone, and the conversion always succeeds.
#[verifier::external_body]
fn cast_i8_to_f32(x: i8) -> (r: Option<F32>)
    ensures
        r == Some((F32 { bits: i8_to_f32_bits(x) })),
{
    let f = Single::from_i128_r(x as i128, Round::NearestTiesToEven).value;
    Some(F32 { bits: f.to_bits() as u32 })
}

/// Relies on `rustc_apfloat::ieee::Single::from_i128_r` rounding to nearest
/// (exact here, the value fits the mantissa): the result's bits depend on `x`
/// alone, and the conversion always succeeds.
#[verifier::external_body]
fn cast_i16_to_f32(x: i16) -> (r: Option<F32>)
    ensures
        r == Some((F32 { bits: i16_to_f32_bits(x) })),
{
    let f = Single::from_i128_r(x as i128, Round::NearestTiesToEven).value;
    Some(F32 { bits: f.to_bits() as u32 })
}

/// Relies on `rustc_apfloat::ieee::Single::from_i128_r` rounding to nearest
/// (ties to even): the result's bits depend on `x` alone, and the conversion
/// always succeeds.
#[verifier::external_body]
fn cast_i32_to_f32(x: i32) -> (r: Option<F32>)
    ensures
        r == Some((F32 { bits: i32_to_f32_bits(x) })),
{
    let f = Single::from_i128_r(x as i128, Round::NearestTiesToEven).value;
    Some(F32 { bits: f.to_bits() as u32 })
}

/// Relies on `rustc_apfloat::ieee::Single::from_u128_r` rounding to nearest
/// (exact here, the value fits the mantissa): the result's bits depend on `x`
/// alone, and the conversion always succeeds.
#[verifier::external_body]
fn cast_u16_to_f32(x: u16) -> (r: Option<F32>)
    ensures
        r == Some((F32 { bits: u16_to_f32_bits(x) })),
{
    let f = Single::from_u128_r(x as u128, Round::NearestTiesToEven).value;
    Some(F32 { bits: f.to_bits() as u32 })
}

/// Relies on `rustc_apfloat::ieee::Double::from_i128_r` (exact here, the
/// value fits the mantissa): the result's bits depend on `x` alone, and the
/// conversion always succeeds.
#[verifier::external_body]
fn cast_i8_to_f64(x: i8) -> (r: Option<F64>)
    ensures
        r == Some((F64 { bits: i8_to_f64_bits(x) })),
{
    let f = Double::from_i128_r(x as i128, Round::NearestTiesToEven).value;
    Some(F64 { bits: f.to_bits() as u64 })
}

/// Relies on `rustc_apfloat::ieee::Double::from_i128_r` (exact here, the
/// value fits the mantissa): the result's bits depend on `x` alone, and the
/// conversion always succeeds.
#[verifier::external_body]
fn cast_i16_to_f64(x: i16) -> (r: Option<F64>)
    ensures
        r == Some((F64 { bits: i16_to_f64_bits(x) })),
{
    let f = Double::from_i128_r(x as i128, Round::NearestTiesToEven).value;
    Some(F64 { bits: f.to_bits() as u64 })
}

/// Relies on `rustc_apfloat::ieee::Double::from_i128_r` (exact here, the
/// value fits the mantissa): the result's bits depend on `x` alone, and the
/// conversion always succeeds.
#[verifier::external_body]
fn cast_i32_to_f64(x: i32) -> (r: Option<F64>)
    ensures
        r == Some((F64 { bits: i32_to_f64_bits(x) })),
{
    let f = Double::from_i128_r(x as i128, Round::NearestTiesToEven).value;
    Some(F64 { bits: f.to_bits() as u64 })
}

/// Relies on `rustc_apfloat::ieee::Double::from_u128_r` (exact here, the
/// value fits the mantissa): the result's bits depend on `x` alone, and the
/// conversion always succeeds.
#[verifier::external_body]
fn cast_u16_to_f64(x: u16) -> (r: Option<F64>)
    ensures
        r == Some((F64 { bits: u16_to_f64_bits(x) })),
{
    let f = Double::from_u128_r(x as u128, Round::NearestTiesToEven).value;
    Some(F64 { bits: f.to_bits() as u64 })
}

impl CastTo<i8> for F32 {
    open spec fn cast_to_spec(self) -> Option<i8> {
        f32_to_i8_cast(self.bits)
    }

    fn cast_to(self) -> (r: Option<i8>) {
        cast_f32_to_i8(self.bits)
    }
}

impl CastTo<i16> for F32 {
    open spec fn cast_to_spec(self) -> Option<i16> {
        f32_to_i16_cast(self.bits)
    }

    fn cast_to(self) -> (r: Option<i16>) {
        cast_f32_to_i16(self.bits)
    }
}

impl CastTo<i32> for F32 {
    open spec fn cast_to_spec(self) -> Option<i32> {
        f32_to_i32_cast(self.bits)
    }

    fn cast_to(self) -> (r: Option<i32>) {
        cast_f32_to_i32(self.bits)
    }
}

impl CastTo<F64> for F32 {
    open spec fn cast_to_spec(self) -> Option<F64> {
        Some((F64 { bits: f32_to_f64_bits(self.bits) }))
    }

    fn cast_to(self) -> (r: Option<F64>) {
        cast_f32_to_f64(self.bits)
    }
}

impl CastTo<i8> for F64 {
    open spec fn cast_to_spec(self) -> Option<i8> {
        f64_to_i8_cast(self.bits)
    }

    fn cast_to(self) -> (r: Option<i8>) {
        cast_f64_to_i8(self.bits)
    }
}

impl CastTo<i16> for F64 {
    open spec fn cast_to_spec(self) -> Option<i16> {
        f64_to_i16_cast(self.bits)
    }

    fn cast_to(self) -> (r: Option<i16>) {
        cast_f64_to_i16(self.bits)
    }
}

impl CastTo<i32> for F64 {
    open spec fn cast_to_spec(self) -> Option<i32> {
        f64_to_i32_cast(self.bits)
    }

    fn cast_to(self) -> (r: Option<i32>) {
        cast_f64_to_i32(self.bits)
    }
}

impl CastTo<F32> for F64 {
    open spec fn cast_to_spec(self) -> Option<F32> {
        Some((F32 { bits: f64_to_f32_bits(self.bits) }))
    }

    fn cast_to(self) -> (r: Option<F32>) {
        cast_f64_to_f32(self.bits)
    }
}

impl CastTo<F32> for i8 {
    open spec fn cast_to_spec(self) -> Option<F32> {
        Some((F32 { bits: i8_to_f32_bits(self) }))
    }

    fn cast_to(self) -> (r: Option<F32>) {
        cast_i8_to_f32(self)
    }
}

impl CastTo<F32> for i16 {
    open spec fn cast_to_spec(self) -> Option<F32> {
        Some((F32 { bits: i16_to_f32_bits(self) }))
    }

    fn cast_to(self) -> (r: Option<F32>) {
        cast_i16_to_f32(self)
    }
}

impl CastTo<F32> for i32 {
    open spec fn cast_to_spec(self) -> Option<F32> {
        Some((F32 { bits: i32_to_f32_bits(self) }))
    }

    fn cast_to(self) -> (r: Option<F32>) {
        cast_i32_to_f32(self)
    }
}

impl CastTo<F32> for u16 {
    open spec fn cast_to_spec(self) -> Option<F32> {
        Some((F32 { bits: u16_to_f32_bits(self) }))
    }

    fn cast_to(self) -> (r: Option<F32>) {
        cast_u16_to_f32(self)
    }
}

impl CastTo<F64> for i8 {
    open spec fn cast_to_spec(self) -> Option<F64> {
        Some((F64 { bits: i8_to_f64_bits(self) }))
    }

    fn cast_to(self) -> (r: Option<F64>) {
        cast_i8_to_f64(self)
    }
}

impl CastTo<F64> for i16 {
    open spec fn cast_to_spec(self) -> Option<F64> {
        Some((F64 { bits: i16_to_f64_bits(self) }))
    }

    fn cast_to(self) -> (r: Option<F64>) {
        cast_i16_to_f64(self)
    }
}

impl CastTo<F64> for i32 {
    open spec fn cast_to_spec(self) -> Option<F64> {
        Some((F64 { bits: i32_to_f64_bits(self) }))
    }

    fn cast_to(self) -> (r: Option<F64>) {
        cast_i32_to_f64(self)
    }
}

impl CastTo<F64> for u16 {
    open spec fn cast_to_spec(self) -> Option<F64> {
        Some((F64 { bits: u16_to_f64_bits(self) }))
    }

    fn cast_to(self) -> (r: Option<F64>) {
        cast_u16_to_f64(self)
    }
}

} // verus!
