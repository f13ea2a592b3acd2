//! Floating-point, bit-counting and rotating operations of WebAssembly, as computed by
//! `wasmi_core`.
//!
//! Values travel as the 64-bit words of the register file: a 32-bit value
//! occupies the low half of its word. This module gives the result of every
//! operation a name and a trusted entry point that computes it.
//!
//! Comparisons, conversions from and to integers, sign operations, bit counts
//! and rotations are functions of the words of their operands. Arithmetic and
//! rounding are so only where the result is a number: the sign and payload of
//! a not-a-number result are the machine's, and so is the sign of a zero that
//! `min` or `max` picks from two zeros. The entry points of those operations
//! promise no more than that; [`crate::float`] settles what they leave open.

use crate::ops::{f32_is_nan, f64_is_nan};
use vstd::prelude::*;
use wasmi_core::UntypedValue;

verus! {

/// Whether the low half of `word` is a single-precision zero, of either sign.
pub open spec fn f32_is_zero(word: u64) -> bool {
    (word as u32) & 0x7FFF_FFFFu32 == 0
}

/// Whether `word` is a double-precision zero, of either sign.
pub open spec fn f64_is_zero(word: u64) -> bool {
    word & 0x7FFF_FFFF_FFFF_FFFFu64 == 0
}

/// The absolute value that `wasmi_core` computes for `f32.abs`.
pub uninterp spec fn f32_abs(input: u64) -> u64;

/// Calls `UntypedValue::f32_abs`. Trusted: the result is the named one.
#[verifier::external_body]
pub(crate) fn f32_abs_exec(input: u64) -> (r: u64)
    ensures
        r == f32_abs(input),
{
    UntypedValue::from(input).f32_abs().to_bits()
}

/// The rounding up to an integer that `wasmi_core` computes for `f32.ceil`, where that is a number.
pub uninterp spec fn f32_ceil(input: u64) -> u64;

/// Calls `UntypedValue::f32_ceil`. Trusted: the result is a not-a-number exactly
/// where the named one is, and equals it where it is a number; it
/// fills the low half of the word.
#[verifier::external_body]
pub(crate) fn f32_ceil_exec(input: u64) -> (r: u64)
    ensures
        f32_is_nan(r) == f32_is_nan(f32_ceil(input)),
        !f32_is_nan(r) ==> r == f32_ceil(input),
        r <= u32::MAX,
{
    UntypedValue::from(input).f32_ceil().to_bits()
}

/// The rounding down to an integer that `wasmi_core` computes for `f32.floor`, where that is a number.
pub uninterp spec fn f32_floor(input: u64) -> u64;

/// Calls `UntypedValue::f32_floor`. Trusted: the result is a not-a-number exactly
/// where the named one is, and equals it where it is a number; it
/// fills the low half of the word.
#[verifier::external_body]
pub(crate) fn f32_floor_exec(input: u64) -> (r: u64)
    ensures
        f32_is_nan(r) == f32_is_nan(f32_floor(input)),
        !f32_is_nan(r) ==> r == f32_floor(input),
        r <= u32::MAX,
{
    UntypedValue::from(input).f32_floor().to_bits()
}

/// The rounding towards zero that `wasmi_core` computes for `f32.trunc`, where that is a number.
pub uninterp spec fn f32_trunc(input: u64) -> u64;

/// Calls `UntypedValue::f32_trunc`. Trusted: the result is a not-a-number exactly
/// where the named one is, and equals it where it is a number; it
/// fills the low half of the word.
#[verifier::external_body]
pub(crate) fn f32_trunc_exec(input: u64) -> (r: u64)
    ensures
        f32_is_nan(r) == f32_is_nan(f32_trunc(input)),
        !f32_is_nan(r) ==> r == f32_trunc(input),
        r <= u32::MAX,
{
    UntypedValue::from(input).f32_trunc().to_bits()
}

/// The rounding to the nearest integer, ties to even that `wasmi_core` computes for `f32.nearest`, where that is a number.
pub uninterp spec fn f32_nearest(input: u64) -> u64;

/// Calls `UntypedValue::f32_nearest`. Trusted: the result is a not-a-number exactly
/// where the named one is, and equals it where it is a number; it
/// fills the low half of the word.
#[verifier::external_body]
pub(crate) fn f32_nearest_exec(input: u64) -> (r: u64)
    ensures
        f32_is_nan(r) == f32_is_nan(f32_nearest(input)),
        !f32_is_nan(r) ==> r == f32_nearest(input),
        r <= u32::MAX,
{
    UntypedValue::from(input).f32_nearest().to_bits()
}

/// The square root that `wasmi_core` computes for `f32.sqrt`, where that is a number.
pub uninterp spec fn f32_sqrt(input: u64) -> u64;

/// Calls `UntypedValue::f32_sqrt`. Trusted: the result is a not-a-number exactly
/// where the named one is, and equals it where it is a number; it
/// fills the low half of the word.
#[verifier::external_body]
pub(crate) fn f32_sqrt_exec(input: u64) -> (r: u64)
    ensures
        f32_is_nan(r) == f32_is_nan(f32_sqrt(input)),
        !f32_is_nan(r) ==> r == f32_sqrt(input),
        r <= u32::MAX,
{
    UntypedValue::from(input).f32_sqrt().to_bits()
}

/// The sum that `wasmi_core` computes for `f32.add`, where that is a number.
pub uninterp spec fn f32_add(lhs: u64, rhs: u64) -> u64;

/// Calls `UntypedValue::f32_add`. Trusted: the result is a not-a-number exactly
/// where the named one is, and equals it where it is a number; it
/// fills the low half of the word.
#[verifier::external_body]
pub(crate) fn f32_add_exec(lhs: u64, rhs: u64) -> (r: u64)
    ensures
        f32_is_nan(r) == f32_is_nan(f32_add(lhs, rhs)),
        !f32_is_nan(r) ==> r == f32_add(lhs, rhs),
        r <= u32::MAX,
{
    UntypedValue::from(lhs).f32_add(UntypedValue::from(rhs)).to_bits()
}

/// The difference that `wasmi_core` computes for `f32.sub`, where that is a number.
pub uninterp spec fn f32_sub(lhs: u64, rhs: u64) -> u64;

/// Calls `UntypedValue::f32_sub`. Trusted: the result is a not-a-number exactly
/// where the named one is, and equals it where it is a number; it
/// fills the low half of the word.
#[verifier::external_body]
pub(crate) fn f32_sub_exec(lhs: u64, rhs: u64) -> (r: u64)
    ensures
        f32_is_nan(r) == f32_is_nan(f32_sub(lhs, rhs)),
        !f32_is_nan(r) ==> r == f32_sub(lhs, rhs),
        r <= u32::MAX,
{
    UntypedValue::from(lhs).f32_sub(UntypedValue::from(rhs)).to_bits()
}

/// The product that `wasmi_core` computes for `f32.mul`, where that is a number.
pub uninterp spec fn f32_mul(lhs: u64, rhs: u64) -> u64;

/// Calls `UntypedValue::f32_mul`. Trusted: the result is a not-a-number exactly
/// where the named one is, and equals it where it is a number; it
/// fills the low half of the word.
#[verifier::external_body]
pub(crate) fn f32_mul_exec(lhs: u64, rhs: u64) -> (r: u64)
    ensures
        f32_is_nan(r) == f32_is_nan(f32_mul(lhs, rhs)),
        !f32_is_nan(r) ==> r == f32_mul(lhs, rhs),
        r <= u32::MAX,
{
    UntypedValue::from(lhs).f32_mul(UntypedValue::from(rhs)).to_bits()
}

/// The quotient that `wasmi_core` computes for `f32.div`, where that is a number.
pub uninterp spec fn f32_div(lhs: u64, rhs: u64) -> u64;

/// Calls `UntypedValue::f32_div`. Trusted: the result is a not-a-number exactly
/// where the named one is, and equals it where it is a number; it
/// fills the low half of the word.
#[verifier::external_body]
pub(crate) fn f32_div_exec(lhs: u64, rhs: u64) -> (r: u64)
    ensures
        f32_is_nan(r) == f32_is_nan(f32_div(lhs, rhs)),
        !f32_is_nan(r) ==> r == f32_div(lhs, rhs),
        r <= u32::MAX,
{
    UntypedValue::from(lhs).f32_div(UntypedValue::from(rhs)).to_bits()
}

/// The minimum that `wasmi_core` computes for `f32.min`, where that is a
/// number and the operands are not both zero.
pub uninterp spec fn f32_min(lhs: u64, rhs: u64) -> u64;

/// Calls `UntypedValue::f32_min`. Trusted: the result is a not-a-number exactly
/// where the named one is, and equals it where it is a number, unless both
/// operands are zero: of which zero comes back then, nothing is said; it
/// fills the low half of the word.
#[verifier::external_body]
pub(crate) fn f32_min_exec(lhs: u64, rhs: u64) -> (r: u64)
    ensures
        f32_is_nan(r) == f32_is_nan(f32_min(lhs, rhs)),
        !f32_is_nan(r) && !(f32_is_zero(lhs) && f32_is_zero(rhs)) ==> r == f32_min(lhs, rhs),
        r <= u32::MAX,
{
    UntypedValue::from(lhs).f32_min(UntypedValue::from(rhs)).to_bits()
}

/// The maximum that `wasmi_core` computes for `f32.max`, where that is a
/// number and the operands are not both zero.
pub uninterp spec fn f32_max(lhs: u64, rhs: u64) -> u64;

/// Calls `UntypedValue::f32_max`. Trusted: the result is a not-a-number exactly
/// where the named one is, and equals it where it is a number, unless both
/// operands are zero: of which zero comes back then, nothing is said; it
/// fills the low half of the word.
#[verifier::external_body]
pub(crate) fn f32_max_exec(lhs: u64, rhs: u64) -> (r: u64)
    ensures
        f32_is_nan(r) == f32_is_nan(f32_max(lhs, rhs)),
        !f32_is_nan(r) && !(f32_is_zero(lhs) && f32_is_zero(rhs)) ==> r == f32_max(lhs, rhs),
        r <= u32::MAX,
{
    UntypedValue::from(lhs).f32_max(UntypedValue::from(rhs)).to_bits()
}

/// The first operand with the sign of the second that `wasmi_core` computes for `f32.copysign`.
pub uninterp spec fn f32_copysign(lhs: u64, rhs: u64) -> u64;

/// Calls `UntypedValue::f32_copysign`. Trusted: the result is the named one.
#[verifier::external_body]
pub(crate) fn f32_copysign_exec(lhs: u64, rhs: u64) -> (r: u64)
    ensures
        r == f32_copysign(lhs, rhs),
{
    UntypedValue::from(lhs).f32_copysign(UntypedValue::from(rhs)).to_bits()
}

/// The truth value, 0 or 1, of `lhs` equal to `rhs` that `wasmi_core` computes for `f32.eq`.
pub uninterp spec fn f32_eq(lhs: u64, rhs: u64) -> u64;

/// Calls `UntypedValue::f32_eq`. Trusted: the result is the named one.
#[verifier::external_body]
pub(crate) fn f32_eq_exec(lhs: u64, rhs: u64) -> (r: u64)
    ensures
        r == f32_eq(lhs, rhs),
{
    UntypedValue::from(lhs).f32_eq(UntypedValue::from(rhs)).to_bits()
}

/// The truth value, 0 or 1, of `lhs` not equal to `rhs` that `wasmi_core` computes for `f32.ne`.
pub uninterp spec fn f32_ne(lhs: u64, rhs: u64) -> u64;

/// Calls `UntypedValue::f32_ne`. Trusted: the result is the named one.
#[verifier::external_body]
pub(crate) fn f32_ne_exec(lhs: u64, rhs: u64) -> (r: u64)
    ensures
        r == f32_ne(lhs, rhs),
{
    UntypedValue::from(lhs).f32_ne(UntypedValue::from(rhs)).to_bits()
}

/// The truth value, 0 or 1, of `lhs` less than `rhs` that `wasmi_core` computes for `f32.lt`.
pub uninterp spec fn f32_lt(lhs: u64, rhs: u64) -> u64;

/// Calls `UntypedValue::f32_lt`. Trusted: the result is the named one.
#[verifier::external_body]
pub(crate) fn f32_lt_exec(lhs: u64, rhs: u64) -> (r: u64)
    ensures
        r == f32_lt(lhs, rhs),
{
    UntypedValue::from(lhs).f32_lt(UntypedValue::from(rhs)).to_bits()
}

/// The truth value, 0 or 1, of `lhs` less than or equal to `rhs` that `wasmi_core` computes for `f32.le`.
pub uninterp spec fn f32_le(lhs: u64, rhs: u64) -> u64;

/// Calls `UntypedValue::f32_le`. Trusted: the result is the named one.
#[verifier::external_body]
pub(crate) fn f32_le_exec(lhs: u64, rhs: u64) -> (r: u64)
    ensures
        r == f32_le(lhs, rhs),
{
    UntypedValue::from(lhs).f32_le(UntypedValue::from(rhs)).to_bits()
}

/// The truth value, 0 or 1, of `lhs` greater than `rhs` that `wasmi_core` computes for `f32.gt`.
pub uninterp spec fn f32_gt(lhs: u64, rhs: u64) -> u64;

/// Calls `UntypedValue::f32_gt`. Trusted: the result is the named one.
#[verifier::external_body]
pub(crate) fn f32_gt_exec(lhs: u64, rhs: u64) -> (r: u64)
    ensures
        r == f32_gt(lhs, rhs),
{
    UntypedValue::from(lhs).f32_gt(UntypedValue::from(rhs)).to_bits()
}

/// The truth value, 0 or 1, of `lhs` greater than or equal to `rhs` that `wasmi_core` computes for `f32.ge`.
pub uninterp spec fn f32_ge(lhs: u64, rhs: u64) -> u64;

/// Calls `UntypedValue::f32_ge`. Trusted: the result is the named one.
#[verifier::external_body]
pub(crate) fn f32_ge_exec(lhs: u64, rhs: u64) -> (r: u64)
    ensures
        r == f32_ge(lhs, rhs),
{
    UntypedValue::from(lhs).f32_ge(UntypedValue::from(rhs)).to_bits()
}

/// The absolute value that `wasmi_core` computes for `f64.abs`.
pub uninterp spec fn f64_abs(input: u64) -> u64;

/// Calls `UntypedValue::f64_abs`. Trusted: the result is the named one.
#[verifier::external_body]
pub(crate) fn f64_abs_exec(input: u64) -> (r: u64)
    ensures
        r == f64_abs(input),
{
    UntypedValue::from(input).f64_abs().to_bits()
}

/// The rounding up to an integer that `wasmi_core` computes for `f64.ceil`, where that is a number.
pub uninterp spec fn f64_ceil(input: u64) -> u64;

/// Calls `UntypedValue::f64_ceil`. Trusted: the result is a not-a-number exactly
/// where the named one is, and equals it where it is a number.
#[verifier::external_body]
pub(crate) fn f64_ceil_exec(input: u64) -> (r: u64)
    ensures
        f64_is_nan(r) == f64_is_nan(f64_ceil(input)),
        !f64_is_nan(r) ==> r == f64_ceil(input),
{
    UntypedValue::from(input).f64_ceil().to_bits()
}

/// The rounding down to an integer that `wasmi_core` computes for `f64.floor`, where that is a number.
pub uninterp spec fn f64_floor(input: u64) -> u64;

/// Calls `UntypedValue::f64_floor`. Trusted: the result is a not-a-number exactly
/// where the named one is, and equals it where it is a number.
#[verifier::external_body]
pub(crate) fn f64_floor_exec(input: u64) -> (r: u64)
    ensures
        f64_is_nan(r) == f64_is_nan(f64_floor(input)),
        !f64_is_nan(r) ==> r == f64_floor(input),
{
    UntypedValue::from(input).f64_floor().to_bits()
}

/// The rounding towards zero that `wasmi_core` computes for `f64.trunc`, where that is a number.
pub uninterp spec fn f64_trunc(input: u64) -> u64;

/// Calls `UntypedValue::f64_trunc`. Trusted: the result is a not-a-number exactly
/// where the named one is, and equals it where it is a number.
#[verifier::external_body]
pub(crate) fn f64_trunc_exec(input: u64) -> (r: u64)
    ensures
        f64_is_nan(r) == f64_is_nan(f64_trunc(input)),
        !f64_is_nan(r) ==> r == f64_trunc(input),
{
    UntypedValue::from(input).f64_trunc().to_bits()
}

/// The rounding to the nearest integer, ties to even that `wasmi_core` computes for `f64.nearest`, where that is a number.
pub uninterp spec fn f64_nearest(input: u64) -> u64;

/// Calls `UntypedValue::f64_nearest`. Trusted: the result is a not-a-number exactly
/// where the named one is, and equals it where it is a number.
#[verifier::external_body]
pub(crate) fn f64_nearest_exec(input: u64) -> (r: u64)
    ensures
        f64_is_nan(r) == f64_is_nan(f64_nearest(input)),
        !f64_is_nan(r) ==> r == f64_nearest(input),
{
    UntypedValue::from(input).f64_nearest().to_bits()
}

/// The square root that `wasmi_core` computes for `f64.sqrt`, where that is a number.
pub uninterp spec fn f64_sqrt(input: u64) -> u64;

/// Calls `UntypedValue::f64_sqrt`. Trusted: the result is a not-a-number exactly
/// where the named one is, and equals it where it is a number.
#[verifier::external_body]
pub(crate) fn f64_sqrt_exec(input: u64) -> (r: u64)
    ensures
        f64_is_nan(r) == f64_is_nan(f64_sqrt(input)),
        !f64_is_nan(r) ==> r == f64_sqrt(input),
{
    UntypedValue::from(input).f64_sqrt().to_bits()
}

/// The sum that `wasmi_core` computes for `f64.add`, where that is a number.
pub uninterp spec fn f64_add(lhs: u64, rhs: u64) -> u64;

/// Calls `UntypedValue::f64_add`. Trusted: the result is a not-a-number exactly
/// where the named one is, and equals it where it is a number.
#[verifier::external_body]
pub(crate) fn f64_add_exec(lhs: u64, rhs: u64) -> (r: u64)
    ensures
        f64_is_nan(r) == f64_is_nan(f64_add(lhs, rhs)),
        !f64_is_nan(r) ==> r == f64_add(lhs, rhs),
{
    UntypedValue::from(lhs).f64_add(UntypedValue::from(rhs)).to_bits()
}

/// The difference that `wasmi_core` computes for `f64.sub`, where that is a number.
pub uninterp spec fn f64_sub(lhs: u64, rhs: u64) -> u64;

/// Calls `UntypedValue::f64_sub`. Trusted: the result is a not-a-number exactly
/// where the named one is, and equals it where it is a number.
#[verifier::external_body]
pub(crate) fn f64_sub_exec(lhs: u64, rhs: u64) -> (r: u64)
    ensures
        f64_is_nan(r) == f64_is_nan(f64_sub(lhs, rhs)),
        !f64_is_nan(r) ==> r == f64_sub(lhs, rhs),
{
    UntypedValue::from(lhs).f64_sub(UntypedValue::from(rhs)).to_bits()
}

/// The product that `wasmi_core` computes for `f64.mul`, where that is a number.
pub uninterp spec fn f64_mul(lhs: u64, rhs: u64) -> u64;

/// Calls `UntypedValue::f64_mul`. Trusted: the result is a not-a-number exactly
/// where the named one is, and equals it where it is a number.
#[verifier::external_body]
pub(crate) fn f64_mul_exec(lhs: u64, rhs: u64) -> (r: u64)
    ensures
        f64_is_nan(r) == f64_is_nan(f64_mul(lhs, rhs)),
        !f64_is_nan(r) ==> r == f64_mul(lhs, rhs),
{
    UntypedValue::from(lhs).f64_mul(UntypedValue::from(rhs)).to_bits()
}

/// The quotient that `wasmi_core` computes for `f64.div`, where that is a number.
pub uninterp spec fn f64_div(lhs: u64, rhs: u64) -> u64;

/// Calls `UntypedValue::f64_div`. Trusted: the result is a not-a-number exactly
/// where the named one is, and equals it where it is a number.
#[verifier::external_body]
pub(crate) fn f64_div_exec(lhs: u64, rhs: u64) -> (r: u64)
    ensures
        f64_is_nan(r) == f64_is_nan(f64_div(lhs, rhs)),
        !f64_is_nan(r) ==> r == f64_div(lhs, rhs),
{
    UntypedValue::from(lhs).f64_div(UntypedValue::from(rhs)).to_bits()
}

/// The minimum that `wasmi_core` computes for `f64.min`, where that is a
/// number and the operands are not both zero.
pub uninterp spec fn f64_min(lhs: u64, rhs: u64) -> u64;

/// Calls `UntypedValue::f64_min`. Trusted: the result is a not-a-number exactly
/// where the named one is, and equals it where it is a number, unless both
/// operands are zero: of which zero comes back then, nothing is said.
#[verifier::external_body]
pub(crate) fn f64_min_exec(lhs: u64, rhs: u64) -> (r: u64)
    ensures
        f64_is_nan(r) == f64_is_nan(f64_min(lhs, rhs)),
        !f64_is_nan(r) && !(f64_is_zero(lhs) && f64_is_zero(rhs)) ==> r == f64_min(lhs, rhs),
{
    UntypedValue::from(lhs).f64_min(UntypedValue::from(rhs)).to_bits()
}

/// The maximum that `wasmi_core` computes for `f64.max`, where that is a
/// number and the operands are not both zero.
pub uninterp spec fn f64_max(lhs: u64, rhs: u64) -> u64;

/// Calls `UntypedValue::f64_max`. Trusted: the result is a not-a-number exactly
/// where the named one is, and equals it where it is a number, unless both
/// operands are zero: of which zero comes back then, nothing is said.
#[verifier::external_body]
pub(crate) fn f64_max_exec(lhs: u64, rhs: u64) -> (r: u64)
    ensures
        f64_is_nan(r) == f64_is_nan(f64_max(lhs, rhs)),
        !f64_is_nan(r) && !(f64_is_zero(lhs) && f64_is_zero(rhs)) ==> r == f64_max(lhs, rhs),
{
    UntypedValue::from(lhs).f64_max(UntypedValue::from(rhs)).to_bits()
}

/// The first operand with the sign of the second that `wasmi_core` computes for `f64.copysign`.
pub uninterp spec fn f64_copysign(lhs: u64, rhs: u64) -> u64;

/// Calls `UntypedValue::f64_copysign`. Trusted: the result is the named one.
#[verifier::external_body]
pub(crate) fn f64_copysign_exec(lhs: u64, rhs: u64) -> (r: u64)
    ensures
        r == f64_copysign(lhs, rhs),
{
    UntypedValue::from(lhs).f64_copysign(UntypedValue::from(rhs)).to_bits()
}

/// The truth value, 0 or 1, of `lhs` equal to `rhs` that `wasmi_core` computes for `f64.eq`.
pub uninterp spec fn f64_eq(lhs: u64, rhs: u64) -> u64;

/// Calls `UntypedValue::f64_eq`. Trusted: the result is the named one.
#[verifier::external_body]
pub(crate) fn f64_eq_exec(lhs: u64, rhs: u64) -> (r: u64)
    ensures
        r == f64_eq(lhs, rhs),
{
    UntypedValue::from(lhs).f64_eq(UntypedValue::from(rhs)).to_bits()
}

/// The truth value, 0 or 1, of `lhs` not equal to `rhs` that `wasmi_core` computes for `f64.ne`.
pub uninterp spec fn f64_ne(lhs: u64, rhs: u64) -> u64;

/// Calls `UntypedValue::f64_ne`. Trusted: the result is the named one.
#[verifier::external_body]
pub(crate) fn f64_ne_exec(lhs: u64, rhs: u64) -> (r: u64)
    ensures
        r == f64_ne(lhs, rhs),
{
    UntypedValue::from(lhs).f64_ne(UntypedValue::from(rhs)).to_bits()
}

/// The truth value, 0 or 1, of `lhs` less than `rhs` that `wasmi_core` computes for `f64.lt`.
pub uninterp spec fn f64_lt(lhs: u64, rhs: u64) -> u64;

/// Calls `UntypedValue::f64_lt`. Trusted: the result is the named one.
#[verifier::external_body]
pub(crate) fn f64_lt_exec(lhs: u64, rhs: u64) -> (r: u64)
    ensures
        r == f64_lt(lhs, rhs),
{
    UntypedValue::from(lhs).f64_lt(UntypedValue::from(rhs)).to_bits()
}

/// The truth value, 0 or 1, of `lhs` less than or equal to `rhs` that `wasmi_core` computes for `f64.le`.
pub uninterp spec fn f64_le(lhs: u64, rhs: u64) -> u64;

/// Calls `UntypedValue::f64_le`. Trusted: the result is the named one.
#[verifier::external_body]
pub(crate) fn f64_le_exec(lhs: u64, rhs: u64) -> (r: u64)
    ensures
        r == f64_le(lhs, rhs),
{
    UntypedValue::from(lhs).f64_le(UntypedValue::from(rhs)).to_bits()
}

/// The truth value, 0 or 1, of `lhs` greater than `rhs` that `wasmi_core` computes for `f64.gt`.
pub uninterp spec fn f64_gt(lhs: u64, rhs: u64) -> u64;

/// Calls `UntypedValue::f64_gt`. Trusted: the result is the named one.
#[verifier::external_body]
pub(crate) fn f64_gt_exec(lhs: u64, rhs: u64) -> (r: u64)
    ensures
        r == f64_gt(lhs, rhs),
{
    UntypedValue::from(lhs).f64_gt(UntypedValue::from(rhs)).to_bits()
}

/// The truth value, 0 or 1, of `lhs` greater than or equal to `rhs` that `wasmi_core` computes for `f64.ge`.
pub uninterp spec fn f64_ge(lhs: u64, rhs: u64) -> u64;

/// Calls `UntypedValue::f64_ge`. Trusted: the result is the named one.
#[verifier::external_body]
pub(crate) fn f64_ge_exec(lhs: u64, rhs: u64) -> (r: u64)
    ensures
        r == f64_ge(lhs, rhs),
{
    UntypedValue::from(lhs).f64_ge(UntypedValue::from(rhs)).to_bits()
}

/// The number of one bits that `wasmi_core` computes for `i32.popcnt`.
pub uninterp spec fn i32_popcnt(input: u64) -> u64;

/// Calls `UntypedValue::i32_popcnt`. Trusted: the result is the named one.
#[verifier::external_body]
pub(crate) fn i32_popcnt_exec(input: u64) -> (r: u64)
    ensures
        r == i32_popcnt(input),
{
    UntypedValue::from(input).i32_popcnt().to_bits()
}

/// The rotation to the left that `wasmi_core` computes for `i32.rotl`.
pub uninterp spec fn i32_rotl(lhs: u64, rhs: u64) -> u64;

/// Calls `UntypedValue::i32_rotl`. Trusted: the result is the named one.
#[verifier::external_body]
pub(crate) fn i32_rotl_exec(lhs: u64, rhs: u64) -> (r: u64)
    ensures
        r == i32_rotl(lhs, rhs),
{
    UntypedValue::from(lhs).i32_rotl(UntypedValue::from(rhs)).to_bits()
}

/// The rotation to the right that `wasmi_core` computes for `i32.rotr`.
pub uninterp spec fn i32_rotr(lhs: u64, rhs: u64) -> u64;

/// Calls `UntypedValue::i32_rotr`. Trusted: the result is the named one.
#[verifier::external_body]
pub(crate) fn i32_rotr_exec(lhs: u64, rhs: u64) -> (r: u64)
    ensures
        r == i32_rotr(lhs, rhs),
{
    UntypedValue::from(lhs).i32_rotr(UntypedValue::from(rhs)).to_bits()
}

/// The number of one bits that `wasmi_core` computes for `i64.popcnt`.
pub uninterp spec fn i64_popcnt(input: u64) -> u64;

/// Calls `UntypedValue::i64_popcnt`. Trusted: the result is the named one.
#[verifier::external_body]
pub(crate) fn i64_popcnt_exec(input: u64) -> (r: u64)
    ensures
        r == i64_popcnt(input),
{
    UntypedValue::from(input).i64_popcnt().to_bits()
}

/// The rotation to the left that `wasmi_core` computes for `i64.rotl`.
pub uninterp spec fn i64_rotl(lhs: u64, rhs: u64) -> u64;

/// Calls `UntypedValue::i64_rotl`. Trusted: the result is the named one.
#[verifier::external_body]
pub(crate) fn i64_rotl_exec(lhs: u64, rhs: u64) -> (r: u64)
    ensures
        r == i64_rotl(lhs, rhs),
{
    UntypedValue::from(lhs).i64_rotl(UntypedValue::from(rhs)).to_bits()
}

/// The rotation to the right that `wasmi_core` computes for `i64.rotr`.
pub uninterp spec fn i64_rotr(lhs: u64, rhs: u64) -> u64;

/// Calls `UntypedValue::i64_rotr`. Trusted: the result is the named one.
#[verifier::external_body]
pub(crate) fn i64_rotr_exec(lhs: u64, rhs: u64) -> (r: u64)
    ensures
        r == i64_rotr(lhs, rhs),
{
    UntypedValue::from(lhs).i64_rotr(UntypedValue::from(rhs)).to_bits()
}

/// The truncation to an integer that `wasmi_core` computes for `i32.trunc_f32_s`, or `None`
/// where the operation traps.
pub uninterp spec fn i32_trunc_f32_s(input: u64) -> Option<u64>;

/// Calls `UntypedValue::i32_trunc_f32_s` and drops the trap code. Trusted: the result
/// is the named one.
#[verifier::external_body]
pub(crate) fn i32_trunc_f32_s_exec(input: u64) -> (r: Option<u64>)
    ensures
        r == i32_trunc_f32_s(input),
{
    UntypedValue::from(input).i32_trunc_f32_s().ok().map(|value| value.to_bits())
}

/// The truncation to an integer that `wasmi_core` computes for `i32.trunc_f32_u`, or `None`
/// where the operation traps.
pub uninterp spec fn i32_trunc_f32_u(input: u64) -> Option<u64>;

/// Calls `UntypedValue::i32_trunc_f32_u` and drops the trap code. Trusted: the result
/// is the named one.
#[verifier::external_body]
pub(crate) fn i32_trunc_f32_u_exec(input: u64) -> (r: Option<u64>)
    ensures
        r == i32_trunc_f32_u(input),
{
    UntypedValue::from(input).i32_trunc_f32_u().ok().map(|value| value.to_bits())
}

/// The truncation to an integer that `wasmi_core` computes for `i32.trunc_f64_s`, or `None`
/// where the operation traps.
pub uninterp spec fn i32_trunc_f64_s(input: u64) -> Option<u64>;

/// Calls `UntypedValue::i32_trunc_f64_s` and drops the trap code. Trusted: the result
/// is the named one.
#[verifier::external_body]
pub(crate) fn i32_trunc_f64_s_exec(input: u64) -> (r: Option<u64>)
    ensures
        r == i32_trunc_f64_s(input),
{
    UntypedValue::from(input).i32_trunc_f64_s().ok().map(|value| value.to_bits())
}

/// The truncation to an integer that `wasmi_core` computes for `i32.trunc_f64_u`, or `None`
/// where the operation traps.
pub uninterp spec fn i32_trunc_f64_u(input: u64) -> Option<u64>;

/// Calls `UntypedValue::i32_trunc_f64_u` and drops the trap code. Trusted: the result
/// is the named one.
#[verifier::external_body]
pub(crate) fn i32_trunc_f64_u_exec(input: u64) -> (r: Option<u64>)
    ensures
        r == i32_trunc_f64_u(input),
{
    UntypedValue::from(input).i32_trunc_f64_u().ok().map(|value| value.to_bits())
}

/// The truncation to an integer that `wasmi_core` computes for `i64.trunc_f32_s`, or `None`
/// where the operation traps.
pub uninterp spec fn i64_trunc_f32_s(input: u64) -> Option<u64>;

/// Calls `UntypedValue::i64_trunc_f32_s` and drops the trap code. Trusted: the result
/// is the named one.
#[verifier::external_body]
pub(crate) fn i64_trunc_f32_s_exec(input: u64) -> (r: Option<u64>)
    ensures
        r == i64_trunc_f32_s(input),
{
    UntypedValue::from(input).i64_trunc_f32_s().ok().map(|value| value.to_bits())
}

/// The truncation to an integer that `wasmi_core` computes for `i64.trunc_f32_u`, or `None`
/// where the operation traps.
pub uninterp spec fn i64_trunc_f32_u(input: u64) -> Option<u64>;

/// Calls `UntypedValue::i64_trunc_f32_u` and drops the trap code. Trusted: the result
/// is the named one.
#[verifier::external_body]
pub(crate) fn i64_trunc_f32_u_exec(input: u64) -> (r: Option<u64>)
    ensures
        r == i64_trunc_f32_u(input),
{
    UntypedValue::from(input).i64_trunc_f32_u().ok().map(|value| value.to_bits())
}

/// The truncation to an integer that `wasmi_core` computes for `i64.trunc_f64_s`, or `None`
/// where the operation traps.
pub uninterp spec fn i64_trunc_f64_s(input: u64) -> Option<u64>;

/// Calls `UntypedValue::i64_trunc_f64_s` and drops the trap code. Trusted: the result
/// is the named one.
#[verifier::external_body]
pub(crate) fn i64_trunc_f64_s_exec(input: u64) -> (r: Option<u64>)
    ensures
        r == i64_trunc_f64_s(input),
{
    UntypedValue::from(input).i64_trunc_f64_s().ok().map(|value| value.to_bits())
}

/// The truncation to an integer that `wasmi_core` computes for `i64.trunc_f64_u`, or `None`
/// where the operation traps.
pub uninterp spec fn i64_trunc_f64_u(input: u64) -> Option<u64>;

/// Calls `UntypedValue::i64_trunc_f64_u` and drops the trap code. Trusted: the result
/// is the named one.
#[verifier::external_body]
pub(crate) fn i64_trunc_f64_u_exec(input: u64) -> (r: Option<u64>)
    ensures
        r == i64_trunc_f64_u(input),
{
    UntypedValue::from(input).i64_trunc_f64_u().ok().map(|value| value.to_bits())
}

/// The saturating truncation to an integer that `wasmi_core` computes for `i32.trunc_sat_f32_s`.
pub uninterp spec fn i32_trunc_sat_f32_s(input: u64) -> u64;

/// Calls `UntypedValue::i32_trunc_sat_f32_s`. Trusted: the result is the named one.
#[verifier::external_body]
pub(crate) fn i32_trunc_sat_f32_s_exec(input: u64) -> (r: u64)
    ensures
        r == i32_trunc_sat_f32_s(input),
{
    UntypedValue::from(input).i32_trunc_sat_f32_s().to_bits()
}

/// The saturating truncation to an integer that `wasmi_core` computes for `i32.trunc_sat_f32_u`.
pub uninterp spec fn i32_trunc_sat_f32_u(input: u64) -> u64;

/// Calls `UntypedValue::i32_trunc_sat_f32_u`. Trusted: the result is the named one.
#[verifier::external_body]
pub(crate) fn i32_trunc_sat_f32_u_exec(input: u64) -> (r: u64)
    ensures
        r == i32_trunc_sat_f32_u(input),
{
    UntypedValue::from(input).i32_trunc_sat_f32_u().to_bits()
}

/// The saturating truncation to an integer that `wasmi_core` computes for `i32.trunc_sat_f64_s`.
pub uninterp spec fn i32_trunc_sat_f64_s(input: u64) -> u64;

/// Calls `UntypedValue::i32_trunc_sat_f64_s`. Trusted: the result is the named one.
#[verifier::external_body]
pub(crate) fn i32_trunc_sat_f64_s_exec(input: u64) -> (r: u64)
    ensures
        r == i32_trunc_sat_f64_s(input),
{
    UntypedValue::from(input).i32_trunc_sat_f64_s().to_bits()
}

/// The saturating truncation to an integer that `wasmi_core` computes for `i32.trunc_sat_f64_u`.
pub uninterp spec fn i32_trunc_sat_f64_u(input: u64) -> u64;

/// Calls `UntypedValue::i32_trunc_sat_f64_u`. Trusted: the result is the named one.
#[verifier::external_body]
pub(crate) fn i32_trunc_sat_f64_u_exec(input: u64) -> (r: u64)
    ensures
        r == i32_trunc_sat_f64_u(input),
{
    UntypedValue::from(input).i32_trunc_sat_f64_u().to_bits()
}

/// The saturating truncation to an integer that `wasmi_core` computes for `i64.trunc_sat_f32_s`.
pub uninterp spec fn i64_trunc_sat_f32_s(input: u64) -> u64;

/// Calls `UntypedValue::i64_trunc_sat_f32_s`. Trusted: the result is the named one.
#[verifier::external_body]
pub(crate) fn i64_trunc_sat_f32_s_exec(input: u64) -> (r: u64)
    ensures
        r == i64_trunc_sat_f32_s(input),
{
    UntypedValue::from(input).i64_trunc_sat_f32_s().to_bits()
}

/// The saturating truncation to an integer that `wasmi_core` computes for `i64.trunc_sat_f32_u`.
pub uninterp spec fn i64_trunc_sat_f32_u(input: u64) -> u64;

/// Calls `UntypedValue::i64_trunc_sat_f32_u`. Trusted: the result is the named one.
#[verifier::external_body]
pub(crate) fn i64_trunc_sat_f32_u_exec(input: u64) -> (r: u64)
    ensures
        r == i64_trunc_sat_f32_u(input),
{
    UntypedValue::from(input).i64_trunc_sat_f32_u().to_bits()
}

/// The saturating truncation to an integer that `wasmi_core` computes for `i64.trunc_sat_f64_s`.
pub uninterp spec fn i64_trunc_sat_f64_s(input: u64) -> u64;

/// Calls `UntypedValue::i64_trunc_sat_f64_s`. Trusted: the result is the named one.
#[verifier::external_body]
pub(crate) fn i64_trunc_sat_f64_s_exec(input: u64) -> (r: u64)
    ensures
        r == i64_trunc_sat_f64_s(input),
{
    UntypedValue::from(input).i64_trunc_sat_f64_s().to_bits()
}

/// The saturating truncation to an integer that `wasmi_core` computes for `i64.trunc_sat_f64_u`.
pub uninterp spec fn i64_trunc_sat_f64_u(input: u64) -> u64;

/// Calls `UntypedValue::i64_trunc_sat_f64_u`. Trusted: the result is the named one.
#[verifier::external_body]
pub(crate) fn i64_trunc_sat_f64_u_exec(input: u64) -> (r: u64)
    ensures
        r == i64_trunc_sat_f64_u(input),
{
    UntypedValue::from(input).i64_trunc_sat_f64_u().to_bits()
}

/// The conversion from an integer that `wasmi_core` computes for `f32.convert_i32_s`.
pub uninterp spec fn f32_convert_i32_s(input: u64) -> u64;

/// Calls `UntypedValue::f32_convert_i32_s`. Trusted: the result is the named one.
#[verifier::external_body]
pub(crate) fn f32_convert_i32_s_exec(input: u64) -> (r: u64)
    ensures
        r == f32_convert_i32_s(input),
{
    UntypedValue::from(input).f32_convert_i32_s().to_bits()
}

/// The conversion from an integer that `wasmi_core` computes for `f32.convert_i32_u`.
pub uninterp spec fn f32_convert_i32_u(input: u64) -> u64;

/// Calls `UntypedValue::f32_convert_i32_u`. Trusted: the result is the named one.
#[verifier::external_body]
pub(crate) fn f32_convert_i32_u_exec(input: u64) -> (r: u64)
    ensures
        r == f32_convert_i32_u(input),
{
    UntypedValue::from(input).f32_convert_i32_u().to_bits()
}

/// The conversion from an integer that `wasmi_core` computes for `f32.convert_i64_s`.
pub uninterp spec fn f32_convert_i64_s(input: u64) -> u64;

/// Calls `UntypedValue::f32_convert_i64_s`. Trusted: the result is the named one.
#[verifier::external_body]
pub(crate) fn f32_convert_i64_s_exec(input: u64) -> (r: u64)
    ensures
        r == f32_convert_i64_s(input),
{
    UntypedValue::from(input).f32_convert_i64_s().to_bits()
}

/// The conversion from an integer that `wasmi_core` computes for `f32.convert_i64_u`.
pub uninterp spec fn f32_convert_i64_u(input: u64) -> u64;

/// Calls `UntypedValue::f32_convert_i64_u`. Trusted: the result is the named one.
#[verifier::external_body]
pub(crate) fn f32_convert_i64_u_exec(input: u64) -> (r: u64)
    ensures
        r == f32_convert_i64_u(input),
{
    UntypedValue::from(input).f32_convert_i64_u().to_bits()
}

/// The conversion from an integer that `wasmi_core` computes for `f64.convert_i32_s`.
pub uninterp spec fn f64_convert_i32_s(input: u64) -> u64;

/// Calls `UntypedValue::f64_convert_i32_s`. Trusted: the result is the named one.
#[verifier::external_body]
pub(crate) fn f64_convert_i32_s_exec(input: u64) -> (r: u64)
    ensures
        r == f64_convert_i32_s(input),
{
    UntypedValue::from(input).f64_convert_i32_s().to_bits()
}

/// The conversion from an integer that `wasmi_core` computes for `f64.convert_i32_u`.
pub uninterp spec fn f64_convert_i32_u(input: u64) -> u64;

/// Calls `UntypedValue::f64_convert_i32_u`. Trusted: the result is the named one.
#[verifier::external_body]
pub(crate) fn f64_convert_i32_u_exec(input: u64) -> (r: u64)
    ensures
        r == f64_convert_i32_u(input),
{
    UntypedValue::from(input).f64_convert_i32_u().to_bits()
}

/// The conversion from an integer that `wasmi_core` computes for `f64.convert_i64_s`.
pub uninterp spec fn f64_convert_i64_s(input: u64) -> u64;

/// Calls `UntypedValue::f64_convert_i64_s`. Trusted: the result is the named one.
#[verifier::external_body]
pub(crate) fn f64_convert_i64_s_exec(input: u64) -> (r: u64)
    ensures
        r == f64_convert_i64_s(input),
{
    UntypedValue::from(input).f64_convert_i64_s().to_bits()
}

/// The conversion from an integer that `wasmi_core` computes for `f64.convert_i64_u`.
pub uninterp spec fn f64_convert_i64_u(input: u64) -> u64;

/// Calls `UntypedValue::f64_convert_i64_u`. Trusted: the result is the named one.
#[verifier::external_body]
pub(crate) fn f64_convert_i64_u_exec(input: u64) -> (r: u64)
    ensures
        r == f64_convert_i64_u(input),
{
    UntypedValue::from(input).f64_convert_i64_u().to_bits()
}

/// The conversion to single precision that `wasmi_core` computes for `f32.demote_f64`, where that is a number.
pub uninterp spec fn f32_demote_f64(input: u64) -> u64;

/// Calls `UntypedValue::f32_demote_f64`. Trusted: the result is a not-a-number exactly
/// where the named one is, and equals it where it is a number; it
/// fills the low half of the word.
#[verifier::external_body]
pub(crate) fn f32_demote_f64_exec(input: u64) -> (r: u64)
    ensures
        f32_is_nan(r) == f32_is_nan(f32_demote_f64(input)),
        !f32_is_nan(r) ==> r == f32_demote_f64(input),
        r <= u32::MAX,
{
    UntypedValue::from(input).f32_demote_f64().to_bits()
}

/// The conversion to double precision that `wasmi_core` computes for `f64.promote_f32`, where that is a number.
pub uninterp spec fn f64_promote_f32(input: u64) -> u64;

/// Calls `UntypedValue::f64_promote_f32`. Trusted: the result is a not-a-number exactly
/// where the named one is, and equals it where it is a number.
#[verifier::external_body]
pub(crate) fn f64_promote_f32_exec(input: u64) -> (r: u64)
    ensures
        f64_is_nan(r) == f64_is_nan(f64_promote_f32(input)),
        !f64_is_nan(r) ==> r == f64_promote_f32(input),
{
    UntypedValue::from(input).f64_promote_f32().to_bits()
}

} // verus!
