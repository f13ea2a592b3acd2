//! Floating-point arithmetic with settled results.
//!
//! The hardware leaves the sign and payload of a not-a-number result open, and
//! the minimum or maximum of two zeros of different sign likewise. Code that is
//! folded while translating on one machine must not differ from code that runs
//! on another, so the engine settles both: every arithmetic not-a-number is the
//! canonical one, and of two zeros `min` gives the negative one where there is
//! one, `max` the positive one. Each operation here is thereby a function of the
//! words of its operands.

use crate::numeric;
use crate::numeric::{f32_is_zero, f64_is_zero};
use crate::ops::{f32_is_nan, f32_is_nan_exec, f64_is_nan, f64_is_nan_exec};
use vstd::prelude::*;

verus! {

/// The canonical single-precision not-a-number: positive, with only the quiet bit set.
pub const F32_CANONICAL_NAN: u64 = 0x7FC0_0000;

/// The canonical double-precision not-a-number: positive, with only the quiet bit set.
pub const F64_CANONICAL_NAN: u64 = 0x7FF8_0000_0000_0000;

/// `word` as a single-precision result: the canonical not-a-number in place of any other.
pub open spec fn f32_settled(word: u64) -> u64 {
    if f32_is_nan(word) {
        F32_CANONICAL_NAN
    } else {
        word
    }
}

/// Computes [`f32_settled`].
pub fn f32_settle(word: u64) -> (r: u64)
    ensures
        r == f32_settled(word),
{
    if f32_is_nan_exec(word) {
        F32_CANONICAL_NAN
    } else {
        word
    }
}

/// `word` as a double-precision result: the canonical not-a-number in place of any other.
pub open spec fn f64_settled(word: u64) -> u64 {
    if f64_is_nan(word) {
        F64_CANONICAL_NAN
    } else {
        word
    }
}

/// Computes [`f64_settled`].
pub fn f64_settle(word: u64) -> (r: u64)
    ensures
        r == f64_settled(word),
{
    if f64_is_nan_exec(word) {
        F64_CANONICAL_NAN
    } else {
        word
    }
}

/// Computes [`f32_is_zero`].
pub fn f32_is_zero_exec(word: u64) -> (r: bool)
    ensures
        r == f32_is_zero(word),
{
    let low: u32 = #[verifier::truncate] (word as u32);
    low & 0x7FFF_FFFFu32 == 0
}

/// Computes [`f64_is_zero`].
pub fn f64_is_zero_exec(word: u64) -> (r: bool)
    ensures
        r == f64_is_zero(word),
{
    word & 0x7FFF_FFFF_FFFF_FFFFu64 == 0
}

/// `f32.ceil`: the operand rounded up to an integer; the canonical not-a-number where that is
/// no number.
pub open spec fn f32_ceil(input: u64) -> u64 {
    f32_settled(numeric::f32_ceil(input))
}

/// Computes [`f32_ceil`].
pub fn f32_ceil_exec(input: u64) -> (r: u64)
    ensures
        r == f32_ceil(input),
{
    f32_settle(numeric::f32_ceil_exec(input))
}

/// `f32.floor`: the operand rounded down to an integer; the canonical not-a-number where that is
/// no number.
pub open spec fn f32_floor(input: u64) -> u64 {
    f32_settled(numeric::f32_floor(input))
}

/// Computes [`f32_floor`].
pub fn f32_floor_exec(input: u64) -> (r: u64)
    ensures
        r == f32_floor(input),
{
    f32_settle(numeric::f32_floor_exec(input))
}

/// `f32.trunc`: the operand rounded towards zero; the canonical not-a-number where that is
/// no number.
pub open spec fn f32_trunc(input: u64) -> u64 {
    f32_settled(numeric::f32_trunc(input))
}

/// Computes [`f32_trunc`].
pub fn f32_trunc_exec(input: u64) -> (r: u64)
    ensures
        r == f32_trunc(input),
{
    f32_settle(numeric::f32_trunc_exec(input))
}

/// `f32.nearest`: the operand rounded to the nearest integer, ties to even; the canonical not-a-number where that is
/// no number.
pub open spec fn f32_nearest(input: u64) -> u64 {
    f32_settled(numeric::f32_nearest(input))
}

/// Computes [`f32_nearest`].
pub fn f32_nearest_exec(input: u64) -> (r: u64)
    ensures
        r == f32_nearest(input),
{
    f32_settle(numeric::f32_nearest_exec(input))
}

/// `f32.sqrt`: the operand square root; the canonical not-a-number where that is
/// no number.
pub open spec fn f32_sqrt(input: u64) -> u64 {
    f32_settled(numeric::f32_sqrt(input))
}

/// Computes [`f32_sqrt`].
pub fn f32_sqrt_exec(input: u64) -> (r: u64)
    ensures
        r == f32_sqrt(input),
{
    f32_settle(numeric::f32_sqrt_exec(input))
}

/// `f32.add`: the sum of the operands; the canonical not-a-number where
/// that is no number.
pub open spec fn f32_add(lhs: u64, rhs: u64) -> u64 {
    f32_settled(numeric::f32_add(lhs, rhs))
}

/// Computes [`f32_add`].
pub fn f32_add_exec(lhs: u64, rhs: u64) -> (r: u64)
    ensures
        r == f32_add(lhs, rhs),
{
    f32_settle(numeric::f32_add_exec(lhs, rhs))
}

/// `f32.sub`: the difference of the operands; the canonical not-a-number where
/// that is no number.
pub open spec fn f32_sub(lhs: u64, rhs: u64) -> u64 {
    f32_settled(numeric::f32_sub(lhs, rhs))
}

/// Computes [`f32_sub`].
pub fn f32_sub_exec(lhs: u64, rhs: u64) -> (r: u64)
    ensures
        r == f32_sub(lhs, rhs),
{
    f32_settle(numeric::f32_sub_exec(lhs, rhs))
}

/// `f32.mul`: the product of the operands; the canonical not-a-number where
/// that is no number.
pub open spec fn f32_mul(lhs: u64, rhs: u64) -> u64 {
    f32_settled(numeric::f32_mul(lhs, rhs))
}

/// Computes [`f32_mul`].
pub fn f32_mul_exec(lhs: u64, rhs: u64) -> (r: u64)
    ensures
        r == f32_mul(lhs, rhs),
{
    f32_settle(numeric::f32_mul_exec(lhs, rhs))
}

/// `f32.div`: the quotient of the operands; the canonical not-a-number where
/// that is no number.
pub open spec fn f32_div(lhs: u64, rhs: u64) -> u64 {
    f32_settled(numeric::f32_div(lhs, rhs))
}

/// Computes [`f32_div`].
pub fn f32_div_exec(lhs: u64, rhs: u64) -> (r: u64)
    ensures
        r == f32_div(lhs, rhs),
{
    f32_settle(numeric::f32_div_exec(lhs, rhs))
}

/// `f32.min`: the lesser of the operands, the canonical not-a-number where
/// one of them is no number. Of two zeros it is the negative one where there is one.
pub open spec fn f32_min(lhs: u64, rhs: u64) -> u64 {
    if f32_is_zero(lhs) && f32_is_zero(rhs) {
        (lhs | rhs) & 0xFFFF_FFFFu64
    } else {
        f32_settled(numeric::f32_min(lhs, rhs))
    }
}

/// Computes [`f32_min`].
pub fn f32_min_exec(lhs: u64, rhs: u64) -> (r: u64)
    ensures
        r == f32_min(lhs, rhs),
{
    if f32_is_zero_exec(lhs) && f32_is_zero_exec(rhs) {
        (lhs | rhs) & 0xFFFF_FFFFu64
    } else {
        f32_settle(numeric::f32_min_exec(lhs, rhs))
    }
}

/// `f32.max`: the greater of the operands, the canonical not-a-number where
/// one of them is no number. Of two zeros it is the positive one where there is one.
pub open spec fn f32_max(lhs: u64, rhs: u64) -> u64 {
    if f32_is_zero(lhs) && f32_is_zero(rhs) {
        (lhs & rhs) & 0xFFFF_FFFFu64
    } else {
        f32_settled(numeric::f32_max(lhs, rhs))
    }
}

/// Computes [`f32_max`].
pub fn f32_max_exec(lhs: u64, rhs: u64) -> (r: u64)
    ensures
        r == f32_max(lhs, rhs),
{
    if f32_is_zero_exec(lhs) && f32_is_zero_exec(rhs) {
        (lhs & rhs) & 0xFFFF_FFFFu64
    } else {
        f32_settle(numeric::f32_max_exec(lhs, rhs))
    }
}

/// `f64.ceil`: the operand rounded up to an integer; the canonical not-a-number where that is
/// no number.
pub open spec fn f64_ceil(input: u64) -> u64 {
    f64_settled(numeric::f64_ceil(input))
}

/// Computes [`f64_ceil`].
pub fn f64_ceil_exec(input: u64) -> (r: u64)
    ensures
        r == f64_ceil(input),
{
    f64_settle(numeric::f64_ceil_exec(input))
}

/// `f64.floor`: the operand rounded down to an integer; the canonical not-a-number where that is
/// no number.
pub open spec fn f64_floor(input: u64) -> u64 {
    f64_settled(numeric::f64_floor(input))
}

/// Computes [`f64_floor`].
pub fn f64_floor_exec(input: u64) -> (r: u64)
    ensures
        r == f64_floor(input),
{
    f64_settle(numeric::f64_floor_exec(input))
}

/// `f64.trunc`: the operand rounded towards zero; the canonical not-a-number where that is
/// no number.
pub open spec fn f64_trunc(input: u64) -> u64 {
    f64_settled(numeric::f64_trunc(input))
}

/// Computes [`f64_trunc`].
pub fn f64_trunc_exec(input: u64) -> (r: u64)
    ensures
        r == f64_trunc(input),
{
    f64_settle(numeric::f64_trunc_exec(input))
}

/// `f64.nearest`: the operand rounded to the nearest integer, ties to even; the canonical not-a-number where that is
/// no number.
pub open spec fn f64_nearest(input: u64) -> u64 {
    f64_settled(numeric::f64_nearest(input))
}

/// Computes [`f64_nearest`].
pub fn f64_nearest_exec(input: u64) -> (r: u64)
    ensures
        r == f64_nearest(input),
{
    f64_settle(numeric::f64_nearest_exec(input))
}

/// `f64.sqrt`: the operand square root; the canonical not-a-number where that is
/// no number.
pub open spec fn f64_sqrt(input: u64) -> u64 {
    f64_settled(numeric::f64_sqrt(input))
}

/// Computes [`f64_sqrt`].
pub fn f64_sqrt_exec(input: u64) -> (r: u64)
    ensures
        r == f64_sqrt(input),
{
    f64_settle(numeric::f64_sqrt_exec(input))
}

/// `f64.add`: the sum of the operands; the canonical not-a-number where
/// that is no number.
pub open spec fn f64_add(lhs: u64, rhs: u64) -> u64 {
    f64_settled(numeric::f64_add(lhs, rhs))
}

/// Computes [`f64_add`].
pub fn f64_add_exec(lhs: u64, rhs: u64) -> (r: u64)
    ensures
        r == f64_add(lhs, rhs),
{
    f64_settle(numeric::f64_add_exec(lhs, rhs))
}

/// `f64.sub`: the difference of the operands; the canonical not-a-number where
/// that is no number.
pub open spec fn f64_sub(lhs: u64, rhs: u64) -> u64 {
    f64_settled(numeric::f64_sub(lhs, rhs))
}

/// Computes [`f64_sub`].
pub fn f64_sub_exec(lhs: u64, rhs: u64) -> (r: u64)
    ensures
        r == f64_sub(lhs, rhs),
{
    f64_settle(numeric::f64_sub_exec(lhs, rhs))
}

/// `f64.mul`: the product of the operands; the canonical not-a-number where
/// that is no number.
pub open spec fn f64_mul(lhs: u64, rhs: u64) -> u64 {
    f64_settled(numeric::f64_mul(lhs, rhs))
}

/// Computes [`f64_mul`].
pub fn f64_mul_exec(lhs: u64, rhs: u64) -> (r: u64)
    ensures
        r == f64_mul(lhs, rhs),
{
    f64_settle(numeric::f64_mul_exec(lhs, rhs))
}

/// `f64.div`: the quotient of the operands; the canonical not-a-number where
/// that is no number.
pub open spec fn f64_div(lhs: u64, rhs: u64) -> u64 {
    f64_settled(numeric::f64_div(lhs, rhs))
}

/// Computes [`f64_div`].
pub fn f64_div_exec(lhs: u64, rhs: u64) -> (r: u64)
    ensures
        r == f64_div(lhs, rhs),
{
    f64_settle(numeric::f64_div_exec(lhs, rhs))
}

/// `f64.min`: the lesser of the operands, the canonical not-a-number where
/// one of them is no number. Of two zeros it is the negative one where there is one.
pub open spec fn f64_min(lhs: u64, rhs: u64) -> u64 {
    if f64_is_zero(lhs) && f64_is_zero(rhs) {
        lhs | rhs
    } else {
        f64_settled(numeric::f64_min(lhs, rhs))
    }
}

/// Computes [`f64_min`].
pub fn f64_min_exec(lhs: u64, rhs: u64) -> (r: u64)
    ensures
        r == f64_min(lhs, rhs),
{
    if f64_is_zero_exec(lhs) && f64_is_zero_exec(rhs) {
        lhs | rhs
    } else {
        f64_settle(numeric::f64_min_exec(lhs, rhs))
    }
}

/// `f64.max`: the greater of the operands, the canonical not-a-number where
/// one of them is no number. Of two zeros it is the positive one where there is one.
pub open spec fn f64_max(lhs: u64, rhs: u64) -> u64 {
    if f64_is_zero(lhs) && f64_is_zero(rhs) {
        lhs & rhs
    } else {
        f64_settled(numeric::f64_max(lhs, rhs))
    }
}

/// Computes [`f64_max`].
pub fn f64_max_exec(lhs: u64, rhs: u64) -> (r: u64)
    ensures
        r == f64_max(lhs, rhs),
{
    if f64_is_zero_exec(lhs) && f64_is_zero_exec(rhs) {
        lhs & rhs
    } else {
        f64_settle(numeric::f64_max_exec(lhs, rhs))
    }
}

/// `f32.demote_f64`: the operand in single precision; the canonical not-a-number
/// where the operand is no number.
pub open spec fn f32_demote_f64(input: u64) -> u64 {
    f32_settled(numeric::f32_demote_f64(input))
}

/// Computes [`f32_demote_f64`].
pub fn f32_demote_f64_exec(input: u64) -> (r: u64)
    ensures
        r == f32_demote_f64(input),
{
    f32_settle(numeric::f32_demote_f64_exec(input))
}

/// `f64.promote_f32`: the operand in double precision; the canonical not-a-number
/// where the operand is no number.
pub open spec fn f64_promote_f32(input: u64) -> u64 {
    f64_settled(numeric::f64_promote_f32(input))
}

/// Computes [`f64_promote_f32`].
pub fn f64_promote_f32_exec(input: u64) -> (r: u64)
    ensures
        r == f64_promote_f32(input),
{
    f64_settle(numeric::f64_promote_f32_exec(input))
}

} // verus!
