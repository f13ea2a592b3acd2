//! Integer operations of WebAssembly on the 64-bit words of the register
//! file. A 32-bit value occupies the low half of its word; the results of
//! 32-bit operations have a zero upper half.

use vstd::prelude::*;
use vstd::std_specs::bits::{u32_leading_zeros, u32_trailing_zeros, u64_leading_zeros, u64_trailing_zeros};
use crate::error::TrapCode;

verus! {

/// The word that holds a truth value: 1 for `true`, 0 for `false`.
pub open spec fn bool_word(b: bool) -> u64 {
    if b { 1 } else { 0 }
}

/// `i32.add`: the sum, modulo 2^32.
pub open spec fn i32_add(lhs: u64, rhs: u64) -> u64 {
    (lhs as u32).wrapping_add((rhs as u32)) as u64
}

/// Computes [`i32_add`].
pub fn i32_add_exec(lhs: u64, rhs: u64) -> (r: u64)
    ensures
        r == i32_add(lhs, rhs),
{
    let a: u32 = #[verifier::truncate] (lhs as u32);
    let b: u32 = #[verifier::truncate] (rhs as u32);
    a.wrapping_add(b) as u64
}

/// `i32.sub`: the difference, modulo 2^32.
pub open spec fn i32_sub(lhs: u64, rhs: u64) -> u64 {
    (lhs as u32).wrapping_sub((rhs as u32)) as u64
}

/// Computes [`i32_sub`].
pub fn i32_sub_exec(lhs: u64, rhs: u64) -> (r: u64)
    ensures
        r == i32_sub(lhs, rhs),
{
    let a: u32 = #[verifier::truncate] (lhs as u32);
    let b: u32 = #[verifier::truncate] (rhs as u32);
    a.wrapping_sub(b) as u64
}

/// `i32.mul`: the product, modulo 2^32.
pub open spec fn i32_mul(lhs: u64, rhs: u64) -> u64 {
    (lhs as u32).wrapping_mul((rhs as u32)) as u64
}

/// Computes [`i32_mul`].
pub fn i32_mul_exec(lhs: u64, rhs: u64) -> (r: u64)
    ensures
        r == i32_mul(lhs, rhs),
{
    let a: u32 = #[verifier::truncate] (lhs as u32);
    let b: u32 = #[verifier::truncate] (rhs as u32);
    a.wrapping_mul(b) as u64
}

/// `i32.and`: the bitwise conjunction.
pub open spec fn i32_and(lhs: u64, rhs: u64) -> u64 {
    ((lhs as u32) & (rhs as u32)) as u64
}

/// Computes [`i32_and`].
pub fn i32_and_exec(lhs: u64, rhs: u64) -> (r: u64)
    ensures
        r == i32_and(lhs, rhs),
{
    let a: u32 = #[verifier::truncate] (lhs as u32);
    let b: u32 = #[verifier::truncate] (rhs as u32);
    (a & b) as u64
}

/// `i32.or`: the bitwise disjunction.
pub open spec fn i32_or(lhs: u64, rhs: u64) -> u64 {
    ((lhs as u32) | (rhs as u32)) as u64
}

/// Computes [`i32_or`].
pub fn i32_or_exec(lhs: u64, rhs: u64) -> (r: u64)
    ensures
        r == i32_or(lhs, rhs),
{
    let a: u32 = #[verifier::truncate] (lhs as u32);
    let b: u32 = #[verifier::truncate] (rhs as u32);
    (a | b) as u64
}

/// `i32.xor`: the bitwise exclusive disjunction.
pub open spec fn i32_xor(lhs: u64, rhs: u64) -> u64 {
    ((lhs as u32) ^ (rhs as u32)) as u64
}

/// Computes [`i32_xor`].
pub fn i32_xor_exec(lhs: u64, rhs: u64) -> (r: u64)
    ensures
        r == i32_xor(lhs, rhs),
{
    let a: u32 = #[verifier::truncate] (lhs as u32);
    let b: u32 = #[verifier::truncate] (rhs as u32);
    (a ^ b) as u64
}

/// `i32.shl`: the left shift by `rhs` modulo 32.
pub open spec fn i32_shl(lhs: u64, rhs: u64) -> u64 {
    (lhs as u32).wrapping_shl((rhs as u32)) as u64
}

/// Computes [`i32_shl`].
pub fn i32_shl_exec(lhs: u64, rhs: u64) -> (r: u64)
    ensures
        r == i32_shl(lhs, rhs),
{
    let a: u32 = #[verifier::truncate] (lhs as u32);
    let b: u32 = #[verifier::truncate] (rhs as u32);
    let n: u32 = #[verifier::truncate] (rhs as u32);
    a.wrapping_shl(n) as u64
}

/// `i32.shr_s`: the sign-propagating right shift by `rhs` modulo 32.
pub open spec fn i32_shr_s(lhs: u64, rhs: u64) -> u64 {
    ((lhs as u32) as i32).wrapping_shr((rhs as u32)) as u32 as u64
}

/// Computes [`i32_shr_s`].
pub fn i32_shr_s_exec(lhs: u64, rhs: u64) -> (r: u64)
    ensures
        r == i32_shr_s(lhs, rhs),
{
    let a: i32 = #[verifier::truncate] ((#[verifier::truncate] (lhs as u32)) as i32);
    let b: i32 = #[verifier::truncate] ((#[verifier::truncate] (rhs as u32)) as i32);
    let n: u32 = #[verifier::truncate] (rhs as u32);
    (#[verifier::truncate] (a.wrapping_shr(n) as u32)) as u64
}

/// `i32.shr_u`: the zero-filling right shift by `rhs` modulo 32.
pub open spec fn i32_shr_u(lhs: u64, rhs: u64) -> u64 {
    (lhs as u32).wrapping_shr((rhs as u32)) as u64
}

/// Computes [`i32_shr_u`].
pub fn i32_shr_u_exec(lhs: u64, rhs: u64) -> (r: u64)
    ensures
        r == i32_shr_u(lhs, rhs),
{
    let a: u32 = #[verifier::truncate] (lhs as u32);
    let b: u32 = #[verifier::truncate] (rhs as u32);
    let n: u32 = #[verifier::truncate] (rhs as u32);
    a.wrapping_shr(n) as u64
}

/// `i32.eq`: the truth value of the equality.
pub open spec fn i32_eq(lhs: u64, rhs: u64) -> u64 {
    bool_word((lhs as u32) == (rhs as u32))
}

/// Computes [`i32_eq`].
pub fn i32_eq_exec(lhs: u64, rhs: u64) -> (r: u64)
    ensures
        r == i32_eq(lhs, rhs),
{
    let a: u32 = #[verifier::truncate] (lhs as u32);
    let b: u32 = #[verifier::truncate] (rhs as u32);
    if a == b { 1 } else { 0 }
}

/// `i32.ne`: the truth value of the inequality.
pub open spec fn i32_ne(lhs: u64, rhs: u64) -> u64 {
    bool_word((lhs as u32) != (rhs as u32))
}

/// Computes [`i32_ne`].
pub fn i32_ne_exec(lhs: u64, rhs: u64) -> (r: u64)
    ensures
        r == i32_ne(lhs, rhs),
{
    let a: u32 = #[verifier::truncate] (lhs as u32);
    let b: u32 = #[verifier::truncate] (rhs as u32);
    if a != b { 1 } else { 0 }
}

/// `i32.lt_s`: the truth value of the signed less-than.
pub open spec fn i32_lt_s(lhs: u64, rhs: u64) -> u64 {
    bool_word(((lhs as u32) as i32) < ((rhs as u32) as i32))
}

/// Computes [`i32_lt_s`].
pub fn i32_lt_s_exec(lhs: u64, rhs: u64) -> (r: u64)
    ensures
        r == i32_lt_s(lhs, rhs),
{
    let a: i32 = #[verifier::truncate] ((#[verifier::truncate] (lhs as u32)) as i32);
    let b: i32 = #[verifier::truncate] ((#[verifier::truncate] (rhs as u32)) as i32);
    if a < b { 1 } else { 0 }
}

/// `i32.lt_u`: the truth value of the unsigned less-than.
pub open spec fn i32_lt_u(lhs: u64, rhs: u64) -> u64 {
    bool_word((lhs as u32) < (rhs as u32))
}

/// Computes [`i32_lt_u`].
pub fn i32_lt_u_exec(lhs: u64, rhs: u64) -> (r: u64)
    ensures
        r == i32_lt_u(lhs, rhs),
{
    let a: u32 = #[verifier::truncate] (lhs as u32);
    let b: u32 = #[verifier::truncate] (rhs as u32);
    if a < b { 1 } else { 0 }
}

/// `i32.gt_s`: the truth value of the signed greater-than.
pub open spec fn i32_gt_s(lhs: u64, rhs: u64) -> u64 {
    bool_word(((lhs as u32) as i32) > ((rhs as u32) as i32))
}

/// Computes [`i32_gt_s`].
pub fn i32_gt_s_exec(lhs: u64, rhs: u64) -> (r: u64)
    ensures
        r == i32_gt_s(lhs, rhs),
{
    let a: i32 = #[verifier::truncate] ((#[verifier::truncate] (lhs as u32)) as i32);
    let b: i32 = #[verifier::truncate] ((#[verifier::truncate] (rhs as u32)) as i32);
    if a > b { 1 } else { 0 }
}

/// `i32.gt_u`: the truth value of the unsigned greater-than.
pub open spec fn i32_gt_u(lhs: u64, rhs: u64) -> u64 {
    bool_word((lhs as u32) > (rhs as u32))
}

/// Computes [`i32_gt_u`].
pub fn i32_gt_u_exec(lhs: u64, rhs: u64) -> (r: u64)
    ensures
        r == i32_gt_u(lhs, rhs),
{
    let a: u32 = #[verifier::truncate] (lhs as u32);
    let b: u32 = #[verifier::truncate] (rhs as u32);
    if a > b { 1 } else { 0 }
}

/// `i32.le_s`: the truth value of the signed less-or-equal.
pub open spec fn i32_le_s(lhs: u64, rhs: u64) -> u64 {
    bool_word(((lhs as u32) as i32) <= ((rhs as u32) as i32))
}

/// Computes [`i32_le_s`].
pub fn i32_le_s_exec(lhs: u64, rhs: u64) -> (r: u64)
    ensures
        r == i32_le_s(lhs, rhs),
{
    let a: i32 = #[verifier::truncate] ((#[verifier::truncate] (lhs as u32)) as i32);
    let b: i32 = #[verifier::truncate] ((#[verifier::truncate] (rhs as u32)) as i32);
    if a <= b { 1 } else { 0 }
}

/// `i32.le_u`: the truth value of the unsigned less-or-equal.
pub open spec fn i32_le_u(lhs: u64, rhs: u64) -> u64 {
    bool_word((lhs as u32) <= (rhs as u32))
}

/// Computes [`i32_le_u`].
pub fn i32_le_u_exec(lhs: u64, rhs: u64) -> (r: u64)
    ensures
        r == i32_le_u(lhs, rhs),
{
    let a: u32 = #[verifier::truncate] (lhs as u32);
    let b: u32 = #[verifier::truncate] (rhs as u32);
    if a <= b { 1 } else { 0 }
}

/// `i32.ge_s`: the truth value of the signed greater-or-equal.
pub open spec fn i32_ge_s(lhs: u64, rhs: u64) -> u64 {
    bool_word(((lhs as u32) as i32) >= ((rhs as u32) as i32))
}

/// Computes [`i32_ge_s`].
pub fn i32_ge_s_exec(lhs: u64, rhs: u64) -> (r: u64)
    ensures
        r == i32_ge_s(lhs, rhs),
{
    let a: i32 = #[verifier::truncate] ((#[verifier::truncate] (lhs as u32)) as i32);
    let b: i32 = #[verifier::truncate] ((#[verifier::truncate] (rhs as u32)) as i32);
    if a >= b { 1 } else { 0 }
}

/// `i32.ge_u`: the truth value of the unsigned greater-or-equal.
pub open spec fn i32_ge_u(lhs: u64, rhs: u64) -> u64 {
    bool_word((lhs as u32) >= (rhs as u32))
}

/// Computes [`i32_ge_u`].
pub fn i32_ge_u_exec(lhs: u64, rhs: u64) -> (r: u64)
    ensures
        r == i32_ge_u(lhs, rhs),
{
    let a: u32 = #[verifier::truncate] (lhs as u32);
    let b: u32 = #[verifier::truncate] (rhs as u32);
    if a >= b { 1 } else { 0 }
}

/// `i32.div_s`: the signed quotient, rounded towards zero. Division by zero and the
/// quotient of the least integer by -1 trap.
pub open spec fn i32_div_s(lhs: u64, rhs: u64) -> Result<u64, TrapCode> {
    if ((rhs as u32) as i32) == 0 {
        Err(TrapCode::IntegerDivisionByZero)
    } else {
        match ((lhs as u32) as i32).checked_div(((rhs as u32) as i32)) {
            Some(q) => Ok(q as u32 as u64),
            None => Err(TrapCode::IntegerOverflow),
        }
    }
}

/// Computes [`i32_div_s`].
pub fn i32_div_s_exec(lhs: u64, rhs: u64) -> (r: Result<u64, TrapCode>)
    ensures
        r == i32_div_s(lhs, rhs),
{
    let a: i32 = #[verifier::truncate] ((#[verifier::truncate] (lhs as u32)) as i32);
    let b: i32 = #[verifier::truncate] ((#[verifier::truncate] (rhs as u32)) as i32);
    if b == 0 {
        Err(TrapCode::IntegerDivisionByZero)
    } else {
        match a.checked_div(b) {
            Some(q) => Ok((#[verifier::truncate] (q as u32)) as u64),
            None => Err(TrapCode::IntegerOverflow),
        }
    }
}

/// `i32.div_u`: the unsigned quotient. Division by zero traps.
pub open spec fn i32_div_u(lhs: u64, rhs: u64) -> Result<u64, TrapCode> {
    if (rhs as u32) == 0 {
        Err(TrapCode::IntegerDivisionByZero)
    } else {
        Ok(((lhs as u32) / (rhs as u32)) as u64)
    }
}

/// Computes [`i32_div_u`].
pub fn i32_div_u_exec(lhs: u64, rhs: u64) -> (r: Result<u64, TrapCode>)
    ensures
        r == i32_div_u(lhs, rhs),
{
    let a: u32 = #[verifier::truncate] (lhs as u32);
    let b: u32 = #[verifier::truncate] (rhs as u32);
    if b == 0 {
        Err(TrapCode::IntegerDivisionByZero)
    } else {
        Ok((a / b) as u64)
    }
}

/// `i32.rem_s`: the signed remainder, with the sign of the dividend. Division by
/// zero traps, and so does the remainder of the least integer by -1.
pub open spec fn i32_rem_s(lhs: u64, rhs: u64) -> Result<u64, TrapCode> {
    if ((rhs as u32) as i32) == 0 {
        Err(TrapCode::IntegerDivisionByZero)
    } else {
        match ((lhs as u32) as i32).checked_rem(((rhs as u32) as i32)) {
            Some(m) => Ok(m as u32 as u64),
            None => Err(TrapCode::IntegerOverflow),
        }
    }
}

/// Computes [`i32_rem_s`].
pub fn i32_rem_s_exec(lhs: u64, rhs: u64) -> (r: Result<u64, TrapCode>)
    ensures
        r == i32_rem_s(lhs, rhs),
{
    let a: i32 = #[verifier::truncate] ((#[verifier::truncate] (lhs as u32)) as i32);
    let b: i32 = #[verifier::truncate] ((#[verifier::truncate] (rhs as u32)) as i32);
    if b == 0 {
        Err(TrapCode::IntegerDivisionByZero)
    } else {
        match a.checked_rem(b) {
            Some(m) => Ok((#[verifier::truncate] (m as u32)) as u64),
            None => Err(TrapCode::IntegerOverflow),
        }
    }
}

/// `i32.rem_u`: the unsigned remainder. Division by zero traps.
pub open spec fn i32_rem_u(lhs: u64, rhs: u64) -> Result<u64, TrapCode> {
    if (rhs as u32) == 0 {
        Err(TrapCode::IntegerDivisionByZero)
    } else {
        Ok(((lhs as u32) % (rhs as u32)) as u64)
    }
}

/// Computes [`i32_rem_u`].
pub fn i32_rem_u_exec(lhs: u64, rhs: u64) -> (r: Result<u64, TrapCode>)
    ensures
        r == i32_rem_u(lhs, rhs),
{
    let a: u32 = #[verifier::truncate] (lhs as u32);
    let b: u32 = #[verifier::truncate] (rhs as u32);
    if b == 0 {
        Err(TrapCode::IntegerDivisionByZero)
    } else {
        Ok((a % b) as u64)
    }
}

/// `i64.add`: the sum, modulo 2^64.
pub open spec fn i64_add(lhs: u64, rhs: u64) -> u64 {
    lhs.wrapping_add(rhs)
}

/// Computes [`i64_add`].
pub fn i64_add_exec(lhs: u64, rhs: u64) -> (r: u64)
    ensures
        r == i64_add(lhs, rhs),
{
    let a: u64 = lhs;
    let b: u64 = rhs;
    a.wrapping_add(b)
}

/// `i64.sub`: the difference, modulo 2^64.
pub open spec fn i64_sub(lhs: u64, rhs: u64) -> u64 {
    lhs.wrapping_sub(rhs)
}

/// Computes [`i64_sub`].
pub fn i64_sub_exec(lhs: u64, rhs: u64) -> (r: u64)
    ensures
        r == i64_sub(lhs, rhs),
{
    let a: u64 = lhs;
    let b: u64 = rhs;
    a.wrapping_sub(b)
}

/// `i64.mul`: the product, modulo 2^64.
pub open spec fn i64_mul(lhs: u64, rhs: u64) -> u64 {
    lhs.wrapping_mul(rhs)
}

/// Computes [`i64_mul`].
pub fn i64_mul_exec(lhs: u64, rhs: u64) -> (r: u64)
    ensures
        r == i64_mul(lhs, rhs),
{
    let a: u64 = lhs;
    let b: u64 = rhs;
    a.wrapping_mul(b)
}

/// `i64.and`: the bitwise conjunction.
pub open spec fn i64_and(lhs: u64, rhs: u64) -> u64 {
    (lhs & rhs)
}

/// Computes [`i64_and`].
pub fn i64_and_exec(lhs: u64, rhs: u64) -> (r: u64)
    ensures
        r == i64_and(lhs, rhs),
{
    let a: u64 = lhs;
    let b: u64 = rhs;
    (a & b)
}

/// `i64.or`: the bitwise disjunction.
pub open spec fn i64_or(lhs: u64, rhs: u64) -> u64 {
    (lhs | rhs)
}

/// Computes [`i64_or`].
pub fn i64_or_exec(lhs: u64, rhs: u64) -> (r: u64)
    ensures
        r == i64_or(lhs, rhs),
{
    let a: u64 = lhs;
    let b: u64 = rhs;
    (a | b)
}

/// `i64.xor`: the bitwise exclusive disjunction.
pub open spec fn i64_xor(lhs: u64, rhs: u64) -> u64 {
    (lhs ^ rhs)
}

/// Computes [`i64_xor`].
pub fn i64_xor_exec(lhs: u64, rhs: u64) -> (r: u64)
    ensures
        r == i64_xor(lhs, rhs),
{
    let a: u64 = lhs;
    let b: u64 = rhs;
    (a ^ b)
}

/// `i64.shl`: the left shift by `rhs` modulo 64.
pub open spec fn i64_shl(lhs: u64, rhs: u64) -> u64 {
    lhs.wrapping_shl((rhs as u32))
}

/// Computes [`i64_shl`].
pub fn i64_shl_exec(lhs: u64, rhs: u64) -> (r: u64)
    ensures
        r == i64_shl(lhs, rhs),
{
    let a: u64 = lhs;
    let b: u64 = rhs;
    let n: u32 = #[verifier::truncate] (rhs as u32);
    a.wrapping_shl(n)
}

/// `i64.shr_s`: the sign-propagating right shift by `rhs` modulo 64.
pub open spec fn i64_shr_s(lhs: u64, rhs: u64) -> u64 {
    (lhs as i64).wrapping_shr((rhs as u32)) as u64
}

/// Computes [`i64_shr_s`].
pub fn i64_shr_s_exec(lhs: u64, rhs: u64) -> (r: u64)
    ensures
        r == i64_shr_s(lhs, rhs),
{
    let a: i64 = #[verifier::truncate] (lhs as i64);
    let b: i64 = #[verifier::truncate] (rhs as i64);
    let n: u32 = #[verifier::truncate] (rhs as u32);
    #[verifier::truncate] (a.wrapping_shr(n) as u64)
}

/// `i64.shr_u`: the zero-filling right shift by `rhs` modulo 64.
pub open spec fn i64_shr_u(lhs: u64, rhs: u64) -> u64 {
    lhs.wrapping_shr((rhs as u32))
}

/// Computes [`i64_shr_u`].
pub fn i64_shr_u_exec(lhs: u64, rhs: u64) -> (r: u64)
    ensures
        r == i64_shr_u(lhs, rhs),
{
    let a: u64 = lhs;
    let b: u64 = rhs;
    let n: u32 = #[verifier::truncate] (rhs as u32);
    a.wrapping_shr(n)
}

/// `i64.eq`: the truth value of the equality.
pub open spec fn i64_eq(lhs: u64, rhs: u64) -> u64 {
    bool_word(lhs == rhs)
}

/// Computes [`i64_eq`].
pub fn i64_eq_exec(lhs: u64, rhs: u64) -> (r: u64)
    ensures
        r == i64_eq(lhs, rhs),
{
    let a: u64 = lhs;
    let b: u64 = rhs;
    if a == b { 1 } else { 0 }
}

/// `i64.ne`: the truth value of the inequality.
pub open spec fn i64_ne(lhs: u64, rhs: u64) -> u64 {
    bool_word(lhs != rhs)
}

/// Computes [`i64_ne`].
pub fn i64_ne_exec(lhs: u64, rhs: u64) -> (r: u64)
    ensures
        r == i64_ne(lhs, rhs),
{
    let a: u64 = lhs;
    let b: u64 = rhs;
    if a != b { 1 } else { 0 }
}

/// `i64.lt_s`: the truth value of the signed less-than.
pub open spec fn i64_lt_s(lhs: u64, rhs: u64) -> u64 {
    bool_word((lhs as i64) < (rhs as i64))
}

/// Computes [`i64_lt_s`].
pub fn i64_lt_s_exec(lhs: u64, rhs: u64) -> (r: u64)
    ensures
        r == i64_lt_s(lhs, rhs),
{
    let a: i64 = #[verifier::truncate] (lhs as i64);
    let b: i64 = #[verifier::truncate] (rhs as i64);
    if a < b { 1 } else { 0 }
}

/// `i64.lt_u`: the truth value of the unsigned less-than.
pub open spec fn i64_lt_u(lhs: u64, rhs: u64) -> u64 {
    bool_word(lhs < rhs)
}

/// Computes [`i64_lt_u`].
pub fn i64_lt_u_exec(lhs: u64, rhs: u64) -> (r: u64)
    ensures
        r == i64_lt_u(lhs, rhs),
{
    let a: u64 = lhs;
    let b: u64 = rhs;
    if a < b { 1 } else { 0 }
}

/// `i64.gt_s`: the truth value of the signed greater-than.
pub open spec fn i64_gt_s(lhs: u64, rhs: u64) -> u64 {
    bool_word((lhs as i64) > (rhs as i64))
}

/// Computes [`i64_gt_s`].
pub fn i64_gt_s_exec(lhs: u64, rhs: u64) -> (r: u64)
    ensures
        r == i64_gt_s(lhs, rhs),
{
    let a: i64 = #[verifier::truncate] (lhs as i64);
    let b: i64 = #[verifier::truncate] (rhs as i64);
    if a > b { 1 } else { 0 }
}

/// `i64.gt_u`: the truth value of the unsigned greater-than.
pub open spec fn i64_gt_u(lhs: u64, rhs: u64) -> u64 {
    bool_word(lhs > rhs)
}

/// Computes [`i64_gt_u`].
pub fn i64_gt_u_exec(lhs: u64, rhs: u64) -> (r: u64)
    ensures
        r == i64_gt_u(lhs, rhs),
{
    let a: u64 = lhs;
    let b: u64 = rhs;
    if a > b { 1 } else { 0 }
}

/// `i64.le_s`: the truth value of the signed less-or-equal.
pub open spec fn i64_le_s(lhs: u64, rhs: u64) -> u64 {
    bool_word((lhs as i64) <= (rhs as i64))
}

/// Computes [`i64_le_s`].
pub fn i64_le_s_exec(lhs: u64, rhs: u64) -> (r: u64)
    ensures
        r == i64_le_s(lhs, rhs),
{
    let a: i64 = #[verifier::truncate] (lhs as i64);
    let b: i64 = #[verifier::truncate] (rhs as i64);
    if a <= b { 1 } else { 0 }
}

/// `i64.le_u`: the truth value of the unsigned less-or-equal.
pub open spec fn i64_le_u(lhs: u64, rhs: u64) -> u64 {
    bool_word(lhs <= rhs)
}

/// Computes [`i64_le_u`].
pub fn i64_le_u_exec(lhs: u64, rhs: u64) -> (r: u64)
    ensures
        r == i64_le_u(lhs, rhs),
{
    let a: u64 = lhs;
    let b: u64 = rhs;
    if a <= b { 1 } else { 0 }
}

/// `i64.ge_s`: the truth value of the signed greater-or-equal.
pub open spec fn i64_ge_s(lhs: u64, rhs: u64) -> u64 {
    bool_word((lhs as i64) >= (rhs as i64))
}

/// Computes [`i64_ge_s`].
pub fn i64_ge_s_exec(lhs: u64, rhs: u64) -> (r: u64)
    ensures
        r == i64_ge_s(lhs, rhs),
{
    let a: i64 = #[verifier::truncate] (lhs as i64);
    let b: i64 = #[verifier::truncate] (rhs as i64);
    if a >= b { 1 } else { 0 }
}

/// `i64.ge_u`: the truth value of the unsigned greater-or-equal.
pub open spec fn i64_ge_u(lhs: u64, rhs: u64) -> u64 {
    bool_word(lhs >= rhs)
}

/// Computes [`i64_ge_u`].
pub fn i64_ge_u_exec(lhs: u64, rhs: u64) -> (r: u64)
    ensures
        r == i64_ge_u(lhs, rhs),
{
    let a: u64 = lhs;
    let b: u64 = rhs;
    if a >= b { 1 } else { 0 }
}

/// `i64.div_s`: the signed quotient, rounded towards zero. Division by zero and the
/// quotient of the least integer by -1 trap.
pub open spec fn i64_div_s(lhs: u64, rhs: u64) -> Result<u64, TrapCode> {
    if (rhs as i64) == 0 {
        Err(TrapCode::IntegerDivisionByZero)
    } else {
        match (lhs as i64).checked_div((rhs as i64)) {
            Some(q) => Ok(q as u64),
            None => Err(TrapCode::IntegerOverflow),
        }
    }
}

/// Computes [`i64_div_s`].
pub fn i64_div_s_exec(lhs: u64, rhs: u64) -> (r: Result<u64, TrapCode>)
    ensures
        r == i64_div_s(lhs, rhs),
{
    let a: i64 = #[verifier::truncate] (lhs as i64);
    let b: i64 = #[verifier::truncate] (rhs as i64);
    if b == 0 {
        Err(TrapCode::IntegerDivisionByZero)
    } else {
        match a.checked_div(b) {
            Some(q) => Ok(#[verifier::truncate] (q as u64)),
            None => Err(TrapCode::IntegerOverflow),
        }
    }
}

/// `i64.div_u`: the unsigned quotient. Division by zero traps.
pub open spec fn i64_div_u(lhs: u64, rhs: u64) -> Result<u64, TrapCode> {
    if rhs == 0 {
        Err(TrapCode::IntegerDivisionByZero)
    } else {
        Ok((lhs / rhs) as u64)
    }
}

/// Computes [`i64_div_u`].
pub fn i64_div_u_exec(lhs: u64, rhs: u64) -> (r: Result<u64, TrapCode>)
    ensures
        r == i64_div_u(lhs, rhs),
{
    let a: u64 = lhs;
    let b: u64 = rhs;
    if b == 0 {
        Err(TrapCode::IntegerDivisionByZero)
    } else {
        Ok((a / b))
    }
}

/// `i64.rem_s`: the signed remainder, with the sign of the dividend. Division by
/// zero traps, and so does the remainder of the least integer by -1.
pub open spec fn i64_rem_s(lhs: u64, rhs: u64) -> Result<u64, TrapCode> {
    if (rhs as i64) == 0 {
        Err(TrapCode::IntegerDivisionByZero)
    } else {
        match (lhs as i64).checked_rem((rhs as i64)) {
            Some(m) => Ok(m as u64),
            None => Err(TrapCode::IntegerOverflow),
        }
    }
}

/// Computes [`i64_rem_s`].
pub fn i64_rem_s_exec(lhs: u64, rhs: u64) -> (r: Result<u64, TrapCode>)
    ensures
        r == i64_rem_s(lhs, rhs),
{
    let a: i64 = #[verifier::truncate] (lhs as i64);
    let b: i64 = #[verifier::truncate] (rhs as i64);
    if b == 0 {
        Err(TrapCode::IntegerDivisionByZero)
    } else {
        match a.checked_rem(b) {
            Some(m) => Ok(#[verifier::truncate] (m as u64)),
            None => Err(TrapCode::IntegerOverflow),
        }
    }
}

/// `i64.rem_u`: the unsigned remainder. Division by zero traps.
pub open spec fn i64_rem_u(lhs: u64, rhs: u64) -> Result<u64, TrapCode> {
    if rhs == 0 {
        Err(TrapCode::IntegerDivisionByZero)
    } else {
        Ok((lhs % rhs) as u64)
    }
}

/// Computes [`i64_rem_u`].
pub fn i64_rem_u_exec(lhs: u64, rhs: u64) -> (r: Result<u64, TrapCode>)
    ensures
        r == i64_rem_u(lhs, rhs),
{
    let a: u64 = lhs;
    let b: u64 = rhs;
    if b == 0 {
        Err(TrapCode::IntegerDivisionByZero)
    } else {
        Ok((a % b))
    }
}

/// `i32.clz`: the number of leading zero bits.
pub open spec fn i32_clz(input: u64) -> u64 {
    u32_leading_zeros(input as u32) as u64
}

/// Computes [`i32_clz`].
pub fn i32_clz_exec(input: u64) -> (r: u64)
    ensures
        r == i32_clz(input),
{
    let a: u32 = #[verifier::truncate] (input as u32);
    a.leading_zeros() as u64
}

/// `i32.ctz`: the number of trailing zero bits.
pub open spec fn i32_ctz(input: u64) -> u64 {
    u32_trailing_zeros(input as u32) as u64
}

/// Computes [`i32_ctz`].
pub fn i32_ctz_exec(input: u64) -> (r: u64)
    ensures
        r == i32_ctz(input),
{
    let a: u32 = #[verifier::truncate] (input as u32);
    a.trailing_zeros() as u64
}

/// `i64.clz`: the number of leading zero bits.
pub open spec fn i64_clz(input: u64) -> u64 {
    u64_leading_zeros(input) as u64
}

/// Computes [`i64_clz`].
pub fn i64_clz_exec(input: u64) -> (r: u64)
    ensures
        r == i64_clz(input),
{
    input.leading_zeros() as u64
}

/// `i64.ctz`: the number of trailing zero bits.
pub open spec fn i64_ctz(input: u64) -> u64 {
    u64_trailing_zeros(input) as u64
}

/// Computes [`i64_ctz`].
pub fn i64_ctz_exec(input: u64) -> (r: u64)
    ensures
        r == i64_ctz(input),
{
    input.trailing_zeros() as u64
}

/// `i32.wrap_i64`: the low 32 bits.
pub open spec fn i32_wrap_i64(input: u64) -> u64 {
    (input as u32) as u64
}

/// Computes [`i32_wrap_i64`].
pub fn i32_wrap_i64_exec(input: u64) -> (r: u64)
    ensures
        r == i32_wrap_i64(input),
{
    let a: u32 = #[verifier::truncate] (input as u32);
    a as u64
}

/// `i64.extend_i32_u`: the low 32 bits, zero-extended.
pub open spec fn i64_extend_i32_u(input: u64) -> u64 {
    (input as u32) as u64
}

/// Computes [`i64_extend_i32_u`].
pub fn i64_extend_i32_u_exec(input: u64) -> (r: u64)
    ensures
        r == i64_extend_i32_u(input),
{
    let a: u32 = #[verifier::truncate] (input as u32);
    a as u64
}

/// `i64.extend_i32_s`: the low 32 bits, sign-extended.
pub open spec fn i64_extend_i32_s(input: u64) -> u64 {
    (((input as u32) as i32) as i64) as u64
}

/// Computes [`i64_extend_i32_s`].
pub fn i64_extend_i32_s_exec(input: u64) -> (r: u64)
    ensures
        r == i64_extend_i32_s(input),
{
    let a: i32 = #[verifier::truncate] ((#[verifier::truncate] (input as u32)) as i32);
    let w: i64 = a as i64;
    #[verifier::truncate] (w as u64)
}

/// `i32.extend8_s`: the low 8 bits, sign-extended.
pub open spec fn i32_extend8_s(input: u64) -> u64 {
    ((((input as u8) as i8) as i32) as u32) as u64
}

/// Computes [`i32_extend8_s`].
pub fn i32_extend8_s_exec(input: u64) -> (r: u64)
    ensures
        r == i32_extend8_s(input),
{
    let a: i8 = #[verifier::truncate] ((#[verifier::truncate] (input as u8)) as i8);
    let w: i32 = a as i32;
    (#[verifier::truncate] (w as u32)) as u64
}

/// `i32.extend16_s`: the low 16 bits, sign-extended.
pub open spec fn i32_extend16_s(input: u64) -> u64 {
    ((((input as u16) as i16) as i32) as u32) as u64
}

/// Computes [`i32_extend16_s`].
pub fn i32_extend16_s_exec(input: u64) -> (r: u64)
    ensures
        r == i32_extend16_s(input),
{
    let a: i16 = #[verifier::truncate] ((#[verifier::truncate] (input as u16)) as i16);
    let w: i32 = a as i32;
    (#[verifier::truncate] (w as u32)) as u64
}

/// `i64.extend8_s`: the low 8 bits, sign-extended.
pub open spec fn i64_extend8_s(input: u64) -> u64 {
    (((input as u8) as i8) as i64) as u64
}

/// Computes [`i64_extend8_s`].
pub fn i64_extend8_s_exec(input: u64) -> (r: u64)
    ensures
        r == i64_extend8_s(input),
{
    let a: i8 = #[verifier::truncate] ((#[verifier::truncate] (input as u8)) as i8);
    let w: i64 = a as i64;
    #[verifier::truncate] (w as u64)
}

/// `i64.extend16_s`: the low 16 bits, sign-extended.
pub open spec fn i64_extend16_s(input: u64) -> u64 {
    (((input as u16) as i16) as i64) as u64
}

/// Computes [`i64_extend16_s`].
pub fn i64_extend16_s_exec(input: u64) -> (r: u64)
    ensures
        r == i64_extend16_s(input),
{
    let a: i16 = #[verifier::truncate] ((#[verifier::truncate] (input as u16)) as i16);
    let w: i64 = a as i64;
    #[verifier::truncate] (w as u64)
}

/// `i64.extend32_s`: the low 32 bits, sign-extended.
pub open spec fn i64_extend32_s(input: u64) -> u64 {
    (((input as u32) as i32) as i64) as u64
}

/// Computes [`i64_extend32_s`].
pub fn i64_extend32_s_exec(input: u64) -> (r: u64)
    ensures
        r == i64_extend32_s(input),
{
    let a: i32 = #[verifier::truncate] ((#[verifier::truncate] (input as u32)) as i32);
    let w: i64 = a as i64;
    #[verifier::truncate] (w as u64)
}

/// `f32.neg`: the operand with its sign bit flipped.
pub open spec fn f32_neg(input: u64) -> u64 {
    ((input as u32) ^ 0x8000_0000u32) as u64
}

/// Computes [`f32_neg`].
pub fn f32_neg_exec(input: u64) -> (r: u64)
    ensures
        r == f32_neg(input),
{
    let a: u32 = #[verifier::truncate] (input as u32);
    (a ^ 0x8000_0000u32) as u64
}

/// `f64.neg`: the operand with its sign bit flipped.
pub open spec fn f64_neg(input: u64) -> u64 {
    input ^ 0x8000_0000_0000_0000u64
}

/// Computes [`f64_neg`].
pub fn f64_neg_exec(input: u64) -> (r: u64)
    ensures
        r == f64_neg(input),
{
    input ^ 0x8000_0000_0000_0000u64
}

} // verus!
