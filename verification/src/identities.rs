//! The identities that the translator applies to integer operators hold
//! of what the operators compute.

use vstd::prelude::*;
use crate::ops::BinaryOp;
use crate::register::Register;
use crate::simplify::Simplified;
use crate::value::{TypedProvider, ValueType};

verus! {

/// Whether `op` is an integer operator that this library computes itself.
pub open spec fn is_integer_operator(op: BinaryOp) -> bool {
    &&& op.operand_type() is I32 || op.operand_type() is I64
    &&& !(op is I32Rotl || op is I32Rotr || op is I64Rotl || op is I64Rotr)
}

/// Whether the words `a` and `b` are the same value of the type `ty`: the
/// same word, or for a 32-bit integer the same low half.
pub open spec fn same_value(ty: ValueType, a: u64, b: u64) -> bool {
    if ty is I32 {
        a as u32 == b as u32
    } else {
        a == b
    }
}

/// Whether what `op` computes for the operands `lhs` and `rhs` is what
/// `simplified` says, where the operand that `simplified` may name is the
/// one with the word `operand`.
pub open spec fn agrees(op: BinaryOp, lhs: u64, rhs: u64, simplified: Simplified, operand: u64) -> bool {
    match simplified {
        Simplified::Provider(TypedProvider::Register(_)) => op.apply(lhs, rhs) is Ok && same_value(
            op.result_type(),
            op.apply(lhs, rhs)->Ok_0,
            operand,
        ),
        Simplified::Provider(TypedProvider::Const(c)) => op.apply(lhs, rhs) == Ok::<u64, crate::error::TrapCode>(
            c.bits,
        ) && c.ty == op.result_type(),
        Simplified::Trap(code) => op.apply(lhs, rhs) == Err::<u64, crate::error::TrapCode>(code),
    }
}

proof fn lemma_reinterpretation(a: u32, b: u64)
    ensures
        (a as i32) as u32 == a,
        (b as i64) as u64 == b,
        0xFFFF_FFFFu32 as i32 == -1i32,
        0x8000_0000u32 as i32 == i32::MIN,
        0x7FFF_FFFFu32 as i32 == i32::MAX,
        0u32 as i32 == 0i32,
        1u32 as i32 == 1i32,
        0xFFFF_FFFF_FFFF_FFFFu64 as i64 == -1i64,
        0x8000_0000_0000_0000u64 as i64 == i64::MIN,
        0x7FFF_FFFF_FFFF_FFFFu64 as i64 == i64::MAX,
        0u64 as i64 == 0i64,
        1u64 as i64 == 1i64,
{
    assert(((a as i32) as u32 == a)
        && ((b as i64) as u64 == b)
        && (0xFFFF_FFFFu32 as i32 == -1i32)
        && (0x8000_0000u32 as i32 == i32::MIN)
        && (0x7FFF_FFFFu32 as i32 == i32::MAX)
        && (0u32 as i32 == 0i32)
        && (1u32 as i32 == 1i32)
        && (0xFFFF_FFFF_FFFF_FFFFu64 as i64 == -1i64)
        && (0x8000_0000_0000_0000u64 as i64 == i64::MIN)
        && (0x7FFF_FFFF_FFFF_FFFFu64 as i64 == i64::MAX)
        && (0u64 as i64 == 0i64)
        && (1u64 as i64 == 1i64)) by (bit_vector);
}

proof fn lemma_bits32(a: u32)
    ensures
        a & a == a,
        a | a == a,
        a ^ a == 0,
        a & 0xFFFF_FFFFu32 == a,
        a & 0u32 == 0,
        a | 0xFFFF_FFFFu32 == 0xFFFF_FFFFu32,
        a | 0u32 == a,
        a ^ 0u32 == a,
        a << 0u32 == a,
        a >> 0u32 == a,
        0u32 << a == 0,
        0u32 >> a == 0,
        0xFFFF_FFFFu32 & a == a,
        0u32 & a == 0,
        0xFFFF_FFFFu32 | a == 0xFFFF_FFFFu32,
        0u32 | a == a,
        0u32 ^ a == a,
{
    assert((a & a == a)
        && (a | a == a)
        && (a ^ a == 0)
        && (a & 0xFFFF_FFFFu32 == a)
        && (a & 0u32 == 0)
        && (a | 0xFFFF_FFFFu32 == 0xFFFF_FFFFu32)
        && (a | 0u32 == a)
        && (a ^ 0u32 == a)
        && (a << 0u32 == a)
        && (a >> 0u32 == a)
        && (0u32 << a == 0)
        && (0u32 >> a == 0)
        && (0xFFFF_FFFFu32 & a == a)
        && (0u32 & a == 0)
        && (0xFFFF_FFFFu32 | a == 0xFFFF_FFFFu32)
        && (0u32 | a == a)
        && (0u32 ^ a == a)) by (bit_vector);
}

proof fn lemma_bits64(a: u64, n: u32)
    ensures
        a & a == a,
        a | a == a,
        a ^ a == 0,
        a & 0xFFFF_FFFF_FFFF_FFFFu64 == a,
        a & 0u64 == 0,
        a | 0xFFFF_FFFF_FFFF_FFFFu64 == 0xFFFF_FFFF_FFFF_FFFFu64,
        a | 0u64 == a,
        a ^ 0u64 == a,
        a << 0u32 == a,
        a >> 0u32 == a,
        0u64 << n == 0,
        0u64 >> n == 0,
        0xFFFF_FFFF_FFFF_FFFFu64 & a == a,
        0u64 & a == 0,
        0xFFFF_FFFF_FFFF_FFFFu64 | a == 0xFFFF_FFFF_FFFF_FFFFu64,
        0u64 | a == a,
        0u64 ^ a == a,
{
    assert((a & a == a)
        && (a | a == a)
        && (a ^ a == 0)
        && (a & 0xFFFF_FFFF_FFFF_FFFFu64 == a)
        && (a & 0u64 == 0)
        && (a | 0xFFFF_FFFF_FFFF_FFFFu64 == 0xFFFF_FFFF_FFFF_FFFFu64)
        && (a | 0u64 == a)
        && (a ^ 0u64 == a)
        && (a << 0u32 == a)
        && (a >> 0u32 == a)
        && (0u64 << n == 0)
        && (0u64 >> n == 0)
        && (0xFFFF_FFFF_FFFF_FFFFu64 & a == a)
        && (0u64 & a == 0)
        && (0xFFFF_FFFF_FFFF_FFFFu64 | a == 0xFFFF_FFFF_FFFF_FFFFu64)
        && (0u64 | a == a)
        && (0u64 ^ a == a)) by (bit_vector);
}

proof fn lemma_signed_shifts(a: i32, b: i64, n: u32)
    ensures
        a >> 0u32 == a,
        b >> 0u32 == b,
        0i32 >> n == 0,
        0i64 >> n == 0,
        n < 32 ==> -1i32 >> n == -1,
        n < 64 ==> -1i64 >> n == -1,
{
    assert((a >> 0u32 == a)
        && (b >> 0u32 == b)
        && (0i32 >> n == 0)
        && (0i64 >> n == 0)
        && (n < 32 ==> -1i32 >> n == -1)
        && (n < 64 ==> -1i64 >> n == -1)) by (bit_vector);
}

proof fn lemma_truncated_amount(bits: u64)
    ensures
        bits % 64 == 0 ==> (bits as u32) % 64 == 0,
{
    assert(bits % 64 == 0 ==> (bits as u32) % 64 == 0) by (bit_vector);
}

/// An integer operator applied to one register twice computes what the
/// translator puts in its place.
pub proof fn lemma_same_register_sound(op: BinaryOp, register: Register, operand: u64)
    requires
        is_integer_operator(op),
        op.same_register(register) is Some,
    ensures
        agrees(op, operand, operand, op.same_register(register)->Some_0, operand),
{
    lemma_bits32(operand as u32);
    lemma_bits64(operand, 0);
}

proof fn lemma_rhs_i32_lt_s(register: Register, operand: u64, bits: u64)
    requires
        BinaryOp::I32LtS.with_rhs_const(register, bits) is Some,
    ensures
        agrees(BinaryOp::I32LtS, operand, bits, BinaryOp::I32LtS.with_rhs_const(register, bits)->Some_0, operand),
{
    lemma_reinterpretation(operand as u32, operand);
    lemma_reinterpretation(bits as u32, bits);
}

proof fn lemma_rhs_i32_lt_u(register: Register, operand: u64, bits: u64)
    requires
        BinaryOp::I32LtU.with_rhs_const(register, bits) is Some,
    ensures
        agrees(BinaryOp::I32LtU, operand, bits, BinaryOp::I32LtU.with_rhs_const(register, bits)->Some_0, operand),
{
    lemma_reinterpretation(operand as u32, operand);
    lemma_reinterpretation(bits as u32, bits);
}

proof fn lemma_rhs_i32_gt_s(register: Register, operand: u64, bits: u64)
    requires
        BinaryOp::I32GtS.with_rhs_const(register, bits) is Some,
    ensures
        agrees(BinaryOp::I32GtS, operand, bits, BinaryOp::I32GtS.with_rhs_const(register, bits)->Some_0, operand),
{
    lemma_reinterpretation(operand as u32, operand);
    lemma_reinterpretation(bits as u32, bits);
}

proof fn lemma_rhs_i32_gt_u(register: Register, operand: u64, bits: u64)
    requires
        BinaryOp::I32GtU.with_rhs_const(register, bits) is Some,
    ensures
        agrees(BinaryOp::I32GtU, operand, bits, BinaryOp::I32GtU.with_rhs_const(register, bits)->Some_0, operand),
{
    lemma_reinterpretation(operand as u32, operand);
    lemma_reinterpretation(bits as u32, bits);
}

proof fn lemma_rhs_i32_le_s(register: Register, operand: u64, bits: u64)
    requires
        BinaryOp::I32LeS.with_rhs_const(register, bits) is Some,
    ensures
        agrees(BinaryOp::I32LeS, operand, bits, BinaryOp::I32LeS.with_rhs_const(register, bits)->Some_0, operand),
{
    lemma_reinterpretation(operand as u32, operand);
    lemma_reinterpretation(bits as u32, bits);
}

proof fn lemma_rhs_i32_le_u(register: Register, operand: u64, bits: u64)
    requires
        BinaryOp::I32LeU.with_rhs_const(register, bits) is Some,
    ensures
        agrees(BinaryOp::I32LeU, operand, bits, BinaryOp::I32LeU.with_rhs_const(register, bits)->Some_0, operand),
{
    lemma_reinterpretation(operand as u32, operand);
    lemma_reinterpretation(bits as u32, bits);
}

proof fn lemma_rhs_i32_ge_s(register: Register, operand: u64, bits: u64)
    requires
        BinaryOp::I32GeS.with_rhs_const(register, bits) is Some,
    ensures
        agrees(BinaryOp::I32GeS, operand, bits, BinaryOp::I32GeS.with_rhs_const(register, bits)->Some_0, operand),
{
    lemma_reinterpretation(operand as u32, operand);
    lemma_reinterpretation(bits as u32, bits);
}

proof fn lemma_rhs_i32_ge_u(register: Register, operand: u64, bits: u64)
    requires
        BinaryOp::I32GeU.with_rhs_const(register, bits) is Some,
    ensures
        agrees(BinaryOp::I32GeU, operand, bits, BinaryOp::I32GeU.with_rhs_const(register, bits)->Some_0, operand),
{
    lemma_reinterpretation(operand as u32, operand);
    lemma_reinterpretation(bits as u32, bits);
}

proof fn lemma_rhs_i32_add(register: Register, operand: u64, bits: u64)
    requires
        BinaryOp::I32Add.with_rhs_const(register, bits) is Some,
    ensures
        agrees(BinaryOp::I32Add, operand, bits, BinaryOp::I32Add.with_rhs_const(register, bits)->Some_0, operand),
{
    lemma_reinterpretation(operand as u32, operand);
    lemma_reinterpretation(bits as u32, bits);
}

proof fn lemma_rhs_i32_sub(register: Register, operand: u64, bits: u64)
    requires
        BinaryOp::I32Sub.with_rhs_const(register, bits) is Some,
    ensures
        agrees(BinaryOp::I32Sub, operand, bits, BinaryOp::I32Sub.with_rhs_const(register, bits)->Some_0, operand),
{
    lemma_reinterpretation(operand as u32, operand);
    lemma_reinterpretation(bits as u32, bits);
}

proof fn lemma_rhs_i32_mul(register: Register, operand: u64, bits: u64)
    requires
        BinaryOp::I32Mul.with_rhs_const(register, bits) is Some,
    ensures
        agrees(BinaryOp::I32Mul, operand, bits, BinaryOp::I32Mul.with_rhs_const(register, bits)->Some_0, operand),
{
    lemma_reinterpretation(operand as u32, operand);
    lemma_reinterpretation(bits as u32, bits);
}

proof fn lemma_rhs_i32_div_s(register: Register, operand: u64, bits: u64)
    requires
        BinaryOp::I32DivS.with_rhs_const(register, bits) is Some,
    ensures
        agrees(BinaryOp::I32DivS, operand, bits, BinaryOp::I32DivS.with_rhs_const(register, bits)->Some_0, operand),
{
    lemma_reinterpretation(operand as u32, operand);
    lemma_reinterpretation(bits as u32, bits);
}

proof fn lemma_rhs_i32_div_u(register: Register, operand: u64, bits: u64)
    requires
        BinaryOp::I32DivU.with_rhs_const(register, bits) is Some,
    ensures
        agrees(BinaryOp::I32DivU, operand, bits, BinaryOp::I32DivU.with_rhs_const(register, bits)->Some_0, operand),
{
    lemma_reinterpretation(operand as u32, operand);
    lemma_reinterpretation(bits as u32, bits);
}

proof fn lemma_rhs_i32_rem_s(register: Register, operand: u64, bits: u64)
    requires
        BinaryOp::I32RemS.with_rhs_const(register, bits) is Some,
    ensures
        agrees(BinaryOp::I32RemS, operand, bits, BinaryOp::I32RemS.with_rhs_const(register, bits)->Some_0, operand),
{
    lemma_reinterpretation(operand as u32, operand);
    lemma_reinterpretation(bits as u32, bits);
}

proof fn lemma_rhs_i32_rem_u(register: Register, operand: u64, bits: u64)
    requires
        BinaryOp::I32RemU.with_rhs_const(register, bits) is Some,
    ensures
        agrees(BinaryOp::I32RemU, operand, bits, BinaryOp::I32RemU.with_rhs_const(register, bits)->Some_0, operand),
{
    lemma_reinterpretation(operand as u32, operand);
    lemma_reinterpretation(bits as u32, bits);
}

proof fn lemma_rhs_i32_and(register: Register, operand: u64, bits: u64)
    requires
        BinaryOp::I32And.with_rhs_const(register, bits) is Some,
    ensures
        agrees(BinaryOp::I32And, operand, bits, BinaryOp::I32And.with_rhs_const(register, bits)->Some_0, operand),
{
    lemma_reinterpretation(operand as u32, operand);
    lemma_reinterpretation(bits as u32, bits);
    lemma_bits32(operand as u32);
    lemma_bits64(operand, 0);
}

proof fn lemma_rhs_i32_or(register: Register, operand: u64, bits: u64)
    requires
        BinaryOp::I32Or.with_rhs_const(register, bits) is Some,
    ensures
        agrees(BinaryOp::I32Or, operand, bits, BinaryOp::I32Or.with_rhs_const(register, bits)->Some_0, operand),
{
    lemma_reinterpretation(operand as u32, operand);
    lemma_reinterpretation(bits as u32, bits);
    lemma_bits32(operand as u32);
    lemma_bits64(operand, 0);
}

proof fn lemma_rhs_i32_xor(register: Register, operand: u64, bits: u64)
    requires
        BinaryOp::I32Xor.with_rhs_const(register, bits) is Some,
    ensures
        agrees(BinaryOp::I32Xor, operand, bits, BinaryOp::I32Xor.with_rhs_const(register, bits)->Some_0, operand),
{
    lemma_reinterpretation(operand as u32, operand);
    lemma_reinterpretation(bits as u32, bits);
    lemma_bits32(operand as u32);
    lemma_bits64(operand, 0);
}

proof fn lemma_rhs_i32_shl(register: Register, operand: u64, bits: u64)
    requires
        BinaryOp::I32Shl.with_rhs_const(register, bits) is Some,
    ensures
        agrees(BinaryOp::I32Shl, operand, bits, BinaryOp::I32Shl.with_rhs_const(register, bits)->Some_0, operand),
{
    lemma_reinterpretation(operand as u32, operand);
    lemma_reinterpretation(bits as u32, bits);
    lemma_truncated_amount(bits);
    lemma_bits32(operand as u32);
    lemma_bits64(operand, (operand as u32) % 64);
    lemma_bits32((operand as u32) % 32);
    lemma_signed_shifts((operand as u32) as i32, operand as i64, (operand as u32) % 32);
    lemma_signed_shifts((operand as u32) as i32, operand as i64, (operand as u32) % 64);
}

proof fn lemma_rhs_i32_shr_s(register: Register, operand: u64, bits: u64)
    requires
        BinaryOp::I32ShrS.with_rhs_const(register, bits) is Some,
    ensures
        agrees(BinaryOp::I32ShrS, operand, bits, BinaryOp::I32ShrS.with_rhs_const(register, bits)->Some_0, operand),
{
    lemma_reinterpretation(operand as u32, operand);
    lemma_reinterpretation(bits as u32, bits);
    lemma_truncated_amount(bits);
    lemma_bits32(operand as u32);
    lemma_bits64(operand, (operand as u32) % 64);
    lemma_bits32((operand as u32) % 32);
    lemma_signed_shifts((operand as u32) as i32, operand as i64, (operand as u32) % 32);
    lemma_signed_shifts((operand as u32) as i32, operand as i64, (operand as u32) % 64);
}

proof fn lemma_rhs_i32_shr_u(register: Register, operand: u64, bits: u64)
    requires
        BinaryOp::I32ShrU.with_rhs_const(register, bits) is Some,
    ensures
        agrees(BinaryOp::I32ShrU, operand, bits, BinaryOp::I32ShrU.with_rhs_const(register, bits)->Some_0, operand),
{
    lemma_reinterpretation(operand as u32, operand);
    lemma_reinterpretation(bits as u32, bits);
    lemma_truncated_amount(bits);
    lemma_bits32(operand as u32);
    lemma_bits64(operand, (operand as u32) % 64);
    lemma_bits32((operand as u32) % 32);
    lemma_signed_shifts((operand as u32) as i32, operand as i64, (operand as u32) % 32);
    lemma_signed_shifts((operand as u32) as i32, operand as i64, (operand as u32) % 64);
}

proof fn lemma_rhs_i64_lt_s(register: Register, operand: u64, bits: u64)
    requires
        BinaryOp::I64LtS.with_rhs_const(register, bits) is Some,
    ensures
        agrees(BinaryOp::I64LtS, operand, bits, BinaryOp::I64LtS.with_rhs_const(register, bits)->Some_0, operand),
{
    lemma_reinterpretation(operand as u32, operand);
    lemma_reinterpretation(bits as u32, bits);
}

proof fn lemma_rhs_i64_lt_u(register: Register, operand: u64, bits: u64)
    requires
        BinaryOp::I64LtU.with_rhs_const(register, bits) is Some,
    ensures
        agrees(BinaryOp::I64LtU, operand, bits, BinaryOp::I64LtU.with_rhs_const(register, bits)->Some_0, operand),
{
    lemma_reinterpretation(operand as u32, operand);
    lemma_reinterpretation(bits as u32, bits);
}

proof fn lemma_rhs_i64_gt_s(register: Register, operand: u64, bits: u64)
    requires
        BinaryOp::I64GtS.with_rhs_const(register, bits) is Some,
    ensures
        agrees(BinaryOp::I64GtS, operand, bits, BinaryOp::I64GtS.with_rhs_const(register, bits)->Some_0, operand),
{
    lemma_reinterpretation(operand as u32, operand);
    lemma_reinterpretation(bits as u32, bits);
}

proof fn lemma_rhs_i64_gt_u(register: Register, operand: u64, bits: u64)
    requires
        BinaryOp::I64GtU.with_rhs_const(register, bits) is Some,
    ensures
        agrees(BinaryOp::I64GtU, operand, bits, BinaryOp::I64GtU.with_rhs_const(register, bits)->Some_0, operand),
{
    lemma_reinterpretation(operand as u32, operand);
    lemma_reinterpretation(bits as u32, bits);
}

proof fn lemma_rhs_i64_le_s(register: Register, operand: u64, bits: u64)
    requires
        BinaryOp::I64LeS.with_rhs_const(register, bits) is Some,
    ensures
        agrees(BinaryOp::I64LeS, operand, bits, BinaryOp::I64LeS.with_rhs_const(register, bits)->Some_0, operand),
{
    lemma_reinterpretation(operand as u32, operand);
    lemma_reinterpretation(bits as u32, bits);
}

proof fn lemma_rhs_i64_le_u(register: Register, operand: u64, bits: u64)
    requires
        BinaryOp::I64LeU.with_rhs_const(register, bits) is Some,
    ensures
        agrees(BinaryOp::I64LeU, operand, bits, BinaryOp::I64LeU.with_rhs_const(register, bits)->Some_0, operand),
{
    lemma_reinterpretation(operand as u32, operand);
    lemma_reinterpretation(bits as u32, bits);
}

proof fn lemma_rhs_i64_ge_s(register: Register, operand: u64, bits: u64)
    requires
        BinaryOp::I64GeS.with_rhs_const(register, bits) is Some,
    ensures
        agrees(BinaryOp::I64GeS, operand, bits, BinaryOp::I64GeS.with_rhs_const(register, bits)->Some_0, operand),
{
    lemma_reinterpretation(operand as u32, operand);
    lemma_reinterpretation(bits as u32, bits);
}

proof fn lemma_rhs_i64_ge_u(register: Register, operand: u64, bits: u64)
    requires
        BinaryOp::I64GeU.with_rhs_const(register, bits) is Some,
    ensures
        agrees(BinaryOp::I64GeU, operand, bits, BinaryOp::I64GeU.with_rhs_const(register, bits)->Some_0, operand),
{
    lemma_reinterpretation(operand as u32, operand);
    lemma_reinterpretation(bits as u32, bits);
}

proof fn lemma_rhs_i64_add(register: Register, operand: u64, bits: u64)
    requires
        BinaryOp::I64Add.with_rhs_const(register, bits) is Some,
    ensures
        agrees(BinaryOp::I64Add, operand, bits, BinaryOp::I64Add.with_rhs_const(register, bits)->Some_0, operand),
{
    lemma_reinterpretation(operand as u32, operand);
    lemma_reinterpretation(bits as u32, bits);
}

proof fn lemma_rhs_i64_sub(register: Register, operand: u64, bits: u64)
    requires
        BinaryOp::I64Sub.with_rhs_const(register, bits) is Some,
    ensures
        agrees(BinaryOp::I64Sub, operand, bits, BinaryOp::I64Sub.with_rhs_const(register, bits)->Some_0, operand),
{
    lemma_reinterpretation(operand as u32, operand);
    lemma_reinterpretation(bits as u32, bits);
}

proof fn lemma_rhs_i64_mul(register: Register, operand: u64, bits: u64)
    requires
        BinaryOp::I64Mul.with_rhs_const(register, bits) is Some,
    ensures
        agrees(BinaryOp::I64Mul, operand, bits, BinaryOp::I64Mul.with_rhs_const(register, bits)->Some_0, operand),
{
    lemma_reinterpretation(operand as u32, operand);
    lemma_reinterpretation(bits as u32, bits);
}

proof fn lemma_rhs_i64_div_s(register: Register, operand: u64, bits: u64)
    requires
        BinaryOp::I64DivS.with_rhs_const(register, bits) is Some,
    ensures
        agrees(BinaryOp::I64DivS, operand, bits, BinaryOp::I64DivS.with_rhs_const(register, bits)->Some_0, operand),
{
    lemma_reinterpretation(operand as u32, operand);
    lemma_reinterpretation(bits as u32, bits);
}

proof fn lemma_rhs_i64_div_u(register: Register, operand: u64, bits: u64)
    requires
        BinaryOp::I64DivU.with_rhs_const(register, bits) is Some,
    ensures
        agrees(BinaryOp::I64DivU, operand, bits, BinaryOp::I64DivU.with_rhs_const(register, bits)->Some_0, operand),
{
    lemma_reinterpretation(operand as u32, operand);
    lemma_reinterpretation(bits as u32, bits);
}

proof fn lemma_rhs_i64_rem_s(register: Register, operand: u64, bits: u64)
    requires
        BinaryOp::I64RemS.with_rhs_const(register, bits) is Some,
    ensures
        agrees(BinaryOp::I64RemS, operand, bits, BinaryOp::I64RemS.with_rhs_const(register, bits)->Some_0, operand),
{
    lemma_reinterpretation(operand as u32, operand);
    lemma_reinterpretation(bits as u32, bits);
}

proof fn lemma_rhs_i64_rem_u(register: Register, operand: u64, bits: u64)
    requires
        BinaryOp::I64RemU.with_rhs_const(register, bits) is Some,
    ensures
        agrees(BinaryOp::I64RemU, operand, bits, BinaryOp::I64RemU.with_rhs_const(register, bits)->Some_0, operand),
{
    lemma_reinterpretation(operand as u32, operand);
    lemma_reinterpretation(bits as u32, bits);
}

proof fn lemma_rhs_i64_and(register: Register, operand: u64, bits: u64)
    requires
        BinaryOp::I64And.with_rhs_const(register, bits) is Some,
    ensures
        agrees(BinaryOp::I64And, operand, bits, BinaryOp::I64And.with_rhs_const(register, bits)->Some_0, operand),
{
    lemma_reinterpretation(operand as u32, operand);
    lemma_reinterpretation(bits as u32, bits);
    lemma_bits32(operand as u32);
    lemma_bits64(operand, 0);
}

proof fn lemma_rhs_i64_or(register: Register, operand: u64, bits: u64)
    requires
        BinaryOp::I64Or.with_rhs_const(register, bits) is Some,
    ensures
        agrees(BinaryOp::I64Or, operand, bits, BinaryOp::I64Or.with_rhs_const(register, bits)->Some_0, operand),
{
    lemma_reinterpretation(operand as u32, operand);
    lemma_reinterpretation(bits as u32, bits);
    lemma_bits32(operand as u32);
    lemma_bits64(operand, 0);
}

proof fn lemma_rhs_i64_xor(register: Register, operand: u64, bits: u64)
    requires
        BinaryOp::I64Xor.with_rhs_const(register, bits) is Some,
    ensures
        agrees(BinaryOp::I64Xor, operand, bits, BinaryOp::I64Xor.with_rhs_const(register, bits)->Some_0, operand),
{
    lemma_reinterpretation(operand as u32, operand);
    lemma_reinterpretation(bits as u32, bits);
    lemma_bits32(operand as u32);
    lemma_bits64(operand, 0);
}

proof fn lemma_rhs_i64_shl(register: Register, operand: u64, bits: u64)
    requires
        BinaryOp::I64Shl.with_rhs_const(register, bits) is Some,
    ensures
        agrees(BinaryOp::I64Shl, operand, bits, BinaryOp::I64Shl.with_rhs_const(register, bits)->Some_0, operand),
{
    lemma_reinterpretation(operand as u32, operand);
    lemma_reinterpretation(bits as u32, bits);
    lemma_truncated_amount(bits);
    lemma_bits32(operand as u32);
    lemma_bits64(operand, (operand as u32) % 64);
    lemma_bits32((operand as u32) % 32);
    lemma_signed_shifts((operand as u32) as i32, operand as i64, (operand as u32) % 32);
    lemma_signed_shifts((operand as u32) as i32, operand as i64, (operand as u32) % 64);
}

proof fn lemma_rhs_i64_shr_s(register: Register, operand: u64, bits: u64)
    requires
        BinaryOp::I64ShrS.with_rhs_const(register, bits) is Some,
    ensures
        agrees(BinaryOp::I64ShrS, operand, bits, BinaryOp::I64ShrS.with_rhs_const(register, bits)->Some_0, operand),
{
    lemma_reinterpretation(operand as u32, operand);
    lemma_reinterpretation(bits as u32, bits);
    lemma_truncated_amount(bits);
    lemma_bits32(operand as u32);
    lemma_bits64(operand, (operand as u32) % 64);
    lemma_bits32((operand as u32) % 32);
    lemma_signed_shifts((operand as u32) as i32, operand as i64, (operand as u32) % 32);
    lemma_signed_shifts((operand as u32) as i32, operand as i64, (operand as u32) % 64);
}

proof fn lemma_rhs_i64_shr_u(register: Register, operand: u64, bits: u64)
    requires
        BinaryOp::I64ShrU.with_rhs_const(register, bits) is Some,
    ensures
        agrees(BinaryOp::I64ShrU, operand, bits, BinaryOp::I64ShrU.with_rhs_const(register, bits)->Some_0, operand),
{
    lemma_reinterpretation(operand as u32, operand);
    lemma_reinterpretation(bits as u32, bits);
    lemma_truncated_amount(bits);
    lemma_bits32(operand as u32);
    lemma_bits64(operand, (operand as u32) % 64);
    lemma_bits32((operand as u32) % 32);
    lemma_signed_shifts((operand as u32) as i32, operand as i64, (operand as u32) % 32);
    lemma_signed_shifts((operand as u32) as i32, operand as i64, (operand as u32) % 64);
}

proof fn lemma_lhs_i32_lt_s(register: Register, operand: u64, bits: u64)
    requires
        BinaryOp::I32LtS.with_lhs_const(register, bits) is Some,
    ensures
        agrees(BinaryOp::I32LtS, bits, operand, BinaryOp::I32LtS.with_lhs_const(register, bits)->Some_0, operand),
{
    lemma_reinterpretation(operand as u32, operand);
    lemma_reinterpretation(bits as u32, bits);
}

proof fn lemma_lhs_i32_lt_u(register: Register, operand: u64, bits: u64)
    requires
        BinaryOp::I32LtU.with_lhs_const(register, bits) is Some,
    ensures
        agrees(BinaryOp::I32LtU, bits, operand, BinaryOp::I32LtU.with_lhs_const(register, bits)->Some_0, operand),
{
    lemma_reinterpretation(operand as u32, operand);
    lemma_reinterpretation(bits as u32, bits);
}

proof fn lemma_lhs_i32_gt_s(register: Register, operand: u64, bits: u64)
    requires
        BinaryOp::I32GtS.with_lhs_const(register, bits) is Some,
    ensures
        agrees(BinaryOp::I32GtS, bits, operand, BinaryOp::I32GtS.with_lhs_const(register, bits)->Some_0, operand),
{
    lemma_reinterpretation(operand as u32, operand);
    lemma_reinterpretation(bits as u32, bits);
}

proof fn lemma_lhs_i32_gt_u(register: Register, operand: u64, bits: u64)
    requires
        BinaryOp::I32GtU.with_lhs_const(register, bits) is Some,
    ensures
        agrees(BinaryOp::I32GtU, bits, operand, BinaryOp::I32GtU.with_lhs_const(register, bits)->Some_0, operand),
{
    lemma_reinterpretation(operand as u32, operand);
    lemma_reinterpretation(bits as u32, bits);
}

proof fn lemma_lhs_i32_le_s(register: Register, operand: u64, bits: u64)
    requires
        BinaryOp::I32LeS.with_lhs_const(register, bits) is Some,
    ensures
        agrees(BinaryOp::I32LeS, bits, operand, BinaryOp::I32LeS.with_lhs_const(register, bits)->Some_0, operand),
{
    lemma_reinterpretation(operand as u32, operand);
    lemma_reinterpretation(bits as u32, bits);
}

proof fn lemma_lhs_i32_le_u(register: Register, operand: u64, bits: u64)
    requires
        BinaryOp::I32LeU.with_lhs_const(register, bits) is Some,
    ensures
        agrees(BinaryOp::I32LeU, bits, operand, BinaryOp::I32LeU.with_lhs_const(register, bits)->Some_0, operand),
{
    lemma_reinterpretation(operand as u32, operand);
    lemma_reinterpretation(bits as u32, bits);
}

proof fn lemma_lhs_i32_ge_s(register: Register, operand: u64, bits: u64)
    requires
        BinaryOp::I32GeS.with_lhs_const(register, bits) is Some,
    ensures
        agrees(BinaryOp::I32GeS, bits, operand, BinaryOp::I32GeS.with_lhs_const(register, bits)->Some_0, operand),
{
    lemma_reinterpretation(operand as u32, operand);
    lemma_reinterpretation(bits as u32, bits);
}

proof fn lemma_lhs_i32_ge_u(register: Register, operand: u64, bits: u64)
    requires
        BinaryOp::I32GeU.with_lhs_const(register, bits) is Some,
    ensures
        agrees(BinaryOp::I32GeU, bits, operand, BinaryOp::I32GeU.with_lhs_const(register, bits)->Some_0, operand),
{
    lemma_reinterpretation(operand as u32, operand);
    lemma_reinterpretation(bits as u32, bits);
}

proof fn lemma_lhs_i32_add(register: Register, operand: u64, bits: u64)
    requires
        BinaryOp::I32Add.with_lhs_const(register, bits) is Some,
    ensures
        agrees(BinaryOp::I32Add, bits, operand, BinaryOp::I32Add.with_lhs_const(register, bits)->Some_0, operand),
{
    lemma_reinterpretation(operand as u32, operand);
    lemma_reinterpretation(bits as u32, bits);
}

proof fn lemma_lhs_i32_mul(register: Register, operand: u64, bits: u64)
    requires
        BinaryOp::I32Mul.with_lhs_const(register, bits) is Some,
    ensures
        agrees(BinaryOp::I32Mul, bits, operand, BinaryOp::I32Mul.with_lhs_const(register, bits)->Some_0, operand),
{
    lemma_reinterpretation(operand as u32, operand);
    lemma_reinterpretation(bits as u32, bits);
}

proof fn lemma_lhs_i32_and(register: Register, operand: u64, bits: u64)
    requires
        BinaryOp::I32And.with_lhs_const(register, bits) is Some,
    ensures
        agrees(BinaryOp::I32And, bits, operand, BinaryOp::I32And.with_lhs_const(register, bits)->Some_0, operand),
{
    lemma_reinterpretation(operand as u32, operand);
    lemma_reinterpretation(bits as u32, bits);
    lemma_bits32(operand as u32);
    lemma_bits64(operand, 0);
}

proof fn lemma_lhs_i32_or(register: Register, operand: u64, bits: u64)
    requires
        BinaryOp::I32Or.with_lhs_const(register, bits) is Some,
    ensures
        agrees(BinaryOp::I32Or, bits, operand, BinaryOp::I32Or.with_lhs_const(register, bits)->Some_0, operand),
{
    lemma_reinterpretation(operand as u32, operand);
    lemma_reinterpretation(bits as u32, bits);
    lemma_bits32(operand as u32);
    lemma_bits64(operand, 0);
}

proof fn lemma_lhs_i32_xor(register: Register, operand: u64, bits: u64)
    requires
        BinaryOp::I32Xor.with_lhs_const(register, bits) is Some,
    ensures
        agrees(BinaryOp::I32Xor, bits, operand, BinaryOp::I32Xor.with_lhs_const(register, bits)->Some_0, operand),
{
    lemma_reinterpretation(operand as u32, operand);
    lemma_reinterpretation(bits as u32, bits);
    lemma_bits32(operand as u32);
    lemma_bits64(operand, 0);
}

proof fn lemma_lhs_i32_shl(register: Register, operand: u64, bits: u64)
    requires
        BinaryOp::I32Shl.with_lhs_const(register, bits) is Some,
    ensures
        agrees(BinaryOp::I32Shl, bits, operand, BinaryOp::I32Shl.with_lhs_const(register, bits)->Some_0, operand),
{
    lemma_reinterpretation(operand as u32, operand);
    lemma_reinterpretation(bits as u32, bits);
    lemma_truncated_amount(bits);
    lemma_bits32(operand as u32);
    lemma_bits64(operand, (operand as u32) % 64);
    lemma_bits32((operand as u32) % 32);
    lemma_signed_shifts((operand as u32) as i32, operand as i64, (operand as u32) % 32);
    lemma_signed_shifts((operand as u32) as i32, operand as i64, (operand as u32) % 64);
}

proof fn lemma_lhs_i32_shr_s(register: Register, operand: u64, bits: u64)
    requires
        BinaryOp::I32ShrS.with_lhs_const(register, bits) is Some,
    ensures
        agrees(BinaryOp::I32ShrS, bits, operand, BinaryOp::I32ShrS.with_lhs_const(register, bits)->Some_0, operand),
{
    lemma_reinterpretation(operand as u32, operand);
    lemma_reinterpretation(bits as u32, bits);
    lemma_truncated_amount(bits);
    lemma_bits32(operand as u32);
    lemma_bits64(operand, (operand as u32) % 64);
    lemma_bits32((operand as u32) % 32);
    lemma_signed_shifts((operand as u32) as i32, operand as i64, (operand as u32) % 32);
    lemma_signed_shifts((operand as u32) as i32, operand as i64, (operand as u32) % 64);
}

proof fn lemma_lhs_i32_shr_u(register: Register, operand: u64, bits: u64)
    requires
        BinaryOp::I32ShrU.with_lhs_const(register, bits) is Some,
    ensures
        agrees(BinaryOp::I32ShrU, bits, operand, BinaryOp::I32ShrU.with_lhs_const(register, bits)->Some_0, operand),
{
    lemma_reinterpretation(operand as u32, operand);
    lemma_reinterpretation(bits as u32, bits);
    lemma_truncated_amount(bits);
    lemma_bits32(operand as u32);
    lemma_bits64(operand, (operand as u32) % 64);
    lemma_bits32((operand as u32) % 32);
    lemma_signed_shifts((operand as u32) as i32, operand as i64, (operand as u32) % 32);
    lemma_signed_shifts((operand as u32) as i32, operand as i64, (operand as u32) % 64);
}

proof fn lemma_lhs_i64_lt_s(register: Register, operand: u64, bits: u64)
    requires
        BinaryOp::I64LtS.with_lhs_const(register, bits) is Some,
    ensures
        agrees(BinaryOp::I64LtS, bits, operand, BinaryOp::I64LtS.with_lhs_const(register, bits)->Some_0, operand),
{
    lemma_reinterpretation(operand as u32, operand);
    lemma_reinterpretation(bits as u32, bits);
}

proof fn lemma_lhs_i64_lt_u(register: Register, operand: u64, bits: u64)
    requires
        BinaryOp::I64LtU.with_lhs_const(register, bits) is Some,
    ensures
        agrees(BinaryOp::I64LtU, bits, operand, BinaryOp::I64LtU.with_lhs_const(register, bits)->Some_0, operand),
{
    lemma_reinterpretation(operand as u32, operand);
    lemma_reinterpretation(bits as u32, bits);
}

proof fn lemma_lhs_i64_gt_s(register: Register, operand: u64, bits: u64)
    requires
        BinaryOp::I64GtS.with_lhs_const(register, bits) is Some,
    ensures
        agrees(BinaryOp::I64GtS, bits, operand, BinaryOp::I64GtS.with_lhs_const(register, bits)->Some_0, operand),
{
    lemma_reinterpretation(operand as u32, operand);
    lemma_reinterpretation(bits as u32, bits);
}

proof fn lemma_lhs_i64_gt_u(register: Register, operand: u64, bits: u64)
    requires
        BinaryOp::I64GtU.with_lhs_const(register, bits) is Some,
    ensures
        agrees(BinaryOp::I64GtU, bits, operand, BinaryOp::I64GtU.with_lhs_const(register, bits)->Some_0, operand),
{
    lemma_reinterpretation(operand as u32, operand);
    lemma_reinterpretation(bits as u32, bits);
}

proof fn lemma_lhs_i64_le_s(register: Register, operand: u64, bits: u64)
    requires
        BinaryOp::I64LeS.with_lhs_const(register, bits) is Some,
    ensures
        agrees(BinaryOp::I64LeS, bits, operand, BinaryOp::I64LeS.with_lhs_const(register, bits)->Some_0, operand),
{
    lemma_reinterpretation(operand as u32, operand);
    lemma_reinterpretation(bits as u32, bits);
}

proof fn lemma_lhs_i64_le_u(register: Register, operand: u64, bits: u64)
    requires
        BinaryOp::I64LeU.with_lhs_const(register, bits) is Some,
    ensures
        agrees(BinaryOp::I64LeU, bits, operand, BinaryOp::I64LeU.with_lhs_const(register, bits)->Some_0, operand),
{
    lemma_reinterpretation(operand as u32, operand);
    lemma_reinterpretation(bits as u32, bits);
}

proof fn lemma_lhs_i64_ge_s(register: Register, operand: u64, bits: u64)
    requires
        BinaryOp::I64GeS.with_lhs_const(register, bits) is Some,
    ensures
        agrees(BinaryOp::I64GeS, bits, operand, BinaryOp::I64GeS.with_lhs_const(register, bits)->Some_0, operand),
{
    lemma_reinterpretation(operand as u32, operand);
    lemma_reinterpretation(bits as u32, bits);
}

proof fn lemma_lhs_i64_ge_u(register: Register, operand: u64, bits: u64)
    requires
        BinaryOp::I64GeU.with_lhs_const(register, bits) is Some,
    ensures
        agrees(BinaryOp::I64GeU, bits, operand, BinaryOp::I64GeU.with_lhs_const(register, bits)->Some_0, operand),
{
    lemma_reinterpretation(operand as u32, operand);
    lemma_reinterpretation(bits as u32, bits);
}

proof fn lemma_lhs_i64_add(register: Register, operand: u64, bits: u64)
    requires
        BinaryOp::I64Add.with_lhs_const(register, bits) is Some,
    ensures
        agrees(BinaryOp::I64Add, bits, operand, BinaryOp::I64Add.with_lhs_const(register, bits)->Some_0, operand),
{
    lemma_reinterpretation(operand as u32, operand);
    lemma_reinterpretation(bits as u32, bits);
}

proof fn lemma_lhs_i64_mul(register: Register, operand: u64, bits: u64)
    requires
        BinaryOp::I64Mul.with_lhs_const(register, bits) is Some,
    ensures
        agrees(BinaryOp::I64Mul, bits, operand, BinaryOp::I64Mul.with_lhs_const(register, bits)->Some_0, operand),
{
    lemma_reinterpretation(operand as u32, operand);
    lemma_reinterpretation(bits as u32, bits);
}

proof fn lemma_lhs_i64_and(register: Register, operand: u64, bits: u64)
    requires
        BinaryOp::I64And.with_lhs_const(register, bits) is Some,
    ensures
        agrees(BinaryOp::I64And, bits, operand, BinaryOp::I64And.with_lhs_const(register, bits)->Some_0, operand),
{
    lemma_reinterpretation(operand as u32, operand);
    lemma_reinterpretation(bits as u32, bits);
    lemma_bits32(operand as u32);
    lemma_bits64(operand, 0);
}

proof fn lemma_lhs_i64_or(register: Register, operand: u64, bits: u64)
    requires
        BinaryOp::I64Or.with_lhs_const(register, bits) is Some,
    ensures
        agrees(BinaryOp::I64Or, bits, operand, BinaryOp::I64Or.with_lhs_const(register, bits)->Some_0, operand),
{
    lemma_reinterpretation(operand as u32, operand);
    lemma_reinterpretation(bits as u32, bits);
    lemma_bits32(operand as u32);
    lemma_bits64(operand, 0);
}

proof fn lemma_lhs_i64_xor(register: Register, operand: u64, bits: u64)
    requires
        BinaryOp::I64Xor.with_lhs_const(register, bits) is Some,
    ensures
        agrees(BinaryOp::I64Xor, bits, operand, BinaryOp::I64Xor.with_lhs_const(register, bits)->Some_0, operand),
{
    lemma_reinterpretation(operand as u32, operand);
    lemma_reinterpretation(bits as u32, bits);
    lemma_bits32(operand as u32);
    lemma_bits64(operand, 0);
}

proof fn lemma_lhs_i64_shl(register: Register, operand: u64, bits: u64)
    requires
        BinaryOp::I64Shl.with_lhs_const(register, bits) is Some,
    ensures
        agrees(BinaryOp::I64Shl, bits, operand, BinaryOp::I64Shl.with_lhs_const(register, bits)->Some_0, operand),
{
    lemma_reinterpretation(operand as u32, operand);
    lemma_reinterpretation(bits as u32, bits);
    lemma_truncated_amount(bits);
    lemma_bits32(operand as u32);
    lemma_bits64(operand, (operand as u32) % 64);
    lemma_bits32((operand as u32) % 32);
    lemma_signed_shifts((operand as u32) as i32, operand as i64, (operand as u32) % 32);
    lemma_signed_shifts((operand as u32) as i32, operand as i64, (operand as u32) % 64);
}

proof fn lemma_lhs_i64_shr_s(register: Register, operand: u64, bits: u64)
    requires
        BinaryOp::I64ShrS.with_lhs_const(register, bits) is Some,
    ensures
        agrees(BinaryOp::I64ShrS, bits, operand, BinaryOp::I64ShrS.with_lhs_const(register, bits)->Some_0, operand),
{
    lemma_reinterpretation(operand as u32, operand);
    lemma_reinterpretation(bits as u32, bits);
    lemma_truncated_amount(bits);
    lemma_bits32(operand as u32);
    lemma_bits64(operand, (operand as u32) % 64);
    lemma_bits32((operand as u32) % 32);
    lemma_signed_shifts((operand as u32) as i32, operand as i64, (operand as u32) % 32);
    lemma_signed_shifts((operand as u32) as i32, operand as i64, (operand as u32) % 64);
}

proof fn lemma_lhs_i64_shr_u(register: Register, operand: u64, bits: u64)
    requires
        BinaryOp::I64ShrU.with_lhs_const(register, bits) is Some,
    ensures
        agrees(BinaryOp::I64ShrU, bits, operand, BinaryOp::I64ShrU.with_lhs_const(register, bits)->Some_0, operand),
{
    lemma_reinterpretation(operand as u32, operand);
    lemma_reinterpretation(bits as u32, bits);
    lemma_truncated_amount(bits);
    lemma_bits32(operand as u32);
    lemma_bits64(operand, (operand as u32) % 64);
    lemma_bits32((operand as u32) % 32);
    lemma_signed_shifts((operand as u32) as i32, operand as i64, (operand as u32) % 32);
    lemma_signed_shifts((operand as u32) as i32, operand as i64, (operand as u32) % 64);
}

/// An integer operator applied to a register and a constant computes what
/// the translator puts in its place, whatever the register holds.
pub proof fn lemma_rhs_const_sound(op: BinaryOp, register: Register, operand: u64, bits: u64)
    requires
        is_integer_operator(op),
        op.with_rhs_const(register, bits) is Some,
    ensures
        agrees(op, operand, bits, op.with_rhs_const(register, bits)->Some_0, operand),
{
    match op {
        BinaryOp::I32LtS => lemma_rhs_i32_lt_s(register, operand, bits),
        BinaryOp::I32LtU => lemma_rhs_i32_lt_u(register, operand, bits),
        BinaryOp::I32GtS => lemma_rhs_i32_gt_s(register, operand, bits),
        BinaryOp::I32GtU => lemma_rhs_i32_gt_u(register, operand, bits),
        BinaryOp::I32LeS => lemma_rhs_i32_le_s(register, operand, bits),
        BinaryOp::I32LeU => lemma_rhs_i32_le_u(register, operand, bits),
        BinaryOp::I32GeS => lemma_rhs_i32_ge_s(register, operand, bits),
        BinaryOp::I32GeU => lemma_rhs_i32_ge_u(register, operand, bits),
        BinaryOp::I32Add => lemma_rhs_i32_add(register, operand, bits),
        BinaryOp::I32Sub => lemma_rhs_i32_sub(register, operand, bits),
        BinaryOp::I32Mul => lemma_rhs_i32_mul(register, operand, bits),
        BinaryOp::I32DivS => lemma_rhs_i32_div_s(register, operand, bits),
        BinaryOp::I32DivU => lemma_rhs_i32_div_u(register, operand, bits),
        BinaryOp::I32RemS => lemma_rhs_i32_rem_s(register, operand, bits),
        BinaryOp::I32RemU => lemma_rhs_i32_rem_u(register, operand, bits),
        BinaryOp::I32And => lemma_rhs_i32_and(register, operand, bits),
        BinaryOp::I32Or => lemma_rhs_i32_or(register, operand, bits),
        BinaryOp::I32Xor => lemma_rhs_i32_xor(register, operand, bits),
        BinaryOp::I32Shl => lemma_rhs_i32_shl(register, operand, bits),
        BinaryOp::I32ShrS => lemma_rhs_i32_shr_s(register, operand, bits),
        BinaryOp::I32ShrU => lemma_rhs_i32_shr_u(register, operand, bits),
        BinaryOp::I64LtS => lemma_rhs_i64_lt_s(register, operand, bits),
        BinaryOp::I64LtU => lemma_rhs_i64_lt_u(register, operand, bits),
        BinaryOp::I64GtS => lemma_rhs_i64_gt_s(register, operand, bits),
        BinaryOp::I64GtU => lemma_rhs_i64_gt_u(register, operand, bits),
        BinaryOp::I64LeS => lemma_rhs_i64_le_s(register, operand, bits),
        BinaryOp::I64LeU => lemma_rhs_i64_le_u(register, operand, bits),
        BinaryOp::I64GeS => lemma_rhs_i64_ge_s(register, operand, bits),
        BinaryOp::I64GeU => lemma_rhs_i64_ge_u(register, operand, bits),
        BinaryOp::I64Add => lemma_rhs_i64_add(register, operand, bits),
        BinaryOp::I64Sub => lemma_rhs_i64_sub(register, operand, bits),
        BinaryOp::I64Mul => lemma_rhs_i64_mul(register, operand, bits),
        BinaryOp::I64DivS => lemma_rhs_i64_div_s(register, operand, bits),
        BinaryOp::I64DivU => lemma_rhs_i64_div_u(register, operand, bits),
        BinaryOp::I64RemS => lemma_rhs_i64_rem_s(register, operand, bits),
        BinaryOp::I64RemU => lemma_rhs_i64_rem_u(register, operand, bits),
        BinaryOp::I64And => lemma_rhs_i64_and(register, operand, bits),
        BinaryOp::I64Or => lemma_rhs_i64_or(register, operand, bits),
        BinaryOp::I64Xor => lemma_rhs_i64_xor(register, operand, bits),
        BinaryOp::I64Shl => lemma_rhs_i64_shl(register, operand, bits),
        BinaryOp::I64ShrS => lemma_rhs_i64_shr_s(register, operand, bits),
        BinaryOp::I64ShrU => lemma_rhs_i64_shr_u(register, operand, bits),
        _ => {},
    }
}

/// An integer operator applied to a constant and a register computes what
/// the translator puts in its place, whatever the register holds.
pub proof fn lemma_lhs_const_sound(op: BinaryOp, register: Register, operand: u64, bits: u64)
    requires
        is_integer_operator(op),
        op.with_lhs_const(register, bits) is Some,
    ensures
        agrees(op, bits, operand, op.with_lhs_const(register, bits)->Some_0, operand),
{
    match op {
        BinaryOp::I32LtS => lemma_lhs_i32_lt_s(register, operand, bits),
        BinaryOp::I32LtU => lemma_lhs_i32_lt_u(register, operand, bits),
        BinaryOp::I32GtS => lemma_lhs_i32_gt_s(register, operand, bits),
        BinaryOp::I32GtU => lemma_lhs_i32_gt_u(register, operand, bits),
        BinaryOp::I32LeS => lemma_lhs_i32_le_s(register, operand, bits),
        BinaryOp::I32LeU => lemma_lhs_i32_le_u(register, operand, bits),
        BinaryOp::I32GeS => lemma_lhs_i32_ge_s(register, operand, bits),
        BinaryOp::I32GeU => lemma_lhs_i32_ge_u(register, operand, bits),
        BinaryOp::I32Add => lemma_lhs_i32_add(register, operand, bits),
        BinaryOp::I32Mul => lemma_lhs_i32_mul(register, operand, bits),
        BinaryOp::I32And => lemma_lhs_i32_and(register, operand, bits),
        BinaryOp::I32Or => lemma_lhs_i32_or(register, operand, bits),
        BinaryOp::I32Xor => lemma_lhs_i32_xor(register, operand, bits),
        BinaryOp::I32Shl => lemma_lhs_i32_shl(register, operand, bits),
        BinaryOp::I32ShrS => lemma_lhs_i32_shr_s(register, operand, bits),
        BinaryOp::I32ShrU => lemma_lhs_i32_shr_u(register, operand, bits),
        BinaryOp::I64LtS => lemma_lhs_i64_lt_s(register, operand, bits),
        BinaryOp::I64LtU => lemma_lhs_i64_lt_u(register, operand, bits),
        BinaryOp::I64GtS => lemma_lhs_i64_gt_s(register, operand, bits),
        BinaryOp::I64GtU => lemma_lhs_i64_gt_u(register, operand, bits),
        BinaryOp::I64LeS => lemma_lhs_i64_le_s(register, operand, bits),
        BinaryOp::I64LeU => lemma_lhs_i64_le_u(register, operand, bits),
        BinaryOp::I64GeS => lemma_lhs_i64_ge_s(register, operand, bits),
        BinaryOp::I64GeU => lemma_lhs_i64_ge_u(register, operand, bits),
        BinaryOp::I64Add => lemma_lhs_i64_add(register, operand, bits),
        BinaryOp::I64Mul => lemma_lhs_i64_mul(register, operand, bits),
        BinaryOp::I64And => lemma_lhs_i64_and(register, operand, bits),
        BinaryOp::I64Or => lemma_lhs_i64_or(register, operand, bits),
        BinaryOp::I64Xor => lemma_lhs_i64_xor(register, operand, bits),
        BinaryOp::I64Shl => lemma_lhs_i64_shl(register, operand, bits),
        BinaryOp::I64ShrS => lemma_lhs_i64_shr_s(register, operand, bits),
        BinaryOp::I64ShrU => lemma_lhs_i64_shr_u(register, operand, bits),
        _ => {},
    }
}

} // verus!
