//! The immediates and the negated relations of the instructions stand for
//! what they replace.

use vstd::prelude::*;
use crate::copies::{has_providers, holds_consts, lemma_provider_register, provider_value};
use crate::executor::step;
use crate::identities::is_integer_operator;
use crate::instr::Instruction;
use crate::ops::BinaryOp;
use crate::regfile::RegisterFile;
use crate::register::Register;
use crate::translator::TranslatorView;
use crate::value::TypedProvider;
use crate::visit_numeric::binary_instr;

verus! {

proof fn lemma_narrowing(bits: u64)
    ensures
        i16::MIN <= ((bits as u32) as i32) <= i16::MAX ==> (((((bits as u32) as i32) as i16) as i32) as u32) as u64
            as u32 == bits as u32,
        (bits as u32) <= u16::MAX ==> ((((bits as u32) as u16) as i16) as u16) as u64 as u32 == bits as u32,
        i16::MIN <= (bits as i64) <= i16::MAX ==> ((((bits as i64) as i16) as i64) as u64) == bits,
        bits <= u16::MAX ==> (((bits as u16) as i16) as u16) as u64 == bits,
        i32::MIN <= (bits as i64) <= i32::MAX ==> (((bits as u32) as i32) as i64) as u64 == bits,
        ((((bits as u32) % 32) as i16) as u16) as u64 as u32 % 32 == (bits as u32) % 32,
        ((((bits % 64) as i16) as u16) as u64) as u32 % 64 == (bits as u32) % 64,
        ((bits as u32) as u64) as u32 == bits as u32,
{
    assert((-32768i32 <= ((bits as u32) as i32) && ((bits as u32) as i32) <= 32767i32 ==> (((((bits as u32) as i32) as i16)
        as i32) as u32) as u64 as u32 == bits as u32) && ((bits as u32) <= 65535u32 ==> ((((bits as u32) as u16) as i16)
        as u16) as u64 as u32 == bits as u32) && (-32768i64 <= (bits as i64) && (bits as i64) <= 32767i64 ==> ((((bits
        as i64) as i16) as i64) as u64) == bits) && (bits <= 65535u64 ==> (((bits as u16) as i16) as u16) as u64 == bits)
        && (-2147483648i64 <= (bits as i64) && (bits as i64) <= 2147483647i64 ==> (((bits as u32) as i32) as i64) as u64
        == bits) && (((((bits as u32) % 32) as i16) as u16) as u64 as u32 % 32 == (bits as u32) % 32) && (((((bits % 64)
        as i16) as u16) as u64) as u32 % 64 == (bits as u32) % 64) && (((bits as u32) as u64) as u32 == bits as u32))
        by (bit_vector);
}

/// The 16-bit immediate of a constant stands for the constant as the right
/// operand of an integer operator: the operator computes the same for the
/// word of the immediate as for the word of the constant.
pub proof fn lemma_imm16_sound(op: BinaryOp, lhs: u64, bits: u64)
    requires
        is_integer_operator(op),
        op.imm16(bits) is Some,
    ensures
        op.apply(lhs, op.imm16_word(op.imm16(bits)->Some_0)) == op.apply(lhs, bits),
{
    lemma_narrowing(bits);
}

/// The 16-bit immediate of a constant stands for the constant as the left
/// operand of an integer operator.
pub proof fn lemma_imm16_rev_sound(op: BinaryOp, bits: u64, rhs: u64)
    requires
        is_integer_operator(op),
        op.imm16_rev(bits) is Some,
    ensures
        op.apply(op.imm16_rev_word(op.imm16_rev(bits)->Some_0), rhs) == op.apply(bits, rhs),
{
    lemma_narrowing(bits);
}

/// The 32-bit immediate of a constant stands for the constant as the right
/// operand of an integer operator.
pub proof fn lemma_imm32_sound(op: BinaryOp, lhs: u64, bits: u64)
    requires
        is_integer_operator(op),
        op.imm32(bits) is Some,
    ensures
        op.apply(lhs, op.imm32_word(op.imm32(bits)->Some_0)) == op.apply(lhs, bits),
{
    lemma_narrowing(bits);
}

/// An integer relation has a truth value, and its negation holds exactly
/// where the relation does not: a branch on the negated relation is taken
/// where a branch on the relation being false would be.
pub proof fn lemma_negated_sound(op: BinaryOp, lhs: u64, rhs: u64)
    requires
        is_integer_operator(op),
        op.is_relation(),
    ensures
        op.negated() is Some,
        op.negated()->Some_0.is_relation(),
        op.apply(lhs, rhs) == Ok::<u64, crate::error::TrapCode>(0) || op.apply(lhs, rhs) == Ok::<
            u64,
            crate::error::TrapCode,
        >(1),
        op.negated()->Some_0.apply(lhs, rhs) == Ok::<u64, crate::error::TrapCode>(
            if op.apply(lhs, rhs)->Ok_0 == 0 {
                1
            } else {
                0
            },
        ),
{
}

/// The instruction that the translator emits for an integer operator
/// computes the operator: executing it on a frame that has the registers
/// concerned and holds the constants of the function writes to the
/// temporary of the result what the operator computes for the words that
/// the operands stand for, or traps with the trap of the operator.
pub proof fn lemma_emit_binary_executes(
    t: TranslatorView,
    op: BinaryOp,
    lhs: TypedProvider,
    rhs: TypedProvider,
    frame: RegisterFile,
    fuel: Option<u64>,
)
    requires
        t.stack.wf(),
        t.encoder.wf(),
        is_integer_operator(op),
        lhs is Register || rhs is Register,
        t.emit_binary(op, lhs, rhs) is Ok,
        holds_consts(frame, t.emit_binary(op, lhs, rhs)->Ok_0.stack.consts),
        has_providers(frame, seq![lhs, rhs]),
    ensures
        ({
            let after = t.emit_binary(op, lhs, rhs)->Ok_0;
            step(after.encoder.instrs, t.encoder.instrs.len() as int, frame, fuel) == frame.write_outcome(
                t.stack.dynamic(t.height() as int),
                op.apply(provider_value(frame, lhs), provider_value(frame, rhs)),
                after.encoder.instrs.len() as int,
                fuel,
            )
        }),
{
    let after = t.emit_binary(op, lhs, rhs)->Ok_0;
    let at = t.encoder.instrs.len() as int;
    let (stack, result) = t.stack.push_dynamic()->Ok_0;
    let pushed = t.with_stack(stack);
    assert(seq![lhs, rhs][0] == lhs && seq![lhs, rhs][1] == rhs);
    match (lhs, rhs) {
        (TypedProvider::Register(l), TypedProvider::Register(r)) => {
            assert(after.encoder.instrs[at] == binary_instr(op, result, l, r));
        },
        (TypedProvider::Register(l), TypedProvider::Const(c)) => {
            lemma_emit_binary_imm_executes(pushed, op, result, l, c.bits, frame, fuel);
        },
        (TypedProvider::Const(c), TypedProvider::Register(r)) => {
            if op.is_commutative() {
                lemma_commutative(op, frame.get(r.0 as int), c.bits);
                lemma_emit_binary_imm_executes(pushed, op, result, r, c.bits, frame, fuel);
            } else {
                match op.imm16_rev(c.bits) {
                    Some(k) => {
                        lemma_imm16_rev_sound(op, c.bits, frame.get(r.0 as int));
                        assert(after.encoder.instrs[at] == Instruction::BinaryImm16Rev { op, result, lhs: k, rhs: r });
                    },
                    None => {
                        lemma_provider_register(pushed.stack, lhs);
                        let (interned, l) = pushed.stack.alloc_const(c.bits)->Ok_0;
                        assert(after.encoder.instrs[at] == binary_instr(op, result, l, r));
                        assert(interned.consts[-1 - l.0] == c.bits);
                    },
                }
            }
        },
        _ => {},
    }
}

/// The instruction that the translator emits for an integer operator on a
/// register and a constant computes the operator.
proof fn lemma_emit_binary_imm_executes(
    t: TranslatorView,
    op: BinaryOp,
    result: Register,
    lhs: Register,
    bits: u64,
    frame: RegisterFile,
    fuel: Option<u64>,
)
    requires
        t.stack.wf(),
        t.encoder.wf(),
        is_integer_operator(op),
        t.emit_binary_imm(op, result, lhs, bits) is Ok,
        holds_consts(frame, t.emit_binary_imm(op, result, lhs, bits)->Ok_0.stack.consts),
        frame.has(lhs.0 as int),
    ensures
        ({
            let after = t.emit_binary_imm(op, result, lhs, bits)->Ok_0;
            step(after.encoder.instrs, t.encoder.instrs.len() as int, frame, fuel) == frame.write_outcome(
                result,
                op.apply(frame.get(lhs.0 as int), bits),
                after.encoder.instrs.len() as int,
                fuel,
            )
        }),
{
    let after = t.emit_binary_imm(op, result, lhs, bits)->Ok_0;
    let at = t.encoder.instrs.len() as int;
    match op.imm16(bits) {
        Some(k) => {
            lemma_imm16_sound(op, frame.get(lhs.0 as int), bits);
            assert(after.encoder.instrs[at] == Instruction::BinaryImm16 { op, result, lhs, rhs: k });
        },
        None => {
            let assigned = match op.imm32(bits) {
                Some(_) if result == lhs => true,
                _ => false,
            };
            if assigned {
                let k = op.imm32(bits)->Some_0;
                lemma_imm32_sound(op, frame.get(lhs.0 as int), bits);
                assert(after.encoder.instrs[at] == Instruction::BinaryAssignImm32 { op, inout: lhs, rhs: k });
            } else {
                lemma_provider_register(
                    t.stack,
                    TypedProvider::Const(crate::value::TypedValue { ty: crate::value::ValueType::I64, bits }),
                );
                let (interned, r) = t.stack.alloc_const(bits)->Ok_0;
                assert(after.encoder.instrs[at] == binary_instr(op, result, lhs, r));
                assert(interned.consts[-1 - r.0] == bits);
            }
        },
    }
}

/// A commutative integer operator computes the same for its operands in
/// either order.
pub proof fn lemma_commutative(op: BinaryOp, lhs: u64, rhs: u64)
    requires
        is_integer_operator(op),
        op.is_commutative(),
    ensures
        op.apply(lhs, rhs) == op.apply(rhs, lhs),
{
    let a = lhs as u32;
    let b = rhs as u32;
    assert((a & b == b & a) && (a | b == b | a) && (a ^ b == b ^ a) && (lhs & rhs == rhs & lhs) && (lhs | rhs == rhs
        | lhs) && (lhs ^ rhs == rhs ^ lhs)) by (bit_vector);
    assert(a * b == b * a) by (nonlinear_arith);
    assert(lhs * rhs == rhs * lhs) by (nonlinear_arith);
}

} // verus!
