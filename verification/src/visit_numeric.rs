//! Translation of the numeric operators.

use vstd::prelude::*;
use crate::copies::{lemma_encode_copy_kept, lemma_provider_register};
use crate::error::TranslationError;
use crate::instr::Instruction;
use crate::ops::{BinaryOp, UnaryOp};
use crate::register::Register;
use crate::simplify::Simplified;
use crate::translator::{lemma_base_height, lemma_step_wf, FuncTranslator, Translated, TranslatorView};
use crate::value::{TypedProvider, TypedValue, ValueType};

verus! {

/// The instruction that applies `op` to the registers `lhs` and `rhs`:
/// where the result goes to the left operand, the instruction says so.
pub open spec fn binary_instr(op: BinaryOp, result: Register, lhs: Register, rhs: Register) -> Instruction {
    if result == lhs {
        Instruction::BinaryAssign { op, inout: lhs, rhs }
    } else {
        Instruction::Binary { op, result, lhs, rhs }
    }
}

impl TranslatorView {
    /// A unary operator: on a constant, the operator is executed, and its
    /// result is the new operand, or its trap is emitted; on a register,
    /// the instruction is emitted, and its result is the temporary of the
    /// position of the operand.
    pub open spec fn unary(self, op: UnaryOp) -> Translated {
        if !self.reachable {
            Ok(self)
        } else {
            let t = self.with_stack(self.stack.drop_n(1));
            match self.stack.top() {
                TypedProvider::Const(c) => match op.apply(c.bits) {
                    Ok(bits) => Ok(t.push(TypedProvider::Const(TypedValue { ty: op.result_type(), bits }))),
                    Err(code) => t.trap(code),
                },
                TypedProvider::Register(input) => match t.stack.push_dynamic() {
                    Err(e) => Err(e),
                    Ok((stack, result)) => t.with_stack(stack).push_instr(Instruction::Unary { op, result, input }),
                },
            }
        }
    }

    /// A reinterpretation: the operand stays where it is; a constant gets
    /// the type `ty`.
    pub open spec fn reinterpret(self, ty: ValueType) -> Translated {
        if !self.reachable {
            Ok(self)
        } else {
            let t = self.with_stack(self.stack.drop_n(1));
            match self.stack.top() {
                TypedProvider::Const(c) => Ok(t.push(TypedProvider::Const(TypedValue { ty, bits: c.bits }))),
                TypedProvider::Register(r) => Ok(t.push(TypedProvider::Register(r))),
            }
        }
    }

    /// The instruction for `op` on the register `lhs` and the constant
    /// with the word `bits`, once the operands are popped and the result
    /// is pushed: with a 16-bit immediate if the constant has one; else
    /// with a 32-bit immediate if the result goes to the left operand and
    /// the constant has one; else with the register of the interned
    /// constant.
    pub open spec fn emit_binary_imm(self, op: BinaryOp, result: Register, lhs: Register, bits: u64) -> Translated {
        match op.imm16(bits) {
            Some(rhs) => self.push_instr(Instruction::BinaryImm16 { op, result, lhs, rhs }),
            None => match op.imm32(bits) {
                Some(rhs) if result == lhs => self.push_instr(Instruction::BinaryAssignImm32 { op, inout: lhs, rhs }),
                _ => match self.stack.alloc_const(bits) {
                    Err(e) => Err(e),
                    Ok((stack, rhs)) => self.with_stack(stack).push_instr(binary_instr(op, result, lhs, rhs)),
                },
            },
        }
    }

    /// The instruction for `op` on the operands `lhs` and `rhs`, of which
    /// at least one is a register, once the operands are popped: the
    /// result is the temporary of the position of the left operand. A
    /// constant is the right operand of the instruction if the operator is
    /// commutative.
    pub open spec fn emit_binary(self, op: BinaryOp, lhs: TypedProvider, rhs: TypedProvider) -> Translated {
        match self.stack.push_dynamic() {
            Err(e) => Err(e),
            Ok((stack, result)) => {
                let t = self.with_stack(stack);
                match (lhs, rhs) {
                    (TypedProvider::Register(l), TypedProvider::Register(r)) => t.push_instr(
                        binary_instr(op, result, l, r),
                    ),
                    (TypedProvider::Register(l), TypedProvider::Const(c)) => t.emit_binary_imm(op, result, l, c.bits),
                    (TypedProvider::Const(c), TypedProvider::Register(r)) => if op.is_commutative() {
                        t.emit_binary_imm(op, result, r, c.bits)
                    } else {
                        match op.imm16_rev(c.bits) {
                            Some(lhs) => t.push_instr(Instruction::BinaryImm16Rev { op, result, lhs, rhs: r }),
                            None => match t.stack.alloc_const(c.bits) {
                                Err(e) => Err(e),
                                Ok((stack, l)) => t.with_stack(stack).push_instr(binary_instr(op, result, l, r)),
                            },
                        }
                    },
                    (TypedProvider::Const(_), TypedProvider::Const(_)) => Ok(t),
                }
            },
        }
    }

    /// A binary operator. On two constants, the operator is executed, and
    /// its result is the new operand, or its trap is emitted. Where an
    /// identity gives the result, the result is that operand or constant,
    /// or the trap is emitted. Else the instruction is emitted.
    pub open spec fn binary(self, op: BinaryOp) -> Translated {
        if !self.reachable {
            Ok(self)
        } else {
            let lhs = self.stack.providers[self.height() - 2];
            let rhs = self.stack.providers[self.height() - 1];
            let t = self.with_stack(self.stack.drop_n(2));
            match (lhs, rhs) {
                (TypedProvider::Const(a), TypedProvider::Const(b)) => match op.apply(a.bits, b.bits) {
                    Ok(bits) => Ok(t.push(TypedProvider::Const(TypedValue { ty: op.result_type(), bits }))),
                    Err(code) => t.trap(code),
                },
                _ => match op.simplify(lhs, rhs) {
                    Some(Simplified::Provider(p)) => t.push_forward(p),
                    Some(Simplified::Trap(code)) => t.trap(code),
                    None => t.emit_binary(op, lhs, rhs),
                },
            }
        }
    }

    /// A test for zero: the operator `op`, an equality, with the constant
    /// zero of the type `ty` as its right operand.
    pub open spec fn eqz(self, op: BinaryOp, ty: ValueType) -> Translated {
        if !self.reachable {
            Ok(self)
        } else {
            self.push(TypedProvider::Const(TypedValue { ty, bits: 0 })).binary(op)
        }
    }

    /// `select`: with a constant condition, the operand that it selects;
    /// with two operands that are the same, that operand; else the
    /// instruction, followed by the register of the second operand.
    pub open spec fn select(self) -> Translated {
        if !self.reachable {
            Ok(self)
        } else {
            let lhs = self.stack.providers[self.height() - 3];
            let rhs = self.stack.providers[self.height() - 2];
            let condition = self.stack.providers[self.height() - 1];
            let t = self.with_stack(self.stack.drop_n(3));
            match condition {
                TypedProvider::Const(c) => t.push_forward(
                    if c.is_true() {
                        lhs
                    } else {
                        rhs
                    },
                ),
                TypedProvider::Register(condition) => if lhs == rhs {
                    t.push_forward(lhs)
                } else {
                    match t.stack.push_dynamic() {
                        Err(e) => Err(e),
                        Ok((stack, result)) => match stack.provider_register(lhs) {
                            Err(e) => Err(e),
                            Ok((stack, lhs)) => match stack.provider_register(rhs) {
                                Err(e) => Err(e),
                                Ok((stack, rhs)) => match t.with_stack(stack).push_instr(
                                    Instruction::Select { result, condition, lhs },
                                ) {
                                    Err(e) => Err(e),
                                    Ok(t) => t.append_instr(Instruction::Register1 { r0: rhs }),
                                },
                            },
                        },
                    }
                },
            }
        }
    }
}

impl<'a> FuncTranslator<'a> {
    /// Pushes an operand that stands for `provider`.
    pub(crate) fn push_forward(&mut self, provider: TypedProvider) -> (r: Result<(), TranslationError>)
        requires
            old(self).wf(),
            old(self)@.reachable,
        ensures
            final(self).translated(old(self), old(self)@.push_forward(provider), r),
    {
        proof {
            lemma_base_height(self@);
        }
        let h = self.stack.height();
        let in_place = match provider {
            TypedProvider::Const(_) => true,
            TypedProvider::Register(r) => self.stack.is_local(r) || (h < crate::stack::MAX_REGISTERS
                && self.stack.len_locals() + h < crate::stack::MAX_REGISTERS && r.0 as usize
                == self.stack.len_locals() + h && r.0 >= 0),
        };
        if in_place {
            self.stack.push_provider(provider);
        } else {
            let result = self.stack.push_dynamic()?;
            proof {
                lemma_encode_copy_kept(self@.encoder, self@.stack, result, provider);
            }
            self.encoder.encode_copy(&mut self.stack, result, provider)?;
        }
        proof {
            lemma_step_wf(old(self)@, self@);
        }
        Ok(())
    }

    /// Pushes the constant of the type `ty` with the word `bits`.
    pub(crate) fn push_const(&mut self, ty: ValueType, bits: u64)
        requires
            old(self).wf(),
            old(self)@.reachable,
        ensures
            final(self).wf(),
            final(self)@ == old(self)@.push(TypedProvider::Const(TypedValue { ty, bits })),
            final(self).module() == old(self).module(),
    {
        proof {
            lemma_base_height(self@);
        }
        self.stack.push_const(TypedValue { ty, bits });
        proof {
            lemma_step_wf(old(self)@, self@);
        }
    }

    /// Pops `n` operands in code that can be reached, and keeps the
    /// invariant of the translator.
    pub(crate) fn drop_operands(&mut self, n: usize)
        requires
            old(self).wf(),
            old(self)@.reachable,
            old(self)@.operands_ok(n as nat),
        ensures
            final(self).wf(),
            final(self)@ == old(self)@.with_stack(old(self)@.stack.drop_n(n as int)),
            final(self).module() == old(self).module(),
            final(self).buffer == old(self).buffer,
    {
        let h = self.stack.height();
        self.stack.trunc(h - n);
        proof {
            lemma_step_wf(old(self)@, self@);
        }
    }

    /// Emits `instr` in code that can be reached, and keeps the invariant
    /// of the translator.
    pub(crate) fn emit(&mut self, instr: Instruction) -> (r: Result<(), TranslationError>)
        requires
            old(self).wf(),
        ensures
            final(self).translated(old(self), old(self)@.push_instr(instr), r),
            final(self).buffer == old(self).buffer,
    {
        proof {
            lemma_base_height(self@);
        }
        self.encoder.push_instr(instr)?;
        proof {
            lemma_step_wf(old(self)@, self@);
        }
        Ok(())
    }

    /// Appends the slot `instr` in code that can be reached, and keeps
    /// the invariant of the translator.
    pub(crate) fn append(&mut self, instr: Instruction) -> (r: Result<(), TranslationError>)
        requires
            old(self).wf(),
        ensures
            final(self).translated(old(self), old(self)@.append_instr(instr), r),
            final(self).buffer == old(self).buffer,
    {
        proof {
            lemma_base_height(self@);
        }
        self.encoder.append_instr(instr)?;
        proof {
            lemma_step_wf(old(self)@, self@);
        }
        Ok(())
    }

    /// Pushes the temporary of the next position in code that can be
    /// reached, and keeps the invariant of the translator.
    pub(crate) fn push_result(&mut self) -> (r: Result<Register, TranslationError>)
        requires
            old(self).wf(),
            old(self)@.reachable,
        ensures
            match old(self)@.stack.push_dynamic() {
                Ok((stack, result)) => r == Ok::<Register, TranslationError>(result) && final(self)@ == old(
                    self,
                )@.with_stack(stack) && final(self).wf() && final(self).module() == old(self).module(),
                Err(e) => r == Err::<Register, TranslationError>(e),
            },
            final(self).buffer == old(self).buffer,
    {
        proof {
            lemma_base_height(self@);
        }
        let result = self.stack.push_dynamic()?;
        proof {
            lemma_step_wf(old(self)@, self@);
        }
        Ok(result)
    }

    /// The register that holds `provider`, after interning it if it is a
    /// constant; keeps the invariant of the translator.
    pub(crate) fn provider_register(&mut self, provider: TypedProvider) -> (r: Result<Register, TranslationError>)
        requires
            old(self).wf(),
        ensures
            match old(self)@.stack.provider_register(provider) {
                Ok((stack, register)) => r == Ok::<Register, TranslationError>(register) && final(self)@ == old(
                    self,
                )@.with_stack(stack) && final(self).wf() && final(self).module() == old(self).module(),
                Err(e) => r == Err::<Register, TranslationError>(e),
            },
            final(self).buffer == old(self).buffer,
    {
        proof {
            lemma_base_height(self@);
            lemma_provider_register(self@.stack, provider);
        }
        let register = self.stack.provider_register(provider)?;
        proof {
            lemma_step_wf(old(self)@, self@);
        }
        Ok(register)
    }

    /// Translates a unary operator.
    pub fn translate_unary(&mut self, op: UnaryOp) -> (r: Result<(), TranslationError>)
        requires
            old(self).wf(),
            old(self)@.operands_ok(1),
        ensures
            final(self).translated(old(self), old(self)@.unary(op), r),
    {
        if !self.reachable {
            return Ok(());
        }
        proof {
            lemma_base_height(self@);
        }
        let input = self.stack.top_provider();
        self.drop_operands(1);
        match input {
            TypedProvider::Const(c) => match op.eval(c.bits) {
                Ok(bits) => {
                    self.push_const(op.result_type_exec(), bits);
                    Ok(())
                },
                Err(code) => self.translate_trap(code),
            },
            TypedProvider::Register(input) => {
                let result = self.push_result()?;
                self.emit(Instruction::Unary { op, result, input })
            },
        }
    }

    /// Translates a reinterpretation to the type `ty`.
    pub fn translate_reinterpret(&mut self, ty: ValueType) -> (r: Result<(), TranslationError>)
        requires
            old(self).wf(),
            old(self)@.operands_ok(1),
        ensures
            final(self).translated(old(self), old(self)@.reinterpret(ty), r),
    {
        if !self.reachable {
            return Ok(());
        }
        proof {
            lemma_base_height(self@);
            assert(self@.stack.in_place(self@.stack.providers[self@.height() - 1], self@.height() - 1));
        }
        let input = self.stack.top_provider();
        self.drop_operands(1);
        match input {
            TypedProvider::Const(c) => {
                self.push_const(ty, c.bits);
            },
            TypedProvider::Register(r) => {
                let ghost a = self@;
                self.stack.push_register(r);
                proof {
                    lemma_base_height(a);
                    lemma_step_wf(a, self@);
                }
            },
        }
        Ok(())
    }

    /// Emits the instruction for `op` on the register `lhs` and the
    /// constant with the word `bits`.
    fn emit_binary_imm(&mut self, op: BinaryOp, result: Register, lhs: Register, bits: u64) -> (r: Result<
        (),
        TranslationError,
    >)
        requires
            old(self).wf(),
        ensures
            final(self).translated(old(self), old(self)@.emit_binary_imm(op, result, lhs, bits), r),
    {
        match op.imm16_exec(bits) {
            Some(rhs) => self.emit(Instruction::BinaryImm16 { op, result, lhs, rhs }),
            None => {
                match op.imm32_exec(bits) {
                    Some(rhs) => {
                        if result == lhs {
                            return self.emit(Instruction::BinaryAssignImm32 { op, inout: lhs, rhs });
                        }
                    },
                    None => {},
                }
                let rhs = self.provider_register(TypedProvider::Const(TypedValue { ty: ValueType::I64, bits }))?;
                self.emit(Self::binary_instr(op, result, lhs, rhs))
            },
        }
    }

    /// Computes [`binary_instr`].
    fn binary_instr(op: BinaryOp, result: Register, lhs: Register, rhs: Register) -> (r: Instruction)
        ensures
            r == binary_instr(op, result, lhs, rhs),
    {
        if result == lhs {
            Instruction::BinaryAssign { op, inout: lhs, rhs }
        } else {
            Instruction::Binary { op, result, lhs, rhs }
        }
    }

    /// Emits the instruction for `op` on the operands `lhs` and `rhs`.
    fn emit_binary(&mut self, op: BinaryOp, lhs: TypedProvider, rhs: TypedProvider) -> (r: Result<
        (),
        TranslationError,
    >)
        requires
            old(self).wf(),
            old(self)@.reachable,
        ensures
            final(self).translated(old(self), old(self)@.emit_binary(op, lhs, rhs), r),
    {
        let result = self.push_result()?;
        match (lhs, rhs) {
            (TypedProvider::Register(l), TypedProvider::Register(r)) => self.emit(
                Self::binary_instr(op, result, l, r),
            ),
            (TypedProvider::Register(l), TypedProvider::Const(c)) => self.emit_binary_imm(op, result, l, c.bits),
            (TypedProvider::Const(c), TypedProvider::Register(r)) => {
                if op.is_commutative_exec() {
                    self.emit_binary_imm(op, result, r, c.bits)
                } else {
                    match op.imm16_rev_exec(c.bits) {
                        Some(lhs) => self.emit(Instruction::BinaryImm16Rev { op, result, lhs, rhs: r }),
                        None => {
                            let l = self.provider_register(
                                TypedProvider::Const(TypedValue { ty: ValueType::I64, bits: c.bits }),
                            )?;
                            self.emit(Self::binary_instr(op, result, l, r))
                        },
                    }
                }
            },
            (TypedProvider::Const(_), TypedProvider::Const(_)) => Ok(()),
        }
    }

    /// Translates a binary operator.
    pub fn translate_binary(&mut self, op: BinaryOp) -> (r: Result<(), TranslationError>)
        requires
            old(self).wf(),
            old(self)@.operands_ok(2),
        ensures
            final(self).translated(old(self), old(self)@.binary(op), r),
    {
        if !self.reachable {
            return Ok(());
        }
        proof {
            lemma_base_height(self@);
        }
        let (lhs, rhs) = self.stack.top2();
        self.drop_operands(2);
        match (lhs, rhs) {
            (TypedProvider::Const(a), TypedProvider::Const(b)) => match op.eval(a.bits, b.bits) {
                Ok(bits) => {
                    self.push_const(op.result_type_exec(), bits);
                    Ok(())
                },
                Err(code) => self.translate_trap(code),
            },
            _ => match op.simplify_exec(lhs, rhs) {
                Some(Simplified::Provider(p)) => self.push_forward(p),
                Some(Simplified::Trap(code)) => self.translate_trap(code),
                None => self.emit_binary(op, lhs, rhs),
            },
        }
    }

    /// Translates a test for zero by the equality `op` on the type `ty`.
    fn translate_eqz(&mut self, op: BinaryOp, ty: ValueType) -> (r: Result<(), TranslationError>)
        requires
            old(self).wf(),
            old(self)@.operands_ok(1),
        ensures
            final(self).translated(old(self), old(self)@.eqz(op, ty), r),
    {
        if !self.reachable {
            return Ok(());
        }
        self.push_const(ty, 0);
        self.translate_binary(op)
    }

    /// Translates `select`.
    pub fn translate_select(&mut self) -> (r: Result<(), TranslationError>)
        requires
            old(self).wf(),
            old(self)@.operands_ok(3),
        ensures
            final(self).translated(old(self), old(self)@.select(), r),
    {
        if !self.reachable {
            return Ok(());
        }
        proof {
            lemma_base_height(self@);
        }
        let (lhs, rhs, condition) = self.stack.top3();
        self.drop_operands(3);
        match condition {
            TypedProvider::Const(c) => {
                let selected = if c.is_true_exec() {
                    lhs
                } else {
                    rhs
                };
                self.push_forward(selected)
            },
            TypedProvider::Register(condition) => {
                if lhs == rhs {
                    return self.push_forward(lhs);
                }
                let result = self.push_result()?;
                let lhs = self.provider_register(lhs)?;
                let rhs = self.provider_register(rhs)?;
                self.emit(Instruction::Select { result, condition, lhs })?;
                self.append(Instruction::Register1 { r0: rhs })
            },
        }
    }

    /// Translates `select`.
    pub fn visit_select(&mut self) -> (r: Result<(), TranslationError>)
        requires
            old(self).wf(),
            old(self)@.operands_ok(3),
        ensures
            final(self).translated(old(self), old(self)@.select(), r),
    {
        self.translate_select()
    }

    /// Translates `select` with the type of its operands given.
    pub fn visit_typed_select(&mut self, ty: ValueType) -> (r: Result<(), TranslationError>)
        requires
            old(self).wf(),
            old(self)@.operands_ok(3),
        ensures
            final(self).translated(old(self), old(self)@.select(), r),
    {
        self.translate_select()
    }

    /// Translates `i32.eqz`: `i32.eq` with zero.
    pub fn visit_i32_eqz(&mut self) -> (r: Result<(), TranslationError>)
        requires
            old(self).wf(),
            old(self)@.operands_ok(1),
        ensures
            final(self).translated(old(self), old(self)@.eqz(BinaryOp::I32Eq, ValueType::I32), r),
    {
        self.translate_eqz(BinaryOp::I32Eq, ValueType::I32)
    }

    /// Translates `i64.eqz`: `i64.eq` with zero.
    pub fn visit_i64_eqz(&mut self) -> (r: Result<(), TranslationError>)
        requires
            old(self).wf(),
            old(self)@.operands_ok(1),
        ensures
            final(self).translated(old(self), old(self)@.eqz(BinaryOp::I64Eq, ValueType::I64), r),
    {
        self.translate_eqz(BinaryOp::I64Eq, ValueType::I64)
    }

    /// Translates `ref.is_null`: a reference is a 64-bit word that is zero
    /// for the null reference, so the test is `i64.eqz`.
    pub fn visit_ref_is_null(&mut self) -> (r: Result<(), TranslationError>)
        requires
            old(self).wf(),
            old(self)@.operands_ok(1),
        ensures
            final(self).translated(old(self), old(self)@.eqz(BinaryOp::I64Eq, ValueType::I64), r),
    {
        self.visit_i64_eqz()
    }

    /// Translates `i32.clz`.
    pub fn visit_i32_clz(&mut self) -> (r: Result<(), TranslationError>)
        requires
            old(self).wf(),
            old(self)@.operands_ok(1),
        ensures
            final(self).translated(old(self), old(self)@.unary(UnaryOp::I32Clz), r),
    {
        self.translate_unary(UnaryOp::I32Clz)
    }

    /// Translates `i32.ctz`.
    pub fn visit_i32_ctz(&mut self) -> (r: Result<(), TranslationError>)
        requires
            old(self).wf(),
            old(self)@.operands_ok(1),
        ensures
            final(self).translated(old(self), old(self)@.unary(UnaryOp::I32Ctz), r),
    {
        self.translate_unary(UnaryOp::I32Ctz)
    }

    /// Translates `i32.popcnt`.
    pub fn visit_i32_popcnt(&mut self) -> (r: Result<(), TranslationError>)
        requires
            old(self).wf(),
            old(self)@.operands_ok(1),
        ensures
            final(self).translated(old(self), old(self)@.unary(UnaryOp::I32Popcnt), r),
    {
        self.translate_unary(UnaryOp::I32Popcnt)
    }

    /// Translates `i64.clz`.
    pub fn visit_i64_clz(&mut self) -> (r: Result<(), TranslationError>)
        requires
            old(self).wf(),
            old(self)@.operands_ok(1),
        ensures
            final(self).translated(old(self), old(self)@.unary(UnaryOp::I64Clz), r),
    {
        self.translate_unary(UnaryOp::I64Clz)
    }

    /// Translates `i64.ctz`.
    pub fn visit_i64_ctz(&mut self) -> (r: Result<(), TranslationError>)
        requires
            old(self).wf(),
            old(self)@.operands_ok(1),
        ensures
            final(self).translated(old(self), old(self)@.unary(UnaryOp::I64Ctz), r),
    {
        self.translate_unary(UnaryOp::I64Ctz)
    }

    /// Translates `i64.popcnt`.
    pub fn visit_i64_popcnt(&mut self) -> (r: Result<(), TranslationError>)
        requires
            old(self).wf(),
            old(self)@.operands_ok(1),
        ensures
            final(self).translated(old(self), old(self)@.unary(UnaryOp::I64Popcnt), r),
    {
        self.translate_unary(UnaryOp::I64Popcnt)
    }

    /// Translates `f32.abs`.
    pub fn visit_f32_abs(&mut self) -> (r: Result<(), TranslationError>)
        requires
            old(self).wf(),
            old(self)@.operands_ok(1),
        ensures
            final(self).translated(old(self), old(self)@.unary(UnaryOp::F32Abs), r),
    {
        self.translate_unary(UnaryOp::F32Abs)
    }

    /// Translates `f32.neg`.
    pub fn visit_f32_neg(&mut self) -> (r: Result<(), TranslationError>)
        requires
            old(self).wf(),
            old(self)@.operands_ok(1),
        ensures
            final(self).translated(old(self), old(self)@.unary(UnaryOp::F32Neg), r),
    {
        self.translate_unary(UnaryOp::F32Neg)
    }

    /// Translates `f32.ceil`.
    pub fn visit_f32_ceil(&mut self) -> (r: Result<(), TranslationError>)
        requires
            old(self).wf(),
            old(self)@.operands_ok(1),
        ensures
            final(self).translated(old(self), old(self)@.unary(UnaryOp::F32Ceil), r),
    {
        self.translate_unary(UnaryOp::F32Ceil)
    }

    /// Translates `f32.floor`.
    pub fn visit_f32_floor(&mut self) -> (r: Result<(), TranslationError>)
        requires
            old(self).wf(),
            old(self)@.operands_ok(1),
        ensures
            final(self).translated(old(self), old(self)@.unary(UnaryOp::F32Floor), r),
    {
        self.translate_unary(UnaryOp::F32Floor)
    }

    /// Translates `f32.trunc`.
    pub fn visit_f32_trunc(&mut self) -> (r: Result<(), TranslationError>)
        requires
            old(self).wf(),
            old(self)@.operands_ok(1),
        ensures
            final(self).translated(old(self), old(self)@.unary(UnaryOp::F32Trunc), r),
    {
        self.translate_unary(UnaryOp::F32Trunc)
    }

    /// Translates `f32.nearest`.
    pub fn visit_f32_nearest(&mut self) -> (r: Result<(), TranslationError>)
        requires
            old(self).wf(),
            old(self)@.operands_ok(1),
        ensures
            final(self).translated(old(self), old(self)@.unary(UnaryOp::F32Nearest), r),
    {
        self.translate_unary(UnaryOp::F32Nearest)
    }

    /// Translates `f32.sqrt`.
    pub fn visit_f32_sqrt(&mut self) -> (r: Result<(), TranslationError>)
        requires
            old(self).wf(),
            old(self)@.operands_ok(1),
        ensures
            final(self).translated(old(self), old(self)@.unary(UnaryOp::F32Sqrt), r),
    {
        self.translate_unary(UnaryOp::F32Sqrt)
    }

    /// Translates `f64.abs`.
    pub fn visit_f64_abs(&mut self) -> (r: Result<(), TranslationError>)
        requires
            old(self).wf(),
            old(self)@.operands_ok(1),
        ensures
            final(self).translated(old(self), old(self)@.unary(UnaryOp::F64Abs), r),
    {
        self.translate_unary(UnaryOp::F64Abs)
    }

    /// Translates `f64.neg`.
    pub fn visit_f64_neg(&mut self) -> (r: Result<(), TranslationError>)
        requires
            old(self).wf(),
            old(self)@.operands_ok(1),
        ensures
            final(self).translated(old(self), old(self)@.unary(UnaryOp::F64Neg), r),
    {
        self.translate_unary(UnaryOp::F64Neg)
    }

    /// Translates `f64.ceil`.
    pub fn visit_f64_ceil(&mut self) -> (r: Result<(), TranslationError>)
        requires
            old(self).wf(),
            old(self)@.operands_ok(1),
        ensures
            final(self).translated(old(self), old(self)@.unary(UnaryOp::F64Ceil), r),
    {
        self.translate_unary(UnaryOp::F64Ceil)
    }

    /// Translates `f64.floor`.
    pub fn visit_f64_floor(&mut self) -> (r: Result<(), TranslationError>)
        requires
            old(self).wf(),
            old(self)@.operands_ok(1),
        ensures
            final(self).translated(old(self), old(self)@.unary(UnaryOp::F64Floor), r),
    {
        self.translate_unary(UnaryOp::F64Floor)
    }

    /// Translates `f64.trunc`.
    pub fn visit_f64_trunc(&mut self) -> (r: Result<(), TranslationError>)
        requires
            old(self).wf(),
            old(self)@.operands_ok(1),
        ensures
            final(self).translated(old(self), old(self)@.unary(UnaryOp::F64Trunc), r),
    {
        self.translate_unary(UnaryOp::F64Trunc)
    }

    /// Translates `f64.nearest`.
    pub fn visit_f64_nearest(&mut self) -> (r: Result<(), TranslationError>)
        requires
            old(self).wf(),
            old(self)@.operands_ok(1),
        ensures
            final(self).translated(old(self), old(self)@.unary(UnaryOp::F64Nearest), r),
    {
        self.translate_unary(UnaryOp::F64Nearest)
    }

    /// Translates `f64.sqrt`.
    pub fn visit_f64_sqrt(&mut self) -> (r: Result<(), TranslationError>)
        requires
            old(self).wf(),
            old(self)@.operands_ok(1),
        ensures
            final(self).translated(old(self), old(self)@.unary(UnaryOp::F64Sqrt), r),
    {
        self.translate_unary(UnaryOp::F64Sqrt)
    }

    /// Translates `i32.wrap_i64`.
    pub fn visit_i32_wrap_i64(&mut self) -> (r: Result<(), TranslationError>)
        requires
            old(self).wf(),
            old(self)@.operands_ok(1),
        ensures
            final(self).translated(old(self), old(self)@.unary(UnaryOp::I32WrapI64), r),
    {
        self.translate_unary(UnaryOp::I32WrapI64)
    }

    /// Translates `i32.trunc_f32_s`.
    pub fn visit_i32_trunc_f32_s(&mut self) -> (r: Result<(), TranslationError>)
        requires
            old(self).wf(),
            old(self)@.operands_ok(1),
        ensures
            final(self).translated(old(self), old(self)@.unary(UnaryOp::I32TruncF32S), r),
    {
        self.translate_unary(UnaryOp::I32TruncF32S)
    }

    /// Translates `i32.trunc_f32_u`.
    pub fn visit_i32_trunc_f32_u(&mut self) -> (r: Result<(), TranslationError>)
        requires
            old(self).wf(),
            old(self)@.operands_ok(1),
        ensures
            final(self).translated(old(self), old(self)@.unary(UnaryOp::I32TruncF32U), r),
    {
        self.translate_unary(UnaryOp::I32TruncF32U)
    }

    /// Translates `i32.trunc_f64_s`.
    pub fn visit_i32_trunc_f64_s(&mut self) -> (r: Result<(), TranslationError>)
        requires
            old(self).wf(),
            old(self)@.operands_ok(1),
        ensures
            final(self).translated(old(self), old(self)@.unary(UnaryOp::I32TruncF64S), r),
    {
        self.translate_unary(UnaryOp::I32TruncF64S)
    }

    /// Translates `i32.trunc_f64_u`.
    pub fn visit_i32_trunc_f64_u(&mut self) -> (r: Result<(), TranslationError>)
        requires
            old(self).wf(),
            old(self)@.operands_ok(1),
        ensures
            final(self).translated(old(self), old(self)@.unary(UnaryOp::I32TruncF64U), r),
    {
        self.translate_unary(UnaryOp::I32TruncF64U)
    }

    /// Translates `i64.extend_i32_s`.
    pub fn visit_i64_extend_i32_s(&mut self) -> (r: Result<(), TranslationError>)
        requires
            old(self).wf(),
            old(self)@.operands_ok(1),
        ensures
            final(self).translated(old(self), old(self)@.unary(UnaryOp::I64ExtendI32S), r),
    {
        self.translate_unary(UnaryOp::I64ExtendI32S)
    }

    /// Translates `i64.extend_i32_u`.
    pub fn visit_i64_extend_i32_u(&mut self) -> (r: Result<(), TranslationError>)
        requires
            old(self).wf(),
            old(self)@.operands_ok(1),
        ensures
            final(self).translated(old(self), old(self)@.unary(UnaryOp::I64ExtendI32U), r),
    {
        self.translate_unary(UnaryOp::I64ExtendI32U)
    }

    /// Translates `i64.trunc_f32_s`.
    pub fn visit_i64_trunc_f32_s(&mut self) -> (r: Result<(), TranslationError>)
        requires
            old(self).wf(),
            old(self)@.operands_ok(1),
        ensures
            final(self).translated(old(self), old(self)@.unary(UnaryOp::I64TruncF32S), r),
    {
        self.translate_unary(UnaryOp::I64TruncF32S)
    }

    /// Translates `i64.trunc_f32_u`.
    pub fn visit_i64_trunc_f32_u(&mut self) -> (r: Result<(), TranslationError>)
        requires
            old(self).wf(),
            old(self)@.operands_ok(1),
        ensures
            final(self).translated(old(self), old(self)@.unary(UnaryOp::I64TruncF32U), r),
    {
        self.translate_unary(UnaryOp::I64TruncF32U)
    }

    /// Translates `i64.trunc_f64_s`.
    pub fn visit_i64_trunc_f64_s(&mut self) -> (r: Result<(), TranslationError>)
        requires
            old(self).wf(),
            old(self)@.operands_ok(1),
        ensures
            final(self).translated(old(self), old(self)@.unary(UnaryOp::I64TruncF64S), r),
    {
        self.translate_unary(UnaryOp::I64TruncF64S)
    }

    /// Translates `i64.trunc_f64_u`.
    pub fn visit_i64_trunc_f64_u(&mut self) -> (r: Result<(), TranslationError>)
        requires
            old(self).wf(),
            old(self)@.operands_ok(1),
        ensures
            final(self).translated(old(self), old(self)@.unary(UnaryOp::I64TruncF64U), r),
    {
        self.translate_unary(UnaryOp::I64TruncF64U)
    }

    /// Translates `f32.convert_i32_s`.
    pub fn visit_f32_convert_i32_s(&mut self) -> (r: Result<(), TranslationError>)
        requires
            old(self).wf(),
            old(self)@.operands_ok(1),
        ensures
            final(self).translated(old(self), old(self)@.unary(UnaryOp::F32ConvertI32S), r),
    {
        self.translate_unary(UnaryOp::F32ConvertI32S)
    }

    /// Translates `f32.convert_i32_u`.
    pub fn visit_f32_convert_i32_u(&mut self) -> (r: Result<(), TranslationError>)
        requires
            old(self).wf(),
            old(self)@.operands_ok(1),
        ensures
            final(self).translated(old(self), old(self)@.unary(UnaryOp::F32ConvertI32U), r),
    {
        self.translate_unary(UnaryOp::F32ConvertI32U)
    }

    /// Translates `f32.convert_i64_s`.
    pub fn visit_f32_convert_i64_s(&mut self) -> (r: Result<(), TranslationError>)
        requires
            old(self).wf(),
            old(self)@.operands_ok(1),
        ensures
            final(self).translated(old(self), old(self)@.unary(UnaryOp::F32ConvertI64S), r),
    {
        self.translate_unary(UnaryOp::F32ConvertI64S)
    }

    /// Translates `f32.convert_i64_u`.
    pub fn visit_f32_convert_i64_u(&mut self) -> (r: Result<(), TranslationError>)
        requires
            old(self).wf(),
            old(self)@.operands_ok(1),
        ensures
            final(self).translated(old(self), old(self)@.unary(UnaryOp::F32ConvertI64U), r),
    {
        self.translate_unary(UnaryOp::F32ConvertI64U)
    }

    /// Translates `f32.demote_f64`.
    pub fn visit_f32_demote_f64(&mut self) -> (r: Result<(), TranslationError>)
        requires
            old(self).wf(),
            old(self)@.operands_ok(1),
        ensures
            final(self).translated(old(self), old(self)@.unary(UnaryOp::F32DemoteF64), r),
    {
        self.translate_unary(UnaryOp::F32DemoteF64)
    }

    /// Translates `f64.convert_i32_s`.
    pub fn visit_f64_convert_i32_s(&mut self) -> (r: Result<(), TranslationError>)
        requires
            old(self).wf(),
            old(self)@.operands_ok(1),
        ensures
            final(self).translated(old(self), old(self)@.unary(UnaryOp::F64ConvertI32S), r),
    {
        self.translate_unary(UnaryOp::F64ConvertI32S)
    }

    /// Translates `f64.convert_i32_u`.
    pub fn visit_f64_convert_i32_u(&mut self) -> (r: Result<(), TranslationError>)
        requires
            old(self).wf(),
            old(self)@.operands_ok(1),
        ensures
            final(self).translated(old(self), old(self)@.unary(UnaryOp::F64ConvertI32U), r),
    {
        self.translate_unary(UnaryOp::F64ConvertI32U)
    }

    /// Translates `f64.convert_i64_s`.
    pub fn visit_f64_convert_i64_s(&mut self) -> (r: Result<(), TranslationError>)
        requires
            old(self).wf(),
            old(self)@.operands_ok(1),
        ensures
            final(self).translated(old(self), old(self)@.unary(UnaryOp::F64ConvertI64S), r),
    {
        self.translate_unary(UnaryOp::F64ConvertI64S)
    }

    /// Translates `f64.convert_i64_u`.
    pub fn visit_f64_convert_i64_u(&mut self) -> (r: Result<(), TranslationError>)
        requires
            old(self).wf(),
            old(self)@.operands_ok(1),
        ensures
            final(self).translated(old(self), old(self)@.unary(UnaryOp::F64ConvertI64U), r),
    {
        self.translate_unary(UnaryOp::F64ConvertI64U)
    }

    /// Translates `f64.promote_f32`.
    pub fn visit_f64_promote_f32(&mut self) -> (r: Result<(), TranslationError>)
        requires
            old(self).wf(),
            old(self)@.operands_ok(1),
        ensures
            final(self).translated(old(self), old(self)@.unary(UnaryOp::F64PromoteF32), r),
    {
        self.translate_unary(UnaryOp::F64PromoteF32)
    }

    /// Translates `i32.extend8_s`.
    pub fn visit_i32_extend8_s(&mut self) -> (r: Result<(), TranslationError>)
        requires
            old(self).wf(),
            old(self)@.operands_ok(1),
        ensures
            final(self).translated(old(self), old(self)@.unary(UnaryOp::I32Extend8S), r),
    {
        self.translate_unary(UnaryOp::I32Extend8S)
    }

    /// Translates `i32.extend16_s`.
    pub fn visit_i32_extend16_s(&mut self) -> (r: Result<(), TranslationError>)
        requires
            old(self).wf(),
            old(self)@.operands_ok(1),
        ensures
            final(self).translated(old(self), old(self)@.unary(UnaryOp::I32Extend16S), r),
    {
        self.translate_unary(UnaryOp::I32Extend16S)
    }

    /// Translates `i64.extend8_s`.
    pub fn visit_i64_extend8_s(&mut self) -> (r: Result<(), TranslationError>)
        requires
            old(self).wf(),
            old(self)@.operands_ok(1),
        ensures
            final(self).translated(old(self), old(self)@.unary(UnaryOp::I64Extend8S), r),
    {
        self.translate_unary(UnaryOp::I64Extend8S)
    }

    /// Translates `i64.extend16_s`.
    pub fn visit_i64_extend16_s(&mut self) -> (r: Result<(), TranslationError>)
        requires
            old(self).wf(),
            old(self)@.operands_ok(1),
        ensures
            final(self).translated(old(self), old(self)@.unary(UnaryOp::I64Extend16S), r),
    {
        self.translate_unary(UnaryOp::I64Extend16S)
    }

    /// Translates `i64.extend32_s`.
    pub fn visit_i64_extend32_s(&mut self) -> (r: Result<(), TranslationError>)
        requires
            old(self).wf(),
            old(self)@.operands_ok(1),
        ensures
            final(self).translated(old(self), old(self)@.unary(UnaryOp::I64Extend32S), r),
    {
        self.translate_unary(UnaryOp::I64Extend32S)
    }

    /// Translates `i32.trunc_sat_f32_s`.
    pub fn visit_i32_trunc_sat_f32_s(&mut self) -> (r: Result<(), TranslationError>)
        requires
            old(self).wf(),
            old(self)@.operands_ok(1),
        ensures
            final(self).translated(old(self), old(self)@.unary(UnaryOp::I32TruncSatF32S), r),
    {
        self.translate_unary(UnaryOp::I32TruncSatF32S)
    }

    /// Translates `i32.trunc_sat_f32_u`.
    pub fn visit_i32_trunc_sat_f32_u(&mut self) -> (r: Result<(), TranslationError>)
        requires
            old(self).wf(),
            old(self)@.operands_ok(1),
        ensures
            final(self).translated(old(self), old(self)@.unary(UnaryOp::I32TruncSatF32U), r),
    {
        self.translate_unary(UnaryOp::I32TruncSatF32U)
    }

    /// Translates `i32.trunc_sat_f64_s`.
    pub fn visit_i32_trunc_sat_f64_s(&mut self) -> (r: Result<(), TranslationError>)
        requires
            old(self).wf(),
            old(self)@.operands_ok(1),
        ensures
            final(self).translated(old(self), old(self)@.unary(UnaryOp::I32TruncSatF64S), r),
    {
        self.translate_unary(UnaryOp::I32TruncSatF64S)
    }

    /// Translates `i32.trunc_sat_f64_u`.
    pub fn visit_i32_trunc_sat_f64_u(&mut self) -> (r: Result<(), TranslationError>)
        requires
            old(self).wf(),
            old(self)@.operands_ok(1),
        ensures
            final(self).translated(old(self), old(self)@.unary(UnaryOp::I32TruncSatF64U), r),
    {
        self.translate_unary(UnaryOp::I32TruncSatF64U)
    }

    /// Translates `i64.trunc_sat_f32_s`.
    pub fn visit_i64_trunc_sat_f32_s(&mut self) -> (r: Result<(), TranslationError>)
        requires
            old(self).wf(),
            old(self)@.operands_ok(1),
        ensures
            final(self).translated(old(self), old(self)@.unary(UnaryOp::I64TruncSatF32S), r),
    {
        self.translate_unary(UnaryOp::I64TruncSatF32S)
    }

    /// Translates `i64.trunc_sat_f32_u`.
    pub fn visit_i64_trunc_sat_f32_u(&mut self) -> (r: Result<(), TranslationError>)
        requires
            old(self).wf(),
            old(self)@.operands_ok(1),
        ensures
            final(self).translated(old(self), old(self)@.unary(UnaryOp::I64TruncSatF32U), r),
    {
        self.translate_unary(UnaryOp::I64TruncSatF32U)
    }

    /// Translates `i64.trunc_sat_f64_s`.
    pub fn visit_i64_trunc_sat_f64_s(&mut self) -> (r: Result<(), TranslationError>)
        requires
            old(self).wf(),
            old(self)@.operands_ok(1),
        ensures
            final(self).translated(old(self), old(self)@.unary(UnaryOp::I64TruncSatF64S), r),
    {
        self.translate_unary(UnaryOp::I64TruncSatF64S)
    }

    /// Translates `i64.trunc_sat_f64_u`.
    pub fn visit_i64_trunc_sat_f64_u(&mut self) -> (r: Result<(), TranslationError>)
        requires
            old(self).wf(),
            old(self)@.operands_ok(1),
        ensures
            final(self).translated(old(self), old(self)@.unary(UnaryOp::I64TruncSatF64U), r),
    {
        self.translate_unary(UnaryOp::I64TruncSatF64U)
    }

    /// Translates `i32.eq`.
    pub fn visit_i32_eq(&mut self) -> (r: Result<(), TranslationError>)
        requires
            old(self).wf(),
            old(self)@.operands_ok(2),
        ensures
            final(self).translated(old(self), old(self)@.binary(BinaryOp::I32Eq), r),
    {
        self.translate_binary(BinaryOp::I32Eq)
    }

    /// Translates `i32.ne`.
    pub fn visit_i32_ne(&mut self) -> (r: Result<(), TranslationError>)
        requires
            old(self).wf(),
            old(self)@.operands_ok(2),
        ensures
            final(self).translated(old(self), old(self)@.binary(BinaryOp::I32Ne), r),
    {
        self.translate_binary(BinaryOp::I32Ne)
    }

    /// Translates `i32.lt_s`.
    pub fn visit_i32_lt_s(&mut self) -> (r: Result<(), TranslationError>)
        requires
            old(self).wf(),
            old(self)@.operands_ok(2),
        ensures
            final(self).translated(old(self), old(self)@.binary(BinaryOp::I32LtS), r),
    {
        self.translate_binary(BinaryOp::I32LtS)
    }

    /// Translates `i32.lt_u`.
    pub fn visit_i32_lt_u(&mut self) -> (r: Result<(), TranslationError>)
        requires
            old(self).wf(),
            old(self)@.operands_ok(2),
        ensures
            final(self).translated(old(self), old(self)@.binary(BinaryOp::I32LtU), r),
    {
        self.translate_binary(BinaryOp::I32LtU)
    }

    /// Translates `i32.gt_s`.
    pub fn visit_i32_gt_s(&mut self) -> (r: Result<(), TranslationError>)
        requires
            old(self).wf(),
            old(self)@.operands_ok(2),
        ensures
            final(self).translated(old(self), old(self)@.binary(BinaryOp::I32GtS), r),
    {
        self.translate_binary(BinaryOp::I32GtS)
    }

    /// Translates `i32.gt_u`.
    pub fn visit_i32_gt_u(&mut self) -> (r: Result<(), TranslationError>)
        requires
            old(self).wf(),
            old(self)@.operands_ok(2),
        ensures
            final(self).translated(old(self), old(self)@.binary(BinaryOp::I32GtU), r),
    {
        self.translate_binary(BinaryOp::I32GtU)
    }

    /// Translates `i32.le_s`.
    pub fn visit_i32_le_s(&mut self) -> (r: Result<(), TranslationError>)
        requires
            old(self).wf(),
            old(self)@.operands_ok(2),
        ensures
            final(self).translated(old(self), old(self)@.binary(BinaryOp::I32LeS), r),
    {
        self.translate_binary(BinaryOp::I32LeS)
    }

    /// Translates `i32.le_u`.
    pub fn visit_i32_le_u(&mut self) -> (r: Result<(), TranslationError>)
        requires
            old(self).wf(),
            old(self)@.operands_ok(2),
        ensures
            final(self).translated(old(self), old(self)@.binary(BinaryOp::I32LeU), r),
    {
        self.translate_binary(BinaryOp::I32LeU)
    }

    /// Translates `i32.ge_s`.
    pub fn visit_i32_ge_s(&mut self) -> (r: Result<(), TranslationError>)
        requires
            old(self).wf(),
            old(self)@.operands_ok(2),
        ensures
            final(self).translated(old(self), old(self)@.binary(BinaryOp::I32GeS), r),
    {
        self.translate_binary(BinaryOp::I32GeS)
    }

    /// Translates `i32.ge_u`.
    pub fn visit_i32_ge_u(&mut self) -> (r: Result<(), TranslationError>)
        requires
            old(self).wf(),
            old(self)@.operands_ok(2),
        ensures
            final(self).translated(old(self), old(self)@.binary(BinaryOp::I32GeU), r),
    {
        self.translate_binary(BinaryOp::I32GeU)
    }

    /// Translates `i32.add`.
    pub fn visit_i32_add(&mut self) -> (r: Result<(), TranslationError>)
        requires
            old(self).wf(),
            old(self)@.operands_ok(2),
        ensures
            final(self).translated(old(self), old(self)@.binary(BinaryOp::I32Add), r),
    {
        self.translate_binary(BinaryOp::I32Add)
    }

    /// Translates `i32.sub`.
    pub fn visit_i32_sub(&mut self) -> (r: Result<(), TranslationError>)
        requires
            old(self).wf(),
            old(self)@.operands_ok(2),
        ensures
            final(self).translated(old(self), old(self)@.binary(BinaryOp::I32Sub), r),
    {
        self.translate_binary(BinaryOp::I32Sub)
    }

    /// Translates `i32.mul`.
    pub fn visit_i32_mul(&mut self) -> (r: Result<(), TranslationError>)
        requires
            old(self).wf(),
            old(self)@.operands_ok(2),
        ensures
            final(self).translated(old(self), old(self)@.binary(BinaryOp::I32Mul), r),
    {
        self.translate_binary(BinaryOp::I32Mul)
    }

    /// Translates `i32.div_s`.
    pub fn visit_i32_div_s(&mut self) -> (r: Result<(), TranslationError>)
        requires
            old(self).wf(),
            old(self)@.operands_ok(2),
        ensures
            final(self).translated(old(self), old(self)@.binary(BinaryOp::I32DivS), r),
    {
        self.translate_binary(BinaryOp::I32DivS)
    }

    /// Translates `i32.div_u`.
    pub fn visit_i32_div_u(&mut self) -> (r: Result<(), TranslationError>)
        requires
            old(self).wf(),
            old(self)@.operands_ok(2),
        ensures
            final(self).translated(old(self), old(self)@.binary(BinaryOp::I32DivU), r),
    {
        self.translate_binary(BinaryOp::I32DivU)
    }

    /// Translates `i32.rem_s`.
    pub fn visit_i32_rem_s(&mut self) -> (r: Result<(), TranslationError>)
        requires
            old(self).wf(),
            old(self)@.operands_ok(2),
        ensures
            final(self).translated(old(self), old(self)@.binary(BinaryOp::I32RemS), r),
    {
        self.translate_binary(BinaryOp::I32RemS)
    }

    /// Translates `i32.rem_u`.
    pub fn visit_i32_rem_u(&mut self) -> (r: Result<(), TranslationError>)
        requires
            old(self).wf(),
            old(self)@.operands_ok(2),
        ensures
            final(self).translated(old(self), old(self)@.binary(BinaryOp::I32RemU), r),
    {
        self.translate_binary(BinaryOp::I32RemU)
    }

    /// Translates `i32.and`.
    pub fn visit_i32_and(&mut self) -> (r: Result<(), TranslationError>)
        requires
            old(self).wf(),
            old(self)@.operands_ok(2),
        ensures
            final(self).translated(old(self), old(self)@.binary(BinaryOp::I32And), r),
    {
        self.translate_binary(BinaryOp::I32And)
    }

    /// Translates `i32.or`.
    pub fn visit_i32_or(&mut self) -> (r: Result<(), TranslationError>)
        requires
            old(self).wf(),
            old(self)@.operands_ok(2),
        ensures
            final(self).translated(old(self), old(self)@.binary(BinaryOp::I32Or), r),
    {
        self.translate_binary(BinaryOp::I32Or)
    }

    /// Translates `i32.xor`.
    pub fn visit_i32_xor(&mut self) -> (r: Result<(), TranslationError>)
        requires
            old(self).wf(),
            old(self)@.operands_ok(2),
        ensures
            final(self).translated(old(self), old(self)@.binary(BinaryOp::I32Xor), r),
    {
        self.translate_binary(BinaryOp::I32Xor)
    }

    /// Translates `i32.shl`.
    pub fn visit_i32_shl(&mut self) -> (r: Result<(), TranslationError>)
        requires
            old(self).wf(),
            old(self)@.operands_ok(2),
        ensures
            final(self).translated(old(self), old(self)@.binary(BinaryOp::I32Shl), r),
    {
        self.translate_binary(BinaryOp::I32Shl)
    }

    /// Translates `i32.shr_s`.
    pub fn visit_i32_shr_s(&mut self) -> (r: Result<(), TranslationError>)
        requires
            old(self).wf(),
            old(self)@.operands_ok(2),
        ensures
            final(self).translated(old(self), old(self)@.binary(BinaryOp::I32ShrS), r),
    {
        self.translate_binary(BinaryOp::I32ShrS)
    }

    /// Translates `i32.shr_u`.
    pub fn visit_i32_shr_u(&mut self) -> (r: Result<(), TranslationError>)
        requires
            old(self).wf(),
            old(self)@.operands_ok(2),
        ensures
            final(self).translated(old(self), old(self)@.binary(BinaryOp::I32ShrU), r),
    {
        self.translate_binary(BinaryOp::I32ShrU)
    }

    /// Translates `i32.rotl`.
    pub fn visit_i32_rotl(&mut self) -> (r: Result<(), TranslationError>)
        requires
            old(self).wf(),
            old(self)@.operands_ok(2),
        ensures
            final(self).translated(old(self), old(self)@.binary(BinaryOp::I32Rotl), r),
    {
        self.translate_binary(BinaryOp::I32Rotl)
    }

    /// Translates `i32.rotr`.
    pub fn visit_i32_rotr(&mut self) -> (r: Result<(), TranslationError>)
        requires
            old(self).wf(),
            old(self)@.operands_ok(2),
        ensures
            final(self).translated(old(self), old(self)@.binary(BinaryOp::I32Rotr), r),
    {
        self.translate_binary(BinaryOp::I32Rotr)
    }

    /// Translates `i64.eq`.
    pub fn visit_i64_eq(&mut self) -> (r: Result<(), TranslationError>)
        requires
            old(self).wf(),
            old(self)@.operands_ok(2),
        ensures
            final(self).translated(old(self), old(self)@.binary(BinaryOp::I64Eq), r),
    {
        self.translate_binary(BinaryOp::I64Eq)
    }

    /// Translates `i64.ne`.
    pub fn visit_i64_ne(&mut self) -> (r: Result<(), TranslationError>)
        requires
            old(self).wf(),
            old(self)@.operands_ok(2),
        ensures
            final(self).translated(old(self), old(self)@.binary(BinaryOp::I64Ne), r),
    {
        self.translate_binary(BinaryOp::I64Ne)
    }

    /// Translates `i64.lt_s`.
    pub fn visit_i64_lt_s(&mut self) -> (r: Result<(), TranslationError>)
        requires
            old(self).wf(),
            old(self)@.operands_ok(2),
        ensures
            final(self).translated(old(self), old(self)@.binary(BinaryOp::I64LtS), r),
    {
        self.translate_binary(BinaryOp::I64LtS)
    }

    /// Translates `i64.lt_u`.
    pub fn visit_i64_lt_u(&mut self) -> (r: Result<(), TranslationError>)
        requires
            old(self).wf(),
            old(self)@.operands_ok(2),
        ensures
            final(self).translated(old(self), old(self)@.binary(BinaryOp::I64LtU), r),
    {
        self.translate_binary(BinaryOp::I64LtU)
    }

    /// Translates `i64.gt_s`.
    pub fn visit_i64_gt_s(&mut self) -> (r: Result<(), TranslationError>)
        requires
            old(self).wf(),
            old(self)@.operands_ok(2),
        ensures
            final(self).translated(old(self), old(self)@.binary(BinaryOp::I64GtS), r),
    {
        self.translate_binary(BinaryOp::I64GtS)
    }

    /// Translates `i64.gt_u`.
    pub fn visit_i64_gt_u(&mut self) -> (r: Result<(), TranslationError>)
        requires
            old(self).wf(),
            old(self)@.operands_ok(2),
        ensures
            final(self).translated(old(self), old(self)@.binary(BinaryOp::I64GtU), r),
    {
        self.translate_binary(BinaryOp::I64GtU)
    }

    /// Translates `i64.le_s`.
    pub fn visit_i64_le_s(&mut self) -> (r: Result<(), TranslationError>)
        requires
            old(self).wf(),
            old(self)@.operands_ok(2),
        ensures
            final(self).translated(old(self), old(self)@.binary(BinaryOp::I64LeS), r),
    {
        self.translate_binary(BinaryOp::I64LeS)
    }

    /// Translates `i64.le_u`.
    pub fn visit_i64_le_u(&mut self) -> (r: Result<(), TranslationError>)
        requires
            old(self).wf(),
            old(self)@.operands_ok(2),
        ensures
            final(self).translated(old(self), old(self)@.binary(BinaryOp::I64LeU), r),
    {
        self.translate_binary(BinaryOp::I64LeU)
    }

    /// Translates `i64.ge_s`.
    pub fn visit_i64_ge_s(&mut self) -> (r: Result<(), TranslationError>)
        requires
            old(self).wf(),
            old(self)@.operands_ok(2),
        ensures
            final(self).translated(old(self), old(self)@.binary(BinaryOp::I64GeS), r),
    {
        self.translate_binary(BinaryOp::I64GeS)
    }

    /// Translates `i64.ge_u`.
    pub fn visit_i64_ge_u(&mut self) -> (r: Result<(), TranslationError>)
        requires
            old(self).wf(),
            old(self)@.operands_ok(2),
        ensures
            final(self).translated(old(self), old(self)@.binary(BinaryOp::I64GeU), r),
    {
        self.translate_binary(BinaryOp::I64GeU)
    }

    /// Translates `i64.add`.
    pub fn visit_i64_add(&mut self) -> (r: Result<(), TranslationError>)
        requires
            old(self).wf(),
            old(self)@.operands_ok(2),
        ensures
            final(self).translated(old(self), old(self)@.binary(BinaryOp::I64Add), r),
    {
        self.translate_binary(BinaryOp::I64Add)
    }

    /// Translates `i64.sub`.
    pub fn visit_i64_sub(&mut self) -> (r: Result<(), TranslationError>)
        requires
            old(self).wf(),
            old(self)@.operands_ok(2),
        ensures
            final(self).translated(old(self), old(self)@.binary(BinaryOp::I64Sub), r),
    {
        self.translate_binary(BinaryOp::I64Sub)
    }

    /// Translates `i64.mul`.
    pub fn visit_i64_mul(&mut self) -> (r: Result<(), TranslationError>)
        requires
            old(self).wf(),
            old(self)@.operands_ok(2),
        ensures
            final(self).translated(old(self), old(self)@.binary(BinaryOp::I64Mul), r),
    {
        self.translate_binary(BinaryOp::I64Mul)
    }

    /// Translates `i64.div_s`.
    pub fn visit_i64_div_s(&mut self) -> (r: Result<(), TranslationError>)
        requires
            old(self).wf(),
            old(self)@.operands_ok(2),
        ensures
            final(self).translated(old(self), old(self)@.binary(BinaryOp::I64DivS), r),
    {
        self.translate_binary(BinaryOp::I64DivS)
    }

    /// Translates `i64.div_u`.
    pub fn visit_i64_div_u(&mut self) -> (r: Result<(), TranslationError>)
        requires
            old(self).wf(),
            old(self)@.operands_ok(2),
        ensures
            final(self).translated(old(self), old(self)@.binary(BinaryOp::I64DivU), r),
    {
        self.translate_binary(BinaryOp::I64DivU)
    }

    /// Translates `i64.rem_s`.
    pub fn visit_i64_rem_s(&mut self) -> (r: Result<(), TranslationError>)
        requires
            old(self).wf(),
            old(self)@.operands_ok(2),
        ensures
            final(self).translated(old(self), old(self)@.binary(BinaryOp::I64RemS), r),
    {
        self.translate_binary(BinaryOp::I64RemS)
    }

    /// Translates `i64.rem_u`.
    pub fn visit_i64_rem_u(&mut self) -> (r: Result<(), TranslationError>)
        requires
            old(self).wf(),
            old(self)@.operands_ok(2),
        ensures
            final(self).translated(old(self), old(self)@.binary(BinaryOp::I64RemU), r),
    {
        self.translate_binary(BinaryOp::I64RemU)
    }

    /// Translates `i64.and`.
    pub fn visit_i64_and(&mut self) -> (r: Result<(), TranslationError>)
        requires
            old(self).wf(),
            old(self)@.operands_ok(2),
        ensures
            final(self).translated(old(self), old(self)@.binary(BinaryOp::I64And), r),
    {
        self.translate_binary(BinaryOp::I64And)
    }

    /// Translates `i64.or`.
    pub fn visit_i64_or(&mut self) -> (r: Result<(), TranslationError>)
        requires
            old(self).wf(),
            old(self)@.operands_ok(2),
        ensures
            final(self).translated(old(self), old(self)@.binary(BinaryOp::I64Or), r),
    {
        self.translate_binary(BinaryOp::I64Or)
    }

    /// Translates `i64.xor`.
    pub fn visit_i64_xor(&mut self) -> (r: Result<(), TranslationError>)
        requires
            old(self).wf(),
            old(self)@.operands_ok(2),
        ensures
            final(self).translated(old(self), old(self)@.binary(BinaryOp::I64Xor), r),
    {
        self.translate_binary(BinaryOp::I64Xor)
    }

    /// Translates `i64.shl`.
    pub fn visit_i64_shl(&mut self) -> (r: Result<(), TranslationError>)
        requires
            old(self).wf(),
            old(self)@.operands_ok(2),
        ensures
            final(self).translated(old(self), old(self)@.binary(BinaryOp::I64Shl), r),
    {
        self.translate_binary(BinaryOp::I64Shl)
    }

    /// Translates `i64.shr_s`.
    pub fn visit_i64_shr_s(&mut self) -> (r: Result<(), TranslationError>)
        requires
            old(self).wf(),
            old(self)@.operands_ok(2),
        ensures
            final(self).translated(old(self), old(self)@.binary(BinaryOp::I64ShrS), r),
    {
        self.translate_binary(BinaryOp::I64ShrS)
    }

    /// Translates `i64.shr_u`.
    pub fn visit_i64_shr_u(&mut self) -> (r: Result<(), TranslationError>)
        requires
            old(self).wf(),
            old(self)@.operands_ok(2),
        ensures
            final(self).translated(old(self), old(self)@.binary(BinaryOp::I64ShrU), r),
    {
        self.translate_binary(BinaryOp::I64ShrU)
    }

    /// Translates `i64.rotl`.
    pub fn visit_i64_rotl(&mut self) -> (r: Result<(), TranslationError>)
        requires
            old(self).wf(),
            old(self)@.operands_ok(2),
        ensures
            final(self).translated(old(self), old(self)@.binary(BinaryOp::I64Rotl), r),
    {
        self.translate_binary(BinaryOp::I64Rotl)
    }

    /// Translates `i64.rotr`.
    pub fn visit_i64_rotr(&mut self) -> (r: Result<(), TranslationError>)
        requires
            old(self).wf(),
            old(self)@.operands_ok(2),
        ensures
            final(self).translated(old(self), old(self)@.binary(BinaryOp::I64Rotr), r),
    {
        self.translate_binary(BinaryOp::I64Rotr)
    }

    /// Translates `f32.eq`.
    pub fn visit_f32_eq(&mut self) -> (r: Result<(), TranslationError>)
        requires
            old(self).wf(),
            old(self)@.operands_ok(2),
        ensures
            final(self).translated(old(self), old(self)@.binary(BinaryOp::F32Eq), r),
    {
        self.translate_binary(BinaryOp::F32Eq)
    }

    /// Translates `f32.ne`.
    pub fn visit_f32_ne(&mut self) -> (r: Result<(), TranslationError>)
        requires
            old(self).wf(),
            old(self)@.operands_ok(2),
        ensures
            final(self).translated(old(self), old(self)@.binary(BinaryOp::F32Ne), r),
    {
        self.translate_binary(BinaryOp::F32Ne)
    }

    /// Translates `f32.lt`.
    pub fn visit_f32_lt(&mut self) -> (r: Result<(), TranslationError>)
        requires
            old(self).wf(),
            old(self)@.operands_ok(2),
        ensures
            final(self).translated(old(self), old(self)@.binary(BinaryOp::F32Lt), r),
    {
        self.translate_binary(BinaryOp::F32Lt)
    }

    /// Translates `f32.gt`.
    pub fn visit_f32_gt(&mut self) -> (r: Result<(), TranslationError>)
        requires
            old(self).wf(),
            old(self)@.operands_ok(2),
        ensures
            final(self).translated(old(self), old(self)@.binary(BinaryOp::F32Gt), r),
    {
        self.translate_binary(BinaryOp::F32Gt)
    }

    /// Translates `f32.le`.
    pub fn visit_f32_le(&mut self) -> (r: Result<(), TranslationError>)
        requires
            old(self).wf(),
            old(self)@.operands_ok(2),
        ensures
            final(self).translated(old(self), old(self)@.binary(BinaryOp::F32Le), r),
    {
        self.translate_binary(BinaryOp::F32Le)
    }

    /// Translates `f32.ge`.
    pub fn visit_f32_ge(&mut self) -> (r: Result<(), TranslationError>)
        requires
            old(self).wf(),
            old(self)@.operands_ok(2),
        ensures
            final(self).translated(old(self), old(self)@.binary(BinaryOp::F32Ge), r),
    {
        self.translate_binary(BinaryOp::F32Ge)
    }

    /// Translates `f32.add`.
    pub fn visit_f32_add(&mut self) -> (r: Result<(), TranslationError>)
        requires
            old(self).wf(),
            old(self)@.operands_ok(2),
        ensures
            final(self).translated(old(self), old(self)@.binary(BinaryOp::F32Add), r),
    {
        self.translate_binary(BinaryOp::F32Add)
    }

    /// Translates `f32.sub`.
    pub fn visit_f32_sub(&mut self) -> (r: Result<(), TranslationError>)
        requires
            old(self).wf(),
            old(self)@.operands_ok(2),
        ensures
            final(self).translated(old(self), old(self)@.binary(BinaryOp::F32Sub), r),
    {
        self.translate_binary(BinaryOp::F32Sub)
    }

    /// Translates `f32.mul`.
    pub fn visit_f32_mul(&mut self) -> (r: Result<(), TranslationError>)
        requires
            old(self).wf(),
            old(self)@.operands_ok(2),
        ensures
            final(self).translated(old(self), old(self)@.binary(BinaryOp::F32Mul), r),
    {
        self.translate_binary(BinaryOp::F32Mul)
    }

    /// Translates `f32.div`.
    pub fn visit_f32_div(&mut self) -> (r: Result<(), TranslationError>)
        requires
            old(self).wf(),
            old(self)@.operands_ok(2),
        ensures
            final(self).translated(old(self), old(self)@.binary(BinaryOp::F32Div), r),
    {
        self.translate_binary(BinaryOp::F32Div)
    }

    /// Translates `f32.min`.
    pub fn visit_f32_min(&mut self) -> (r: Result<(), TranslationError>)
        requires
            old(self).wf(),
            old(self)@.operands_ok(2),
        ensures
            final(self).translated(old(self), old(self)@.binary(BinaryOp::F32Min), r),
    {
        self.translate_binary(BinaryOp::F32Min)
    }

    /// Translates `f32.max`.
    pub fn visit_f32_max(&mut self) -> (r: Result<(), TranslationError>)
        requires
            old(self).wf(),
            old(self)@.operands_ok(2),
        ensures
            final(self).translated(old(self), old(self)@.binary(BinaryOp::F32Max), r),
    {
        self.translate_binary(BinaryOp::F32Max)
    }

    /// Translates `f32.copysign`.
    pub fn visit_f32_copysign(&mut self) -> (r: Result<(), TranslationError>)
        requires
            old(self).wf(),
            old(self)@.operands_ok(2),
        ensures
            final(self).translated(old(self), old(self)@.binary(BinaryOp::F32Copysign), r),
    {
        self.translate_binary(BinaryOp::F32Copysign)
    }

    /// Translates `f64.eq`.
    pub fn visit_f64_eq(&mut self) -> (r: Result<(), TranslationError>)
        requires
            old(self).wf(),
            old(self)@.operands_ok(2),
        ensures
            final(self).translated(old(self), old(self)@.binary(BinaryOp::F64Eq), r),
    {
        self.translate_binary(BinaryOp::F64Eq)
    }

    /// Translates `f64.ne`.
    pub fn visit_f64_ne(&mut self) -> (r: Result<(), TranslationError>)
        requires
            old(self).wf(),
            old(self)@.operands_ok(2),
        ensures
            final(self).translated(old(self), old(self)@.binary(BinaryOp::F64Ne), r),
    {
        self.translate_binary(BinaryOp::F64Ne)
    }

    /// Translates `f64.lt`.
    pub fn visit_f64_lt(&mut self) -> (r: Result<(), TranslationError>)
        requires
            old(self).wf(),
            old(self)@.operands_ok(2),
        ensures
            final(self).translated(old(self), old(self)@.binary(BinaryOp::F64Lt), r),
    {
        self.translate_binary(BinaryOp::F64Lt)
    }

    /// Translates `f64.gt`.
    pub fn visit_f64_gt(&mut self) -> (r: Result<(), TranslationError>)
        requires
            old(self).wf(),
            old(self)@.operands_ok(2),
        ensures
            final(self).translated(old(self), old(self)@.binary(BinaryOp::F64Gt), r),
    {
        self.translate_binary(BinaryOp::F64Gt)
    }

    /// Translates `f64.le`.
    pub fn visit_f64_le(&mut self) -> (r: Result<(), TranslationError>)
        requires
            old(self).wf(),
            old(self)@.operands_ok(2),
        ensures
            final(self).translated(old(self), old(self)@.binary(BinaryOp::F64Le), r),
    {
        self.translate_binary(BinaryOp::F64Le)
    }

    /// Translates `f64.ge`.
    pub fn visit_f64_ge(&mut self) -> (r: Result<(), TranslationError>)
        requires
            old(self).wf(),
            old(self)@.operands_ok(2),
        ensures
            final(self).translated(old(self), old(self)@.binary(BinaryOp::F64Ge), r),
    {
        self.translate_binary(BinaryOp::F64Ge)
    }

    /// Translates `f64.add`.
    pub fn visit_f64_add(&mut self) -> (r: Result<(), TranslationError>)
        requires
            old(self).wf(),
            old(self)@.operands_ok(2),
        ensures
            final(self).translated(old(self), old(self)@.binary(BinaryOp::F64Add), r),
    {
        self.translate_binary(BinaryOp::F64Add)
    }

    /// Translates `f64.sub`.
    pub fn visit_f64_sub(&mut self) -> (r: Result<(), TranslationError>)
        requires
            old(self).wf(),
            old(self)@.operands_ok(2),
        ensures
            final(self).translated(old(self), old(self)@.binary(BinaryOp::F64Sub), r),
    {
        self.translate_binary(BinaryOp::F64Sub)
    }

    /// Translates `f64.mul`.
    pub fn visit_f64_mul(&mut self) -> (r: Result<(), TranslationError>)
        requires
            old(self).wf(),
            old(self)@.operands_ok(2),
        ensures
            final(self).translated(old(self), old(self)@.binary(BinaryOp::F64Mul), r),
    {
        self.translate_binary(BinaryOp::F64Mul)
    }

    /// Translates `f64.div`.
    pub fn visit_f64_div(&mut self) -> (r: Result<(), TranslationError>)
        requires
            old(self).wf(),
            old(self)@.operands_ok(2),
        ensures
            final(self).translated(old(self), old(self)@.binary(BinaryOp::F64Div), r),
    {
        self.translate_binary(BinaryOp::F64Div)
    }

    /// Translates `f64.min`.
    pub fn visit_f64_min(&mut self) -> (r: Result<(), TranslationError>)
        requires
            old(self).wf(),
            old(self)@.operands_ok(2),
        ensures
            final(self).translated(old(self), old(self)@.binary(BinaryOp::F64Min), r),
    {
        self.translate_binary(BinaryOp::F64Min)
    }

    /// Translates `f64.max`.
    pub fn visit_f64_max(&mut self) -> (r: Result<(), TranslationError>)
        requires
            old(self).wf(),
            old(self)@.operands_ok(2),
        ensures
            final(self).translated(old(self), old(self)@.binary(BinaryOp::F64Max), r),
    {
        self.translate_binary(BinaryOp::F64Max)
    }

    /// Translates `f64.copysign`.
    pub fn visit_f64_copysign(&mut self) -> (r: Result<(), TranslationError>)
        requires
            old(self).wf(),
            old(self)@.operands_ok(2),
        ensures
            final(self).translated(old(self), old(self)@.binary(BinaryOp::F64Copysign), r),
    {
        self.translate_binary(BinaryOp::F64Copysign)
    }

    /// Translates `i32.reinterpret_f32`.
    pub fn visit_i32_reinterpret_f32(&mut self) -> (r: Result<(), TranslationError>)
        requires
            old(self).wf(),
            old(self)@.operands_ok(1),
        ensures
            final(self).translated(old(self), old(self)@.reinterpret(ValueType::I32), r),
    {
        self.translate_reinterpret(ValueType::I32)
    }

    /// Translates `i64.reinterpret_f64`.
    pub fn visit_i64_reinterpret_f64(&mut self) -> (r: Result<(), TranslationError>)
        requires
            old(self).wf(),
            old(self)@.operands_ok(1),
        ensures
            final(self).translated(old(self), old(self)@.reinterpret(ValueType::I64), r),
    {
        self.translate_reinterpret(ValueType::I64)
    }

    /// Translates `f32.reinterpret_i32`.
    pub fn visit_f32_reinterpret_i32(&mut self) -> (r: Result<(), TranslationError>)
        requires
            old(self).wf(),
            old(self)@.operands_ok(1),
        ensures
            final(self).translated(old(self), old(self)@.reinterpret(ValueType::F32), r),
    {
        self.translate_reinterpret(ValueType::F32)
    }

    /// Translates `f64.reinterpret_i64`.
    pub fn visit_f64_reinterpret_i64(&mut self) -> (r: Result<(), TranslationError>)
        requires
            old(self).wf(),
            old(self)@.operands_ok(1),
        ensures
            final(self).translated(old(self), old(self)@.reinterpret(ValueType::F64), r),
    {
        self.translate_reinterpret(ValueType::F64)
    }
}

} // verus!
