//! Translation of the operators on locals, globals and constants, and of
//! the calls.

use vstd::prelude::*;
use crate::branches::lemma_encode_local_set_kept;

use crate::error::TranslationError;
use crate::instr::Instruction;
use crate::module::{FuncType, GlobalDecl, GlobalInit};
use crate::register::{Const16, RegSpan, Register};
use crate::translator::{lemma_base_height, lemma_step_wf, FuncTranslator, Translated, TranslatorView};
use crate::value::{Provider16, TypedProvider, TypedValue, ValueType};

verus! {

/// What a call goes to.
#[derive(Clone, Copy, Debug, PartialEq, Eq, Structural, Hash)]
pub enum CallTarget {
    /// The function of this module with this code.
    Internal(u32),
    /// The imported function with this index.
    Imported(u32),
    /// A function of the type with this index, found in a table.
    Indirect(u32),
}

/// The instruction that calls `target` and leaves the results in the
/// registers from `results` on.
pub open spec fn call_instr(target: CallTarget, results: RegSpan, has_params: bool) -> Instruction {
    match target {
        CallTarget::Internal(func) => if has_params {
            Instruction::CallInternal { results, func }
        } else {
            Instruction::CallInternal0 { results, func }
        },
        CallTarget::Imported(func) => if has_params {
            Instruction::CallImported { results, func }
        } else {
            Instruction::CallImported0 { results, func }
        },
        CallTarget::Indirect(func_type) => if has_params {
            Instruction::CallIndirect { results, func_type }
        } else {
            Instruction::CallIndirect0 { results, func_type }
        },
    }
}

/// The instruction that calls `target` in place of returning.
pub open spec fn return_call_instr(target: CallTarget, has_params: bool) -> Instruction {
    match target {
        CallTarget::Internal(func) => if has_params {
            Instruction::ReturnCallInternal { func }
        } else {
            Instruction::ReturnCallInternal0 { func }
        },
        CallTarget::Imported(func) => if has_params {
            Instruction::ReturnCallImported { func }
        } else {
            Instruction::ReturnCallImported0 { func }
        },
        CallTarget::Indirect(func_type) => if has_params {
            Instruction::ReturnCallIndirect { func_type }
        } else {
            Instruction::ReturnCallIndirect0 { func_type }
        },
    }
}

/// What a function of the module with the code `compiled`, if it has any,
/// and the index `function_index` is called as.
pub open spec fn direct_target(compiled: Option<u32>, function_index: u32) -> CallTarget {
    match compiled {
        Some(func) => CallTarget::Internal(func),
        None => CallTarget::Imported(function_index),
    }
}

impl TranslatorView {
    /// The state after pushing the temporary of the next position, and
    /// that temporary.
    pub open spec fn alloc_result(self) -> Result<(TranslatorView, Register), TranslationError> {
        match self.stack.push_dynamic() {
            Ok((stack, result)) => Ok((self.with_stack(stack), result)),
            Err(e) => Err(e),
        }
    }

    /// The state after interning `provider` if it is a constant, and the
    /// register that holds it.
    pub open spec fn register_of(self, provider: TypedProvider) -> Result<(TranslatorView, Register), TranslationError> {
        match self.stack.provider_register(provider) {
            Ok((stack, register)) => Ok((self.with_stack(stack), register)),
            Err(e) => Err(e),
        }
    }

    /// The operand of an instruction that stands for `provider`, read as
    /// an unsigned 32-bit number: the register, an immediate if the
    /// constant fits 16 bits, or the register of the interned constant.
    pub open spec fn provider16(self, provider: TypedProvider) -> Result<(TranslatorView, Provider16), TranslationError> {
        match provider {
            TypedProvider::Register(r) => Ok((self, Provider16::Register(r))),
            TypedProvider::Const(c) => if (c.bits as u32) <= u16::MAX {
                Ok((self, Provider16::Const(Const16(((c.bits as u32) as u16) as i16))))
            } else {
                match self.stack.alloc_const(c.bits) {
                    Ok((stack, r)) => Ok((self.with_stack(stack), Provider16::Register(r))),
                    Err(e) => Err(e),
                }
            },
        }
    }

    /// The state after emitting the temporary of the next position as the
    /// result of `make`.
    pub open spec fn produce(self, make: spec_fn(Register) -> Instruction) -> Translated {
        match self.alloc_result() {
            Err(e) => Err(e),
            Ok((t, result)) => t.push_instr(make(result)),
        }
    }

    /// `local.get`: the register of the local is the new operand.
    pub open spec fn visit_local_get(self, local_index: u32) -> Translated {
        if !self.reachable {
            Ok(self)
        } else {
            Ok(self.push(TypedProvider::Register(Register(local_index as i16))))
        }
    }

    /// A write of the topmost operand to the local with the index
    /// `local_index` in code that can be reached: the operand is popped,
    /// the operands that are this local are saved, and the write is
    /// emitted.
    pub open spec fn local_set(self, local_index: u32) -> Translated {
        let local = Register(local_index as i16);
        let value = self.stack.top();
        match self.with_stack(self.stack.drop_n(1)).preserve_locals(local, 0) {
            Err(e) => Err(e),
            Ok(t) => t.emit(t.encoder.encode_local_set(t.stack, local, value)),
        }
    }

    /// `local.set`.
    pub open spec fn visit_local_set(self, local_index: u32) -> Translated {
        if !self.reachable {
            Ok(self)
        } else {
            self.local_set(local_index)
        }
    }

    /// `local.tee`: a `local.set`, after which the register of the local
    /// is the new operand.
    pub open spec fn visit_local_tee(self, local_index: u32) -> Translated {
        if !self.reachable {
            Ok(self)
        } else {
            match self.local_set(local_index) {
                Err(e) => Err(e),
                Ok(t) => Ok(t.push(TypedProvider::Register(Register(local_index as i16)))),
            }
        }
    }

    /// A constant is the new operand.
    pub open spec fn visit_const(self, value: TypedValue) -> Translated {
        if !self.reachable {
            Ok(self)
        } else {
            Ok(self.push(TypedProvider::Const(value)))
        }
    }

    /// `ref.func`: the reference is written to a temporary.
    pub open spec fn visit_ref_func(self, function_index: u32) -> Translated {
        if !self.reachable {
            Ok(self)
        } else {
            self.produce(|result: Register| Instruction::RefFunc { result, func: function_index })
        }
    }

    /// `global.get` of the global `global`, which has the index
    /// `global_index`: the constant that an immutable global is
    /// initialised with, a `ref.func` for an immutable reference to a
    /// function, and else a read of the global to a temporary.
    pub open spec fn visit_global_get(self, global_index: u32, global: GlobalDecl) -> Translated {
        if !self.reachable {
            Ok(self)
        } else {
            match global.init {
                GlobalInit::Const(bits) if !global.mutable => Ok(
                    self.push(TypedProvider::Const(TypedValue { ty: global.content, bits })),
                ),
                GlobalInit::FuncRef(func) if !global.mutable => self.visit_ref_func(func),
                _ => self.produce(|result: Register| Instruction::GlobalGet { result, global: global_index }),
            }
        }
    }

    /// `global.set` of the global `global`, which has the index
    /// `global_index`: a write of a register, of a 16-bit immediate for an
    /// integer constant that fits, or of the register of the interned
    /// constant.
    pub open spec fn visit_global_set(self, global_index: u32, global: GlobalDecl) -> Translated {
        if !self.reachable {
            Ok(self)
        } else {
            let t = self.with_stack(self.stack.drop_n(1));
            match self.stack.top() {
                TypedProvider::Register(input) => t.push_instr(
                    Instruction::GlobalSet { global: global_index, input },
                ),
                TypedProvider::Const(c) => {
                    let imm = match global.content {
                        ValueType::I32 => if i16::MIN <= ((c.bits as u32) as i32) <= i16::MAX {
                            Some(
                                Instruction::GlobalSetI32Imm16 {
                                    global: global_index,
                                    input: Const16(((c.bits as u32) as i32) as i16),
                                },
                            )
                        } else {
                            None
                        },
                        ValueType::I64 => if i16::MIN <= (c.bits as i64) <= i16::MAX {
                            Some(
                                Instruction::GlobalSetI64Imm16 {
                                    global: global_index,
                                    input: Const16((c.bits as i64) as i16),
                                },
                            )
                        } else {
                            None
                        },
                        _ => None,
                    };
                    match imm {
                        Some(instr) => t.push_instr(instr),
                        None => match t.register_of(TypedProvider::Const(c)) {
                            Err(e) => Err(e),
                            Ok((t, input)) => t.push_instr(Instruction::GlobalSet { global: global_index, input }),
                        },
                    }
                },
            }
        }
    }

    /// The operands of an indirect call: the table and the index, which is
    /// a register, a 16-bit immediate, or the register of the interned
    /// constant.
    pub open spec fn table_params(self, index: TypedProvider, table: u32) -> Result<
        (TranslatorView, Instruction),
        TranslationError,
    > {
        match self.provider16(index) {
            Err(e) => Err(e),
            Ok((t, Provider16::Register(index))) => Ok((t, Instruction::CallIndirectParams { index, table })),
            Ok((t, Provider16::Const(index))) => Ok((t, Instruction::CallIndirectParamsImm16 { index, table })),
        }
    }

    /// A call of `target`, a function of the type `func_type`, once the
    /// fuel is charged and the index of an indirect call is popped: the
    /// arguments give way to the results, which are temporaries; the call
    /// is emitted, then the operands of an indirect call, then the
    /// arguments as a register list.
    pub open spec fn call(self, target: CallTarget, func_type: FuncType, table_params: Option<Instruction>) -> Translated {
        let len = func_type.len_params as int;
        let params = self.stack.peek_n(len);
        match self.stack.drop_n(len).push_dynamic_n(func_type.len_results as nat) {
            Err(e) => Err(e),
            Ok((stack, results)) => match self.with_stack(stack).push_instr(call_instr(target, results, len != 0)) {
                Err(e) => Err(e),
                Ok(t) => {
                    let with_table = match table_params {
                        Some(instr) => t.append_instr(instr),
                        None => Ok(t),
                    };
                    match with_table {
                        Err(e) => Err(e),
                        Ok(t) => t.emit(t.encoder.encode_register_list(t.stack, params)),
                    }
                },
            },
        }
    }

    /// A call of `target` in place of a return; what follows cannot be
    /// reached.
    pub open spec fn return_call(self, target: CallTarget, func_type: FuncType, table_params: Option<Instruction>) -> Translated {
        let len = func_type.len_params as int;
        let params = self.stack.peek_n(len);
        match self.with_stack(self.stack.drop_n(len)).push_instr(return_call_instr(target, len != 0)) {
            Err(e) => Err(e),
            Ok(t) => {
                let with_table = match table_params {
                    Some(instr) => t.append_instr(instr),
                    None => Ok(t),
                };
                match with_table {
                    Err(e) => Err(e),
                    Ok(t) => match t.emit(t.encoder.encode_register_list(t.stack, params)) {
                        Err(e) => Err(e),
                        Ok(t) => Ok(TranslatorView { reachable: false, ..t }),
                    },
                }
            },
        }
    }

    /// The fuel that a call costs.
    pub open spec fn call_cost(self) -> u64 {
        match self.fuel {
            Some(costs) => costs.call,
            None => 0,
        }
    }

    /// `call` or `return_call` (`tail`) of the function with the index
    /// `function_index`, which has the type `func_type` and, if the module
    /// defines it, the code `compiled`.
    pub open spec fn visit_call(self, function_index: u32, func_type: FuncType, compiled: Option<u32>, tail: bool) -> Translated {
        if !self.reachable {
            Ok(self)
        } else {
            match self.bump_fuel(self.call_cost()) {
                Err(e) => Err(e),
                Ok(t) => if tail {
                    t.return_call(direct_target(compiled, function_index), func_type, None)
                } else {
                    t.call(direct_target(compiled, function_index), func_type, None)
                },
            }
        }
    }

    /// `call_indirect` or `return_call_indirect` (`tail`) of a function of
    /// the type `func_type`, which has the index `type_index`, through the
    /// table with the index `table_index`.
    pub open spec fn visit_call_indirect(self, type_index: u32, table_index: u32, func_type: FuncType, tail: bool) -> Translated {
        if !self.reachable {
            Ok(self)
        } else {
            match self.bump_fuel(self.call_cost()) {
                Err(e) => Err(e),
                Ok(t) => {
                    let index = t.stack.top();
                    match t.with_stack(t.stack.drop_n(1)).table_params(index, table_index) {
                        Err(e) => Err(e),
                        Ok((t, table_params)) => if tail {
                            t.return_call(CallTarget::Indirect(type_index), func_type, Some(table_params))
                        } else {
                            t.call(CallTarget::Indirect(type_index), func_type, Some(table_params))
                        },
                    }
                },
            }
        }
    }
}

impl<'a> FuncTranslator<'a> {
    /// Pushes the temporary of the next position and emits `instr`, the
    /// instruction that `make` gives for that temporary as its result.
    pub(crate) fn produce(&mut self, instr: Instruction, Ghost(make): Ghost<spec_fn(Register) -> Instruction>) -> (r:
        Result<(), TranslationError>)
        requires
            old(self).wf(),
            old(self)@.reachable,
            old(self)@.stack.push_dynamic() matches Ok((_, result)) ==> instr == make(result),
        ensures
            final(self).translated(old(self), old(self)@.produce(make), r),
    {
        self.push_result()?;
        self.emit(instr)
    }

    /// The temporary that the next position owns, if it owns one.
    pub(crate) fn next_result(&self) -> (r: Register)
        requires
            self.wf(),
        ensures
            self@.stack.push_dynamic() matches Ok((_, result)) ==> r == result,
    {
        let h = self.stack.height();
        if self.stack.can_alloc(1) {
            Register((self.stack.len_locals() + h) as i16)
        } else {
            Register(0)
        }
    }

    /// Translates `local.get`.
    pub fn visit_local_get(&mut self, local_index: u32) -> (r: Result<(), TranslationError>)
        requires
            old(self).wf(),
            local_index < old(self)@.len_locals(),
        ensures
            final(self).translated(old(self), old(self)@.visit_local_get(local_index), r),
    {
        if !self.reachable {
            return Ok(());
        }
        proof {
            lemma_base_height(self@);
        }
        self.stack.push_local(local_index);
        proof {
            lemma_step_wf(old(self)@, self@);
        }
        Ok(())
    }

    /// Saves every operand that is the local `local`.
    fn preserve_locals(&mut self, local: Register) -> (r: Result<(), TranslationError>)
        requires
            old(self).wf(),
            old(self)@.reachable,
        ensures
            final(self).translated(old(self), old(self)@.preserve_locals(local, 0), r),
            r is Ok ==> final(self)@.reachable && final(self)@.height() == old(self)@.height(),
    {
        let h = self.stack.height();
        let mut pos: usize = 0;
        while pos < h
            invariant
                pos <= h,
                h == self@.height(),
                h == old(self)@.height(),
                self.wf(),
                self@.reachable,
                self.module() == old(self).module(),
                old(self)@.preserve_locals(local, 0) == self@.preserve_locals(local, pos as nat),
            decreases h - pos,
        {
            let ghost a = self@;
            proof {
                lemma_base_height(a);
            }
            if self.stack.get(pos) == TypedProvider::Register(local) {
                let saved = self.stack.preserve_at(pos)?;
                self.encoder.push_instr(Instruction::Copy { result: saved, value: local })?;
                proof {
                    lemma_step_wf(a, self@);
                }
            }
            pos += 1;
        }
        Ok(())
    }

    /// Translates a write of the topmost operand to a local in code that
    /// can be reached.
    fn translate_local_set(&mut self, local_index: u32) -> (r: Result<(), TranslationError>)
        requires
            old(self).wf(),
            old(self)@.reachable,
            old(self)@.operands_ok(1),
            local_index < old(self)@.len_locals(),
        ensures
            final(self).translated(old(self), old(self)@.local_set(local_index), r),
            r is Ok ==> final(self)@.reachable,
            r is Ok ==> final(self)@.len_locals() == old(self)@.len_locals(),
    {
        proof {
            lemma_base_height(self@);
        }
        let value = self.stack.top_provider();
        self.drop_operands(1);
        let local = Register(local_index as i16);
        self.preserve_locals(local)?;
        let ghost a = self@;
        proof {
            lemma_base_height(a);
            lemma_encode_local_set_kept(a.encoder, a.stack, local, value);
        }
        self.encoder.encode_local_set(&mut self.stack, local, value)?;
        proof {
            lemma_step_wf(a, self@);
            lemma_preserve_locals_kept(old(self)@.with_stack(old(self)@.stack.drop_n(1)), local, 0);
        }
        Ok(())
    }

    /// Translates `local.set`.
    pub fn visit_local_set(&mut self, local_index: u32) -> (r: Result<(), TranslationError>)
        requires
            old(self).wf(),
            old(self)@.operands_ok(1),
            local_index < old(self)@.len_locals(),
        ensures
            final(self).translated(old(self), old(self)@.visit_local_set(local_index), r),
    {
        if !self.reachable {
            return Ok(());
        }
        self.translate_local_set(local_index)
    }

    /// Translates `local.tee`.
    pub fn visit_local_tee(&mut self, local_index: u32) -> (r: Result<(), TranslationError>)
        requires
            old(self).wf(),
            old(self)@.operands_ok(1),
            local_index < old(self)@.len_locals(),
        ensures
            final(self).translated(old(self), old(self)@.visit_local_tee(local_index), r),
    {
        if !self.reachable {
            return Ok(());
        }
        self.translate_local_set(local_index)?;
        let ghost a = self@;
        proof {
            lemma_base_height(a);
        }
        self.stack.push_local(local_index);
        proof {
            lemma_step_wf(a, self@);
        }
        Ok(())
    }

    /// Pushes a constant as the new operand.
    fn translate_const(&mut self, value: TypedValue) -> (r: Result<(), TranslationError>)
        requires
            old(self).wf(),
        ensures
            final(self).translated(old(self), old(self)@.visit_const(value), r),
    {
        if !self.reachable {
            return Ok(());
        }
        self.push_const(value.ty, value.bits);
        Ok(())
    }

    /// Translates `i32.const`.
    pub fn visit_i32_const(&mut self, value: i32) -> (r: Result<(), TranslationError>)
        requires
            old(self).wf(),
        ensures
            final(self).translated(old(self), old(self)@.visit_const(TypedValue::i32(value)), r),
    {
        self.translate_const(TypedValue::from_i32(value))
    }

    /// Translates `i64.const`.
    pub fn visit_i64_const(&mut self, value: i64) -> (r: Result<(), TranslationError>)
        requires
            old(self).wf(),
        ensures
            final(self).translated(old(self), old(self)@.visit_const(TypedValue::i64(value)), r),
    {
        self.translate_const(TypedValue::from_i64(value))
    }

    /// Translates `f32.const` of the number with the bit pattern `bits`.
    pub fn visit_f32_const(&mut self, bits: u32) -> (r: Result<(), TranslationError>)
        requires
            old(self).wf(),
        ensures
            final(self).translated(
                old(self),
                old(self)@.visit_const(TypedValue { ty: ValueType::F32, bits: bits as u64 }),
                r,
            ),
    {
        self.translate_const(TypedValue::from_f32_bits(bits))
    }

    /// Translates `f64.const` of the number with the bit pattern `bits`.
    pub fn visit_f64_const(&mut self, bits: u64) -> (r: Result<(), TranslationError>)
        requires
            old(self).wf(),
        ensures
            final(self).translated(old(self), old(self)@.visit_const(TypedValue { ty: ValueType::F64, bits }), r),
    {
        self.translate_const(TypedValue::from_f64_bits(bits))
    }

    /// Translates `ref.null` of the reference type `ty`: the null
    /// reference is the word zero.
    pub fn visit_ref_null(&mut self, ty: ValueType) -> (r: Result<(), TranslationError>)
        requires
            old(self).wf(),
            ty is FuncRef || ty is ExternRef,
        ensures
            final(self).translated(old(self), old(self)@.visit_const(TypedValue { ty, bits: 0 }), r),
    {
        self.translate_const(TypedValue::new(ty, 0))
    }

    /// Translates `ref.func`.
    pub fn visit_ref_func(&mut self, function_index: u32) -> (r: Result<(), TranslationError>)
        requires
            old(self).wf(),
        ensures
            final(self).translated(old(self), old(self)@.visit_ref_func(function_index), r),
    {
        if !self.reachable {
            return Ok(());
        }
        let result = self.next_result();
        self.produce(
            Instruction::RefFunc { result, func: function_index },
            Ghost(|result: Register| Instruction::RefFunc { result, func: function_index }),
        )
    }

    /// Translates `global.get`.
    pub fn visit_global_get(&mut self, global_index: u32) -> (r: Result<(), TranslationError>)
        requires
            old(self).wf(),
            global_index < old(self).module().globals@.len(),
        ensures
            final(self).translated(
                old(self),
                old(self)@.visit_global_get(global_index, old(self).module().globals@[global_index as int]),
                r,
            ),
    {
        if !self.reachable {
            return Ok(());
        }
        let global = self.res.get_global(global_index);
        if !global.mutable {
            match global.init {
                GlobalInit::Const(bits) => {
                    self.push_const(global.content, bits);
                    return Ok(());
                },
                GlobalInit::FuncRef(func) => {
                    return self.visit_ref_func(func);
                },
                GlobalInit::Unknown => {},
            }
        }
        let result = self.next_result();
        self.produce(
            Instruction::GlobalGet { result, global: global_index },
            Ghost(|result: Register| Instruction::GlobalGet { result, global: global_index }),
        )
    }

    /// Translates `global.set`.
    pub fn visit_global_set(&mut self, global_index: u32) -> (r: Result<(), TranslationError>)
        requires
            old(self).wf(),
            old(self)@.operands_ok(1),
            global_index < old(self).module().globals@.len(),
        ensures
            final(self).translated(
                old(self),
                old(self)@.visit_global_set(global_index, old(self).module().globals@[global_index as int]),
                r,
            ),
    {
        if !self.reachable {
            return Ok(());
        }
        proof {
            lemma_base_height(self@);
        }
        let global = self.res.get_global(global_index);
        let input = self.stack.top_provider();
        self.drop_operands(1);
        match input {
            TypedProvider::Register(input) => self.emit(Instruction::GlobalSet { global: global_index, input }),
            TypedProvider::Const(c) => {
                match global.content {
                    ValueType::I32 => match Const16::from_i32(c.as_i32()) {
                        Some(input) => {
                            return self.emit(Instruction::GlobalSetI32Imm16 { global: global_index, input });
                        },
                        None => {},
                    },
                    ValueType::I64 => match Const16::from_i64(c.as_i64()) {
                        Some(input) => {
                            return self.emit(Instruction::GlobalSetI64Imm16 { global: global_index, input });
                        },
                        None => {},
                    },
                    _ => {},
                }
                let input = self.provider_register(TypedProvider::Const(c))?;
                self.emit(Instruction::GlobalSet { global: global_index, input })
            },
        }
    }
}

/// Saving the operands that are a local keeps the height of the operand
/// stack, the number of locals and the reachability.
pub proof fn lemma_preserve_locals_kept(t: TranslatorView, local: Register, pos: nat)
    ensures
        t.preserve_locals(local, pos) matches Ok(t2) ==> t2.height() == t.height() && t2.len_locals() == t.len_locals()
            && t2.reachable == t.reachable,
    decreases t.height() - pos,
{
    if pos < t.height() {
        if t.stack.providers[pos as int] == TypedProvider::Register(local) {
            if let Ok((stack, saved)) = t.stack.preserve_at(pos as int) {
                if let Ok((encoder, _)) = t.encoder.push_instr(Instruction::Copy { result: saved, value: local }) {
                    lemma_preserve_locals_kept(TranslatorView { stack, encoder, ..t }, local, pos + 1);
                }
            }
        } else {
            lemma_preserve_locals_kept(t, local, pos + 1);
        }
    }
}

} // verus!
