//! Translation of the calls.

use vstd::prelude::*;
use crate::copies::lemma_encode_register_list_kept;
use crate::error::TranslationError;
use crate::instr::Instruction;
use crate::module::FuncType;
use crate::register::{Const16, RegSpan};
use crate::translator::{lemma_base_height, lemma_step_wf, lemma_unreachable_wf, FuncTranslator, TranslatorView};
use crate::value::{Provider16, TypedProvider};
use crate::visit_variable::{call_instr, return_call_instr, CallTarget};

verus! {

impl<'a> FuncTranslator<'a> {
    /// The operand of an instruction that stands for `provider`, read as
    /// an unsigned 32-bit number.
    pub(crate) fn provider16(&mut self, provider: TypedProvider) -> (r: Result<Provider16, TranslationError>)
        requires
            old(self).wf(),
        ensures
            match old(self)@.provider16(provider) {
                Ok((state, operand)) => r == Ok::<Provider16, TranslationError>(operand) && final(self)@ == state
                    && final(self).wf() && final(self).module() == old(self).module(),
                Err(e) => r == Err::<Provider16, TranslationError>(e),
            },
            final(self).buffer == old(self).buffer,
    {
        match provider {
            TypedProvider::Register(r) => Ok(Provider16::Register(r)),
            TypedProvider::Const(c) => match Const16::from_u32(c.as_u32()) {
                Some(imm) => Ok(Provider16::Const(imm)),
                None => {
                    let r = self.provider_register(provider)?;
                    Ok(Provider16::Register(r))
                },
            },
        }
    }

    /// Computes [`call_instr`].
    fn call_instr(target: CallTarget, results: RegSpan, has_params: bool) -> (r: Instruction)
        ensures
            r == call_instr(target, results, has_params),
    {
        match target {
            CallTarget::Internal(func) => if has_params {
                Instruction::CallInternal { results, func }
            } else {
                Instruction::CallInternal0 { results, func }
            },
            CallTarget::Imported(func) => if has_params {
                Instruction::CallImported { results, func }
            } else {
                Instruction::CallImported0 { results, func }
            },
            CallTarget::Indirect(func_type) => if has_params {
                Instruction::CallIndirect { results, func_type }
            } else {
                Instruction::CallIndirect0 { results, func_type }
            },
        }
    }

    /// Computes [`return_call_instr`].
    fn return_call_instr(target: CallTarget, has_params: bool) -> (r: Instruction)
        ensures
            r == return_call_instr(target, has_params),
    {
        match target {
            CallTarget::Internal(func) => if has_params {
                Instruction::ReturnCallInternal { func }
            } else {
                Instruction::ReturnCallInternal0 { func }
            },
            CallTarget::Imported(func) => if has_params {
                Instruction::ReturnCallImported { func }
            } else {
                Instruction::ReturnCallImported0 { func }
            },
            CallTarget::Indirect(func_type) => if has_params {
                Instruction::ReturnCallIndirect { func_type }
            } else {
                Instruction::ReturnCallIndirect0 { func_type }
            },
        }
    }

    /// Translates a call of `target`, a function of the type `func_type`.
    fn translate_call(&mut self, target: CallTarget, func_type: FuncType, table_params: Option<Instruction>) -> (r:
        Result<(), TranslationError>)
        requires
            old(self).wf(),
            old(self)@.reachable,
            old(self)@.operands_ok(func_type.len_params as nat),
        ensures
            final(self).translated(old(self), old(self)@.call(target, func_type, table_params), r),
    {
        let ghost a = self@;
        proof {
            lemma_base_height(a);
        }
        let len = func_type.len_params as usize;
        self.stack.pop_n(len, &mut self.buffer);
        let results = self.stack.push_dynamic_n(func_type.len_results as usize)?;
        self.encoder.push_instr(Self::call_instr(target, results, len != 0))?;
        match table_params {
            Some(instr) => {
                self.encoder.append_instr(instr)?;
            },
            None => {},
        }
        proof {
            lemma_encode_register_list_kept(self@.encoder, self@.stack, self.buffer@);
            assert(self.buffer@.skip(0) =~= self.buffer@);
        }
        self.encoder.encode_register_list(&mut self.stack, &self.buffer, 0)?;
        proof {
            lemma_step_wf(a, self@);
        }
        Ok(())
    }

    /// Translates a call of `target` in place of a return.
    fn translate_return_call(&mut self, target: CallTarget, func_type: FuncType, table_params: Option<Instruction>) -> (r:
        Result<(), TranslationError>)
        requires
            old(self).wf(),
            old(self)@.reachable,
            old(self)@.operands_ok(func_type.len_params as nat),
        ensures
            final(self).translated(old(self), old(self)@.return_call(target, func_type, table_params), r),
    {
        let ghost a = self@;
        proof {
            lemma_base_height(a);
        }
        let len = func_type.len_params as usize;
        self.stack.pop_n(len, &mut self.buffer);
        self.encoder.push_instr(Self::return_call_instr(target, len != 0))?;
        match table_params {
            Some(instr) => {
                self.encoder.append_instr(instr)?;
            },
            None => {},
        }
        proof {
            lemma_encode_register_list_kept(self@.encoder, self@.stack, self.buffer@);
            assert(self.buffer@.skip(0) =~= self.buffer@);
        }
        self.encoder.encode_register_list(&mut self.stack, &self.buffer, 0)?;
        proof {
            lemma_step_wf(a, self@);
        }
        self.reachable = false;
        proof {
            lemma_unreachable_wf(TranslatorView { reachable: true, ..self@ });
        }
        Ok(())
    }

    /// The fuel that a call costs.
    fn call_cost(&self) -> (r: u64)
        ensures
            r == self@.call_cost(),
    {
        match self.fuel {
            Some(costs) => costs.call,
            None => 0,
        }
    }

    /// Translates a direct call, which is a tail call if `tail`.
    fn translate_direct_call(&mut self, function_index: u32, tail: bool) -> (r: Result<(), TranslationError>)
        requires
            old(self).wf(),
            function_index < old(self).module().funcs@.len(),
            old(self)@.operands_ok(old(self).module().type_of_func(function_index as int).len_params as nat),
        ensures
            final(self).translated(
                old(self),
                old(self)@.visit_call(
                    function_index,
                    old(self).module().type_of_func(function_index as int),
                    old(self).module().funcs@[function_index as int].compiled,
                    tail,
                ),
                r,
            ),
    {
        if !self.reachable {
            return Ok(());
        }
        let cost = self.call_cost();
        self.bump_fuel_consumption(cost)?;
        let func_type = self.res.func_type_of(function_index);
        let target = match self.res.get_compiled_func(function_index) {
            Some(func) => CallTarget::Internal(func),
            None => CallTarget::Imported(function_index),
        };
        if tail {
            self.translate_return_call(target, func_type, None)
        } else {
            self.translate_call(target, func_type, None)
        }
    }

    /// Translates an indirect call, which is a tail call if `tail`.
    fn translate_indirect_call(&mut self, type_index: u32, table_index: u32, tail: bool) -> (r: Result<
        (),
        TranslationError,
    >)
        requires
            old(self).wf(),
            type_index < old(self).module().func_types@.len(),
            old(self)@.operands_ok(1 + old(self).module().func_types@[type_index as int].len_params as nat),
        ensures
            final(self).translated(
                old(self),
                old(self)@.visit_call_indirect(
                    type_index,
                    table_index,
                    old(self).module().func_types@[type_index as int],
                    tail,
                ),
                r,
            ),
    {
        if !self.reachable {
            return Ok(());
        }
        let cost = self.call_cost();
        self.bump_fuel_consumption(cost)?;
        proof {
            lemma_base_height(self@);
        }
        let func_type = self.res.func_type_at(type_index);
        let index = self.stack.top_provider();
        self.drop_operands(1);
        let table_params = match self.provider16(index)? {
            Provider16::Register(index) => Instruction::CallIndirectParams { index, table: table_index },
            Provider16::Const(index) => Instruction::CallIndirectParamsImm16 { index, table: table_index },
        };
        proof {
            lemma_base_height(self@);
        }
        if tail {
            self.translate_return_call(CallTarget::Indirect(type_index), func_type, Some(table_params))
        } else {
            self.translate_call(CallTarget::Indirect(type_index), func_type, Some(table_params))
        }
    }

    /// Translates `call`.
    pub fn visit_call(&mut self, function_index: u32) -> (r: Result<(), TranslationError>)
        requires
            old(self).wf(),
            function_index < old(self).module().funcs@.len(),
            old(self)@.operands_ok(old(self).module().type_of_func(function_index as int).len_params as nat),
        ensures
            final(self).translated(
                old(self),
                old(self)@.visit_call(
                    function_index,
                    old(self).module().type_of_func(function_index as int),
                    old(self).module().funcs@[function_index as int].compiled,
                    false,
                ),
                r,
            ),
    {
        self.translate_direct_call(function_index, false)
    }

    /// Translates `return_call`.
    pub fn visit_return_call(&mut self, function_index: u32) -> (r: Result<(), TranslationError>)
        requires
            old(self).wf(),
            function_index < old(self).module().funcs@.len(),
            old(self)@.operands_ok(old(self).module().type_of_func(function_index as int).len_params as nat),
        ensures
            final(self).translated(
                old(self),
                old(self)@.visit_call(
                    function_index,
                    old(self).module().type_of_func(function_index as int),
                    old(self).module().funcs@[function_index as int].compiled,
                    true,
                ),
                r,
            ),
    {
        self.translate_direct_call(function_index, true)
    }

    /// Translates `call_indirect`.
    pub fn visit_call_indirect(&mut self, type_index: u32, table_index: u32, _table_byte: u8) -> (r: Result<
        (),
        TranslationError,
    >)
        requires
            old(self).wf(),
            type_index < old(self).module().func_types@.len(),
            old(self)@.operands_ok(1 + old(self).module().func_types@[type_index as int].len_params as nat),
        ensures
            final(self).translated(
                old(self),
                old(self)@.visit_call_indirect(
                    type_index,
                    table_index,
                    old(self).module().func_types@[type_index as int],
                    false,
                ),
                r,
            ),
    {
        self.translate_indirect_call(type_index, table_index, false)
    }

    /// Translates `return_call_indirect`.
    pub fn visit_return_call_indirect(&mut self, type_index: u32, table_index: u32) -> (r: Result<
        (),
        TranslationError,
    >)
        requires
            old(self).wf(),
            type_index < old(self).module().func_types@.len(),
            old(self)@.operands_ok(1 + old(self).module().func_types@[type_index as int].len_params as nat),
        ensures
            final(self).translated(
                old(self),
                old(self)@.visit_call_indirect(
                    type_index,
                    table_index,
                    old(self).module().func_types@[type_index as int],
                    true,
                ),
                r,
            ),
    {
        self.translate_indirect_call(type_index, table_index, true)
    }
}

} // verus!
