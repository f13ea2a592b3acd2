//! Translation of the operators on memories and tables.

use vstd::prelude::*;
use crate::error::{TranslationError, TrapCode};
use crate::instr::{BulkOp, Instruction, LoadOp, StoreOp};
use crate::register::{Const16, Register};
use crate::translator::{lemma_base_height, FuncTranslator, Translated, TranslatorView};
use crate::value::{Provider16, TypedProvider};

verus! {

/// The immediate operands of an access to a linear memory.
#[derive(Clone, Copy, Debug, PartialEq, Eq, Structural, Hash)]
pub struct MemArg {
    /// The offset that is added to the address.
    pub offset: u64,
    /// The index of the memory.
    pub memory: u32,
    /// The alignment that the access promises, as a power of two.
    pub align: u8,
}

/// The 16-bit immediate that stands for the constant with the word `bits`
/// as the value of the store `op`, if there is one: an integer that fits 16
/// bits, or 8 bits where the store writes one byte.
pub open spec fn store_imm(op: StoreOp, bits: u64) -> Option<Const16> {
    match op {
        StoreOp::I32Store | StoreOp::I32Store16 => if i16::MIN <= ((bits as u32) as i32) <= i16::MAX {
            Some(Const16(((bits as u32) as i32) as i16))
        } else {
            None
        },
        StoreOp::I32Store8 => if i8::MIN <= ((bits as u32) as i32) <= i8::MAX {
            Some(Const16(((bits as u32) as i32) as i16))
        } else {
            None
        },
        StoreOp::I64Store | StoreOp::I64Store16 | StoreOp::I64Store32 => if i16::MIN <= (bits as i64) <= i16::MAX {
            Some(Const16((bits as i64) as i16))
        } else {
            None
        },
        StoreOp::I64Store8 => if i8::MIN <= (bits as i64) <= i8::MAX {
            Some(Const16((bits as i64) as i16))
        } else {
            None
        },
        StoreOp::F32Store | StoreOp::F64Store => None,
    }
}

/// Computes [`store_imm`].
pub fn store_imm_exec(op: StoreOp, bits: u64) -> (r: Option<Const16>)
    ensures
        r == store_imm(op, bits),
{
    let narrow: i32 = #[verifier::truncate] ((#[verifier::truncate] (bits as u32)) as i32);
    let wide: i64 = #[verifier::truncate] (bits as i64);
    match op {
        StoreOp::I32Store | StoreOp::I32Store16 => Const16::from_i32(narrow),
        StoreOp::I32Store8 => if -128 <= narrow && narrow <= 127 {
            Some(Const16(narrow as i16))
        } else {
            None
        },
        StoreOp::I64Store | StoreOp::I64Store16 | StoreOp::I64Store32 => Const16::from_i64(wide),
        StoreOp::I64Store8 => if -128 <= wide && wide <= 127 {
            Some(Const16(wide as i16))
        } else {
            None
        },
        StoreOp::F32Store | StoreOp::F64Store => None,
    }
}

/// The instruction of the bulk operation `op` for the operands `dst`, `src`
/// and `len`: one form for each choice of registers and immediates.
pub open spec fn bulk_instr(op: BulkOp, dst: Provider16, src: Provider16, len: Provider16) -> Instruction {
    match (dst, src, len) {
        (Provider16::Register(dst), Provider16::Register(src), Provider16::Register(len)) => Instruction::Bulk {
            op,
            dst,
            src,
            len,
        },
        (Provider16::Register(dst), Provider16::Register(src), Provider16::Const(len)) => Instruction::BulkExact {
            op,
            dst,
            src,
            len,
        },
        (Provider16::Register(dst), Provider16::Const(src), Provider16::Register(len)) => Instruction::BulkFrom {
            op,
            dst,
            src,
            len,
        },
        (Provider16::Register(dst), Provider16::Const(src), Provider16::Const(len)) => Instruction::BulkFromExact {
            op,
            dst,
            src,
            len,
        },
        (Provider16::Const(dst), Provider16::Register(src), Provider16::Register(len)) => Instruction::BulkTo {
            op,
            dst,
            src,
            len,
        },
        (Provider16::Const(dst), Provider16::Register(src), Provider16::Const(len)) => Instruction::BulkToExact {
            op,
            dst,
            src,
            len,
        },
        (Provider16::Const(dst), Provider16::Const(src), Provider16::Register(len)) => Instruction::BulkFromTo {
            op,
            dst,
            src,
            len,
        },
        (Provider16::Const(dst), Provider16::Const(src), Provider16::Const(len)) => Instruction::BulkFromToExact {
            op,
            dst,
            src,
            len,
        },
    }
}

/// Computes [`bulk_instr`].
pub fn bulk_instr_exec(op: BulkOp, dst: Provider16, src: Provider16, len: Provider16) -> (r: Instruction)
    ensures
        r == bulk_instr(op, dst, src, len),
{
    match (dst, src, len) {
        (Provider16::Register(dst), Provider16::Register(src), Provider16::Register(len)) => Instruction::Bulk {
            op,
            dst,
            src,
            len,
        },
        (Provider16::Register(dst), Provider16::Register(src), Provider16::Const(len)) => Instruction::BulkExact {
            op,
            dst,
            src,
            len,
        },
        (Provider16::Register(dst), Provider16::Const(src), Provider16::Register(len)) => Instruction::BulkFrom {
            op,
            dst,
            src,
            len,
        },
        (Provider16::Register(dst), Provider16::Const(src), Provider16::Const(len)) => Instruction::BulkFromExact {
            op,
            dst,
            src,
            len,
        },
        (Provider16::Const(dst), Provider16::Register(src), Provider16::Register(len)) => Instruction::BulkTo {
            op,
            dst,
            src,
            len,
        },
        (Provider16::Const(dst), Provider16::Register(src), Provider16::Const(len)) => Instruction::BulkToExact {
            op,
            dst,
            src,
            len,
        },
        (Provider16::Const(dst), Provider16::Const(src), Provider16::Register(len)) => Instruction::BulkFromTo {
            op,
            dst,
            src,
            len,
        },
        (Provider16::Const(dst), Provider16::Const(src), Provider16::Const(len)) => Instruction::BulkFromToExact {
            op,
            dst,
            src,
            len,
        },
    }
}

impl TranslatorView {
    /// The state after emitting the slots that name the segments and
    /// tables of the bulk operation `op`.
    pub open spec fn push_bulk_indices(self, op: BulkOp, first: u32, second: u32) -> Translated {
        match op {
            BulkOp::MemoryInit => self.push_instr(Instruction::DataIdx { index: first }),
            BulkOp::MemoryCopy | BulkOp::MemoryFill => Ok(self),
            BulkOp::TableFill => self.push_instr(Instruction::TableIdx { index: first }),
            BulkOp::TableInit => match self.push_instr(Instruction::TableIdx { index: second }) {
                Err(e) => Err(e),
                Ok(t) => t.push_instr(Instruction::ElemIdx { index: first }),
            },
            BulkOp::TableCopy => match self.push_instr(Instruction::TableIdx { index: first }) {
                Err(e) => Err(e),
                Ok(t) => t.push_instr(Instruction::TableIdx { index: second }),
            },
        }
    }

    /// A load with the offset `offset`. From an address in a register:
    /// with the offset as a 16-bit immediate if it fits, else in a slot of
    /// its own. From a constant address: from the sum of address and
    /// offset, or a trap if the sum is no 32-bit address.
    pub open spec fn load(self, op: LoadOp, offset: u32) -> Translated {
        if !self.reachable {
            Ok(self)
        } else {
            let t = self.with_stack(self.stack.drop_n(1));
            match self.stack.top() {
                TypedProvider::Register(ptr) => match t.alloc_result() {
                    Err(e) => Err(e),
                    Ok((t, result)) => if offset <= u16::MAX {
                        t.push_instr(
                            Instruction::LoadOffset16 { op, result, ptr, offset: Const16((offset as u16) as i16) },
                        )
                    } else {
                        match t.push_instr(Instruction::Load { op, result, ptr }) {
                            Err(e) => Err(e),
                            Ok(t) => t.append_instr(Instruction::Const32 { value: offset }),
                        }
                    },
                },
                TypedProvider::Const(c) => if (c.bits as u32) + offset > u32::MAX {
                    t.trap(TrapCode::MemoryOutOfBounds)
                } else {
                    match t.alloc_result() {
                        Err(e) => Err(e),
                        Ok((t, result)) => t.push_instr(
                            Instruction::LoadAt { op, result, address: ((c.bits as u32) + offset) as u32 },
                        ),
                    }
                },
            }
        }
    }

    /// A store with the offset `offset`. To an address in a register: with
    /// offset and value in the instruction if the offset fits 16 bits, else
    /// with the value in a slot of its own. To a constant address: to the
    /// sum of address and offset, or a trap if the sum is no 32-bit
    /// address. A constant value is an immediate where the store has one
    /// for it.
    pub open spec fn store(self, op: StoreOp, offset: u32) -> Translated {
        if !self.reachable {
            Ok(self)
        } else {
            let ptr = self.stack.providers[self.height() - 2];
            let value = self.stack.providers[self.height() - 1];
            let t = self.with_stack(self.stack.drop_n(2));
            let imm = match value {
                TypedProvider::Const(c) => store_imm(op, c.bits),
                TypedProvider::Register(_) => None,
            };
            match ptr {
                TypedProvider::Register(ptr) => if offset <= u16::MAX {
                    let offset = Const16((offset as u16) as i16);
                    match imm {
                        Some(value) => t.push_instr(Instruction::StoreOffset16Imm { op, ptr, offset, value }),
                        None => match t.register_of(value) {
                            Err(e) => Err(e),
                            Ok((t, value)) => t.push_instr(Instruction::StoreOffset16 { op, ptr, offset, value }),
                        },
                    }
                } else {
                    match t.register_of(value) {
                        Err(e) => Err(e),
                        Ok((t, value)) => match t.push_instr(Instruction::Store { op, ptr, offset }) {
                            Err(e) => Err(e),
                            Ok(t) => t.append_instr(Instruction::Register1 { r0: value }),
                        },
                    }
                },
                TypedProvider::Const(c) => if (c.bits as u32) + offset > u32::MAX {
                    t.trap(TrapCode::MemoryOutOfBounds)
                } else {
                    let address = ((c.bits as u32) + offset) as u32;
                    match imm {
                        Some(value) => t.push_instr(Instruction::StoreAtImm { op, address, value }),
                        None => match t.register_of(value) {
                            Err(e) => Err(e),
                            Ok((t, value)) => t.push_instr(Instruction::StoreAt { op, address, value }),
                        },
                    }
                },
            }
        }
    }

    /// `memory.size`.
    pub open spec fn visit_memory_size(self) -> Translated {
        if !self.reachable {
            Ok(self)
        } else {
            self.produce(|result: Register| Instruction::MemorySize { result })
        }
    }

    /// `memory.grow`: growing by the constant zero only reads the size.
    pub open spec fn visit_memory_grow(self) -> Translated {
        if !self.reachable {
            Ok(self)
        } else {
            match self.with_stack(self.stack.drop_n(1)).provider16(self.stack.top()) {
                Err(e) => Err(e),
                Ok((t, delta)) => match t.alloc_result() {
                    Err(e) => Err(e),
                    Ok((t, result)) => t.push_instr(
                        match delta {
                            Provider16::Register(delta) => Instruction::MemoryGrow { result, delta },
                            Provider16::Const(delta) => if delta.0 == 0 {
                                Instruction::MemorySize { result }
                            } else {
                                Instruction::MemoryGrowBy { result, delta }
                            },
                        },
                    ),
                },
            }
        }
    }

    /// A bulk operation: the three operands are popped and become
    /// registers or immediates; the instruction is emitted, then the
    /// slots that name its segments and tables.
    pub open spec fn bulk(self, op: BulkOp, first: u32, second: u32) -> Translated {
        if !self.reachable {
            Ok(self)
        } else {
            let dst = self.stack.providers[self.height() - 3];
            let src = self.stack.providers[self.height() - 2];
            let len = self.stack.providers[self.height() - 1];
            match self.with_stack(self.stack.drop_n(3)).provider16(dst) {
                Err(e) => Err(e),
                Ok((t, dst)) => {
                    let src16 = match op {
                        BulkOp::MemoryFill => match src {
                            TypedProvider::Register(r) => Ok((t, Provider16::Register(r))),
                            TypedProvider::Const(c) => Ok((t, Provider16::Const(Const16((c.bits as u8) as i16)))),
                        },
                        BulkOp::TableFill => t.reference16(src),
                        _ => t.provider16(src),
                    };
                    match src16 {
                        Err(e) => Err(e),
                        Ok((t, src)) => match t.provider16(len) {
                            Err(e) => Err(e),
                            Ok((t, len)) => match t.push_instr(bulk_instr(op, dst, src, len)) {
                                Err(e) => Err(e),
                                Ok(t) => t.push_bulk_indices(op, first, second),
                            },
                        },
                    }
                },
            }
        }
    }

    /// `data.drop` or `elem.drop`: the instruction is emitted.
    pub open spec fn visit_drop_segment(self, instr: Instruction) -> Translated {
        if !self.reachable {
            Ok(self)
        } else {
            self.push_instr(instr)
        }
    }

    /// The operand that stands for the reference `provider`: the register,
    /// an immediate if the word of the constant fits 16 bits, or the
    /// register of the interned constant.
    pub open spec fn reference16(self, provider: TypedProvider) -> Result<(TranslatorView, Provider16), TranslationError> {
        match provider {
            TypedProvider::Register(r) => Ok((self, Provider16::Register(r))),
            TypedProvider::Const(c) => if c.bits <= u16::MAX {
                Ok((self, Provider16::Const(Const16((c.bits as u16) as i16))))
            } else {
                match self.stack.alloc_const(c.bits) {
                    Ok((stack, r)) => Ok((self.with_stack(stack), Provider16::Register(r))),
                    Err(e) => Err(e),
                }
            },
        }
    }

    /// `table.fill`: the bulk operation on the table `table`.
    pub open spec fn visit_table_fill(self, table: u32) -> Translated {
        self.bulk(BulkOp::TableFill, table, 0)
    }

    /// `table.get`.
    pub open spec fn visit_table_get(self, table: u32) -> Translated {
        if !self.reachable {
            Ok(self)
        } else {
            match self.with_stack(self.stack.drop_n(1)).alloc_result() {
                Err(e) => Err(e),
                Ok((t, result)) => match t.push_instr(
                    match self.stack.top() {
                        TypedProvider::Register(index) => Instruction::TableGet { result, index },
                        TypedProvider::Const(c) => Instruction::TableGetImm { result, index: c.bits as u32 },
                    },
                ) {
                    Err(e) => Err(e),
                    Ok(t) => t.push_instr(Instruction::TableIdx { index: table }),
                },
            }
        }
    }

    /// `table.set`.
    pub open spec fn visit_table_set(self, table: u32) -> Translated {
        if !self.reachable {
            Ok(self)
        } else {
            let index = self.stack.providers[self.height() - 2];
            let value = self.stack.providers[self.height() - 1];
            match self.with_stack(self.stack.drop_n(2)).register_of(value) {
                Err(e) => Err(e),
                Ok((t, value)) => match t.push_instr(
                    match index {
                        TypedProvider::Register(index) => Instruction::TableSet { index, value },
                        TypedProvider::Const(c) => Instruction::TableSetAt { index: c.bits as u32, value },
                    },
                ) {
                    Err(e) => Err(e),
                    Ok(t) => t.push_instr(Instruction::TableIdx { index: table }),
                },
            }
        }
    }

    /// `table.size`.
    pub open spec fn visit_table_size(self, table: u32) -> Translated {
        if !self.reachable {
            Ok(self)
        } else {
            self.produce(|result: Register| Instruction::TableSize { result, table })
        }
    }

    /// `table.grow`: growing by the constant zero only reads the size.
    pub open spec fn visit_table_grow(self, table: u32) -> Translated {
        if !self.reachable {
            Ok(self)
        } else {
            let value = self.stack.providers[self.height() - 2];
            let delta = self.stack.providers[self.height() - 1];
            let t = self.with_stack(self.stack.drop_n(2));
            if delta matches TypedProvider::Const(c) && (c.bits as u32) == 0 {
                t.produce(|result: Register| Instruction::TableSize { result, table })
            } else {
                match t.provider16(delta) {
                    Err(e) => Err(e),
                    Ok((t, delta)) => match t.register_of(value) {
                        Err(e) => Err(e),
                        Ok((t, value)) => match t.alloc_result() {
                            Err(e) => Err(e),
                            Ok((t, result)) => match t.push_instr(
                                match delta {
                                    Provider16::Register(delta) => Instruction::TableGrow { result, delta, value },
                                    Provider16::Const(delta) => Instruction::TableGrowImm { result, delta, value },
                                },
                            ) {
                                Err(e) => Err(e),
                                Ok(t) => t.push_instr(Instruction::TableIdx { index: table }),
                            },
                        },
                    },
                }
            }
        }
    }
}

impl<'a> FuncTranslator<'a> {
    /// Translates a load.
    pub fn translate_load(&mut self, memarg: MemArg, op: LoadOp) -> (r: Result<(), TranslationError>)
        requires
            old(self).wf(),
            old(self)@.operands_ok(1),
            memarg.offset <= u32::MAX,
        ensures
            final(self).translated(old(self), old(self)@.load(op, memarg.offset as u32), r),
    {
        if !self.reachable {
            return Ok(());
        }
        proof {
            lemma_base_height(self@);
        }
        let offset = memarg.offset as u32;
        let ptr = self.stack.top_provider();
        self.drop_operands(1);
        match ptr {
            TypedProvider::Register(ptr) => {
                let result = self.push_result()?;
                match Const16::from_u32(offset) {
                    Some(offset) => self.emit(Instruction::LoadOffset16 { op, result, ptr, offset }),
                    None => {
                        self.emit(Instruction::Load { op, result, ptr })?;
                        self.append(Instruction::Const32 { value: offset })
                    },
                }
            },
            TypedProvider::Const(c) => match c.as_u32().checked_add(offset) {
                None => self.translate_trap(TrapCode::MemoryOutOfBounds),
                Some(address) => {
                    let result = self.push_result()?;
                    self.emit(Instruction::LoadAt { op, result, address })
                },
            },
        }
    }

    /// Translates a store.
    pub fn translate_store(&mut self, memarg: MemArg, op: StoreOp) -> (r: Result<(), TranslationError>)
        requires
            old(self).wf(),
            old(self)@.operands_ok(2),
            memarg.offset <= u32::MAX,
        ensures
            final(self).translated(old(self), old(self)@.store(op, memarg.offset as u32), r),
    {
        if !self.reachable {
            return Ok(());
        }
        proof {
            lemma_base_height(self@);
        }
        let offset = memarg.offset as u32;
        let (ptr, value) = self.stack.top2();
        self.drop_operands(2);
        let imm = match value {
            TypedProvider::Const(c) => store_imm_exec(op, c.bits),
            TypedProvider::Register(_) => None,
        };
        match ptr {
            TypedProvider::Register(ptr) => match Const16::from_u32(offset) {
                Some(offset) => match imm {
                    Some(value) => self.emit(Instruction::StoreOffset16Imm { op, ptr, offset, value }),
                    None => {
                        let value = self.provider_register(value)?;
                        self.emit(Instruction::StoreOffset16 { op, ptr, offset, value })
                    },
                },
                None => {
                    let value = self.provider_register(value)?;
                    self.emit(Instruction::Store { op, ptr, offset })?;
                    self.append(Instruction::Register1 { r0: value })
                },
            },
            TypedProvider::Const(c) => match c.as_u32().checked_add(offset) {
                None => self.translate_trap(TrapCode::MemoryOutOfBounds),
                Some(address) => match imm {
                    Some(value) => self.emit(Instruction::StoreAtImm { op, address, value }),
                    None => {
                        let value = self.provider_register(value)?;
                        self.emit(Instruction::StoreAt { op, address, value })
                    },
                },
            },
        }
    }

    /// Computes [`TranslatorView::reference16`].
    pub(crate) fn reference16(&mut self, provider: TypedProvider) -> (r: Result<Provider16, TranslationError>)
        requires
            old(self).wf(),
        ensures
            match old(self)@.reference16(provider) {
                Ok((state, operand)) => r == Ok::<Provider16, TranslationError>(operand) && final(self)@ == state
                    && final(self).wf() && final(self).module() == old(self).module(),
                Err(e) => r == Err::<Provider16, TranslationError>(e),
            },
            final(self).buffer == old(self).buffer,
    {
        match provider {
            TypedProvider::Register(r) => Ok(Provider16::Register(r)),
            TypedProvider::Const(c) => if c.bits <= 0xFFFF {
                let low: u16 = #[verifier::truncate] (c.bits as u16);
                Ok(Provider16::Const(Const16(#[verifier::truncate] (low as i16))))
            } else {
                let r = self.provider_register(provider)?;
                Ok(Provider16::Register(r))
            },
        }
    }

    /// Translates a bulk operation.
    pub fn translate_bulk(&mut self, op: BulkOp, first: u32, second: u32) -> (r: Result<(), TranslationError>)
        requires
            old(self).wf(),
            old(self)@.operands_ok(3),
        ensures
            final(self).translated(old(self), old(self)@.bulk(op, first, second), r),
    {
        if !self.reachable {
            return Ok(());
        }
        proof {
            lemma_base_height(self@);
        }
        let (dst, src, len) = self.stack.top3();
        self.drop_operands(3);
        let dst = self.provider16(dst)?;
        let src = match op {
            BulkOp::MemoryFill => match src {
                TypedProvider::Register(r) => Provider16::Register(r),
                TypedProvider::Const(c) => {
                    let byte: u8 = #[verifier::truncate] (c.bits as u8);
                    Provider16::Const(Const16(byte as i16))
                },
            },
            BulkOp::TableFill => self.reference16(src)?,
            _ => self.provider16(src)?,
        };
        let len = self.provider16(len)?;
        self.emit(bulk_instr_exec(op, dst, src, len))?;
        match op {
            BulkOp::MemoryInit => self.emit(Instruction::DataIdx { index: first }),
            BulkOp::MemoryCopy | BulkOp::MemoryFill => Ok(()),
            BulkOp::TableFill => self.emit(Instruction::TableIdx { index: first }),
            BulkOp::TableInit => {
                self.emit(Instruction::TableIdx { index: second })?;
                self.emit(Instruction::ElemIdx { index: first })
            },
            BulkOp::TableCopy => {
                self.emit(Instruction::TableIdx { index: first })?;
                self.emit(Instruction::TableIdx { index: second })
            },
        }
    }

    /// Translates `memory.size`.
    pub fn visit_memory_size(&mut self, _mem: u32, _mem_byte: u8) -> (r: Result<(), TranslationError>)
        requires
            old(self).wf(),
        ensures
            final(self).translated(old(self), old(self)@.visit_memory_size(), r),
    {
        if !self.reachable {
            return Ok(());
        }
        let result = self.next_result();
        self.produce(Instruction::MemorySize { result }, Ghost(|result: Register| Instruction::MemorySize { result }))
    }

    /// Translates `memory.grow`.
    pub fn visit_memory_grow(&mut self, _mem: u32, _mem_byte: u8) -> (r: Result<(), TranslationError>)
        requires
            old(self).wf(),
            old(self)@.operands_ok(1),
        ensures
            final(self).translated(old(self), old(self)@.visit_memory_grow(), r),
    {
        if !self.reachable {
            return Ok(());
        }
        proof {
            lemma_base_height(self@);
        }
        let delta = self.stack.top_provider();
        self.drop_operands(1);
        let delta = self.provider16(delta)?;
        let result = self.push_result()?;
        let instr = match delta {
            Provider16::Register(delta) => Instruction::MemoryGrow { result, delta },
            Provider16::Const(delta) => if delta.0 == 0 {
                Instruction::MemorySize { result }
            } else {
                Instruction::MemoryGrowBy { result, delta }
            },
        };
        self.emit(instr)
    }

    /// Translates `memory.init`.
    pub fn visit_memory_init(&mut self, data_index: u32, _mem: u32) -> (r: Result<(), TranslationError>)
        requires
            old(self).wf(),
            old(self)@.operands_ok(3),
        ensures
            final(self).translated(old(self), old(self)@.bulk(BulkOp::MemoryInit, data_index, 0), r),
    {
        self.translate_bulk(BulkOp::MemoryInit, data_index, 0)
    }

    /// Translates `data.drop`.
    pub fn visit_data_drop(&mut self, data_index: u32) -> (r: Result<(), TranslationError>)
        requires
            old(self).wf(),
        ensures
            final(self).translated(
                old(self),
                old(self)@.visit_drop_segment(Instruction::DataDrop { segment: data_index }),
                r,
            ),
    {
        if !self.reachable {
            return Ok(());
        }
        self.emit(Instruction::DataDrop { segment: data_index })
    }

    /// Translates `memory.copy`.
    pub fn visit_memory_copy(&mut self, _dst_mem: u32, _src_mem: u32) -> (r: Result<(), TranslationError>)
        requires
            old(self).wf(),
            old(self)@.operands_ok(3),
        ensures
            final(self).translated(old(self), old(self)@.bulk(BulkOp::MemoryCopy, 0, 0), r),
    {
        self.translate_bulk(BulkOp::MemoryCopy, 0, 0)
    }

    /// Translates `memory.fill`.
    pub fn visit_memory_fill(&mut self, _mem: u32) -> (r: Result<(), TranslationError>)
        requires
            old(self).wf(),
            old(self)@.operands_ok(3),
        ensures
            final(self).translated(old(self), old(self)@.bulk(BulkOp::MemoryFill, 0, 0), r),
    {
        self.translate_bulk(BulkOp::MemoryFill, 0, 0)
    }

    /// Translates `table.init`.
    pub fn visit_table_init(&mut self, elem_index: u32, table: u32) -> (r: Result<(), TranslationError>)
        requires
            old(self).wf(),
            old(self)@.operands_ok(3),
        ensures
            final(self).translated(old(self), old(self)@.bulk(BulkOp::TableInit, elem_index, table), r),
    {
        self.translate_bulk(BulkOp::TableInit, elem_index, table)
    }

    /// Translates `elem.drop`.
    pub fn visit_elem_drop(&mut self, elem_index: u32) -> (r: Result<(), TranslationError>)
        requires
            old(self).wf(),
        ensures
            final(self).translated(
                old(self),
                old(self)@.visit_drop_segment(Instruction::ElemDrop { segment: elem_index }),
                r,
            ),
    {
        if !self.reachable {
            return Ok(());
        }
        self.emit(Instruction::ElemDrop { segment: elem_index })
    }

    /// Translates `table.copy`.
    pub fn visit_table_copy(&mut self, dst_table: u32, src_table: u32) -> (r: Result<(), TranslationError>)
        requires
            old(self).wf(),
            old(self)@.operands_ok(3),
        ensures
            final(self).translated(old(self), old(self)@.bulk(BulkOp::TableCopy, dst_table, src_table), r),
    {
        self.translate_bulk(BulkOp::TableCopy, dst_table, src_table)
    }

    /// Translates `table.fill`.
    pub fn visit_table_fill(&mut self, table: u32) -> (r: Result<(), TranslationError>)
        requires
            old(self).wf(),
            old(self)@.operands_ok(3),
        ensures
            final(self).translated(old(self), old(self)@.visit_table_fill(table), r),
    {
        self.translate_bulk(BulkOp::TableFill, table, 0)
    }

    /// Translates `table.get`.
    pub fn visit_table_get(&mut self, table: u32) -> (r: Result<(), TranslationError>)
        requires
            old(self).wf(),
            old(self)@.operands_ok(1),
        ensures
            final(self).translated(old(self), old(self)@.visit_table_get(table), r),
    {
        if !self.reachable {
            return Ok(());
        }
        proof {
            lemma_base_height(self@);
        }
        let index = self.stack.top_provider();
        self.drop_operands(1);
        let result = self.push_result()?;
        let instr = match index {
            TypedProvider::Register(index) => Instruction::TableGet { result, index },
            TypedProvider::Const(c) => Instruction::TableGetImm { result, index: c.as_u32() },
        };
        self.emit(instr)?;
        self.emit(Instruction::TableIdx { index: table })
    }

    /// Translates `table.set`.
    pub fn visit_table_set(&mut self, table: u32) -> (r: Result<(), TranslationError>)
        requires
            old(self).wf(),
            old(self)@.operands_ok(2),
        ensures
            final(self).translated(old(self), old(self)@.visit_table_set(table), r),
    {
        if !self.reachable {
            return Ok(());
        }
        proof {
            lemma_base_height(self@);
        }
        let (index, value) = self.stack.top2();
        self.drop_operands(2);
        let value = self.provider_register(value)?;
        let instr = match index {
            TypedProvider::Register(index) => Instruction::TableSet { index, value },
            TypedProvider::Const(c) => Instruction::TableSetAt { index: c.as_u32(), value },
        };
        self.emit(instr)?;
        self.emit(Instruction::TableIdx { index: table })
    }

    /// Translates `table.grow`.
    pub fn visit_table_grow(&mut self, table: u32) -> (r: Result<(), TranslationError>)
        requires
            old(self).wf(),
            old(self)@.operands_ok(2),
        ensures
            final(self).translated(old(self), old(self)@.visit_table_grow(table), r),
    {
        if !self.reachable {
            return Ok(());
        }
        proof {
            lemma_base_height(self@);
        }
        let (value, delta) = self.stack.top2();
        self.drop_operands(2);
        match delta {
            TypedProvider::Const(c) => {
                if c.as_u32() == 0 {
                    let result = self.next_result();
                    return self.produce(
                        Instruction::TableSize { result, table },
                        Ghost(|result: Register| Instruction::TableSize { result, table }),
                    );
                }
            },
            _ => {},
        }
        let delta = self.provider16(delta)?;
        let value = self.provider_register(value)?;
        let result = self.push_result()?;
        let instr = match delta {
            Provider16::Register(delta) => Instruction::TableGrow { result, delta, value },
            Provider16::Const(delta) => Instruction::TableGrowImm { result, delta, value },
        };
        self.emit(instr)?;
        self.emit(Instruction::TableIdx { index: table })
    }

    /// Translates `table.size`.
    pub fn visit_table_size(&mut self, table: u32) -> (r: Result<(), TranslationError>)
        requires
            old(self).wf(),
        ensures
            final(self).translated(old(self), old(self)@.visit_table_size(table), r),
    {
        if !self.reachable {
            return Ok(());
        }
        let result = self.next_result();
        self.produce(
            Instruction::TableSize { result, table },
            Ghost(|result: Register| Instruction::TableSize { result, table }),
        )
    }

    /// Translates `i32.load`.
    pub fn visit_i32_load(&mut self, memarg: MemArg) -> (r: Result<(), TranslationError>)
        requires
            old(self).wf(),
            old(self)@.operands_ok(1),
            memarg.offset <= u32::MAX,
        ensures
            final(self).translated(old(self), old(self)@.load(LoadOp::I32Load, memarg.offset as u32), r),
    {
        self.translate_load(memarg, LoadOp::I32Load)
    }

    /// Translates `i64.load`.
    pub fn visit_i64_load(&mut self, memarg: MemArg) -> (r: Result<(), TranslationError>)
        requires
            old(self).wf(),
            old(self)@.operands_ok(1),
            memarg.offset <= u32::MAX,
        ensures
            final(self).translated(old(self), old(self)@.load(LoadOp::I64Load, memarg.offset as u32), r),
    {
        self.translate_load(memarg, LoadOp::I64Load)
    }

    /// Translates `f32.load`.
    pub fn visit_f32_load(&mut self, memarg: MemArg) -> (r: Result<(), TranslationError>)
        requires
            old(self).wf(),
            old(self)@.operands_ok(1),
            memarg.offset <= u32::MAX,
        ensures
            final(self).translated(old(self), old(self)@.load(LoadOp::F32Load, memarg.offset as u32), r),
    {
        self.translate_load(memarg, LoadOp::F32Load)
    }

    /// Translates `f64.load`.
    pub fn visit_f64_load(&mut self, memarg: MemArg) -> (r: Result<(), TranslationError>)
        requires
            old(self).wf(),
            old(self)@.operands_ok(1),
            memarg.offset <= u32::MAX,
        ensures
            final(self).translated(old(self), old(self)@.load(LoadOp::F64Load, memarg.offset as u32), r),
    {
        self.translate_load(memarg, LoadOp::F64Load)
    }

    /// Translates `i32.load8_s`.
    pub fn visit_i32_load8_s(&mut self, memarg: MemArg) -> (r: Result<(), TranslationError>)
        requires
            old(self).wf(),
            old(self)@.operands_ok(1),
            memarg.offset <= u32::MAX,
        ensures
            final(self).translated(old(self), old(self)@.load(LoadOp::I32Load8S, memarg.offset as u32), r),
    {
        self.translate_load(memarg, LoadOp::I32Load8S)
    }

    /// Translates `i32.load8_u`.
    pub fn visit_i32_load8_u(&mut self, memarg: MemArg) -> (r: Result<(), TranslationError>)
        requires
            old(self).wf(),
            old(self)@.operands_ok(1),
            memarg.offset <= u32::MAX,
        ensures
            final(self).translated(old(self), old(self)@.load(LoadOp::I32Load8U, memarg.offset as u32), r),
    {
        self.translate_load(memarg, LoadOp::I32Load8U)
    }

    /// Translates `i32.load16_s`.
    pub fn visit_i32_load16_s(&mut self, memarg: MemArg) -> (r: Result<(), TranslationError>)
        requires
            old(self).wf(),
            old(self)@.operands_ok(1),
            memarg.offset <= u32::MAX,
        ensures
            final(self).translated(old(self), old(self)@.load(LoadOp::I32Load16S, memarg.offset as u32), r),
    {
        self.translate_load(memarg, LoadOp::I32Load16S)
    }

    /// Translates `i32.load16_u`.
    pub fn visit_i32_load16_u(&mut self, memarg: MemArg) -> (r: Result<(), TranslationError>)
        requires
            old(self).wf(),
            old(self)@.operands_ok(1),
            memarg.offset <= u32::MAX,
        ensures
            final(self).translated(old(self), old(self)@.load(LoadOp::I32Load16U, memarg.offset as u32), r),
    {
        self.translate_load(memarg, LoadOp::I32Load16U)
    }

    /// Translates `i64.load8_s`.
    pub fn visit_i64_load8_s(&mut self, memarg: MemArg) -> (r: Result<(), TranslationError>)
        requires
            old(self).wf(),
            old(self)@.operands_ok(1),
            memarg.offset <= u32::MAX,
        ensures
            final(self).translated(old(self), old(self)@.load(LoadOp::I64Load8S, memarg.offset as u32), r),
    {
        self.translate_load(memarg, LoadOp::I64Load8S)
    }

    /// Translates `i64.load8_u`.
    pub fn visit_i64_load8_u(&mut self, memarg: MemArg) -> (r: Result<(), TranslationError>)
        requires
            old(self).wf(),
            old(self)@.operands_ok(1),
            memarg.offset <= u32::MAX,
        ensures
            final(self).translated(old(self), old(self)@.load(LoadOp::I64Load8U, memarg.offset as u32), r),
    {
        self.translate_load(memarg, LoadOp::I64Load8U)
    }

    /// Translates `i64.load16_s`.
    pub fn visit_i64_load16_s(&mut self, memarg: MemArg) -> (r: Result<(), TranslationError>)
        requires
            old(self).wf(),
            old(self)@.operands_ok(1),
            memarg.offset <= u32::MAX,
        ensures
            final(self).translated(old(self), old(self)@.load(LoadOp::I64Load16S, memarg.offset as u32), r),
    {
        self.translate_load(memarg, LoadOp::I64Load16S)
    }

    /// Translates `i64.load16_u`.
    pub fn visit_i64_load16_u(&mut self, memarg: MemArg) -> (r: Result<(), TranslationError>)
        requires
            old(self).wf(),
            old(self)@.operands_ok(1),
            memarg.offset <= u32::MAX,
        ensures
            final(self).translated(old(self), old(self)@.load(LoadOp::I64Load16U, memarg.offset as u32), r),
    {
        self.translate_load(memarg, LoadOp::I64Load16U)
    }

    /// Translates `i64.load32_s`.
    pub fn visit_i64_load32_s(&mut self, memarg: MemArg) -> (r: Result<(), TranslationError>)
        requires
            old(self).wf(),
            old(self)@.operands_ok(1),
            memarg.offset <= u32::MAX,
        ensures
            final(self).translated(old(self), old(self)@.load(LoadOp::I64Load32S, memarg.offset as u32), r),
    {
        self.translate_load(memarg, LoadOp::I64Load32S)
    }

    /// Translates `i64.load32_u`.
    pub fn visit_i64_load32_u(&mut self, memarg: MemArg) -> (r: Result<(), TranslationError>)
        requires
            old(self).wf(),
            old(self)@.operands_ok(1),
            memarg.offset <= u32::MAX,
        ensures
            final(self).translated(old(self), old(self)@.load(LoadOp::I64Load32U, memarg.offset as u32), r),
    {
        self.translate_load(memarg, LoadOp::I64Load32U)
    }

    /// Translates `i32.store`.
    pub fn visit_i32_store(&mut self, memarg: MemArg) -> (r: Result<(), TranslationError>)
        requires
            old(self).wf(),
            old(self)@.operands_ok(2),
            memarg.offset <= u32::MAX,
        ensures
            final(self).translated(old(self), old(self)@.store(StoreOp::I32Store, memarg.offset as u32), r),
    {
        self.translate_store(memarg, StoreOp::I32Store)
    }

    /// Translates `i64.store`.
    pub fn visit_i64_store(&mut self, memarg: MemArg) -> (r: Result<(), TranslationError>)
        requires
            old(self).wf(),
            old(self)@.operands_ok(2),
            memarg.offset <= u32::MAX,
        ensures
            final(self).translated(old(self), old(self)@.store(StoreOp::I64Store, memarg.offset as u32), r),
    {
        self.translate_store(memarg, StoreOp::I64Store)
    }

    /// Translates `f32.store`.
    pub fn visit_f32_store(&mut self, memarg: MemArg) -> (r: Result<(), TranslationError>)
        requires
            old(self).wf(),
            old(self)@.operands_ok(2),
            memarg.offset <= u32::MAX,
        ensures
            final(self).translated(old(self), old(self)@.store(StoreOp::F32Store, memarg.offset as u32), r),
    {
        self.translate_store(memarg, StoreOp::F32Store)
    }

    /// Translates `f64.store`.
    pub fn visit_f64_store(&mut self, memarg: MemArg) -> (r: Result<(), TranslationError>)
        requires
            old(self).wf(),
            old(self)@.operands_ok(2),
            memarg.offset <= u32::MAX,
        ensures
            final(self).translated(old(self), old(self)@.store(StoreOp::F64Store, memarg.offset as u32), r),
    {
        self.translate_store(memarg, StoreOp::F64Store)
    }

    /// Translates `i32.store8`.
    pub fn visit_i32_store8(&mut self, memarg: MemArg) -> (r: Result<(), TranslationError>)
        requires
            old(self).wf(),
            old(self)@.operands_ok(2),
            memarg.offset <= u32::MAX,
        ensures
            final(self).translated(old(self), old(self)@.store(StoreOp::I32Store8, memarg.offset as u32), r),
    {
        self.translate_store(memarg, StoreOp::I32Store8)
    }

    /// Translates `i32.store16`.
    pub fn visit_i32_store16(&mut self, memarg: MemArg) -> (r: Result<(), TranslationError>)
        requires
            old(self).wf(),
            old(self)@.operands_ok(2),
            memarg.offset <= u32::MAX,
        ensures
            final(self).translated(old(self), old(self)@.store(StoreOp::I32Store16, memarg.offset as u32), r),
    {
        self.translate_store(memarg, StoreOp::I32Store16)
    }

    /// Translates `i64.store8`.
    pub fn visit_i64_store8(&mut self, memarg: MemArg) -> (r: Result<(), TranslationError>)
        requires
            old(self).wf(),
            old(self)@.operands_ok(2),
            memarg.offset <= u32::MAX,
        ensures
            final(self).translated(old(self), old(self)@.store(StoreOp::I64Store8, memarg.offset as u32), r),
    {
        self.translate_store(memarg, StoreOp::I64Store8)
    }

    /// Translates `i64.store16`.
    pub fn visit_i64_store16(&mut self, memarg: MemArg) -> (r: Result<(), TranslationError>)
        requires
            old(self).wf(),
            old(self)@.operands_ok(2),
            memarg.offset <= u32::MAX,
        ensures
            final(self).translated(old(self), old(self)@.store(StoreOp::I64Store16, memarg.offset as u32), r),
    {
        self.translate_store(memarg, StoreOp::I64Store16)
    }

    /// Translates `i64.store32`.
    pub fn visit_i64_store32(&mut self, memarg: MemArg) -> (r: Result<(), TranslationError>)
        requires
            old(self).wf(),
            old(self)@.operands_ok(2),
            memarg.offset <= u32::MAX,
        ensures
            final(self).translated(old(self), old(self)@.store(StoreOp::I64Store32, memarg.offset as u32), r),
    {
        self.translate_store(memarg, StoreOp::I64Store32)
    }
}

} // verus!
