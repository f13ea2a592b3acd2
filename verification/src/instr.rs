//! The instructions of the register machine.
//!
//! An instruction is one 64-bit slot of a function's code. An operation
//! that needs more operands than one slot holds spans several consecutive
//! slots: the first names the operation, the following ones carry the rest.

use vstd::prelude::*;
use crate::error::TrapCode;
use crate::ops::{BinaryOp, UnaryOp};
use crate::register::{Const16, RegSpan, Register};

verus! {

/// The position of an instruction in the code of a function.
#[derive(Clone, Copy, Debug, PartialEq, Eq, Structural, Hash)]
pub struct Instr(pub u32);

/// The distance from a branch to its target, in instructions: the position
/// of the target less the position of the branch.
#[derive(Clone, Copy, Debug, PartialEq, Eq, Structural, Hash)]
pub struct BranchOffset(pub i32);

/// A branch distance that fits in 16 bits.
#[derive(Clone, Copy, Debug, PartialEq, Eq, Structural, Hash)]
pub struct BranchOffset16(pub i16);

/// A load from linear memory.
#[derive(Clone, Copy, Debug, PartialEq, Eq, Structural, Hash)]
pub enum LoadOp {
    /// `i32.load`
    I32Load,
    /// `i64.load`
    I64Load,
    /// `f32.load`
    F32Load,
    /// `f64.load`
    F64Load,
    /// `i32.load8_s`
    I32Load8S,
    /// `i32.load8_u`
    I32Load8U,
    /// `i32.load16_s`
    I32Load16S,
    /// `i32.load16_u`
    I32Load16U,
    /// `i64.load8_s`
    I64Load8S,
    /// `i64.load8_u`
    I64Load8U,
    /// `i64.load16_s`
    I64Load16S,
    /// `i64.load16_u`
    I64Load16U,
    /// `i64.load32_s`
    I64Load32S,
    /// `i64.load32_u`
    I64Load32U,
}

/// A store to linear memory.
#[derive(Clone, Copy, Debug, PartialEq, Eq, Structural, Hash)]
pub enum StoreOp {
    /// `i32.store`
    I32Store,
    /// `i64.store`
    I64Store,
    /// `f32.store`
    F32Store,
    /// `f64.store`
    F64Store,
    /// `i32.store8`
    I32Store8,
    /// `i32.store16`
    I32Store16,
    /// `i64.store8`
    I64Store8,
    /// `i64.store16`
    I64Store16,
    /// `i64.store32`
    I64Store32,
}

/// An operation on a range of a memory or a table, with a destination, a
/// source and a length.
#[derive(Clone, Copy, Debug, PartialEq, Eq, Structural, Hash)]
pub enum BulkOp {
    /// `memory.init`, followed by a [`Instruction::DataIdx`].
    MemoryInit,
    /// `memory.copy`
    MemoryCopy,
    /// `memory.fill`; the source is the byte to fill with.
    MemoryFill,
    /// `table.init`, followed by a [`Instruction::TableIdx`] and an
    /// [`Instruction::ElemIdx`].
    TableInit,
    /// `table.copy`, followed by the [`Instruction::TableIdx`] of the
    /// destination and that of the source.
    TableCopy,
    /// `table.fill`, followed by a [`Instruction::TableIdx`]; the source is
    /// the reference to fill with.
    TableFill,
}

/// One slot of a function's code.
#[allow(inconsistent_fields)]
#[derive(Clone, Copy, Debug, PartialEq, Eq, Structural, Hash)]
pub enum Instruction {
    /// Stops the execution with a trap.
    Trap { code: TrapCode },
    /// Charges the fuel of the basic block that it starts.
    ConsumeFuel { amount: u32 },
    /// Returns no value.
    Return,
    /// Returns the value of a register.
    ReturnReg { value: Register },
    /// Returns the values of two registers.
    ReturnReg2 { v0: Register, v1: Register },
    /// Returns the values of three registers.
    ReturnReg3 { v0: Register, v1: Register, v2: Register },
    /// Returns a 32-bit constant, zero-extended to a word.
    ReturnImm32 { value: u32 },
    /// Returns a 64-bit integer constant that fits in 32 bits, sign-extended.
    ReturnI64Imm32 { value: i32 },
    /// Returns the values of the first `len` registers of a span.
    ReturnSpan { values: RegSpan, len: u16 },
    /// Returns the values of more than three registers; the registers after
    /// the third follow as a register list.
    ReturnMany { v0: Register, v1: Register, v2: Register },
    /// Continues at the target.
    Branch { offset: BranchOffset },
    /// Continues at the target if the condition is zero.
    BranchEqz { condition: Register, offset: BranchOffset },
    /// Continues at the target if the condition is not zero.
    BranchNez { condition: Register, offset: BranchOffset },
    /// Continues at the target if the relation holds of two registers.
    BranchBinary { op: BinaryOp, lhs: Register, rhs: Register, offset: BranchOffset16 },
    /// Continues at the target if the relation holds of a register and an
    /// immediate.
    BranchBinaryImm { op: BinaryOp, lhs: Register, rhs: Const16, offset: BranchOffset16 },
    /// Continues at one of the `len_targets` slots that follow: at the one
    /// that the index selects, or at the last if the index is too large.
    BranchTable { index: Register, len_targets: u32 },
    /// Copies a register.
    Copy { result: Register, value: Register },
    /// Copies two registers to the first two registers of a span, as if at
    /// once.
    Copy2 { results: RegSpan, v0: Register, v1: Register },
    /// Writes a 32-bit constant, zero-extended to a word.
    CopyImm32 { result: Register, value: u32 },
    /// Writes a 64-bit integer constant that fits in 32 bits, sign-extended.
    CopyI64Imm32 { result: Register, value: i32 },
    /// Copies `len` registers from one span to another, in ascending order.
    CopySpan { results: RegSpan, values: RegSpan, len: u16 },
    /// Copies `len` registers from one span to another, in descending order.
    CopySpanRev { results: RegSpan, values: RegSpan, len: u16 },
    /// Copies more than two registers to a span, as if at once; the
    /// registers after the second follow as a register list.
    CopyMany { results: RegSpan, v0: Register, v1: Register },
    /// Three registers of a register list that goes on in the next slot.
    RegisterList { r0: Register, r1: Register, r2: Register },
    /// The last three registers of a register list.
    Register3 { r0: Register, r1: Register, r2: Register },
    /// The last two registers of a register list.
    Register2 { r0: Register, r1: Register },
    /// The last register of a register list, or a single register operand.
    Register1 { r0: Register },
    /// A 32-bit operand of the preceding slot.
    Const32 { value: u32 },
    /// Calls a function of this module that takes no parameter.
    CallInternal0 { results: RegSpan, func: u32 },
    /// Calls a function of this module; its arguments follow as a register
    /// list.
    CallInternal { results: RegSpan, func: u32 },
    /// Calls an imported function that takes no parameter.
    CallImported0 { results: RegSpan, func: u32 },
    /// Calls an imported function; its arguments follow as a register list.
    CallImported { results: RegSpan, func: u32 },
    /// Calls through a table a function that takes no parameter; the table
    /// and the index follow in a slot of their own.
    CallIndirect0 { results: RegSpan, func_type: u32 },
    /// Calls through a table; the table and the index follow in a slot of
    /// their own, then the arguments as a register list.
    CallIndirect { results: RegSpan, func_type: u32 },
    /// Tail call of a function of this module that takes no parameter.
    ReturnCallInternal0 { func: u32 },
    /// Tail call of a function of this module; its arguments follow.
    ReturnCallInternal { func: u32 },
    /// Tail call of an imported function that takes no parameter.
    ReturnCallImported0 { func: u32 },
    /// Tail call of an imported function; its arguments follow.
    ReturnCallImported { func: u32 },
    /// Tail call through a table of a function that takes no parameter.
    ReturnCallIndirect0 { func_type: u32 },
    /// Tail call through a table; the table and the index follow, then the
    /// arguments.
    ReturnCallIndirect { func_type: u32 },
    /// The table of an indirect call and the register with the index.
    CallIndirectParams { index: Register, table: u32 },
    /// The table of an indirect call and the index as an immediate.
    CallIndirectParamsImm16 { index: Const16, table: u32 },
    /// Selects `lhs` if the condition is not zero, else the register of the
    /// [`Instruction::Register1`] that follows.
    Select { result: Register, condition: Register, lhs: Register },
    /// Writes the reference to a function.
    RefFunc { result: Register, func: u32 },
    /// Reads a global variable.
    GlobalGet { result: Register, global: u32 },
    /// Writes a global variable.
    GlobalSet { global: u32, input: Register },
    /// Writes a 32-bit integer immediate to a global variable.
    GlobalSetI32Imm16 { global: u32, input: Const16 },
    /// Writes a 64-bit integer immediate to a global variable.
    GlobalSetI64Imm16 { global: u32, input: Const16 },
    /// Loads from the address in `ptr` plus the offset of the
    /// [`Instruction::Const32`] that follows.
    Load { op: LoadOp, result: Register, ptr: Register },
    /// Loads from the address in `ptr` plus a 16-bit offset.
    LoadOffset16 { op: LoadOp, result: Register, ptr: Register, offset: Const16 },
    /// Loads from a constant address.
    LoadAt { op: LoadOp, result: Register, address: u32 },
    /// Stores the register of the [`Instruction::Register1`] that follows
    /// at the address in `ptr` plus `offset`.
    Store { op: StoreOp, ptr: Register, offset: u32 },
    /// Stores a register at the address in `ptr` plus a 16-bit offset.
    StoreOffset16 { op: StoreOp, ptr: Register, offset: Const16, value: Register },
    /// Stores an immediate at the address in `ptr` plus a 16-bit offset.
    StoreOffset16Imm { op: StoreOp, ptr: Register, offset: Const16, value: Const16 },
    /// Stores a register at a constant address.
    StoreAt { op: StoreOp, address: u32, value: Register },
    /// Stores an immediate at a constant address.
    StoreAtImm { op: StoreOp, address: u32, value: Const16 },
    /// Writes the size of the memory, in pages.
    MemorySize { result: Register },
    /// Grows the memory by the pages in a register.
    MemoryGrow { result: Register, delta: Register },
    /// Grows the memory by a constant number of pages, which is not zero.
    MemoryGrowBy { result: Register, delta: Const16 },
    /// A bulk operation; destination, source and length are registers.
    Bulk { op: BulkOp, dst: Register, src: Register, len: Register },
    /// A bulk operation with a constant length.
    BulkExact { op: BulkOp, dst: Register, src: Register, len: Const16 },
    /// A bulk operation with a constant source.
    BulkFrom { op: BulkOp, dst: Register, src: Const16, len: Register },
    /// A bulk operation with a constant source and length.
    BulkFromExact { op: BulkOp, dst: Register, src: Const16, len: Const16 },
    /// A bulk operation with a constant destination.
    BulkTo { op: BulkOp, dst: Const16, src: Register, len: Register },
    /// A bulk operation with a constant destination and length.
    BulkToExact { op: BulkOp, dst: Const16, src: Register, len: Const16 },
    /// A bulk operation with a constant destination and source.
    BulkFromTo { op: BulkOp, dst: Const16, src: Const16, len: Register },
    /// A bulk operation whose operands are all constant.
    BulkFromToExact { op: BulkOp, dst: Const16, src: Const16, len: Const16 },
    /// The data segment of the preceding instruction.
    DataIdx { index: u32 },
    /// The element segment of the preceding instruction.
    ElemIdx { index: u32 },
    /// A table of the preceding instruction.
    TableIdx { index: u32 },
    /// Drops a data segment.
    DataDrop { segment: u32 },
    /// Drops an element segment.
    ElemDrop { segment: u32 },
    /// Reads a table element; a [`Instruction::TableIdx`] follows.
    TableGet { result: Register, index: Register },
    /// Reads the table element at a constant index.
    TableGetImm { result: Register, index: u32 },
    /// Writes a table element; a [`Instruction::TableIdx`] follows.
    TableSet { index: Register, value: Register },
    /// Writes the table element at a constant index.
    TableSetAt { index: u32, value: Register },
    /// Writes the size of a table.
    TableSize { result: Register, table: u32 },
    /// Grows a table; a [`Instruction::TableIdx`] follows.
    TableGrow { result: Register, delta: Register, value: Register },
    /// Grows a table by a constant number of elements, which is not zero.
    TableGrowImm { result: Register, delta: Const16, value: Register },
    /// Applies a unary operator.
    Unary { op: UnaryOp, result: Register, input: Register },
    /// Applies a binary operator to two registers.
    Binary { op: BinaryOp, result: Register, lhs: Register, rhs: Register },
    /// Applies a binary operator to two registers and writes the result to
    /// the first of them.
    BinaryAssign { op: BinaryOp, inout: Register, rhs: Register },
    /// Applies a binary operator to a register and a 32-bit immediate and
    /// writes the result to the register.
    BinaryAssignImm32 { op: BinaryOp, inout: Register, rhs: u32 },
    /// Applies a binary operator to a register and a 16-bit immediate.
    BinaryImm16 { op: BinaryOp, result: Register, lhs: Register, rhs: Const16 },
    /// Applies a binary operator to a 16-bit immediate and a register.
    BinaryImm16Rev { op: BinaryOp, result: Register, lhs: Const16, rhs: Register },
}

impl Instruction {
    /// Whether the instruction holds the distance to a branch target.
    pub open spec fn is_branch(self) -> bool {
        self is Branch || self is BranchEqz || self is BranchNez || self is BranchBinary
            || self is BranchBinaryImm
    }

    /// The branch with its distance set to `offset`, if the branch can hold
    /// that distance.
    pub open spec fn with_offset(self, offset: int) -> Option<Instruction> {
        match self {
            Instruction::Branch { .. } => if i32::MIN <= offset <= i32::MAX {
                Some(Instruction::Branch { offset: BranchOffset(offset as i32) })
            } else {
                None
            },
            Instruction::BranchEqz { condition, .. } => if i32::MIN <= offset <= i32::MAX {
                Some(Instruction::BranchEqz { condition, offset: BranchOffset(offset as i32) })
            } else {
                None
            },
            Instruction::BranchNez { condition, .. } => if i32::MIN <= offset <= i32::MAX {
                Some(Instruction::BranchNez { condition, offset: BranchOffset(offset as i32) })
            } else {
                None
            },
            Instruction::BranchBinary { op, lhs, rhs, .. } => if i16::MIN <= offset <= i16::MAX {
                Some(Instruction::BranchBinary { op, lhs, rhs, offset: BranchOffset16(offset as i16) })
            } else {
                None
            },
            Instruction::BranchBinaryImm { op, lhs, rhs, .. } => if i16::MIN <= offset <= i16::MAX {
                Some(Instruction::BranchBinaryImm { op, lhs, rhs, offset: BranchOffset16(offset as i16) })
            } else {
                None
            },
            _ => None,
        }
    }

    /// Computes [`Self::with_offset`].
    pub fn update_branch_offset(self, offset: i32) -> (r: Option<Instruction>)
        ensures
            r == self.with_offset(offset as int),
    {
        match self {
            Instruction::Branch { .. } => Some(Instruction::Branch { offset: BranchOffset(offset) }),
            Instruction::BranchEqz { condition, .. } => Some(
                Instruction::BranchEqz { condition, offset: BranchOffset(offset) },
            ),
            Instruction::BranchNez { condition, .. } => Some(
                Instruction::BranchNez { condition, offset: BranchOffset(offset) },
            ),
            Instruction::BranchBinary { op, lhs, rhs, .. } => if -32768 <= offset && offset <= 32767 {
                Some(Instruction::BranchBinary { op, lhs, rhs, offset: BranchOffset16(offset as i16) })
            } else {
                None
            },
            Instruction::BranchBinaryImm { op, lhs, rhs, .. } => if -32768 <= offset && offset <= 32767 {
                Some(Instruction::BranchBinaryImm { op, lhs, rhs, offset: BranchOffset16(offset as i16) })
            } else {
                None
            },
            _ => None,
        }
    }

    /// The same instruction writing its result to `new_result`, for an
    /// instruction of one slot that writes one register, `old_result`, and
    /// does nothing else that can be observed.
    pub open spec fn relinked(self, new_result: Register, old_result: Register) -> Option<Instruction> {
        match self {
            Instruction::Copy { result, value } if result == old_result => Some(
                Instruction::Copy { result: new_result, value },
            ),
            Instruction::CopyImm32 { result, value } if result == old_result => Some(
                Instruction::CopyImm32 { result: new_result, value },
            ),
            Instruction::CopyI64Imm32 { result, value } if result == old_result => Some(
                Instruction::CopyI64Imm32 { result: new_result, value },
            ),
            Instruction::Unary { op, result, input } if result == old_result => Some(
                Instruction::Unary { op, result: new_result, input },
            ),
            Instruction::Binary { op, result, lhs, rhs } if result == old_result => Some(
                Instruction::Binary { op, result: new_result, lhs, rhs },
            ),
            Instruction::BinaryImm16 { op, result, lhs, rhs } if result == old_result => Some(
                Instruction::BinaryImm16 { op, result: new_result, lhs, rhs },
            ),
            Instruction::BinaryImm16Rev { op, result, lhs, rhs } if result == old_result => Some(
                Instruction::BinaryImm16Rev { op, result: new_result, lhs, rhs },
            ),
            Instruction::GlobalGet { result, global } if result == old_result => Some(
                Instruction::GlobalGet { result: new_result, global },
            ),
            Instruction::RefFunc { result, func } if result == old_result => Some(
                Instruction::RefFunc { result: new_result, func },
            ),
            Instruction::LoadOffset16 { op, result, ptr, offset } if result == old_result => Some(
                Instruction::LoadOffset16 { op, result: new_result, ptr, offset },
            ),
            Instruction::LoadAt { op, result, address } if result == old_result => Some(
                Instruction::LoadAt { op, result: new_result, address },
            ),
            Instruction::MemorySize { result } if result == old_result => Some(
                Instruction::MemorySize { result: new_result },
            ),
            Instruction::TableSize { result, table } if result == old_result => Some(
                Instruction::TableSize { result: new_result, table },
            ),
            _ => None,
        }
    }

    /// Computes [`Self::relinked`].
    pub fn relink_result(self, new_result: Register, old_result: Register) -> (r: Option<Instruction>)
        ensures
            r == self.relinked(new_result, old_result),
    {
        match self {
            Instruction::Copy { result, value } if result == old_result => Some(
                Instruction::Copy { result: new_result, value },
            ),
            Instruction::CopyImm32 { result, value } if result == old_result => Some(
                Instruction::CopyImm32 { result: new_result, value },
            ),
            Instruction::CopyI64Imm32 { result, value } if result == old_result => Some(
                Instruction::CopyI64Imm32 { result: new_result, value },
            ),
            Instruction::Unary { op, result, input } if result == old_result => Some(
                Instruction::Unary { op, result: new_result, input },
            ),
            Instruction::Binary { op, result, lhs, rhs } if result == old_result => Some(
                Instruction::Binary { op, result: new_result, lhs, rhs },
            ),
            Instruction::BinaryImm16 { op, result, lhs, rhs } if result == old_result => Some(
                Instruction::BinaryImm16 { op, result: new_result, lhs, rhs },
            ),
            Instruction::BinaryImm16Rev { op, result, lhs, rhs } if result == old_result => Some(
                Instruction::BinaryImm16Rev { op, result: new_result, lhs, rhs },
            ),
            Instruction::GlobalGet { result, global } if result == old_result => Some(
                Instruction::GlobalGet { result: new_result, global },
            ),
            Instruction::RefFunc { result, func } if result == old_result => Some(
                Instruction::RefFunc { result: new_result, func },
            ),
            Instruction::LoadOffset16 { op, result, ptr, offset } if result == old_result => Some(
                Instruction::LoadOffset16 { op, result: new_result, ptr, offset },
            ),
            Instruction::LoadAt { op, result, address } if result == old_result => Some(
                Instruction::LoadAt { op, result: new_result, address },
            ),
            Instruction::MemorySize { result } if result == old_result => Some(
                Instruction::MemorySize { result: new_result },
            ),
            Instruction::TableSize { result, table } if result == old_result => Some(
                Instruction::TableSize { result: new_result, table },
            ),
            _ => None,
        }
    }
}

} // verus!
