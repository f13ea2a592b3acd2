//! The algebraic identities that the translator applies to binary
//! operators, and the immediates that their instructions can hold.

use vstd::prelude::*;
use crate::error::TrapCode;
use crate::ops::{f32_is_nan, f32_is_nan_exec, f64_is_nan, f64_is_nan_exec, BinaryOp};
use crate::register::{Const16, Register};
use crate::value::{TypedProvider, TypedValue, ValueType};

verus! {

/// What a binary operator comes to without being executed.
#[derive(Clone, Copy, Debug, PartialEq, Eq, Structural, Hash)]
pub enum Simplified {
    /// The result is this provider: one of the operands, or a constant.
    Provider(TypedProvider),
    /// The operator always traps.
    Trap(TrapCode),
}

impl BinaryOp {
    /// Whether the operands of the operator can change places.
    pub open spec fn is_commutative(self) -> bool {
        match self {
            BinaryOp::I32Eq
            | BinaryOp::I32Ne
            | BinaryOp::I32Add
            | BinaryOp::I32Mul
            | BinaryOp::I32And
            | BinaryOp::I32Or
            | BinaryOp::I32Xor
            | BinaryOp::I64Eq
            | BinaryOp::I64Ne
            | BinaryOp::I64Add
            | BinaryOp::I64Mul
            | BinaryOp::I64And
            | BinaryOp::I64Or
            | BinaryOp::I64Xor
            | BinaryOp::F32Eq
            | BinaryOp::F32Ne
            | BinaryOp::F32Add
            | BinaryOp::F32Mul
            | BinaryOp::F32Min
            | BinaryOp::F32Max
            | BinaryOp::F64Eq
            | BinaryOp::F64Ne
            | BinaryOp::F64Add
            | BinaryOp::F64Mul
            | BinaryOp::F64Min
            | BinaryOp::F64Max => true,
            _ => false,
        }
    }

    /// Computes [`Self::is_commutative`].
    pub fn is_commutative_exec(self) -> (r: bool)
        ensures
            r == self.is_commutative(),
    {
        match self {
            BinaryOp::I32Eq
            | BinaryOp::I32Ne
            | BinaryOp::I32Add
            | BinaryOp::I32Mul
            | BinaryOp::I32And
            | BinaryOp::I32Or
            | BinaryOp::I32Xor
            | BinaryOp::I64Eq
            | BinaryOp::I64Ne
            | BinaryOp::I64Add
            | BinaryOp::I64Mul
            | BinaryOp::I64And
            | BinaryOp::I64Or
            | BinaryOp::I64Xor
            | BinaryOp::F32Eq
            | BinaryOp::F32Ne
            | BinaryOp::F32Add
            | BinaryOp::F32Mul
            | BinaryOp::F32Min
            | BinaryOp::F32Max
            | BinaryOp::F64Eq
            | BinaryOp::F64Ne
            | BinaryOp::F64Add
            | BinaryOp::F64Mul
            | BinaryOp::F64Min
            | BinaryOp::F64Max => true,
            _ => false,
        }
    }

    /// What the operator comes to when both operands are the register
    /// `operand`, if that is known without executing it.
    pub open spec fn same_register(self, operand: Register) -> Option<Simplified> {
        match self {
            BinaryOp::I32Eq
            | BinaryOp::I32LeS
            | BinaryOp::I32LeU
            | BinaryOp::I32GeS
            | BinaryOp::I32GeU
            | BinaryOp::I64Eq
            | BinaryOp::I64LeS
            | BinaryOp::I64LeU
            | BinaryOp::I64GeS
            | BinaryOp::I64GeU => Some(Simplified::Provider(TypedProvider::Const(TypedValue { ty: ValueType::I32, bits: 1 }))),
            BinaryOp::I32Ne
            | BinaryOp::I32LtS
            | BinaryOp::I32LtU
            | BinaryOp::I32GtS
            | BinaryOp::I32GtU
            | BinaryOp::I64Ne
            | BinaryOp::I64LtS
            | BinaryOp::I64LtU
            | BinaryOp::I64GtS
            | BinaryOp::I64GtU
            | BinaryOp::F32Lt
            | BinaryOp::F32Gt
            | BinaryOp::F64Lt
            | BinaryOp::F64Gt => Some(Simplified::Provider(TypedProvider::Const(TypedValue { ty: ValueType::I32, bits: 0 }))),
            BinaryOp::I32Sub
            | BinaryOp::I32Xor => Some(Simplified::Provider(TypedProvider::Const(TypedValue { ty: ValueType::I32, bits: 0 }))),
            BinaryOp::I32And
            | BinaryOp::I32Or
            | BinaryOp::I64And
            | BinaryOp::I64Or
            | BinaryOp::F32Copysign
            | BinaryOp::F64Copysign => Some(Simplified::Provider(TypedProvider::Register(operand))),
            BinaryOp::I64Sub
            | BinaryOp::I64Xor => Some(Simplified::Provider(TypedProvider::Const(TypedValue { ty: ValueType::I64, bits: 0 }))),
            _ => None,
        }
    }

    /// Computes [`Self::same_register`].
    pub fn same_register_exec(self, operand: Register) -> (r: Option<Simplified>)
        ensures
            r == self.same_register(operand),
    {
        match self {
            BinaryOp::I32Eq
            | BinaryOp::I32LeS
            | BinaryOp::I32LeU
            | BinaryOp::I32GeS
            | BinaryOp::I32GeU
            | BinaryOp::I64Eq
            | BinaryOp::I64LeS
            | BinaryOp::I64LeU
            | BinaryOp::I64GeS
            | BinaryOp::I64GeU => Some(Simplified::Provider(TypedProvider::Const(TypedValue { ty: ValueType::I32, bits: 1 }))),
            BinaryOp::I32Ne
            | BinaryOp::I32LtS
            | BinaryOp::I32LtU
            | BinaryOp::I32GtS
            | BinaryOp::I32GtU
            | BinaryOp::I64Ne
            | BinaryOp::I64LtS
            | BinaryOp::I64LtU
            | BinaryOp::I64GtS
            | BinaryOp::I64GtU
            | BinaryOp::F32Lt
            | BinaryOp::F32Gt
            | BinaryOp::F64Lt
            | BinaryOp::F64Gt => Some(Simplified::Provider(TypedProvider::Const(TypedValue { ty: ValueType::I32, bits: 0 }))),
            BinaryOp::I32Sub
            | BinaryOp::I32Xor => Some(Simplified::Provider(TypedProvider::Const(TypedValue { ty: ValueType::I32, bits: 0 }))),
            BinaryOp::I32And
            | BinaryOp::I32Or
            | BinaryOp::I64And
            | BinaryOp::I64Or
            | BinaryOp::F32Copysign
            | BinaryOp::F64Copysign => Some(Simplified::Provider(TypedProvider::Register(operand))),
            BinaryOp::I64Sub
            | BinaryOp::I64Xor => Some(Simplified::Provider(TypedProvider::Const(TypedValue { ty: ValueType::I64, bits: 0 }))),
            _ => None,
        }
    }

    /// What the operator comes to when the left operand is the register `operand` and the right
    /// operand the constant with the word `bits`, if that is
    /// known without executing it.
    pub open spec fn with_rhs_const(self, operand: Register, bits: u64) -> Option<Simplified> {
        match self {
            BinaryOp::I32LtS => {
                if (bits as u32) == 0x8000_0000u32 {
                    Some(Simplified::Provider(TypedProvider::Const(TypedValue { ty: ValueType::I32, bits: 0 })))
                } else {
                    None
                }
            },
            BinaryOp::I32LtU => {
                if (bits as u32) == 0u32 {
                    Some(Simplified::Provider(TypedProvider::Const(TypedValue { ty: ValueType::I32, bits: 0 })))
                } else {
                    None
                }
            },
            BinaryOp::I32GtS => {
                if (bits as u32) == 0x7FFF_FFFFu32 {
                    Some(Simplified::Provider(TypedProvider::Const(TypedValue { ty: ValueType::I32, bits: 0 })))
                } else {
                    None
                }
            },
            BinaryOp::I32GtU => {
                if (bits as u32) == 0xFFFF_FFFFu32 {
                    Some(Simplified::Provider(TypedProvider::Const(TypedValue { ty: ValueType::I32, bits: 0 })))
                } else {
                    None
                }
            },
            BinaryOp::I32LeS => {
                if (bits as u32) == 0x7FFF_FFFFu32 {
                    Some(Simplified::Provider(TypedProvider::Const(TypedValue { ty: ValueType::I32, bits: 1 })))
                } else {
                    None
                }
            },
            BinaryOp::I32LeU => {
                if (bits as u32) == 0xFFFF_FFFFu32 {
                    Some(Simplified::Provider(TypedProvider::Const(TypedValue { ty: ValueType::I32, bits: 1 })))
                } else {
                    None
                }
            },
            BinaryOp::I32GeS => {
                if (bits as u32) == 0x8000_0000u32 {
                    Some(Simplified::Provider(TypedProvider::Const(TypedValue { ty: ValueType::I32, bits: 1 })))
                } else {
                    None
                }
            },
            BinaryOp::I32GeU => {
                if (bits as u32) == 0u32 {
                    Some(Simplified::Provider(TypedProvider::Const(TypedValue { ty: ValueType::I32, bits: 1 })))
                } else {
                    None
                }
            },
            BinaryOp::I32Add => {
                if (bits as u32) == 0u32 {
                    Some(Simplified::Provider(TypedProvider::Register(operand)))
                } else {
                    None
                }
            },
            BinaryOp::I32Sub => {
                if (bits as u32) == 0u32 {
                    Some(Simplified::Provider(TypedProvider::Register(operand)))
                } else {
                    None
                }
            },
            BinaryOp::I32Mul => {
                if (bits as u32) == 0u32 {
                    Some(Simplified::Provider(TypedProvider::Const(TypedValue { ty: ValueType::I32, bits: 0 })))
                } else if (bits as u32) == 1u32 {
                    Some(Simplified::Provider(TypedProvider::Register(operand)))
                } else {
                    None
                }
            },
            BinaryOp::I32DivS => {
                if (bits as u32) == 0u32 {
                    Some(Simplified::Trap(TrapCode::IntegerDivisionByZero))
                } else if (bits as u32) == 1u32 {
                    Some(Simplified::Provider(TypedProvider::Register(operand)))
                } else {
                    None
                }
            },
            BinaryOp::I32DivU => {
                if (bits as u32) == 0u32 {
                    Some(Simplified::Trap(TrapCode::IntegerDivisionByZero))
                } else if (bits as u32) == 1u32 {
                    Some(Simplified::Provider(TypedProvider::Register(operand)))
                } else {
                    None
                }
            },
            BinaryOp::I32RemS => {
                if (bits as u32) == 0u32 {
                    Some(Simplified::Trap(TrapCode::IntegerDivisionByZero))
                } else if (bits as u32) == 1u32 {
                    Some(Simplified::Provider(TypedProvider::Const(TypedValue { ty: ValueType::I32, bits: 0 })))
                } else {
                    None
                }
            },
            BinaryOp::I32RemU => {
                if (bits as u32) == 0u32 {
                    Some(Simplified::Trap(TrapCode::IntegerDivisionByZero))
                } else if (bits as u32) == 1u32 {
                    Some(Simplified::Provider(TypedProvider::Const(TypedValue { ty: ValueType::I32, bits: 0 })))
                } else {
                    None
                }
            },
            BinaryOp::I32And => {
                if (bits as u32) == 0xFFFF_FFFFu32 {
                    Some(Simplified::Provider(TypedProvider::Register(operand)))
                } else if (bits as u32) == 0u32 {
                    Some(Simplified::Provider(TypedProvider::Const(TypedValue { ty: ValueType::I32, bits: 0 })))
                } else {
                    None
                }
            },
            BinaryOp::I32Or => {
                if (bits as u32) == 0xFFFF_FFFFu32 {
                    Some(Simplified::Provider(TypedProvider::Const(TypedValue { ty: ValueType::I32, bits: 0xFFFF_FFFF })))
                } else if (bits as u32) == 0u32 {
                    Some(Simplified::Provider(TypedProvider::Register(operand)))
                } else {
                    None
                }
            },
            BinaryOp::I32Xor => {
                if (bits as u32) == 0u32 {
                    Some(Simplified::Provider(TypedProvider::Register(operand)))
                } else {
                    None
                }
            },
            BinaryOp::I32Shl => {
                if (bits as u32) % 32 == 0 {
                    Some(Simplified::Provider(TypedProvider::Register(operand)))
                } else {
                    None
                }
            },
            BinaryOp::I32ShrS => {
                if (bits as u32) % 32 == 0 {
                    Some(Simplified::Provider(TypedProvider::Register(operand)))
                } else {
                    None
                }
            },
            BinaryOp::I32ShrU => {
                if (bits as u32) % 32 == 0 {
                    Some(Simplified::Provider(TypedProvider::Register(operand)))
                } else {
                    None
                }
            },
            BinaryOp::I32Rotl => {
                if (bits as u32) % 32 == 0 {
                    Some(Simplified::Provider(TypedProvider::Register(operand)))
                } else {
                    None
                }
            },
            BinaryOp::I32Rotr => {
                if (bits as u32) % 32 == 0 {
                    Some(Simplified::Provider(TypedProvider::Register(operand)))
                } else {
                    None
                }
            },
            BinaryOp::I64LtS => {
                if bits == 0x8000_0000_0000_0000u64 {
                    Some(Simplified::Provider(TypedProvider::Const(TypedValue { ty: ValueType::I32, bits: 0 })))
                } else {
                    None
                }
            },
            BinaryOp::I64LtU => {
                if bits == 0u64 {
                    Some(Simplified::Provider(TypedProvider::Const(TypedValue { ty: ValueType::I32, bits: 0 })))
                } else {
                    None
                }
            },
            BinaryOp::I64GtS => {
                if bits == 0x7FFF_FFFF_FFFF_FFFFu64 {
                    Some(Simplified::Provider(TypedProvider::Const(TypedValue { ty: ValueType::I32, bits: 0 })))
                } else {
                    None
                }
            },
            BinaryOp::I64GtU => {
                if bits == 0xFFFF_FFFF_FFFF_FFFFu64 {
                    Some(Simplified::Provider(TypedProvider::Const(TypedValue { ty: ValueType::I32, bits: 0 })))
                } else {
                    None
                }
            },
            BinaryOp::I64LeS => {
                if bits == 0x7FFF_FFFF_FFFF_FFFFu64 {
                    Some(Simplified::Provider(TypedProvider::Const(TypedValue { ty: ValueType::I32, bits: 1 })))
                } else {
                    None
                }
            },
            BinaryOp::I64LeU => {
                if bits == 0xFFFF_FFFF_FFFF_FFFFu64 {
                    Some(Simplified::Provider(TypedProvider::Const(TypedValue { ty: ValueType::I32, bits: 1 })))
                } else {
                    None
                }
            },
            BinaryOp::I64GeS => {
                if bits == 0x8000_0000_0000_0000u64 {
                    Some(Simplified::Provider(TypedProvider::Const(TypedValue { ty: ValueType::I32, bits: 1 })))
                } else {
                    None
                }
            },
            BinaryOp::I64GeU => {
                if bits == 0u64 {
                    Some(Simplified::Provider(TypedProvider::Const(TypedValue { ty: ValueType::I32, bits: 1 })))
                } else {
                    None
                }
            },
            BinaryOp::I64Add => {
                if bits == 0u64 {
                    Some(Simplified::Provider(TypedProvider::Register(operand)))
                } else {
                    None
                }
            },
            BinaryOp::I64Sub => {
                if bits == 0u64 {
                    Some(Simplified::Provider(TypedProvider::Register(operand)))
                } else {
                    None
                }
            },
            BinaryOp::I64Mul => {
                if bits == 0u64 {
                    Some(Simplified::Provider(TypedProvider::Const(TypedValue { ty: ValueType::I64, bits: 0 })))
                } else if bits == 1u64 {
                    Some(Simplified::Provider(TypedProvider::Register(operand)))
                } else {
                    None
                }
            },
            BinaryOp::I64DivS => {
                if bits == 0u64 {
                    Some(Simplified::Trap(TrapCode::IntegerDivisionByZero))
                } else if bits == 1u64 {
                    Some(Simplified::Provider(TypedProvider::Register(operand)))
                } else {
                    None
                }
            },
            BinaryOp::I64DivU => {
                if bits == 0u64 {
                    Some(Simplified::Trap(TrapCode::IntegerDivisionByZero))
                } else if bits == 1u64 {
                    Some(Simplified::Provider(TypedProvider::Register(operand)))
                } else {
                    None
                }
            },
            BinaryOp::I64RemS => {
                if bits == 0u64 {
                    Some(Simplified::Trap(TrapCode::IntegerDivisionByZero))
                } else if bits == 1u64 {
                    Some(Simplified::Provider(TypedProvider::Const(TypedValue { ty: ValueType::I64, bits: 0 })))
                } else {
                    None
                }
            },
            BinaryOp::I64RemU => {
                if bits == 0u64 {
                    Some(Simplified::Trap(TrapCode::IntegerDivisionByZero))
                } else if bits == 1u64 {
                    Some(Simplified::Provider(TypedProvider::Const(TypedValue { ty: ValueType::I64, bits: 0 })))
                } else {
                    None
                }
            },
            BinaryOp::I64And => {
                if bits == 0xFFFF_FFFF_FFFF_FFFFu64 {
                    Some(Simplified::Provider(TypedProvider::Register(operand)))
                } else if bits == 0u64 {
                    Some(Simplified::Provider(TypedProvider::Const(TypedValue { ty: ValueType::I64, bits: 0 })))
                } else {
                    None
                }
            },
            BinaryOp::I64Or => {
                if bits == 0xFFFF_FFFF_FFFF_FFFFu64 {
                    Some(Simplified::Provider(TypedProvider::Const(TypedValue { ty: ValueType::I64, bits: 0xFFFF_FFFF_FFFF_FFFF })))
                } else if bits == 0u64 {
                    Some(Simplified::Provider(TypedProvider::Register(operand)))
                } else {
                    None
                }
            },
            BinaryOp::I64Xor => {
                if bits == 0u64 {
                    Some(Simplified::Provider(TypedProvider::Register(operand)))
                } else {
                    None
                }
            },
            BinaryOp::I64Shl => {
                if bits % 64 == 0 {
                    Some(Simplified::Provider(TypedProvider::Register(operand)))
                } else {
                    None
                }
            },
            BinaryOp::I64ShrS => {
                if bits % 64 == 0 {
                    Some(Simplified::Provider(TypedProvider::Register(operand)))
                } else {
                    None
                }
            },
            BinaryOp::I64ShrU => {
                if bits % 64 == 0 {
                    Some(Simplified::Provider(TypedProvider::Register(operand)))
                } else {
                    None
                }
            },
            BinaryOp::I64Rotl => {
                if bits % 64 == 0 {
                    Some(Simplified::Provider(TypedProvider::Register(operand)))
                } else {
                    None
                }
            },
            BinaryOp::I64Rotr => {
                if bits % 64 == 0 {
                    Some(Simplified::Provider(TypedProvider::Register(operand)))
                } else {
                    None
                }
            },
            BinaryOp::F32Eq => {
                if f32_is_nan(bits) {
                    Some(Simplified::Provider(TypedProvider::Const(TypedValue { ty: ValueType::I32, bits: 0 })))
                } else {
                    None
                }
            },
            BinaryOp::F32Ne => {
                if f32_is_nan(bits) {
                    Some(Simplified::Provider(TypedProvider::Const(TypedValue { ty: ValueType::I32, bits: 1 })))
                } else {
                    None
                }
            },
            BinaryOp::F32Lt => {
                if f32_is_nan(bits) {
                    Some(Simplified::Provider(TypedProvider::Const(TypedValue { ty: ValueType::I32, bits: 0 })))
                } else if (bits as u32) == 0xFF80_0000u32 {
                    Some(Simplified::Provider(TypedProvider::Const(TypedValue { ty: ValueType::I32, bits: 0 })))
                } else {
                    None
                }
            },
            BinaryOp::F32Gt => {
                if f32_is_nan(bits) {
                    Some(Simplified::Provider(TypedProvider::Const(TypedValue { ty: ValueType::I32, bits: 0 })))
                } else if (bits as u32) == 0x7F80_0000u32 {
                    Some(Simplified::Provider(TypedProvider::Const(TypedValue { ty: ValueType::I32, bits: 0 })))
                } else {
                    None
                }
            },
            BinaryOp::F32Le => {
                if f32_is_nan(bits) {
                    Some(Simplified::Provider(TypedProvider::Const(TypedValue { ty: ValueType::I32, bits: 0 })))
                } else {
                    None
                }
            },
            BinaryOp::F32Ge => {
                if f32_is_nan(bits) {
                    Some(Simplified::Provider(TypedProvider::Const(TypedValue { ty: ValueType::I32, bits: 0 })))
                } else {
                    None
                }
            },
            BinaryOp::F32Min => {
                if (bits as u32) == 0x7F80_0000u32 {
                    Some(Simplified::Provider(TypedProvider::Register(operand)))
                } else {
                    None
                }
            },
            BinaryOp::F32Max => {
                if (bits as u32) == 0xFF80_0000u32 {
                    Some(Simplified::Provider(TypedProvider::Register(operand)))
                } else {
                    None
                }
            },
            BinaryOp::F64Eq => {
                if f64_is_nan(bits) {
                    Some(Simplified::Provider(TypedProvider::Const(TypedValue { ty: ValueType::I32, bits: 0 })))
                } else {
                    None
                }
            },
            BinaryOp::F64Ne => {
                if f64_is_nan(bits) {
                    Some(Simplified::Provider(TypedProvider::Const(TypedValue { ty: ValueType::I32, bits: 1 })))
                } else {
                    None
                }
            },
            BinaryOp::F64Lt => {
                if f64_is_nan(bits) {
                    Some(Simplified::Provider(TypedProvider::Const(TypedValue { ty: ValueType::I32, bits: 0 })))
                } else if bits == 0xFFF0_0000_0000_0000u64 {
                    Some(Simplified::Provider(TypedProvider::Const(TypedValue { ty: ValueType::I32, bits: 0 })))
                } else {
                    None
                }
            },
            BinaryOp::F64Gt => {
                if f64_is_nan(bits) {
                    Some(Simplified::Provider(TypedProvider::Const(TypedValue { ty: ValueType::I32, bits: 0 })))
                } else if bits == 0x7FF0_0000_0000_0000u64 {
                    Some(Simplified::Provider(TypedProvider::Const(TypedValue { ty: ValueType::I32, bits: 0 })))
                } else {
                    None
                }
            },
            BinaryOp::F64Le => {
                if f64_is_nan(bits) {
                    Some(Simplified::Provider(TypedProvider::Const(TypedValue { ty: ValueType::I32, bits: 0 })))
                } else {
                    None
                }
            },
            BinaryOp::F64Ge => {
                if f64_is_nan(bits) {
                    Some(Simplified::Provider(TypedProvider::Const(TypedValue { ty: ValueType::I32, bits: 0 })))
                } else {
                    None
                }
            },
            BinaryOp::F64Min => {
                if bits == 0x7FF0_0000_0000_0000u64 {
                    Some(Simplified::Provider(TypedProvider::Register(operand)))
                } else {
                    None
                }
            },
            BinaryOp::F64Max => {
                if bits == 0xFFF0_0000_0000_0000u64 {
                    Some(Simplified::Provider(TypedProvider::Register(operand)))
                } else {
                    None
                }
            },
            _ => None,
        }
    }

    /// Computes [`Self::with_rhs_const`].
    pub fn with_rhs_const_exec(self, operand: Register, bits: u64) -> (r: Option<Simplified>)
        ensures
            r == self.with_rhs_const(operand, bits),
    {
        let low: u32 = #[verifier::truncate] (bits as u32);
        match self {
            BinaryOp::I32LtS => {
                if low == 0x8000_0000u32 {
                    Some(Simplified::Provider(TypedProvider::Const(TypedValue { ty: ValueType::I32, bits: 0 })))
                } else {
                    None
                }
            },
            BinaryOp::I32LtU => {
                if low == 0u32 {
                    Some(Simplified::Provider(TypedProvider::Const(TypedValue { ty: ValueType::I32, bits: 0 })))
                } else {
                    None
                }
            },
            BinaryOp::I32GtS => {
                if low == 0x7FFF_FFFFu32 {
                    Some(Simplified::Provider(TypedProvider::Const(TypedValue { ty: ValueType::I32, bits: 0 })))
                } else {
                    None
                }
            },
            BinaryOp::I32GtU => {
                if low == 0xFFFF_FFFFu32 {
                    Some(Simplified::Provider(TypedProvider::Const(TypedValue { ty: ValueType::I32, bits: 0 })))
                } else {
                    None
                }
            },
            BinaryOp::I32LeS => {
                if low == 0x7FFF_FFFFu32 {
                    Some(Simplified::Provider(TypedProvider::Const(TypedValue { ty: ValueType::I32, bits: 1 })))
                } else {
                    None
                }
            },
            BinaryOp::I32LeU => {
                if low == 0xFFFF_FFFFu32 {
                    Some(Simplified::Provider(TypedProvider::Const(TypedValue { ty: ValueType::I32, bits: 1 })))
                } else {
                    None
                }
            },
            BinaryOp::I32GeS => {
                if low == 0x8000_0000u32 {
                    Some(Simplified::Provider(TypedProvider::Const(TypedValue { ty: ValueType::I32, bits: 1 })))
                } else {
                    None
                }
            },
            BinaryOp::I32GeU => {
                if low == 0u32 {
                    Some(Simplified::Provider(TypedProvider::Const(TypedValue { ty: ValueType::I32, bits: 1 })))
                } else {
                    None
                }
            },
            BinaryOp::I32Add => {
                if low == 0u32 {
                    Some(Simplified::Provider(TypedProvider::Register(operand)))
                } else {
                    None
                }
            },
            BinaryOp::I32Sub => {
                if low == 0u32 {
                    Some(Simplified::Provider(TypedProvider::Register(operand)))
                } else {
                    None
                }
            },
            BinaryOp::I32Mul => {
                if low == 0u32 {
                    Some(Simplified::Provider(TypedProvider::Const(TypedValue { ty: ValueType::I32, bits: 0 })))
                } else if low == 1u32 {
                    Some(Simplified::Provider(TypedProvider::Register(operand)))
                } else {
                    None
                }
            },
            BinaryOp::I32DivS => {
                if low == 0u32 {
                    Some(Simplified::Trap(TrapCode::IntegerDivisionByZero))
                } else if low == 1u32 {
                    Some(Simplified::Provider(TypedProvider::Register(operand)))
                } else {
                    None
                }
            },
            BinaryOp::I32DivU => {
                if low == 0u32 {
                    Some(Simplified::Trap(TrapCode::IntegerDivisionByZero))
                } else if low == 1u32 {
                    Some(Simplified::Provider(TypedProvider::Register(operand)))
                } else {
                    None
                }
            },
            BinaryOp::I32RemS => {
                if low == 0u32 {
                    Some(Simplified::Trap(TrapCode::IntegerDivisionByZero))
                } else if low == 1u32 {
                    Some(Simplified::Provider(TypedProvider::Const(TypedValue { ty: ValueType::I32, bits: 0 })))
                } else {
                    None
                }
            },
            BinaryOp::I32RemU => {
                if low == 0u32 {
                    Some(Simplified::Trap(TrapCode::IntegerDivisionByZero))
                } else if low == 1u32 {
                    Some(Simplified::Provider(TypedProvider::Const(TypedValue { ty: ValueType::I32, bits: 0 })))
                } else {
                    None
                }
            },
            BinaryOp::I32And => {
                if low == 0xFFFF_FFFFu32 {
                    Some(Simplified::Provider(TypedProvider::Register(operand)))
                } else if low == 0u32 {
                    Some(Simplified::Provider(TypedProvider::Const(TypedValue { ty: ValueType::I32, bits: 0 })))
                } else {
                    None
                }
            },
            BinaryOp::I32Or => {
                if low == 0xFFFF_FFFFu32 {
                    Some(Simplified::Provider(TypedProvider::Const(TypedValue { ty: ValueType::I32, bits: 0xFFFF_FFFF })))
                } else if low == 0u32 {
                    Some(Simplified::Provider(TypedProvider::Register(operand)))
                } else {
                    None
                }
            },
            BinaryOp::I32Xor => {
                if low == 0u32 {
                    Some(Simplified::Provider(TypedProvider::Register(operand)))
                } else {
                    None
                }
            },
            BinaryOp::I32Shl => {
                if low % 32 == 0 {
                    Some(Simplified::Provider(TypedProvider::Register(operand)))
                } else {
                    None
                }
            },
            BinaryOp::I32ShrS => {
                if low % 32 == 0 {
                    Some(Simplified::Provider(TypedProvider::Register(operand)))
                } else {
                    None
                }
            },
            BinaryOp::I32ShrU => {
                if low % 32 == 0 {
                    Some(Simplified::Provider(TypedProvider::Register(operand)))
                } else {
                    None
                }
            },
            BinaryOp::I32Rotl => {
                if low % 32 == 0 {
                    Some(Simplified::Provider(TypedProvider::Register(operand)))
                } else {
                    None
                }
            },
            BinaryOp::I32Rotr => {
                if low % 32 == 0 {
                    Some(Simplified::Provider(TypedProvider::Register(operand)))
                } else {
                    None
                }
            },
            BinaryOp::I64LtS => {
                if bits == 0x8000_0000_0000_0000u64 {
                    Some(Simplified::Provider(TypedProvider::Const(TypedValue { ty: ValueType::I32, bits: 0 })))
                } else {
                    None
                }
            },
            BinaryOp::I64LtU => {
                if bits == 0u64 {
                    Some(Simplified::Provider(TypedProvider::Const(TypedValue { ty: ValueType::I32, bits: 0 })))
                } else {
                    None
                }
            },
            BinaryOp::I64GtS => {
                if bits == 0x7FFF_FFFF_FFFF_FFFFu64 {
                    Some(Simplified::Provider(TypedProvider::Const(TypedValue { ty: ValueType::I32, bits: 0 })))
                } else {
                    None
                }
            },
            BinaryOp::I64GtU => {
                if bits == 0xFFFF_FFFF_FFFF_FFFFu64 {
                    Some(Simplified::Provider(TypedProvider::Const(TypedValue { ty: ValueType::I32, bits: 0 })))
                } else {
                    None
                }
            },
            BinaryOp::I64LeS => {
                if bits == 0x7FFF_FFFF_FFFF_FFFFu64 {
                    Some(Simplified::Provider(TypedProvider::Const(TypedValue { ty: ValueType::I32, bits: 1 })))
                } else {
                    None
                }
            },
            BinaryOp::I64LeU => {
                if bits == 0xFFFF_FFFF_FFFF_FFFFu64 {
                    Some(Simplified::Provider(TypedProvider::Const(TypedValue { ty: ValueType::I32, bits: 1 })))
                } else {
                    None
                }
            },
            BinaryOp::I64GeS => {
                if bits == 0x8000_0000_0000_0000u64 {
                    Some(Simplified::Provider(TypedProvider::Const(TypedValue { ty: ValueType::I32, bits: 1 })))
                } else {
                    None
                }
            },
            BinaryOp::I64GeU => {
                if bits == 0u64 {
                    Some(Simplified::Provider(TypedProvider::Const(TypedValue { ty: ValueType::I32, bits: 1 })))
                } else {
                    None
                }
            },
            BinaryOp::I64Add => {
                if bits == 0u64 {
                    Some(Simplified::Provider(TypedProvider::Register(operand)))
                } else {
                    None
                }
            },
            BinaryOp::I64Sub => {
                if bits == 0u64 {
                    Some(Simplified::Provider(TypedProvider::Register(operand)))
                } else {
                    None
                }
            },
            BinaryOp::I64Mul => {
                if bits == 0u64 {
                    Some(Simplified::Provider(TypedProvider::Const(TypedValue { ty: ValueType::I64, bits: 0 })))
                } else if bits == 1u64 {
                    Some(Simplified::Provider(TypedProvider::Register(operand)))
                } else {
                    None
                }
            },
            BinaryOp::I64DivS => {
                if bits == 0u64 {
                    Some(Simplified::Trap(TrapCode::IntegerDivisionByZero))
                } else if bits == 1u64 {
                    Some(Simplified::Provider(TypedProvider::Register(operand)))
                } else {
                    None
                }
            },
            BinaryOp::I64DivU => {
                if bits == 0u64 {
                    Some(Simplified::Trap(TrapCode::IntegerDivisionByZero))
                } else if bits == 1u64 {
                    Some(Simplified::Provider(TypedProvider::Register(operand)))
                } else {
                    None
                }
            },
            BinaryOp::I64RemS => {
                if bits == 0u64 {
                    Some(Simplified::Trap(TrapCode::IntegerDivisionByZero))
                } else if bits == 1u64 {
                    Some(Simplified::Provider(TypedProvider::Const(TypedValue { ty: ValueType::I64, bits: 0 })))
                } else {
                    None
                }
            },
            BinaryOp::I64RemU => {
                if bits == 0u64 {
                    Some(Simplified::Trap(TrapCode::IntegerDivisionByZero))
                } else if bits == 1u64 {
                    Some(Simplified::Provider(TypedProvider::Const(TypedValue { ty: ValueType::I64, bits: 0 })))
                } else {
                    None
                }
            },
            BinaryOp::I64And => {
                if bits == 0xFFFF_FFFF_FFFF_FFFFu64 {
                    Some(Simplified::Provider(TypedProvider::Register(operand)))
                } else if bits == 0u64 {
                    Some(Simplified::Provider(TypedProvider::Const(TypedValue { ty: ValueType::I64, bits: 0 })))
                } else {
                    None
                }
            },
            BinaryOp::I64Or => {
                if bits == 0xFFFF_FFFF_FFFF_FFFFu64 {
                    Some(Simplified::Provider(TypedProvider::Const(TypedValue { ty: ValueType::I64, bits: 0xFFFF_FFFF_FFFF_FFFF })))
                } else if bits == 0u64 {
                    Some(Simplified::Provider(TypedProvider::Register(operand)))
                } else {
                    None
                }
            },
            BinaryOp::I64Xor => {
                if bits == 0u64 {
                    Some(Simplified::Provider(TypedProvider::Register(operand)))
                } else {
                    None
                }
            },
            BinaryOp::I64Shl => {
                if bits % 64 == 0 {
                    Some(Simplified::Provider(TypedProvider::Register(operand)))
                } else {
                    None
                }
            },
            BinaryOp::I64ShrS => {
                if bits % 64 == 0 {
                    Some(Simplified::Provider(TypedProvider::Register(operand)))
                } else {
                    None
                }
            },
            BinaryOp::I64ShrU => {
                if bits % 64 == 0 {
                    Some(Simplified::Provider(TypedProvider::Register(operand)))
                } else {
                    None
                }
            },
            BinaryOp::I64Rotl => {
                if bits % 64 == 0 {
                    Some(Simplified::Provider(TypedProvider::Register(operand)))
                } else {
                    None
                }
            },
            BinaryOp::I64Rotr => {
                if bits % 64 == 0 {
                    Some(Simplified::Provider(TypedProvider::Register(operand)))
                } else {
                    None
                }
            },
            BinaryOp::F32Eq => {
                if f32_is_nan_exec(bits) {
                    Some(Simplified::Provider(TypedProvider::Const(TypedValue { ty: ValueType::I32, bits: 0 })))
                } else {
                    None
                }
            },
            BinaryOp::F32Ne => {
                if f32_is_nan_exec(bits) {
                    Some(Simplified::Provider(TypedProvider::Const(TypedValue { ty: ValueType::I32, bits: 1 })))
                } else {
                    None
                }
            },
            BinaryOp::F32Lt => {
                if f32_is_nan_exec(bits) {
                    Some(Simplified::Provider(TypedProvider::Const(TypedValue { ty: ValueType::I32, bits: 0 })))
                } else if low == 0xFF80_0000u32 {
                    Some(Simplified::Provider(TypedProvider::Const(TypedValue { ty: ValueType::I32, bits: 0 })))
                } else {
                    None
                }
            },
            BinaryOp::F32Gt => {
                if f32_is_nan_exec(bits) {
                    Some(Simplified::Provider(TypedProvider::Const(TypedValue { ty: ValueType::I32, bits: 0 })))
                } else if low == 0x7F80_0000u32 {
                    Some(Simplified::Provider(TypedProvider::Const(TypedValue { ty: ValueType::I32, bits: 0 })))
                } else {
                    None
                }
            },
            BinaryOp::F32Le => {
                if f32_is_nan_exec(bits) {
                    Some(Simplified::Provider(TypedProvider::Const(TypedValue { ty: ValueType::I32, bits: 0 })))
                } else {
                    None
                }
            },
            BinaryOp::F32Ge => {
                if f32_is_nan_exec(bits) {
                    Some(Simplified::Provider(TypedProvider::Const(TypedValue { ty: ValueType::I32, bits: 0 })))
                } else {
                    None
                }
            },
            BinaryOp::F32Min => {
                if low == 0x7F80_0000u32 {
                    Some(Simplified::Provider(TypedProvider::Register(operand)))
                } else {
                    None
                }
            },
            BinaryOp::F32Max => {
                if low == 0xFF80_0000u32 {
                    Some(Simplified::Provider(TypedProvider::Register(operand)))
                } else {
                    None
                }
            },
            BinaryOp::F64Eq => {
                if f64_is_nan_exec(bits) {
                    Some(Simplified::Provider(TypedProvider::Const(TypedValue { ty: ValueType::I32, bits: 0 })))
                } else {
                    None
                }
            },
            BinaryOp::F64Ne => {
                if f64_is_nan_exec(bits) {
                    Some(Simplified::Provider(TypedProvider::Const(TypedValue { ty: ValueType::I32, bits: 1 })))
                } else {
                    None
                }
            },
            BinaryOp::F64Lt => {
                if f64_is_nan_exec(bits) {
                    Some(Simplified::Provider(TypedProvider::Const(TypedValue { ty: ValueType::I32, bits: 0 })))
                } else if bits == 0xFFF0_0000_0000_0000u64 {
                    Some(Simplified::Provider(TypedProvider::Const(TypedValue { ty: ValueType::I32, bits: 0 })))
                } else {
                    None
                }
            },
            BinaryOp::F64Gt => {
                if f64_is_nan_exec(bits) {
                    Some(Simplified::Provider(TypedProvider::Const(TypedValue { ty: ValueType::I32, bits: 0 })))
                } else if bits == 0x7FF0_0000_0000_0000u64 {
                    Some(Simplified::Provider(TypedProvider::Const(TypedValue { ty: ValueType::I32, bits: 0 })))
                } else {
                    None
                }
            },
            BinaryOp::F64Le => {
                if f64_is_nan_exec(bits) {
                    Some(Simplified::Provider(TypedProvider::Const(TypedValue { ty: ValueType::I32, bits: 0 })))
                } else {
                    None
                }
            },
            BinaryOp::F64Ge => {
                if f64_is_nan_exec(bits) {
                    Some(Simplified::Provider(TypedProvider::Const(TypedValue { ty: ValueType::I32, bits: 0 })))
                } else {
                    None
                }
            },
            BinaryOp::F64Min => {
                if bits == 0x7FF0_0000_0000_0000u64 {
                    Some(Simplified::Provider(TypedProvider::Register(operand)))
                } else {
                    None
                }
            },
            BinaryOp::F64Max => {
                if bits == 0xFFF0_0000_0000_0000u64 {
                    Some(Simplified::Provider(TypedProvider::Register(operand)))
                } else {
                    None
                }
            },
            _ => None,
        }
    }

    /// What the operator comes to when the left operand is the constant with the word `bits`
    /// and the right operand the register `operand`, if that is
    /// known without executing it.
    pub open spec fn with_lhs_const(self, operand: Register, bits: u64) -> Option<Simplified> {
        match self {
            BinaryOp::I32LtS => {
                if (bits as u32) == 0x7FFF_FFFFu32 {
                    Some(Simplified::Provider(TypedProvider::Const(TypedValue { ty: ValueType::I32, bits: 0 })))
                } else {
                    None
                }
            },
            BinaryOp::I32LtU => {
                if (bits as u32) == 0xFFFF_FFFFu32 {
                    Some(Simplified::Provider(TypedProvider::Const(TypedValue { ty: ValueType::I32, bits: 0 })))
                } else {
                    None
                }
            },
            BinaryOp::I32GtS => {
                if (bits as u32) == 0x8000_0000u32 {
                    Some(Simplified::Provider(TypedProvider::Const(TypedValue { ty: ValueType::I32, bits: 0 })))
                } else {
                    None
                }
            },
            BinaryOp::I32GtU => {
                if (bits as u32) == 0u32 {
                    Some(Simplified::Provider(TypedProvider::Const(TypedValue { ty: ValueType::I32, bits: 0 })))
                } else {
                    None
                }
            },
            BinaryOp::I32LeS => {
                if (bits as u32) == 0x8000_0000u32 {
                    Some(Simplified::Provider(TypedProvider::Const(TypedValue { ty: ValueType::I32, bits: 1 })))
                } else {
                    None
                }
            },
            BinaryOp::I32LeU => {
                if (bits as u32) == 0u32 {
                    Some(Simplified::Provider(TypedProvider::Const(TypedValue { ty: ValueType::I32, bits: 1 })))
                } else {
                    None
                }
            },
            BinaryOp::I32GeS => {
                if (bits as u32) == 0x7FFF_FFFFu32 {
                    Some(Simplified::Provider(TypedProvider::Const(TypedValue { ty: ValueType::I32, bits: 1 })))
                } else {
                    None
                }
            },
            BinaryOp::I32GeU => {
                if (bits as u32) == 0xFFFF_FFFFu32 {
                    Some(Simplified::Provider(TypedProvider::Const(TypedValue { ty: ValueType::I32, bits: 1 })))
                } else {
                    None
                }
            },
            BinaryOp::I32Add => {
                if (bits as u32) == 0u32 {
                    Some(Simplified::Provider(TypedProvider::Register(operand)))
                } else {
                    None
                }
            },
            BinaryOp::I32Mul => {
                if (bits as u32) == 0u32 {
                    Some(Simplified::Provider(TypedProvider::Const(TypedValue { ty: ValueType::I32, bits: 0 })))
                } else if (bits as u32) == 1u32 {
                    Some(Simplified::Provider(TypedProvider::Register(operand)))
                } else {
                    None
                }
            },
            BinaryOp::I32And => {
                if (bits as u32) == 0xFFFF_FFFFu32 {
                    Some(Simplified::Provider(TypedProvider::Register(operand)))
                } else if (bits as u32) == 0u32 {
                    Some(Simplified::Provider(TypedProvider::Const(TypedValue { ty: ValueType::I32, bits: 0 })))
                } else {
                    None
                }
            },
            BinaryOp::I32Or => {
                if (bits as u32) == 0xFFFF_FFFFu32 {
                    Some(Simplified::Provider(TypedProvider::Const(TypedValue { ty: ValueType::I32, bits: 0xFFFF_FFFF })))
                } else if (bits as u32) == 0u32 {
                    Some(Simplified::Provider(TypedProvider::Register(operand)))
                } else {
                    None
                }
            },
            BinaryOp::I32Xor => {
                if (bits as u32) == 0u32 {
                    Some(Simplified::Provider(TypedProvider::Register(operand)))
                } else {
                    None
                }
            },
            BinaryOp::I32Shl => {
                if (bits as u32) == 0u32 {
                    Some(Simplified::Provider(TypedProvider::Const(TypedValue { ty: ValueType::I32, bits: 0 })))
                } else {
                    None
                }
            },
            BinaryOp::I32ShrS => {
                if (bits as u32) == 0u32 {
                    Some(Simplified::Provider(TypedProvider::Const(TypedValue { ty: ValueType::I32, bits: 0 })))
                } else if (bits as u32) == 0xFFFF_FFFFu32 {
                    Some(Simplified::Provider(TypedProvider::Const(TypedValue { ty: ValueType::I32, bits: 0xFFFF_FFFF })))
                } else {
                    None
                }
            },
            BinaryOp::I32ShrU => {
                if (bits as u32) == 0u32 {
                    Some(Simplified::Provider(TypedProvider::Const(TypedValue { ty: ValueType::I32, bits: 0 })))
                } else {
                    None
                }
            },
            BinaryOp::I32Rotl => {
                if (bits as u32) == 0u32 {
                    Some(Simplified::Provider(TypedProvider::Const(TypedValue { ty: ValueType::I32, bits: 0 })))
                } else if (bits as u32) == 0xFFFF_FFFFu32 {
                    Some(Simplified::Provider(TypedProvider::Const(TypedValue { ty: ValueType::I32, bits: 0xFFFF_FFFF })))
                } else {
                    None
                }
            },
            BinaryOp::I32Rotr => {
                if (bits as u32) == 0u32 {
                    Some(Simplified::Provider(TypedProvider::Const(TypedValue { ty: ValueType::I32, bits: 0 })))
                } else if (bits as u32) == 0xFFFF_FFFFu32 {
                    Some(Simplified::Provider(TypedProvider::Const(TypedValue { ty: ValueType::I32, bits: 0xFFFF_FFFF })))
                } else {
                    None
                }
            },
            BinaryOp::I64LtS => {
                if bits == 0x7FFF_FFFF_FFFF_FFFFu64 {
                    Some(Simplified::Provider(TypedProvider::Const(TypedValue { ty: ValueType::I32, bits: 0 })))
                } else {
                    None
                }
            },
            BinaryOp::I64LtU => {
                if bits == 0xFFFF_FFFF_FFFF_FFFFu64 {
                    Some(Simplified::Provider(TypedProvider::Const(TypedValue { ty: ValueType::I32, bits: 0 })))
                } else {
                    None
                }
            },
            BinaryOp::I64GtS => {
                if bits == 0x8000_0000_0000_0000u64 {
                    Some(Simplified::Provider(TypedProvider::Const(TypedValue { ty: ValueType::I32, bits: 0 })))
                } else {
                    None
                }
            },
            BinaryOp::I64GtU => {
                if bits == 0u64 {
                    Some(Simplified::Provider(TypedProvider::Const(TypedValue { ty: ValueType::I32, bits: 0 })))
                } else {
                    None
                }
            },
            BinaryOp::I64LeS => {
                if bits == 0x8000_0000_0000_0000u64 {
                    Some(Simplified::Provider(TypedProvider::Const(TypedValue { ty: ValueType::I32, bits: 1 })))
                } else {
                    None
                }
            },
            BinaryOp::I64LeU => {
                if bits == 0u64 {
                    Some(Simplified::Provider(TypedProvider::Const(TypedValue { ty: ValueType::I32, bits: 1 })))
                } else {
                    None
                }
            },
            BinaryOp::I64GeS => {
                if bits == 0x7FFF_FFFF_FFFF_FFFFu64 {
                    Some(Simplified::Provider(TypedProvider::Const(TypedValue { ty: ValueType::I32, bits: 1 })))
                } else {
                    None
                }
            },
            BinaryOp::I64GeU => {
                if bits == 0xFFFF_FFFF_FFFF_FFFFu64 {
                    Some(Simplified::Provider(TypedProvider::Const(TypedValue { ty: ValueType::I32, bits: 1 })))
                } else {
                    None
                }
            },
            BinaryOp::I64Add => {
                if bits == 0u64 {
                    Some(Simplified::Provider(TypedProvider::Register(operand)))
                } else {
                    None
                }
            },
            BinaryOp::I64Mul => {
                if bits == 0u64 {
                    Some(Simplified::Provider(TypedProvider::Const(TypedValue { ty: ValueType::I64, bits: 0 })))
                } else if bits == 1u64 {
                    Some(Simplified::Provider(TypedProvider::Register(operand)))
                } else {
                    None
                }
            },
            BinaryOp::I64And => {
                if bits == 0xFFFF_FFFF_FFFF_FFFFu64 {
                    Some(Simplified::Provider(TypedProvider::Register(operand)))
                } else if bits == 0u64 {
                    Some(Simplified::Provider(TypedProvider::Const(TypedValue { ty: ValueType::I64, bits: 0 })))
                } else {
                    None
                }
            },
            BinaryOp::I64Or => {
                if bits == 0xFFFF_FFFF_FFFF_FFFFu64 {
                    Some(Simplified::Provider(TypedProvider::Const(TypedValue { ty: ValueType::I64, bits: 0xFFFF_FFFF_FFFF_FFFF })))
                } else if bits == 0u64 {
                    Some(Simplified::Provider(TypedProvider::Register(operand)))
                } else {
                    None
                }
            },
            BinaryOp::I64Xor => {
                if bits == 0u64 {
                    Some(Simplified::Provider(TypedProvider::Register(operand)))
                } else {
                    None
                }
            },
            BinaryOp::I64Shl => {
                if bits == 0u64 {
                    Some(Simplified::Provider(TypedProvider::Const(TypedValue { ty: ValueType::I64, bits: 0 })))
                } else {
                    None
                }
            },
            BinaryOp::I64ShrS => {
                if bits == 0u64 {
                    Some(Simplified::Provider(TypedProvider::Const(TypedValue { ty: ValueType::I64, bits: 0 })))
                } else if bits == 0xFFFF_FFFF_FFFF_FFFFu64 {
                    Some(Simplified::Provider(TypedProvider::Const(TypedValue { ty: ValueType::I64, bits: 0xFFFF_FFFF_FFFF_FFFF })))
                } else {
                    None
                }
            },
            BinaryOp::I64ShrU => {
                if bits == 0u64 {
                    Some(Simplified::Provider(TypedProvider::Const(TypedValue { ty: ValueType::I64, bits: 0 })))
                } else {
                    None
                }
            },
            BinaryOp::I64Rotl => {
                if bits == 0u64 {
                    Some(Simplified::Provider(TypedProvider::Const(TypedValue { ty: ValueType::I64, bits: 0 })))
                } else if bits == 0xFFFF_FFFF_FFFF_FFFFu64 {
                    Some(Simplified::Provider(TypedProvider::Const(TypedValue { ty: ValueType::I64, bits: 0xFFFF_FFFF_FFFF_FFFF })))
                } else {
                    None
                }
            },
            BinaryOp::I64Rotr => {
                if bits == 0u64 {
                    Some(Simplified::Provider(TypedProvider::Const(TypedValue { ty: ValueType::I64, bits: 0 })))
                } else if bits == 0xFFFF_FFFF_FFFF_FFFFu64 {
                    Some(Simplified::Provider(TypedProvider::Const(TypedValue { ty: ValueType::I64, bits: 0xFFFF_FFFF_FFFF_FFFF })))
                } else {
                    None
                }
            },
            BinaryOp::F32Eq => {
                if f32_is_nan(bits) {
                    Some(Simplified::Provider(TypedProvider::Const(TypedValue { ty: ValueType::I32, bits: 0 })))
                } else {
                    None
                }
            },
            BinaryOp::F32Ne => {
                if f32_is_nan(bits) {
                    Some(Simplified::Provider(TypedProvider::Const(TypedValue { ty: ValueType::I32, bits: 1 })))
                } else {
                    None
                }
            },
            BinaryOp::F32Lt => {
                if f32_is_nan(bits) {
                    Some(Simplified::Provider(TypedProvider::Const(TypedValue { ty: ValueType::I32, bits: 0 })))
                } else if (bits as u32) == 0x7F80_0000u32 {
                    Some(Simplified::Provider(TypedProvider::Const(TypedValue { ty: ValueType::I32, bits: 0 })))
                } else {
                    None
                }
            },
            BinaryOp::F32Gt => {
                if f32_is_nan(bits) {
                    Some(Simplified::Provider(TypedProvider::Const(TypedValue { ty: ValueType::I32, bits: 0 })))
                } else if (bits as u32) == 0xFF80_0000u32 {
                    Some(Simplified::Provider(TypedProvider::Const(TypedValue { ty: ValueType::I32, bits: 0 })))
                } else {
                    None
                }
            },
            BinaryOp::F32Le => {
                if f32_is_nan(bits) {
                    Some(Simplified::Provider(TypedProvider::Const(TypedValue { ty: ValueType::I32, bits: 0 })))
                } else {
                    None
                }
            },
            BinaryOp::F32Ge => {
                if f32_is_nan(bits) {
                    Some(Simplified::Provider(TypedProvider::Const(TypedValue { ty: ValueType::I32, bits: 0 })))
                } else {
                    None
                }
            },
            BinaryOp::F32Min => {
                if (bits as u32) == 0x7F80_0000u32 {
                    Some(Simplified::Provider(TypedProvider::Register(operand)))
                } else {
                    None
                }
            },
            BinaryOp::F32Max => {
                if (bits as u32) == 0xFF80_0000u32 {
                    Some(Simplified::Provider(TypedProvider::Register(operand)))
                } else {
                    None
                }
            },
            BinaryOp::F64Eq => {
                if f64_is_nan(bits) {
                    Some(Simplified::Provider(TypedProvider::Const(TypedValue { ty: ValueType::I32, bits: 0 })))
                } else {
                    None
                }
            },
            BinaryOp::F64Ne => {
                if f64_is_nan(bits) {
                    Some(Simplified::Provider(TypedProvider::Const(TypedValue { ty: ValueType::I32, bits: 1 })))
                } else {
                    None
                }
            },
            BinaryOp::F64Lt => {
                if f64_is_nan(bits) {
                    Some(Simplified::Provider(TypedProvider::Const(TypedValue { ty: ValueType::I32, bits: 0 })))
                } else if bits == 0x7FF0_0000_0000_0000u64 {
                    Some(Simplified::Provider(TypedProvider::Const(TypedValue { ty: ValueType::I32, bits: 0 })))
                } else {
                    None
                }
            },
            BinaryOp::F64Gt => {
                if f64_is_nan(bits) {
                    Some(Simplified::Provider(TypedProvider::Const(TypedValue { ty: ValueType::I32, bits: 0 })))
                } else if bits == 0xFFF0_0000_0000_0000u64 {
                    Some(Simplified::Provider(TypedProvider::Const(TypedValue { ty: ValueType::I32, bits: 0 })))
                } else {
                    None
                }
            },
            BinaryOp::F64Le => {
                if f64_is_nan(bits) {
                    Some(Simplified::Provider(TypedProvider::Const(TypedValue { ty: ValueType::I32, bits: 0 })))
                } else {
                    None
                }
            },
            BinaryOp::F64Ge => {
                if f64_is_nan(bits) {
                    Some(Simplified::Provider(TypedProvider::Const(TypedValue { ty: ValueType::I32, bits: 0 })))
                } else {
                    None
                }
            },
            BinaryOp::F64Min => {
                if bits == 0x7FF0_0000_0000_0000u64 {
                    Some(Simplified::Provider(TypedProvider::Register(operand)))
                } else {
                    None
                }
            },
            BinaryOp::F64Max => {
                if bits == 0xFFF0_0000_0000_0000u64 {
                    Some(Simplified::Provider(TypedProvider::Register(operand)))
                } else {
                    None
                }
            },
            _ => None,
        }
    }

    /// Computes [`Self::with_lhs_const`].
    pub fn with_lhs_const_exec(self, operand: Register, bits: u64) -> (r: Option<Simplified>)
        ensures
            r == self.with_lhs_const(operand, bits),
    {
        let low: u32 = #[verifier::truncate] (bits as u32);
        match self {
            BinaryOp::I32LtS => {
                if low == 0x7FFF_FFFFu32 {
                    Some(Simplified::Provider(TypedProvider::Const(TypedValue { ty: ValueType::I32, bits: 0 })))
                } else {
                    None
                }
            },
            BinaryOp::I32LtU => {
                if low == 0xFFFF_FFFFu32 {
                    Some(Simplified::Provider(TypedProvider::Const(TypedValue { ty: ValueType::I32, bits: 0 })))
                } else {
                    None
                }
            },
            BinaryOp::I32GtS => {
                if low == 0x8000_0000u32 {
                    Some(Simplified::Provider(TypedProvider::Const(TypedValue { ty: ValueType::I32, bits: 0 })))
                } else {
                    None
                }
            },
            BinaryOp::I32GtU => {
                if low == 0u32 {
                    Some(Simplified::Provider(TypedProvider::Const(TypedValue { ty: ValueType::I32, bits: 0 })))
                } else {
                    None
                }
            },
            BinaryOp::I32LeS => {
                if low == 0x8000_0000u32 {
                    Some(Simplified::Provider(TypedProvider::Const(TypedValue { ty: ValueType::I32, bits: 1 })))
                } else {
                    None
                }
            },
            BinaryOp::I32LeU => {
                if low == 0u32 {
                    Some(Simplified::Provider(TypedProvider::Const(TypedValue { ty: ValueType::I32, bits: 1 })))
                } else {
                    None
                }
            },
            BinaryOp::I32GeS => {
                if low == 0x7FFF_FFFFu32 {
                    Some(Simplified::Provider(TypedProvider::Const(TypedValue { ty: ValueType::I32, bits: 1 })))
                } else {
                    None
                }
            },
            BinaryOp::I32GeU => {
                if low == 0xFFFF_FFFFu32 {
                    Some(Simplified::Provider(TypedProvider::Const(TypedValue { ty: ValueType::I32, bits: 1 })))
                } else {
                    None
                }
            },
            BinaryOp::I32Add => {
                if low == 0u32 {
                    Some(Simplified::Provider(TypedProvider::Register(operand)))
                } else {
                    None
                }
            },
            BinaryOp::I32Mul => {
                if low == 0u32 {
                    Some(Simplified::Provider(TypedProvider::Const(TypedValue { ty: ValueType::I32, bits: 0 })))
                } else if low == 1u32 {
                    Some(Simplified::Provider(TypedProvider::Register(operand)))
                } else {
                    None
                }
            },
            BinaryOp::I32And => {
                if low == 0xFFFF_FFFFu32 {
                    Some(Simplified::Provider(TypedProvider::Register(operand)))
                } else if low == 0u32 {
                    Some(Simplified::Provider(TypedProvider::Const(TypedValue { ty: ValueType::I32, bits: 0 })))
                } else {
                    None
                }
            },
            BinaryOp::I32Or => {
                if low == 0xFFFF_FFFFu32 {
                    Some(Simplified::Provider(TypedProvider::Const(TypedValue { ty: ValueType::I32, bits: 0xFFFF_FFFF })))
                } else if low == 0u32 {
                    Some(Simplified::Provider(TypedProvider::Register(operand)))
                } else {
                    None
                }
            },
            BinaryOp::I32Xor => {
                if low == 0u32 {
                    Some(Simplified::Provider(TypedProvider::Register(operand)))
                } else {
                    None
                }
            },
            BinaryOp::I32Shl => {
                if low == 0u32 {
                    Some(Simplified::Provider(TypedProvider::Const(TypedValue { ty: ValueType::I32, bits: 0 })))
                } else {
                    None
                }
            },
            BinaryOp::I32ShrS => {
                if low == 0u32 {
                    Some(Simplified::Provider(TypedProvider::Const(TypedValue { ty: ValueType::I32, bits: 0 })))
                } else if low == 0xFFFF_FFFFu32 {
                    Some(Simplified::Provider(TypedProvider::Const(TypedValue { ty: ValueType::I32, bits: 0xFFFF_FFFF })))
                } else {
                    None
                }
            },
            BinaryOp::I32ShrU => {
                if low == 0u32 {
                    Some(Simplified::Provider(TypedProvider::Const(TypedValue { ty: ValueType::I32, bits: 0 })))
                } else {
                    None
                }
            },
            BinaryOp::I32Rotl => {
                if low == 0u32 {
                    Some(Simplified::Provider(TypedProvider::Const(TypedValue { ty: ValueType::I32, bits: 0 })))
                } else if low == 0xFFFF_FFFFu32 {
                    Some(Simplified::Provider(TypedProvider::Const(TypedValue { ty: ValueType::I32, bits: 0xFFFF_FFFF })))
                } else {
                    None
                }
            },
            BinaryOp::I32Rotr => {
                if low == 0u32 {
                    Some(Simplified::Provider(TypedProvider::Const(TypedValue { ty: ValueType::I32, bits: 0 })))
                } else if low == 0xFFFF_FFFFu32 {
                    Some(Simplified::Provider(TypedProvider::Const(TypedValue { ty: ValueType::I32, bits: 0xFFFF_FFFF })))
                } else {
                    None
                }
            },
            BinaryOp::I64LtS => {
                if bits == 0x7FFF_FFFF_FFFF_FFFFu64 {
                    Some(Simplified::Provider(TypedProvider::Const(TypedValue { ty: ValueType::I32, bits: 0 })))
                } else {
                    None
                }
            },
            BinaryOp::I64LtU => {
                if bits == 0xFFFF_FFFF_FFFF_FFFFu64 {
                    Some(Simplified::Provider(TypedProvider::Const(TypedValue { ty: ValueType::I32, bits: 0 })))
                } else {
                    None
                }
            },
            BinaryOp::I64GtS => {
                if bits == 0x8000_0000_0000_0000u64 {
                    Some(Simplified::Provider(TypedProvider::Const(TypedValue { ty: ValueType::I32, bits: 0 })))
                } else {
                    None
                }
            },
            BinaryOp::I64GtU => {
                if bits == 0u64 {
                    Some(Simplified::Provider(TypedProvider::Const(TypedValue { ty: ValueType::I32, bits: 0 })))
                } else {
                    None
                }
            },
            BinaryOp::I64LeS => {
                if bits == 0x8000_0000_0000_0000u64 {
                    Some(Simplified::Provider(TypedProvider::Const(TypedValue { ty: ValueType::I32, bits: 1 })))
                } else {
                    None
                }
            },
            BinaryOp::I64LeU => {
                if bits == 0u64 {
                    Some(Simplified::Provider(TypedProvider::Const(TypedValue { ty: ValueType::I32, bits: 1 })))
                } else {
                    None
                }
            },
            BinaryOp::I64GeS => {
                if bits == 0x7FFF_FFFF_FFFF_FFFFu64 {
                    Some(Simplified::Provider(TypedProvider::Const(TypedValue { ty: ValueType::I32, bits: 1 })))
                } else {
                    None
                }
            },
            BinaryOp::I64GeU => {
                if bits == 0xFFFF_FFFF_FFFF_FFFFu64 {
                    Some(Simplified::Provider(TypedProvider::Const(TypedValue { ty: ValueType::I32, bits: 1 })))
                } else {
                    None
                }
            },
            BinaryOp::I64Add => {
                if bits == 0u64 {
                    Some(Simplified::Provider(TypedProvider::Register(operand)))
                } else {
                    None
                }
            },
            BinaryOp::I64Mul => {
                if bits == 0u64 {
                    Some(Simplified::Provider(TypedProvider::Const(TypedValue { ty: ValueType::I64, bits: 0 })))
                } else if bits == 1u64 {
                    Some(Simplified::Provider(TypedProvider::Register(operand)))
                } else {
                    None
                }
            },
            BinaryOp::I64And => {
                if bits == 0xFFFF_FFFF_FFFF_FFFFu64 {
                    Some(Simplified::Provider(TypedProvider::Register(operand)))
                } else if bits == 0u64 {
                    Some(Simplified::Provider(TypedProvider::Const(TypedValue { ty: ValueType::I64, bits: 0 })))
                } else {
                    None
                }
            },
            BinaryOp::I64Or => {
                if bits == 0xFFFF_FFFF_FFFF_FFFFu64 {
                    Some(Simplified::Provider(TypedProvider::Const(TypedValue { ty: ValueType::I64, bits: 0xFFFF_FFFF_FFFF_FFFF })))
                } else if bits == 0u64 {
                    Some(Simplified::Provider(TypedProvider::Register(operand)))
                } else {
                    None
                }
            },
            BinaryOp::I64Xor => {
                if bits == 0u64 {
                    Some(Simplified::Provider(TypedProvider::Register(operand)))
                } else {
                    None
                }
            },
            BinaryOp::I64Shl => {
                if bits == 0u64 {
                    Some(Simplified::Provider(TypedProvider::Const(TypedValue { ty: ValueType::I64, bits: 0 })))
                } else {
                    None
                }
            },
            BinaryOp::I64ShrS => {
                if bits == 0u64 {
                    Some(Simplified::Provider(TypedProvider::Const(TypedValue { ty: ValueType::I64, bits: 0 })))
                } else if bits == 0xFFFF_FFFF_FFFF_FFFFu64 {
                    Some(Simplified::Provider(TypedProvider::Const(TypedValue { ty: ValueType::I64, bits: 0xFFFF_FFFF_FFFF_FFFF })))
                } else {
                    None
                }
            },
            BinaryOp::I64ShrU => {
                if bits == 0u64 {
                    Some(Simplified::Provider(TypedProvider::Const(TypedValue { ty: ValueType::I64, bits: 0 })))
                } else {
                    None
                }
            },
            BinaryOp::I64Rotl => {
                if bits == 0u64 {
                    Some(Simplified::Provider(TypedProvider::Const(TypedValue { ty: ValueType::I64, bits: 0 })))
                } else if bits == 0xFFFF_FFFF_FFFF_FFFFu64 {
                    Some(Simplified::Provider(TypedProvider::Const(TypedValue { ty: ValueType::I64, bits: 0xFFFF_FFFF_FFFF_FFFF })))
                } else {
                    None
                }
            },
            BinaryOp::I64Rotr => {
                if bits == 0u64 {
                    Some(Simplified::Provider(TypedProvider::Const(TypedValue { ty: ValueType::I64, bits: 0 })))
                } else if bits == 0xFFFF_FFFF_FFFF_FFFFu64 {
                    Some(Simplified::Provider(TypedProvider::Const(TypedValue { ty: ValueType::I64, bits: 0xFFFF_FFFF_FFFF_FFFF })))
                } else {
                    None
                }
            },
            BinaryOp::F32Eq => {
                if f32_is_nan_exec(bits) {
                    Some(Simplified::Provider(TypedProvider::Const(TypedValue { ty: ValueType::I32, bits: 0 })))
                } else {
                    None
                }
            },
            BinaryOp::F32Ne => {
                if f32_is_nan_exec(bits) {
                    Some(Simplified::Provider(TypedProvider::Const(TypedValue { ty: ValueType::I32, bits: 1 })))
                } else {
                    None
                }
            },
            BinaryOp::F32Lt => {
                if f32_is_nan_exec(bits) {
                    Some(Simplified::Provider(TypedProvider::Const(TypedValue { ty: ValueType::I32, bits: 0 })))
                } else if low == 0x7F80_0000u32 {
                    Some(Simplified::Provider(TypedProvider::Const(TypedValue { ty: ValueType::I32, bits: 0 })))
                } else {
                    None
                }
            },
            BinaryOp::F32Gt => {
                if f32_is_nan_exec(bits) {
                    Some(Simplified::Provider(TypedProvider::Const(TypedValue { ty: ValueType::I32, bits: 0 })))
                } else if low == 0xFF80_0000u32 {
                    Some(Simplified::Provider(TypedProvider::Const(TypedValue { ty: ValueType::I32, bits: 0 })))
                } else {
                    None
                }
            },
            BinaryOp::F32Le => {
                if f32_is_nan_exec(bits) {
                    Some(Simplified::Provider(TypedProvider::Const(TypedValue { ty: ValueType::I32, bits: 0 })))
                } else {
                    None
                }
            },
            BinaryOp::F32Ge => {
                if f32_is_nan_exec(bits) {
                    Some(Simplified::Provider(TypedProvider::Const(TypedValue { ty: ValueType::I32, bits: 0 })))
                } else {
                    None
                }
            },
            BinaryOp::F32Min => {
                if low == 0x7F80_0000u32 {
                    Some(Simplified::Provider(TypedProvider::Register(operand)))
                } else {
                    None
                }
            },
            BinaryOp::F32Max => {
                if low == 0xFF80_0000u32 {
                    Some(Simplified::Provider(TypedProvider::Register(operand)))
                } else {
                    None
                }
            },
            BinaryOp::F64Eq => {
                if f64_is_nan_exec(bits) {
                    Some(Simplified::Provider(TypedProvider::Const(TypedValue { ty: ValueType::I32, bits: 0 })))
                } else {
                    None
                }
            },
            BinaryOp::F64Ne => {
                if f64_is_nan_exec(bits) {
                    Some(Simplified::Provider(TypedProvider::Const(TypedValue { ty: ValueType::I32, bits: 1 })))
                } else {
                    None
                }
            },
            BinaryOp::F64Lt => {
                if f64_is_nan_exec(bits) {
                    Some(Simplified::Provider(TypedProvider::Const(TypedValue { ty: ValueType::I32, bits: 0 })))
                } else if bits == 0x7FF0_0000_0000_0000u64 {
                    Some(Simplified::Provider(TypedProvider::Const(TypedValue { ty: ValueType::I32, bits: 0 })))
                } else {
                    None
                }
            },
            BinaryOp::F64Gt => {
                if f64_is_nan_exec(bits) {
                    Some(Simplified::Provider(TypedProvider::Const(TypedValue { ty: ValueType::I32, bits: 0 })))
                } else if bits == 0xFFF0_0000_0000_0000u64 {
                    Some(Simplified::Provider(TypedProvider::Const(TypedValue { ty: ValueType::I32, bits: 0 })))
                } else {
                    None
                }
            },
            BinaryOp::F64Le => {
                if f64_is_nan_exec(bits) {
                    Some(Simplified::Provider(TypedProvider::Const(TypedValue { ty: ValueType::I32, bits: 0 })))
                } else {
                    None
                }
            },
            BinaryOp::F64Ge => {
                if f64_is_nan_exec(bits) {
                    Some(Simplified::Provider(TypedProvider::Const(TypedValue { ty: ValueType::I32, bits: 0 })))
                } else {
                    None
                }
            },
            BinaryOp::F64Min => {
                if bits == 0x7FF0_0000_0000_0000u64 {
                    Some(Simplified::Provider(TypedProvider::Register(operand)))
                } else {
                    None
                }
            },
            BinaryOp::F64Max => {
                if bits == 0xFFF0_0000_0000_0000u64 {
                    Some(Simplified::Provider(TypedProvider::Register(operand)))
                } else {
                    None
                }
            },
            _ => None,
        }
    }

    /// What the operator comes to for the operands `lhs` and `rhs`, of
    /// which at least one is a register, if that is known without
    /// executing it.
    pub open spec fn simplify(self, lhs: TypedProvider, rhs: TypedProvider) -> Option<Simplified> {
        match (lhs, rhs) {
            (TypedProvider::Register(l), TypedProvider::Register(r)) => if l == r {
                self.same_register(l)
            } else {
                None
            },
            (TypedProvider::Register(l), TypedProvider::Const(c)) => self.with_rhs_const(l, c.bits),
            (TypedProvider::Const(c), TypedProvider::Register(r)) => self.with_lhs_const(r, c.bits),
            _ => None,
        }
    }

    /// Computes [`Self::simplify`].
    pub fn simplify_exec(self, lhs: TypedProvider, rhs: TypedProvider) -> (r: Option<Simplified>)
        ensures
            r == self.simplify(lhs, rhs),
    {
        match (lhs, rhs) {
            (TypedProvider::Register(l), TypedProvider::Register(r)) => if l == r {
                self.same_register_exec(l)
            } else {
                None
            },
            (TypedProvider::Register(l), TypedProvider::Const(c)) => self.with_rhs_const_exec(l, c.bits),
            (TypedProvider::Const(c), TypedProvider::Register(r)) => self.with_lhs_const_exec(r, c.bits),
            _ => None,
        }
    }

    /// The 16-bit immediate that stands for the constant with the word
    /// `bits` as the right operand of the operator, if there is one: the
    /// number itself where it fits, signed or unsigned as the operator
    /// reads it; the effective amount of a shift or a rotation; the sign of
    /// the operand of a `copysign`.
    pub open spec fn imm16(self, bits: u64) -> Option<Const16> {
        match self {
            BinaryOp::I32Eq
            | BinaryOp::I32Ne
            | BinaryOp::I32LtS
            | BinaryOp::I32GtS
            | BinaryOp::I32LeS
            | BinaryOp::I32GeS
            | BinaryOp::I32Add
            | BinaryOp::I32Sub
            | BinaryOp::I32Mul
            | BinaryOp::I32DivS
            | BinaryOp::I32RemS
            | BinaryOp::I32And
            | BinaryOp::I32Or
            | BinaryOp::I32Xor => if i16::MIN <= ((bits as u32) as i32) <= i16::MAX {
                Some(Const16(((bits as u32) as i32) as i16))
            } else {
                None
            },
            BinaryOp::I32LtU
            | BinaryOp::I32GtU
            | BinaryOp::I32LeU
            | BinaryOp::I32GeU
            | BinaryOp::I32DivU
            | BinaryOp::I32RemU => if (bits as u32) <= u16::MAX {
                Some(Const16(((bits as u32) as u16) as i16))
            } else {
                None
            },
            BinaryOp::I32Shl
            | BinaryOp::I32ShrS
            | BinaryOp::I32ShrU
            | BinaryOp::I32Rotl
            | BinaryOp::I32Rotr => Some(Const16(((bits as u32) % 32) as i16)),
            BinaryOp::I64Eq
            | BinaryOp::I64Ne
            | BinaryOp::I64LtS
            | BinaryOp::I64GtS
            | BinaryOp::I64LeS
            | BinaryOp::I64GeS
            | BinaryOp::I64Add
            | BinaryOp::I64Sub
            | BinaryOp::I64Mul
            | BinaryOp::I64DivS
            | BinaryOp::I64RemS
            | BinaryOp::I64And
            | BinaryOp::I64Or
            | BinaryOp::I64Xor => if i16::MIN <= (bits as i64) <= i16::MAX {
                Some(Const16((bits as i64) as i16))
            } else {
                None
            },
            BinaryOp::I64LtU
            | BinaryOp::I64GtU
            | BinaryOp::I64LeU
            | BinaryOp::I64GeU
            | BinaryOp::I64DivU
            | BinaryOp::I64RemU => if bits <= u16::MAX {
                Some(Const16((bits as u16) as i16))
            } else {
                None
            },
            BinaryOp::I64Shl
            | BinaryOp::I64ShrS
            | BinaryOp::I64ShrU
            | BinaryOp::I64Rotl
            | BinaryOp::I64Rotr => Some(Const16((bits % 64) as i16)),
            BinaryOp::F32Copysign => Some(Const16(if (bits as u32) >= 0x8000_0000u32 { -1i16 } else { 0i16 })),
            BinaryOp::F64Copysign => Some(Const16(if bits >= 0x8000_0000_0000_0000u64 { -1i16 } else { 0i16 })),
            _ => None,
        }
    }

    /// Computes [`Self::imm16`].
    pub fn imm16_exec(self, bits: u64) -> (r: Option<Const16>)
        ensures
            r == self.imm16(bits),
    {
        let low: u32 = #[verifier::truncate] (bits as u32);
        match self {
            BinaryOp::I32Eq
            | BinaryOp::I32Ne
            | BinaryOp::I32LtS
            | BinaryOp::I32GtS
            | BinaryOp::I32LeS
            | BinaryOp::I32GeS
            | BinaryOp::I32Add
            | BinaryOp::I32Sub
            | BinaryOp::I32Mul
            | BinaryOp::I32DivS
            | BinaryOp::I32RemS
            | BinaryOp::I32And
            | BinaryOp::I32Or
            | BinaryOp::I32Xor => Const16::from_i32(#[verifier::truncate] (low as i32)),
            BinaryOp::I32LtU
            | BinaryOp::I32GtU
            | BinaryOp::I32LeU
            | BinaryOp::I32GeU
            | BinaryOp::I32DivU
            | BinaryOp::I32RemU => Const16::from_u32(low),
            BinaryOp::I32Shl
            | BinaryOp::I32ShrS
            | BinaryOp::I32ShrU
            | BinaryOp::I32Rotl
            | BinaryOp::I32Rotr => Some(Const16((low % 32) as i16)),
            BinaryOp::I64Eq
            | BinaryOp::I64Ne
            | BinaryOp::I64LtS
            | BinaryOp::I64GtS
            | BinaryOp::I64LeS
            | BinaryOp::I64GeS
            | BinaryOp::I64Add
            | BinaryOp::I64Sub
            | BinaryOp::I64Mul
            | BinaryOp::I64DivS
            | BinaryOp::I64RemS
            | BinaryOp::I64And
            | BinaryOp::I64Or
            | BinaryOp::I64Xor => Const16::from_i64(#[verifier::truncate] (bits as i64)),
            BinaryOp::I64LtU
            | BinaryOp::I64GtU
            | BinaryOp::I64LeU
            | BinaryOp::I64GeU
            | BinaryOp::I64DivU
            | BinaryOp::I64RemU => Const16::from_u64(bits),
            BinaryOp::I64Shl
            | BinaryOp::I64ShrS
            | BinaryOp::I64ShrU
            | BinaryOp::I64Rotl
            | BinaryOp::I64Rotr => Some(Const16((bits % 64) as i16)),
            BinaryOp::F32Copysign => Some(Const16(if low >= 0x8000_0000u32 { -1i16 } else { 0i16 })),
            BinaryOp::F64Copysign => Some(Const16(if bits >= 0x8000_0000_0000_0000u64 { -1i16 } else { 0i16 })),
            _ => None,
        }
    }

    /// The 16-bit immediate that stands for the constant with the word
    /// `bits` as the left operand of the operator, if there is one.
    pub open spec fn imm16_rev(self, bits: u64) -> Option<Const16> {
        match self {
            BinaryOp::I32LtS
            | BinaryOp::I32GtS
            | BinaryOp::I32LeS
            | BinaryOp::I32GeS
            | BinaryOp::I32Sub
            | BinaryOp::I32DivS
            | BinaryOp::I32RemS
            | BinaryOp::I32Shl
            | BinaryOp::I32ShrS
            | BinaryOp::I32ShrU
            | BinaryOp::I32Rotl
            | BinaryOp::I32Rotr => if i16::MIN <= ((bits as u32) as i32) <= i16::MAX {
                Some(Const16(((bits as u32) as i32) as i16))
            } else {
                None
            },
            BinaryOp::I32LtU
            | BinaryOp::I32GtU
            | BinaryOp::I32LeU
            | BinaryOp::I32GeU
            | BinaryOp::I32DivU
            | BinaryOp::I32RemU => if (bits as u32) <= u16::MAX {
                Some(Const16(((bits as u32) as u16) as i16))
            } else {
                None
            },
            BinaryOp::I64LtS
            | BinaryOp::I64GtS
            | BinaryOp::I64LeS
            | BinaryOp::I64GeS
            | BinaryOp::I64Sub
            | BinaryOp::I64DivS
            | BinaryOp::I64RemS
            | BinaryOp::I64Shl
            | BinaryOp::I64ShrS
            | BinaryOp::I64ShrU
            | BinaryOp::I64Rotl
            | BinaryOp::I64Rotr => if i16::MIN <= (bits as i64) <= i16::MAX {
                Some(Const16((bits as i64) as i16))
            } else {
                None
            },
            BinaryOp::I64LtU
            | BinaryOp::I64GtU
            | BinaryOp::I64LeU
            | BinaryOp::I64GeU
            | BinaryOp::I64DivU
            | BinaryOp::I64RemU => if bits <= u16::MAX {
                Some(Const16((bits as u16) as i16))
            } else {
                None
            },
            _ => None,
        }
    }

    /// Computes [`Self::imm16_rev`].
    pub fn imm16_rev_exec(self, bits: u64) -> (r: Option<Const16>)
        ensures
            r == self.imm16_rev(bits),
    {
        let low: u32 = #[verifier::truncate] (bits as u32);
        match self {
            BinaryOp::I32LtS
            | BinaryOp::I32GtS
            | BinaryOp::I32LeS
            | BinaryOp::I32GeS
            | BinaryOp::I32Sub
            | BinaryOp::I32DivS
            | BinaryOp::I32RemS
            | BinaryOp::I32Shl
            | BinaryOp::I32ShrS
            | BinaryOp::I32ShrU
            | BinaryOp::I32Rotl
            | BinaryOp::I32Rotr => Const16::from_i32(#[verifier::truncate] (low as i32)),
            BinaryOp::I32LtU
            | BinaryOp::I32GtU
            | BinaryOp::I32LeU
            | BinaryOp::I32GeU
            | BinaryOp::I32DivU
            | BinaryOp::I32RemU => Const16::from_u32(low),
            BinaryOp::I64LtS
            | BinaryOp::I64GtS
            | BinaryOp::I64LeS
            | BinaryOp::I64GeS
            | BinaryOp::I64Sub
            | BinaryOp::I64DivS
            | BinaryOp::I64RemS
            | BinaryOp::I64Shl
            | BinaryOp::I64ShrS
            | BinaryOp::I64ShrU
            | BinaryOp::I64Rotl
            | BinaryOp::I64Rotr => Const16::from_i64(#[verifier::truncate] (bits as i64)),
            BinaryOp::I64LtU
            | BinaryOp::I64GtU
            | BinaryOp::I64LeU
            | BinaryOp::I64GeU
            | BinaryOp::I64DivU
            | BinaryOp::I64RemU => Const16::from_u64(bits),
            _ => None,
        }
    }

    /// The 32-bit immediate that stands for the constant with the word
    /// `bits` as the right operand of the operator, if there is one: the
    /// low half of the word for a 32-bit operand; the low half of a 64-bit
    /// integer that is the sign extension of it.
    pub open spec fn imm32(self, bits: u64) -> Option<u32> {
        match self.operand_type() {
            ValueType::I32 | ValueType::F32 => Some(bits as u32),
            ValueType::I64 => if i32::MIN <= (bits as i64) <= i32::MAX {
                Some(bits as u32)
            } else {
                None
            },
            _ => None,
        }
    }

    /// Computes [`Self::imm32`].
    pub fn imm32_exec(self, bits: u64) -> (r: Option<u32>)
        ensures
            r == self.imm32(bits),
    {
        let low: u32 = #[verifier::truncate] (bits as u32);
        let wide: i64 = #[verifier::truncate] (bits as i64);
        match self.operand_type_exec() {
            ValueType::I32 | ValueType::F32 => Some(low),
            ValueType::I64 => if -2147483648 <= wide && wide <= 2147483647 {
                Some(low)
            } else {
                None
            },
            _ => None,
        }
    }

    /// The word of the right operand that the 16-bit immediate `imm`
    /// stands for.
    pub open spec fn imm16_word(self, imm: Const16) -> u64 {
        match self {
            BinaryOp::I32Eq
            | BinaryOp::I32Ne
            | BinaryOp::I32LtS
            | BinaryOp::I32GtS
            | BinaryOp::I32LeS
            | BinaryOp::I32GeS
            | BinaryOp::I32Add
            | BinaryOp::I32Sub
            | BinaryOp::I32Mul
            | BinaryOp::I32DivS
            | BinaryOp::I32RemS
            | BinaryOp::I32And
            | BinaryOp::I32Or
            | BinaryOp::I32Xor => imm.i32_word(),
            BinaryOp::I32LtU
            | BinaryOp::I32GtU
            | BinaryOp::I32LeU
            | BinaryOp::I32GeU
            | BinaryOp::I32DivU
            | BinaryOp::I32RemU
            | BinaryOp::I32Shl
            | BinaryOp::I32ShrS
            | BinaryOp::I32ShrU
            | BinaryOp::I32Rotl
            | BinaryOp::I32Rotr => imm.unsigned_word(),
            BinaryOp::I64Eq
            | BinaryOp::I64Ne
            | BinaryOp::I64LtS
            | BinaryOp::I64GtS
            | BinaryOp::I64LeS
            | BinaryOp::I64GeS
            | BinaryOp::I64Add
            | BinaryOp::I64Sub
            | BinaryOp::I64Mul
            | BinaryOp::I64DivS
            | BinaryOp::I64RemS
            | BinaryOp::I64And
            | BinaryOp::I64Or
            | BinaryOp::I64Xor => imm.i64_word(),
            BinaryOp::I64LtU
            | BinaryOp::I64GtU
            | BinaryOp::I64LeU
            | BinaryOp::I64GeU
            | BinaryOp::I64DivU
            | BinaryOp::I64RemU
            | BinaryOp::I64Shl
            | BinaryOp::I64ShrS
            | BinaryOp::I64ShrU
            | BinaryOp::I64Rotl
            | BinaryOp::I64Rotr => imm.unsigned_word(),
            BinaryOp::F32Copysign => if imm.0 < 0 { 0x8000_0000u64 } else { 0u64 },
            BinaryOp::F64Copysign => if imm.0 < 0 { 0x8000_0000_0000_0000u64 } else { 0u64 },
            _ => imm.unsigned_word(),
        }
    }

    /// Computes [`Self::imm16_word`].
    pub fn imm16_word_exec(self, imm: Const16) -> (r: u64)
        ensures
            r == self.imm16_word(imm),
    {
        match self {
            BinaryOp::I32Eq
            | BinaryOp::I32Ne
            | BinaryOp::I32LtS
            | BinaryOp::I32GtS
            | BinaryOp::I32LeS
            | BinaryOp::I32GeS
            | BinaryOp::I32Add
            | BinaryOp::I32Sub
            | BinaryOp::I32Mul
            | BinaryOp::I32DivS
            | BinaryOp::I32RemS
            | BinaryOp::I32And
            | BinaryOp::I32Or
            | BinaryOp::I32Xor => imm.to_i32_word(),
            BinaryOp::I32LtU
            | BinaryOp::I32GtU
            | BinaryOp::I32LeU
            | BinaryOp::I32GeU
            | BinaryOp::I32DivU
            | BinaryOp::I32RemU
            | BinaryOp::I32Shl
            | BinaryOp::I32ShrS
            | BinaryOp::I32ShrU
            | BinaryOp::I32Rotl
            | BinaryOp::I32Rotr => imm.to_unsigned_word(),
            BinaryOp::I64Eq
            | BinaryOp::I64Ne
            | BinaryOp::I64LtS
            | BinaryOp::I64GtS
            | BinaryOp::I64LeS
            | BinaryOp::I64GeS
            | BinaryOp::I64Add
            | BinaryOp::I64Sub
            | BinaryOp::I64Mul
            | BinaryOp::I64DivS
            | BinaryOp::I64RemS
            | BinaryOp::I64And
            | BinaryOp::I64Or
            | BinaryOp::I64Xor => imm.to_i64_word(),
            BinaryOp::I64LtU
            | BinaryOp::I64GtU
            | BinaryOp::I64LeU
            | BinaryOp::I64GeU
            | BinaryOp::I64DivU
            | BinaryOp::I64RemU
            | BinaryOp::I64Shl
            | BinaryOp::I64ShrS
            | BinaryOp::I64ShrU
            | BinaryOp::I64Rotl
            | BinaryOp::I64Rotr => imm.to_unsigned_word(),
            BinaryOp::F32Copysign => if imm.0 < 0 { 0x8000_0000u64 } else { 0u64 },
            BinaryOp::F64Copysign => if imm.0 < 0 { 0x8000_0000_0000_0000u64 } else { 0u64 },
            _ => imm.to_unsigned_word(),
        }
    }

    /// The word of the left operand that the 16-bit immediate `imm`
    /// stands for.
    pub open spec fn imm16_rev_word(self, imm: Const16) -> u64 {
        match self {
            BinaryOp::I32LtS
            | BinaryOp::I32GtS
            | BinaryOp::I32LeS
            | BinaryOp::I32GeS
            | BinaryOp::I32Sub
            | BinaryOp::I32DivS
            | BinaryOp::I32RemS
            | BinaryOp::I32Shl
            | BinaryOp::I32ShrS
            | BinaryOp::I32ShrU
            | BinaryOp::I32Rotl
            | BinaryOp::I32Rotr => imm.i32_word(),
            BinaryOp::I32LtU
            | BinaryOp::I32GtU
            | BinaryOp::I32LeU
            | BinaryOp::I32GeU
            | BinaryOp::I32DivU
            | BinaryOp::I32RemU => imm.unsigned_word(),
            BinaryOp::I64LtS
            | BinaryOp::I64GtS
            | BinaryOp::I64LeS
            | BinaryOp::I64GeS
            | BinaryOp::I64Sub
            | BinaryOp::I64DivS
            | BinaryOp::I64RemS
            | BinaryOp::I64Shl
            | BinaryOp::I64ShrS
            | BinaryOp::I64ShrU
            | BinaryOp::I64Rotl
            | BinaryOp::I64Rotr => imm.i64_word(),
            BinaryOp::I64LtU
            | BinaryOp::I64GtU
            | BinaryOp::I64LeU
            | BinaryOp::I64GeU
            | BinaryOp::I64DivU
            | BinaryOp::I64RemU => imm.unsigned_word(),
            _ => imm.unsigned_word(),
        }
    }

    /// Computes [`Self::imm16_rev_word`].
    pub fn imm16_rev_word_exec(self, imm: Const16) -> (r: u64)
        ensures
            r == self.imm16_rev_word(imm),
    {
        match self {
            BinaryOp::I32LtS
            | BinaryOp::I32GtS
            | BinaryOp::I32LeS
            | BinaryOp::I32GeS
            | BinaryOp::I32Sub
            | BinaryOp::I32DivS
            | BinaryOp::I32RemS
            | BinaryOp::I32Shl
            | BinaryOp::I32ShrS
            | BinaryOp::I32ShrU
            | BinaryOp::I32Rotl
            | BinaryOp::I32Rotr => imm.to_i32_word(),
            BinaryOp::I32LtU
            | BinaryOp::I32GtU
            | BinaryOp::I32LeU
            | BinaryOp::I32GeU
            | BinaryOp::I32DivU
            | BinaryOp::I32RemU => imm.to_unsigned_word(),
            BinaryOp::I64LtS
            | BinaryOp::I64GtS
            | BinaryOp::I64LeS
            | BinaryOp::I64GeS
            | BinaryOp::I64Sub
            | BinaryOp::I64DivS
            | BinaryOp::I64RemS
            | BinaryOp::I64Shl
            | BinaryOp::I64ShrS
            | BinaryOp::I64ShrU
            | BinaryOp::I64Rotl
            | BinaryOp::I64Rotr => imm.to_i64_word(),
            BinaryOp::I64LtU
            | BinaryOp::I64GtU
            | BinaryOp::I64LeU
            | BinaryOp::I64GeU
            | BinaryOp::I64DivU
            | BinaryOp::I64RemU => imm.to_unsigned_word(),
            _ => imm.to_unsigned_word(),
        }
    }

    /// The word of the right operand that the 32-bit immediate `imm`
    /// stands for: sign-extended for a 64-bit integer operand, zero-extended
    /// otherwise.
    pub open spec fn imm32_word(self, imm: u32) -> u64 {
        match self.operand_type() {
            ValueType::I64 => ((imm as i32) as i64) as u64,
            _ => imm as u64,
        }
    }

    /// Computes [`Self::imm32_word`].
    pub fn imm32_word_exec(self, imm: u32) -> (r: u64)
        ensures
            r == self.imm32_word(imm),
    {
        match self.operand_type_exec() {
            ValueType::I64 => {
                let narrow: i32 = #[verifier::truncate] (imm as i32);
                let wide: i64 = narrow as i64;
                #[verifier::truncate] (wide as u64)
            },
            _ => imm as u64,
        }
    }
}

} // verus!
