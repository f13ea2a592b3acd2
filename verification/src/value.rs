//! Typed constants and the providers of the operand stack.

use vstd::prelude::*;
use crate::register::{Const16, Register};

verus! {

/// The type of a WebAssembly value.
#[derive(Clone, Copy, Debug, PartialEq, Eq, Structural, Hash)]
pub enum ValueType {
    /// 32-bit integer.
    I32,
    /// 64-bit integer.
    I64,
    /// Single-precision floating-point number.
    F32,
    /// Double-precision floating-point number.
    F64,
    /// Nullable reference to a function.
    FuncRef,
    /// Nullable reference to an object of the host.
    ExternRef,
}

/// A constant with its type: the word `bits` as a register would hold it.
#[derive(Clone, Copy, Debug, PartialEq, Eq, Structural, Hash)]
pub struct TypedValue {
    /// The type of the constant.
    pub ty: ValueType,
    /// The word of the constant.
    pub bits: u64,
}

impl TypedValue {
    /// The constant of type `ty` with the word `bits`.
    pub fn new(ty: ValueType, bits: u64) -> (r: TypedValue)
        ensures
            r == (TypedValue { ty, bits }),
    {
        TypedValue { ty, bits }
    }

    /// The type of the constant.
    pub fn ty(self) -> (r: ValueType)
        ensures
            r == self.ty,
    {
        self.ty
    }

    /// The word of the constant.
    pub fn to_bits(self) -> (r: u64)
        ensures
            r == self.bits,
    {
        self.bits
    }

    /// The `i32` constant `value`.
    pub open spec fn i32(value: i32) -> TypedValue {
        TypedValue { ty: ValueType::I32, bits: (value as u32) as u64 }
    }

    /// The `i64` constant `value`.
    pub open spec fn i64(value: i64) -> TypedValue {
        TypedValue { ty: ValueType::I64, bits: value as u64 }
    }

    /// The `i32` constant that stands for a truth value.
    pub open spec fn bool(value: bool) -> TypedValue {
        TypedValue { ty: ValueType::I32, bits: if value { 1 } else { 0 } }
    }

    /// Computes [`Self::i32`].
    pub fn from_i32(value: i32) -> (r: TypedValue)
        ensures
            r == Self::i32(value),
    {
        TypedValue { ty: ValueType::I32, bits: (#[verifier::truncate] (value as u32)) as u64 }
    }

    /// Computes [`Self::i64`].
    pub fn from_i64(value: i64) -> (r: TypedValue)
        ensures
            r == Self::i64(value),
    {
        TypedValue { ty: ValueType::I64, bits: #[verifier::truncate] (value as u64) }
    }

    /// Computes [`Self::bool`].
    pub fn from_bool(value: bool) -> (r: TypedValue)
        ensures
            r == Self::bool(value),
    {
        TypedValue { ty: ValueType::I32, bits: if value { 1 } else { 0 } }
    }

    /// The `f32` constant with the given bit pattern.
    pub fn from_f32_bits(bits: u32) -> (r: TypedValue)
        ensures
            r == (TypedValue { ty: ValueType::F32, bits: bits as u64 }),
    {
        TypedValue { ty: ValueType::F32, bits: bits as u64 }
    }

    /// The `f64` constant with the given bit pattern.
    pub fn from_f64_bits(bits: u64) -> (r: TypedValue)
        ensures
            r == (TypedValue { ty: ValueType::F64, bits }),
    {
        TypedValue { ty: ValueType::F64, bits }
    }

    /// The low half of the word, as an unsigned number.
    pub fn as_u32(self) -> (r: u32)
        ensures
            r == self.bits as u32,
    {
        #[verifier::truncate] (self.bits as u32)
    }

    /// The low half of the word, as a signed number.
    pub fn as_i32(self) -> (r: i32)
        ensures
            r == (self.bits as u32) as i32,
    {
        #[verifier::truncate] ((#[verifier::truncate] (self.bits as u32)) as i32)
    }

    /// The word as a signed number.
    pub fn as_i64(self) -> (r: i64)
        ensures
            r == self.bits as i64,
    {
        #[verifier::truncate] (self.bits as i64)
    }

    /// Whether the constant, read as an `i32` condition, is true.
    pub open spec fn is_true(self) -> bool {
        (self.bits as u32) != 0
    }

    /// Computes [`Self::is_true`].
    pub fn is_true_exec(self) -> (r: bool)
        ensures
            r == self.is_true(),
    {
        self.as_u32() != 0
    }
}

/// An operand of the translator: a register, or a constant that no
/// register holds yet.
#[derive(Clone, Copy, Debug, PartialEq, Eq, Structural, Hash)]
pub enum TypedProvider {
    /// The operand lives in a register.
    Register(Register),
    /// The operand is a constant.
    Const(TypedValue),
}

/// An operand of an instruction: a register or a 16-bit immediate.
#[derive(Clone, Copy, Debug, PartialEq, Eq, Structural, Hash)]
pub enum Provider16 {
    /// The operand lives in a register.
    Register(Register),
    /// The operand is an immediate.
    Const(Const16),
}

} // verus!
