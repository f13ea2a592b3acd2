//! The unary and binary operators of the instruction set and what they
//! compute.

use vstd::prelude::*;
use crate::error::TrapCode;
use crate::float;
use crate::numeric;
use crate::integer;
use crate::value::ValueType;

verus! {

/// Whether the low half of `word` is a single-precision not-a-number.
pub open spec fn f32_is_nan(word: u64) -> bool {
    (word as u32) & 0x7FFF_FFFFu32 > 0x7F80_0000u32
}

/// Computes [`f32_is_nan`].
pub fn f32_is_nan_exec(word: u64) -> (r: bool)
    ensures
        r == f32_is_nan(word),
{
    let low: u32 = #[verifier::truncate] (word as u32);
    low & 0x7FFF_FFFFu32 > 0x7F80_0000u32
}

/// Whether `word` is a double-precision not-a-number.
pub open spec fn f64_is_nan(word: u64) -> bool {
    word & 0x7FFF_FFFF_FFFF_FFFFu64 > 0x7FF0_0000_0000_0000u64
}

/// Computes [`f64_is_nan`].
pub fn f64_is_nan_exec(word: u64) -> (r: bool)
    ensures
        r == f64_is_nan(word),
{
    word & 0x7FFF_FFFF_FFFF_FFFFu64 > 0x7FF0_0000_0000_0000u64
}

/// The trap of a conversion from a floating-point number that has no
/// integer result: a not-a-number is a bad conversion, any other operand
/// overflows.
pub open spec fn conversion_trap(is_nan: bool) -> TrapCode {
    if is_nan {
        TrapCode::BadConversionToInteger
    } else {
        TrapCode::IntegerOverflow
    }
}

/// An operator with one operand.
#[derive(Clone, Copy, Debug, PartialEq, Eq, Structural, Hash)]
pub enum UnaryOp {
    /// `i32.clz`
    I32Clz,
    /// `i32.ctz`
    I32Ctz,
    /// `i32.popcnt`
    I32Popcnt,
    /// `i64.clz`
    I64Clz,
    /// `i64.ctz`
    I64Ctz,
    /// `i64.popcnt`
    I64Popcnt,
    /// `f32.abs`
    F32Abs,
    /// `f32.neg`
    F32Neg,
    /// `f32.ceil`
    F32Ceil,
    /// `f32.floor`
    F32Floor,
    /// `f32.trunc`
    F32Trunc,
    /// `f32.nearest`
    F32Nearest,
    /// `f32.sqrt`
    F32Sqrt,
    /// `f64.abs`
    F64Abs,
    /// `f64.neg`
    F64Neg,
    /// `f64.ceil`
    F64Ceil,
    /// `f64.floor`
    F64Floor,
    /// `f64.trunc`
    F64Trunc,
    /// `f64.nearest`
    F64Nearest,
    /// `f64.sqrt`
    F64Sqrt,
    /// `i32.wrap_i64`
    I32WrapI64,
    /// `i32.trunc_f32_s`
    I32TruncF32S,
    /// `i32.trunc_f32_u`
    I32TruncF32U,
    /// `i32.trunc_f64_s`
    I32TruncF64S,
    /// `i32.trunc_f64_u`
    I32TruncF64U,
    /// `i64.extend_i32_s`
    I64ExtendI32S,
    /// `i64.extend_i32_u`
    I64ExtendI32U,
    /// `i64.trunc_f32_s`
    I64TruncF32S,
    /// `i64.trunc_f32_u`
    I64TruncF32U,
    /// `i64.trunc_f64_s`
    I64TruncF64S,
    /// `i64.trunc_f64_u`
    I64TruncF64U,
    /// `f32.convert_i32_s`
    F32ConvertI32S,
    /// `f32.convert_i32_u`
    F32ConvertI32U,
    /// `f32.convert_i64_s`
    F32ConvertI64S,
    /// `f32.convert_i64_u`
    F32ConvertI64U,
    /// `f32.demote_f64`
    F32DemoteF64,
    /// `f64.convert_i32_s`
    F64ConvertI32S,
    /// `f64.convert_i32_u`
    F64ConvertI32U,
    /// `f64.convert_i64_s`
    F64ConvertI64S,
    /// `f64.convert_i64_u`
    F64ConvertI64U,
    /// `f64.promote_f32`
    F64PromoteF32,
    /// `i32.extend8_s`
    I32Extend8S,
    /// `i32.extend16_s`
    I32Extend16S,
    /// `i64.extend8_s`
    I64Extend8S,
    /// `i64.extend16_s`
    I64Extend16S,
    /// `i64.extend32_s`
    I64Extend32S,
    /// `i32.trunc_sat_f32_s`
    I32TruncSatF32S,
    /// `i32.trunc_sat_f32_u`
    I32TruncSatF32U,
    /// `i32.trunc_sat_f64_s`
    I32TruncSatF64S,
    /// `i32.trunc_sat_f64_u`
    I32TruncSatF64U,
    /// `i64.trunc_sat_f32_s`
    I64TruncSatF32S,
    /// `i64.trunc_sat_f32_u`
    I64TruncSatF32U,
    /// `i64.trunc_sat_f64_s`
    I64TruncSatF64S,
    /// `i64.trunc_sat_f64_u`
    I64TruncSatF64U,
}

/// An operator with two operands.
#[derive(Clone, Copy, Debug, PartialEq, Eq, Structural, Hash)]
pub enum BinaryOp {
    /// `i32.eq`
    I32Eq,
    /// `i32.ne`
    I32Ne,
    /// `i32.lt_s`
    I32LtS,
    /// `i32.lt_u`
    I32LtU,
    /// `i32.gt_s`
    I32GtS,
    /// `i32.gt_u`
    I32GtU,
    /// `i32.le_s`
    I32LeS,
    /// `i32.le_u`
    I32LeU,
    /// `i32.ge_s`
    I32GeS,
    /// `i32.ge_u`
    I32GeU,
    /// `i32.add`
    I32Add,
    /// `i32.sub`
    I32Sub,
    /// `i32.mul`
    I32Mul,
    /// `i32.div_s`
    I32DivS,
    /// `i32.div_u`
    I32DivU,
    /// `i32.rem_s`
    I32RemS,
    /// `i32.rem_u`
    I32RemU,
    /// `i32.and`
    I32And,
    /// `i32.or`
    I32Or,
    /// `i32.xor`
    I32Xor,
    /// `i32.shl`
    I32Shl,
    /// `i32.shr_s`
    I32ShrS,
    /// `i32.shr_u`
    I32ShrU,
    /// `i32.rotl`
    I32Rotl,
    /// `i32.rotr`
    I32Rotr,
    /// `i64.eq`
    I64Eq,
    /// `i64.ne`
    I64Ne,
    /// `i64.lt_s`
    I64LtS,
    /// `i64.lt_u`
    I64LtU,
    /// `i64.gt_s`
    I64GtS,
    /// `i64.gt_u`
    I64GtU,
    /// `i64.le_s`
    I64LeS,
    /// `i64.le_u`
    I64LeU,
    /// `i64.ge_s`
    I64GeS,
    /// `i64.ge_u`
    I64GeU,
    /// `i64.add`
    I64Add,
    /// `i64.sub`
    I64Sub,
    /// `i64.mul`
    I64Mul,
    /// `i64.div_s`
    I64DivS,
    /// `i64.div_u`
    I64DivU,
    /// `i64.rem_s`
    I64RemS,
    /// `i64.rem_u`
    I64RemU,
    /// `i64.and`
    I64And,
    /// `i64.or`
    I64Or,
    /// `i64.xor`
    I64Xor,
    /// `i64.shl`
    I64Shl,
    /// `i64.shr_s`
    I64ShrS,
    /// `i64.shr_u`
    I64ShrU,
    /// `i64.rotl`
    I64Rotl,
    /// `i64.rotr`
    I64Rotr,
    /// `f32.eq`
    F32Eq,
    /// `f32.ne`
    F32Ne,
    /// `f32.lt`
    F32Lt,
    /// `f32.gt`
    F32Gt,
    /// `f32.le`
    F32Le,
    /// `f32.ge`
    F32Ge,
    /// `f32.add`
    F32Add,
    /// `f32.sub`
    F32Sub,
    /// `f32.mul`
    F32Mul,
    /// `f32.div`
    F32Div,
    /// `f32.min`
    F32Min,
    /// `f32.max`
    F32Max,
    /// `f32.copysign`
    F32Copysign,
    /// `f64.eq`
    F64Eq,
    /// `f64.ne`
    F64Ne,
    /// `f64.lt`
    F64Lt,
    /// `f64.gt`
    F64Gt,
    /// `f64.le`
    F64Le,
    /// `f64.ge`
    F64Ge,
    /// `f64.add`
    F64Add,
    /// `f64.sub`
    F64Sub,
    /// `f64.mul`
    F64Mul,
    /// `f64.div`
    F64Div,
    /// `f64.min`
    F64Min,
    /// `f64.max`
    F64Max,
    /// `f64.copysign`
    F64Copysign,
}

impl UnaryOp {
    /// The type of the result.
    pub open spec fn result_type(self) -> ValueType {
        match self {
            UnaryOp::I32Clz
            | UnaryOp::I32Ctz
            | UnaryOp::I32Popcnt
            | UnaryOp::I32WrapI64
            | UnaryOp::I32TruncF32S
            | UnaryOp::I32TruncF32U
            | UnaryOp::I32TruncF64S
            | UnaryOp::I32TruncF64U
            | UnaryOp::I32Extend8S
            | UnaryOp::I32Extend16S
            | UnaryOp::I32TruncSatF32S
            | UnaryOp::I32TruncSatF32U
            | UnaryOp::I32TruncSatF64S
            | UnaryOp::I32TruncSatF64U => ValueType::I32,
            UnaryOp::I64Clz
            | UnaryOp::I64Ctz
            | UnaryOp::I64Popcnt
            | UnaryOp::I64ExtendI32S
            | UnaryOp::I64ExtendI32U
            | UnaryOp::I64TruncF32S
            | UnaryOp::I64TruncF32U
            | UnaryOp::I64TruncF64S
            | UnaryOp::I64TruncF64U
            | UnaryOp::I64Extend8S
            | UnaryOp::I64Extend16S
            | UnaryOp::I64Extend32S
            | UnaryOp::I64TruncSatF32S
            | UnaryOp::I64TruncSatF32U
            | UnaryOp::I64TruncSatF64S
            | UnaryOp::I64TruncSatF64U => ValueType::I64,
            UnaryOp::F32Abs
            | UnaryOp::F32Neg
            | UnaryOp::F32Ceil
            | UnaryOp::F32Floor
            | UnaryOp::F32Trunc
            | UnaryOp::F32Nearest
            | UnaryOp::F32Sqrt
            | UnaryOp::F32ConvertI32S
            | UnaryOp::F32ConvertI32U
            | UnaryOp::F32ConvertI64S
            | UnaryOp::F32ConvertI64U
            | UnaryOp::F32DemoteF64 => ValueType::F32,
            UnaryOp::F64Abs
            | UnaryOp::F64Neg
            | UnaryOp::F64Ceil
            | UnaryOp::F64Floor
            | UnaryOp::F64Trunc
            | UnaryOp::F64Nearest
            | UnaryOp::F64Sqrt
            | UnaryOp::F64ConvertI32S
            | UnaryOp::F64ConvertI32U
            | UnaryOp::F64ConvertI64S
            | UnaryOp::F64ConvertI64U
            | UnaryOp::F64PromoteF32 => ValueType::F64,
        }
    }

    /// Computes [`Self::result_type`].
    pub fn result_type_exec(self) -> (r: ValueType)
        ensures
            r == self.result_type(),
    {
        match self {
            UnaryOp::I32Clz
            | UnaryOp::I32Ctz
            | UnaryOp::I32Popcnt
            | UnaryOp::I32WrapI64
            | UnaryOp::I32TruncF32S
            | UnaryOp::I32TruncF32U
            | UnaryOp::I32TruncF64S
            | UnaryOp::I32TruncF64U
            | UnaryOp::I32Extend8S
            | UnaryOp::I32Extend16S
            | UnaryOp::I32TruncSatF32S
            | UnaryOp::I32TruncSatF32U
            | UnaryOp::I32TruncSatF64S
            | UnaryOp::I32TruncSatF64U => ValueType::I32,
            UnaryOp::I64Clz
            | UnaryOp::I64Ctz
            | UnaryOp::I64Popcnt
            | UnaryOp::I64ExtendI32S
            | UnaryOp::I64ExtendI32U
            | UnaryOp::I64TruncF32S
            | UnaryOp::I64TruncF32U
            | UnaryOp::I64TruncF64S
            | UnaryOp::I64TruncF64U
            | UnaryOp::I64Extend8S
            | UnaryOp::I64Extend16S
            | UnaryOp::I64Extend32S
            | UnaryOp::I64TruncSatF32S
            | UnaryOp::I64TruncSatF32U
            | UnaryOp::I64TruncSatF64S
            | UnaryOp::I64TruncSatF64U => ValueType::I64,
            UnaryOp::F32Abs
            | UnaryOp::F32Neg
            | UnaryOp::F32Ceil
            | UnaryOp::F32Floor
            | UnaryOp::F32Trunc
            | UnaryOp::F32Nearest
            | UnaryOp::F32Sqrt
            | UnaryOp::F32ConvertI32S
            | UnaryOp::F32ConvertI32U
            | UnaryOp::F32ConvertI64S
            | UnaryOp::F32ConvertI64U
            | UnaryOp::F32DemoteF64 => ValueType::F32,
            UnaryOp::F64Abs
            | UnaryOp::F64Neg
            | UnaryOp::F64Ceil
            | UnaryOp::F64Floor
            | UnaryOp::F64Trunc
            | UnaryOp::F64Nearest
            | UnaryOp::F64Sqrt
            | UnaryOp::F64ConvertI32S
            | UnaryOp::F64ConvertI32U
            | UnaryOp::F64ConvertI64S
            | UnaryOp::F64ConvertI64U
            | UnaryOp::F64PromoteF32 => ValueType::F64,
        }
    }

    /// What the operator computes for the operand `input`, or the trap that
    /// it raises.
    pub open spec fn apply(self, input: u64) -> Result<u64, TrapCode> {
        match self {
            UnaryOp::I32Clz => Ok(integer::i32_clz(input)),
            UnaryOp::I32Ctz => Ok(integer::i32_ctz(input)),
            UnaryOp::I32Popcnt => Ok(numeric::i32_popcnt(input)),
            UnaryOp::I64Clz => Ok(integer::i64_clz(input)),
            UnaryOp::I64Ctz => Ok(integer::i64_ctz(input)),
            UnaryOp::I64Popcnt => Ok(numeric::i64_popcnt(input)),
            UnaryOp::F32Abs => Ok(numeric::f32_abs(input)),
            UnaryOp::F32Neg => Ok(integer::f32_neg(input)),
            UnaryOp::F32Ceil => Ok(float::f32_ceil(input)),
            UnaryOp::F32Floor => Ok(float::f32_floor(input)),
            UnaryOp::F32Trunc => Ok(float::f32_trunc(input)),
            UnaryOp::F32Nearest => Ok(float::f32_nearest(input)),
            UnaryOp::F32Sqrt => Ok(float::f32_sqrt(input)),
            UnaryOp::F64Abs => Ok(numeric::f64_abs(input)),
            UnaryOp::F64Neg => Ok(integer::f64_neg(input)),
            UnaryOp::F64Ceil => Ok(float::f64_ceil(input)),
            UnaryOp::F64Floor => Ok(float::f64_floor(input)),
            UnaryOp::F64Trunc => Ok(float::f64_trunc(input)),
            UnaryOp::F64Nearest => Ok(float::f64_nearest(input)),
            UnaryOp::F64Sqrt => Ok(float::f64_sqrt(input)),
            UnaryOp::I32WrapI64 => Ok(integer::i32_wrap_i64(input)),
            UnaryOp::I32TruncF32S => match numeric::i32_trunc_f32_s(input) {
                Some(value) => Ok(value),
                None => Err(conversion_trap(f32_is_nan(input))),
            },
            UnaryOp::I32TruncF32U => match numeric::i32_trunc_f32_u(input) {
                Some(value) => Ok(value),
                None => Err(conversion_trap(f32_is_nan(input))),
            },
            UnaryOp::I32TruncF64S => match numeric::i32_trunc_f64_s(input) {
                Some(value) => Ok(value),
                None => Err(conversion_trap(f64_is_nan(input))),
            },
            UnaryOp::I32TruncF64U => match numeric::i32_trunc_f64_u(input) {
                Some(value) => Ok(value),
                None => Err(conversion_trap(f64_is_nan(input))),
            },
            UnaryOp::I64ExtendI32S => Ok(integer::i64_extend_i32_s(input)),
            UnaryOp::I64ExtendI32U => Ok(integer::i64_extend_i32_u(input)),
            UnaryOp::I64TruncF32S => match numeric::i64_trunc_f32_s(input) {
                Some(value) => Ok(value),
                None => Err(conversion_trap(f32_is_nan(input))),
            },
            UnaryOp::I64TruncF32U => match numeric::i64_trunc_f32_u(input) {
                Some(value) => Ok(value),
                None => Err(conversion_trap(f32_is_nan(input))),
            },
            UnaryOp::I64TruncF64S => match numeric::i64_trunc_f64_s(input) {
                Some(value) => Ok(value),
                None => Err(conversion_trap(f64_is_nan(input))),
            },
            UnaryOp::I64TruncF64U => match numeric::i64_trunc_f64_u(input) {
                Some(value) => Ok(value),
                None => Err(conversion_trap(f64_is_nan(input))),
            },
            UnaryOp::F32ConvertI32S => Ok(numeric::f32_convert_i32_s(input)),
            UnaryOp::F32ConvertI32U => Ok(numeric::f32_convert_i32_u(input)),
            UnaryOp::F32ConvertI64S => Ok(numeric::f32_convert_i64_s(input)),
            UnaryOp::F32ConvertI64U => Ok(numeric::f32_convert_i64_u(input)),
            UnaryOp::F32DemoteF64 => Ok(float::f32_demote_f64(input)),
            UnaryOp::F64ConvertI32S => Ok(numeric::f64_convert_i32_s(input)),
            UnaryOp::F64ConvertI32U => Ok(numeric::f64_convert_i32_u(input)),
            UnaryOp::F64ConvertI64S => Ok(numeric::f64_convert_i64_s(input)),
            UnaryOp::F64ConvertI64U => Ok(numeric::f64_convert_i64_u(input)),
            UnaryOp::F64PromoteF32 => Ok(float::f64_promote_f32(input)),
            UnaryOp::I32Extend8S => Ok(integer::i32_extend8_s(input)),
            UnaryOp::I32Extend16S => Ok(integer::i32_extend16_s(input)),
            UnaryOp::I64Extend8S => Ok(integer::i64_extend8_s(input)),
            UnaryOp::I64Extend16S => Ok(integer::i64_extend16_s(input)),
            UnaryOp::I64Extend32S => Ok(integer::i64_extend32_s(input)),
            UnaryOp::I32TruncSatF32S => Ok(numeric::i32_trunc_sat_f32_s(input)),
            UnaryOp::I32TruncSatF32U => Ok(numeric::i32_trunc_sat_f32_u(input)),
            UnaryOp::I32TruncSatF64S => Ok(numeric::i32_trunc_sat_f64_s(input)),
            UnaryOp::I32TruncSatF64U => Ok(numeric::i32_trunc_sat_f64_u(input)),
            UnaryOp::I64TruncSatF32S => Ok(numeric::i64_trunc_sat_f32_s(input)),
            UnaryOp::I64TruncSatF32U => Ok(numeric::i64_trunc_sat_f32_u(input)),
            UnaryOp::I64TruncSatF64S => Ok(numeric::i64_trunc_sat_f64_s(input)),
            UnaryOp::I64TruncSatF64U => Ok(numeric::i64_trunc_sat_f64_u(input)),
        }
    }

    /// Computes [`Self::apply`].
    pub fn eval(self, input: u64) -> (r: Result<u64, TrapCode>)
        ensures
            r == self.apply(input),
    {
        match self {
            UnaryOp::I32Clz => Ok(integer::i32_clz_exec(input)),
            UnaryOp::I32Ctz => Ok(integer::i32_ctz_exec(input)),
            UnaryOp::I32Popcnt => Ok(numeric::i32_popcnt_exec(input)),
            UnaryOp::I64Clz => Ok(integer::i64_clz_exec(input)),
            UnaryOp::I64Ctz => Ok(integer::i64_ctz_exec(input)),
            UnaryOp::I64Popcnt => Ok(numeric::i64_popcnt_exec(input)),
            UnaryOp::F32Abs => Ok(numeric::f32_abs_exec(input)),
            UnaryOp::F32Neg => Ok(integer::f32_neg_exec(input)),
            UnaryOp::F32Ceil => Ok(float::f32_ceil_exec(input)),
            UnaryOp::F32Floor => Ok(float::f32_floor_exec(input)),
            UnaryOp::F32Trunc => Ok(float::f32_trunc_exec(input)),
            UnaryOp::F32Nearest => Ok(float::f32_nearest_exec(input)),
            UnaryOp::F32Sqrt => Ok(float::f32_sqrt_exec(input)),
            UnaryOp::F64Abs => Ok(numeric::f64_abs_exec(input)),
            UnaryOp::F64Neg => Ok(integer::f64_neg_exec(input)),
            UnaryOp::F64Ceil => Ok(float::f64_ceil_exec(input)),
            UnaryOp::F64Floor => Ok(float::f64_floor_exec(input)),
            UnaryOp::F64Trunc => Ok(float::f64_trunc_exec(input)),
            UnaryOp::F64Nearest => Ok(float::f64_nearest_exec(input)),
            UnaryOp::F64Sqrt => Ok(float::f64_sqrt_exec(input)),
            UnaryOp::I32WrapI64 => Ok(integer::i32_wrap_i64_exec(input)),
            UnaryOp::I32TruncF32S => match numeric::i32_trunc_f32_s_exec(input) {
                Some(value) => Ok(value),
                None => Err(if f32_is_nan_exec(input) {
                    TrapCode::BadConversionToInteger
                } else {
                    TrapCode::IntegerOverflow
                }),
            },
            UnaryOp::I32TruncF32U => match numeric::i32_trunc_f32_u_exec(input) {
                Some(value) => Ok(value),
                None => Err(if f32_is_nan_exec(input) {
                    TrapCode::BadConversionToInteger
                } else {
                    TrapCode::IntegerOverflow
                }),
            },
            UnaryOp::I32TruncF64S => match numeric::i32_trunc_f64_s_exec(input) {
                Some(value) => Ok(value),
                None => Err(if f64_is_nan_exec(input) {
                    TrapCode::BadConversionToInteger
                } else {
                    TrapCode::IntegerOverflow
                }),
            },
            UnaryOp::I32TruncF64U => match numeric::i32_trunc_f64_u_exec(input) {
                Some(value) => Ok(value),
                None => Err(if f64_is_nan_exec(input) {
                    TrapCode::BadConversionToInteger
                } else {
                    TrapCode::IntegerOverflow
                }),
            },
            UnaryOp::I64ExtendI32S => Ok(integer::i64_extend_i32_s_exec(input)),
            UnaryOp::I64ExtendI32U => Ok(integer::i64_extend_i32_u_exec(input)),
            UnaryOp::I64TruncF32S => match numeric::i64_trunc_f32_s_exec(input) {
                Some(value) => Ok(value),
                None => Err(if f32_is_nan_exec(input) {
                    TrapCode::BadConversionToInteger
                } else {
                    TrapCode::IntegerOverflow
                }),
            },
            UnaryOp::I64TruncF32U => match numeric::i64_trunc_f32_u_exec(input) {
                Some(value) => Ok(value),
                None => Err(if f32_is_nan_exec(input) {
                    TrapCode::BadConversionToInteger
                } else {
                    TrapCode::IntegerOverflow
                }),
            },
            UnaryOp::I64TruncF64S => match numeric::i64_trunc_f64_s_exec(input) {
                Some(value) => Ok(value),
                None => Err(if f64_is_nan_exec(input) {
                    TrapCode::BadConversionToInteger
                } else {
                    TrapCode::IntegerOverflow
                }),
            },
            UnaryOp::I64TruncF64U => match numeric::i64_trunc_f64_u_exec(input) {
                Some(value) => Ok(value),
                None => Err(if f64_is_nan_exec(input) {
                    TrapCode::BadConversionToInteger
                } else {
                    TrapCode::IntegerOverflow
                }),
            },
            UnaryOp::F32ConvertI32S => Ok(numeric::f32_convert_i32_s_exec(input)),
            UnaryOp::F32ConvertI32U => Ok(numeric::f32_convert_i32_u_exec(input)),
            UnaryOp::F32ConvertI64S => Ok(numeric::f32_convert_i64_s_exec(input)),
            UnaryOp::F32ConvertI64U => Ok(numeric::f32_convert_i64_u_exec(input)),
            UnaryOp::F32DemoteF64 => Ok(float::f32_demote_f64_exec(input)),
            UnaryOp::F64ConvertI32S => Ok(numeric::f64_convert_i32_s_exec(input)),
            UnaryOp::F64ConvertI32U => Ok(numeric::f64_convert_i32_u_exec(input)),
            UnaryOp::F64ConvertI64S => Ok(numeric::f64_convert_i64_s_exec(input)),
            UnaryOp::F64ConvertI64U => Ok(numeric::f64_convert_i64_u_exec(input)),
            UnaryOp::F64PromoteF32 => Ok(float::f64_promote_f32_exec(input)),
            UnaryOp::I32Extend8S => Ok(integer::i32_extend8_s_exec(input)),
            UnaryOp::I32Extend16S => Ok(integer::i32_extend16_s_exec(input)),
            UnaryOp::I64Extend8S => Ok(integer::i64_extend8_s_exec(input)),
            UnaryOp::I64Extend16S => Ok(integer::i64_extend16_s_exec(input)),
            UnaryOp::I64Extend32S => Ok(integer::i64_extend32_s_exec(input)),
            UnaryOp::I32TruncSatF32S => Ok(numeric::i32_trunc_sat_f32_s_exec(input)),
            UnaryOp::I32TruncSatF32U => Ok(numeric::i32_trunc_sat_f32_u_exec(input)),
            UnaryOp::I32TruncSatF64S => Ok(numeric::i32_trunc_sat_f64_s_exec(input)),
            UnaryOp::I32TruncSatF64U => Ok(numeric::i32_trunc_sat_f64_u_exec(input)),
            UnaryOp::I64TruncSatF32S => Ok(numeric::i64_trunc_sat_f32_s_exec(input)),
            UnaryOp::I64TruncSatF32U => Ok(numeric::i64_trunc_sat_f32_u_exec(input)),
            UnaryOp::I64TruncSatF64S => Ok(numeric::i64_trunc_sat_f64_s_exec(input)),
            UnaryOp::I64TruncSatF64U => Ok(numeric::i64_trunc_sat_f64_u_exec(input)),
        }
    }
}

impl BinaryOp {
    /// The type of the operands.
    pub open spec fn operand_type(self) -> ValueType {
        match self {
            BinaryOp::I32Eq
            | BinaryOp::I32Ne
            | BinaryOp::I32LtS
            | BinaryOp::I32LtU
            | BinaryOp::I32GtS
            | BinaryOp::I32GtU
            | BinaryOp::I32LeS
            | BinaryOp::I32LeU
            | BinaryOp::I32GeS
            | BinaryOp::I32GeU
            | BinaryOp::I32Add
            | BinaryOp::I32Sub
            | BinaryOp::I32Mul
            | BinaryOp::I32DivS
            | BinaryOp::I32DivU
            | BinaryOp::I32RemS
            | BinaryOp::I32RemU
            | BinaryOp::I32And
            | BinaryOp::I32Or
            | BinaryOp::I32Xor
            | BinaryOp::I32Shl
            | BinaryOp::I32ShrS
            | BinaryOp::I32ShrU
            | BinaryOp::I32Rotl
            | BinaryOp::I32Rotr => ValueType::I32,
            BinaryOp::I64Eq
            | BinaryOp::I64Ne
            | BinaryOp::I64LtS
            | BinaryOp::I64LtU
            | BinaryOp::I64GtS
            | BinaryOp::I64GtU
            | BinaryOp::I64LeS
            | BinaryOp::I64LeU
            | BinaryOp::I64GeS
            | BinaryOp::I64GeU
            | BinaryOp::I64Add
            | BinaryOp::I64Sub
            | BinaryOp::I64Mul
            | BinaryOp::I64DivS
            | BinaryOp::I64DivU
            | BinaryOp::I64RemS
            | BinaryOp::I64RemU
            | BinaryOp::I64And
            | BinaryOp::I64Or
            | BinaryOp::I64Xor
            | BinaryOp::I64Shl
            | BinaryOp::I64ShrS
            | BinaryOp::I64ShrU
            | BinaryOp::I64Rotl
            | BinaryOp::I64Rotr => ValueType::I64,
            BinaryOp::F32Eq
            | BinaryOp::F32Ne
            | BinaryOp::F32Lt
            | BinaryOp::F32Gt
            | BinaryOp::F32Le
            | BinaryOp::F32Ge
            | BinaryOp::F32Add
            | BinaryOp::F32Sub
            | BinaryOp::F32Mul
            | BinaryOp::F32Div
            | BinaryOp::F32Min
            | BinaryOp::F32Max
            | BinaryOp::F32Copysign => ValueType::F32,
            BinaryOp::F64Eq
            | BinaryOp::F64Ne
            | BinaryOp::F64Lt
            | BinaryOp::F64Gt
            | BinaryOp::F64Le
            | BinaryOp::F64Ge
            | BinaryOp::F64Add
            | BinaryOp::F64Sub
            | BinaryOp::F64Mul
            | BinaryOp::F64Div
            | BinaryOp::F64Min
            | BinaryOp::F64Max
            | BinaryOp::F64Copysign => ValueType::F64,
        }
    }

    /// Computes [`Self::operand_type`].
    pub fn operand_type_exec(self) -> (r: ValueType)
        ensures
            r == self.operand_type(),
    {
        match self {
            BinaryOp::I32Eq
            | BinaryOp::I32Ne
            | BinaryOp::I32LtS
            | BinaryOp::I32LtU
            | BinaryOp::I32GtS
            | BinaryOp::I32GtU
            | BinaryOp::I32LeS
            | BinaryOp::I32LeU
            | BinaryOp::I32GeS
            | BinaryOp::I32GeU
            | BinaryOp::I32Add
            | BinaryOp::I32Sub
            | BinaryOp::I32Mul
            | BinaryOp::I32DivS
            | BinaryOp::I32DivU
            | BinaryOp::I32RemS
            | BinaryOp::I32RemU
            | BinaryOp::I32And
            | BinaryOp::I32Or
            | BinaryOp::I32Xor
            | BinaryOp::I32Shl
            | BinaryOp::I32ShrS
            | BinaryOp::I32ShrU
            | BinaryOp::I32Rotl
            | BinaryOp::I32Rotr => ValueType::I32,
            BinaryOp::I64Eq
            | BinaryOp::I64Ne
            | BinaryOp::I64LtS
            | BinaryOp::I64LtU
            | BinaryOp::I64GtS
            | BinaryOp::I64GtU
            | BinaryOp::I64LeS
            | BinaryOp::I64LeU
            | BinaryOp::I64GeS
            | BinaryOp::I64GeU
            | BinaryOp::I64Add
            | BinaryOp::I64Sub
            | BinaryOp::I64Mul
            | BinaryOp::I64DivS
            | BinaryOp::I64DivU
            | BinaryOp::I64RemS
            | BinaryOp::I64RemU
            | BinaryOp::I64And
            | BinaryOp::I64Or
            | BinaryOp::I64Xor
            | BinaryOp::I64Shl
            | BinaryOp::I64ShrS
            | BinaryOp::I64ShrU
            | BinaryOp::I64Rotl
            | BinaryOp::I64Rotr => ValueType::I64,
            BinaryOp::F32Eq
            | BinaryOp::F32Ne
            | BinaryOp::F32Lt
            | BinaryOp::F32Gt
            | BinaryOp::F32Le
            | BinaryOp::F32Ge
            | BinaryOp::F32Add
            | BinaryOp::F32Sub
            | BinaryOp::F32Mul
            | BinaryOp::F32Div
            | BinaryOp::F32Min
            | BinaryOp::F32Max
            | BinaryOp::F32Copysign => ValueType::F32,
            BinaryOp::F64Eq
            | BinaryOp::F64Ne
            | BinaryOp::F64Lt
            | BinaryOp::F64Gt
            | BinaryOp::F64Le
            | BinaryOp::F64Ge
            | BinaryOp::F64Add
            | BinaryOp::F64Sub
            | BinaryOp::F64Mul
            | BinaryOp::F64Div
            | BinaryOp::F64Min
            | BinaryOp::F64Max
            | BinaryOp::F64Copysign => ValueType::F64,
        }
    }

    /// Whether the operator compares its operands: its result is then a
    /// truth value of type `i32`.
    pub open spec fn is_relation(self) -> bool {
        match self {
            BinaryOp::I32Eq
            | BinaryOp::I32Ne
            | BinaryOp::I32LtS
            | BinaryOp::I32LtU
            | BinaryOp::I32GtS
            | BinaryOp::I32GtU
            | BinaryOp::I32LeS
            | BinaryOp::I32LeU
            | BinaryOp::I32GeS
            | BinaryOp::I32GeU
            | BinaryOp::I64Eq
            | BinaryOp::I64Ne
            | BinaryOp::I64LtS
            | BinaryOp::I64LtU
            | BinaryOp::I64GtS
            | BinaryOp::I64GtU
            | BinaryOp::I64LeS
            | BinaryOp::I64LeU
            | BinaryOp::I64GeS
            | BinaryOp::I64GeU
            | BinaryOp::F32Eq
            | BinaryOp::F32Ne
            | BinaryOp::F32Lt
            | BinaryOp::F32Gt
            | BinaryOp::F32Le
            | BinaryOp::F32Ge
            | BinaryOp::F64Eq
            | BinaryOp::F64Ne
            | BinaryOp::F64Lt
            | BinaryOp::F64Gt
            | BinaryOp::F64Le
            | BinaryOp::F64Ge => true,
            BinaryOp::I32Add
            | BinaryOp::I32Sub
            | BinaryOp::I32Mul
            | BinaryOp::I32DivS
            | BinaryOp::I32DivU
            | BinaryOp::I32RemS
            | BinaryOp::I32RemU
            | BinaryOp::I32And
            | BinaryOp::I32Or
            | BinaryOp::I32Xor
            | BinaryOp::I32Shl
            | BinaryOp::I32ShrS
            | BinaryOp::I32ShrU
            | BinaryOp::I32Rotl
            | BinaryOp::I32Rotr
            | BinaryOp::I64Add
            | BinaryOp::I64Sub
            | BinaryOp::I64Mul
            | BinaryOp::I64DivS
            | BinaryOp::I64DivU
            | BinaryOp::I64RemS
            | BinaryOp::I64RemU
            | BinaryOp::I64And
            | BinaryOp::I64Or
            | BinaryOp::I64Xor
            | BinaryOp::I64Shl
            | BinaryOp::I64ShrS
            | BinaryOp::I64ShrU
            | BinaryOp::I64Rotl
            | BinaryOp::I64Rotr
            | BinaryOp::F32Add
            | BinaryOp::F32Sub
            | BinaryOp::F32Mul
            | BinaryOp::F32Div
            | BinaryOp::F32Min
            | BinaryOp::F32Max
            | BinaryOp::F32Copysign
            | BinaryOp::F64Add
            | BinaryOp::F64Sub
            | BinaryOp::F64Mul
            | BinaryOp::F64Div
            | BinaryOp::F64Min
            | BinaryOp::F64Max
            | BinaryOp::F64Copysign => false,
        }
    }

    /// Computes [`Self::is_relation`].
    pub fn is_relation_exec(self) -> (r: bool)
        ensures
            r == self.is_relation(),
    {
        match self {
            BinaryOp::I32Eq
            | BinaryOp::I32Ne
            | BinaryOp::I32LtS
            | BinaryOp::I32LtU
            | BinaryOp::I32GtS
            | BinaryOp::I32GtU
            | BinaryOp::I32LeS
            | BinaryOp::I32LeU
            | BinaryOp::I32GeS
            | BinaryOp::I32GeU
            | BinaryOp::I64Eq
            | BinaryOp::I64Ne
            | BinaryOp::I64LtS
            | BinaryOp::I64LtU
            | BinaryOp::I64GtS
            | BinaryOp::I64GtU
            | BinaryOp::I64LeS
            | BinaryOp::I64LeU
            | BinaryOp::I64GeS
            | BinaryOp::I64GeU
            | BinaryOp::F32Eq
            | BinaryOp::F32Ne
            | BinaryOp::F32Lt
            | BinaryOp::F32Gt
            | BinaryOp::F32Le
            | BinaryOp::F32Ge
            | BinaryOp::F64Eq
            | BinaryOp::F64Ne
            | BinaryOp::F64Lt
            | BinaryOp::F64Gt
            | BinaryOp::F64Le
            | BinaryOp::F64Ge => true,
            BinaryOp::I32Add
            | BinaryOp::I32Sub
            | BinaryOp::I32Mul
            | BinaryOp::I32DivS
            | BinaryOp::I32DivU
            | BinaryOp::I32RemS
            | BinaryOp::I32RemU
            | BinaryOp::I32And
            | BinaryOp::I32Or
            | BinaryOp::I32Xor
            | BinaryOp::I32Shl
            | BinaryOp::I32ShrS
            | BinaryOp::I32ShrU
            | BinaryOp::I32Rotl
            | BinaryOp::I32Rotr
            | BinaryOp::I64Add
            | BinaryOp::I64Sub
            | BinaryOp::I64Mul
            | BinaryOp::I64DivS
            | BinaryOp::I64DivU
            | BinaryOp::I64RemS
            | BinaryOp::I64RemU
            | BinaryOp::I64And
            | BinaryOp::I64Or
            | BinaryOp::I64Xor
            | BinaryOp::I64Shl
            | BinaryOp::I64ShrS
            | BinaryOp::I64ShrU
            | BinaryOp::I64Rotl
            | BinaryOp::I64Rotr
            | BinaryOp::F32Add
            | BinaryOp::F32Sub
            | BinaryOp::F32Mul
            | BinaryOp::F32Div
            | BinaryOp::F32Min
            | BinaryOp::F32Max
            | BinaryOp::F32Copysign
            | BinaryOp::F64Add
            | BinaryOp::F64Sub
            | BinaryOp::F64Mul
            | BinaryOp::F64Div
            | BinaryOp::F64Min
            | BinaryOp::F64Max
            | BinaryOp::F64Copysign => false,
        }
    }

    /// The type of the result.
    pub open spec fn result_type(self) -> ValueType {
        if self.is_relation() {
            ValueType::I32
        } else {
            self.operand_type()
        }
    }

    /// Computes [`Self::result_type`].
    pub fn result_type_exec(self) -> (r: ValueType)
        ensures
            r == self.result_type(),
    {
        if self.is_relation_exec() {
            ValueType::I32
        } else {
            self.operand_type_exec()
        }
    }

    /// The relation that holds exactly where this one does not, for the
    /// relations that have one. The ordering relations of floating-point
    /// numbers have none: neither holds of a not-a-number.
    pub open spec fn negated(self) -> Option<BinaryOp> {
        match self {
            BinaryOp::I32Eq => Some(BinaryOp::I32Ne),
            BinaryOp::I32Ne => Some(BinaryOp::I32Eq),
            BinaryOp::I32LtS => Some(BinaryOp::I32GeS),
            BinaryOp::I32GeS => Some(BinaryOp::I32LtS),
            BinaryOp::I32LtU => Some(BinaryOp::I32GeU),
            BinaryOp::I32GeU => Some(BinaryOp::I32LtU),
            BinaryOp::I32GtS => Some(BinaryOp::I32LeS),
            BinaryOp::I32LeS => Some(BinaryOp::I32GtS),
            BinaryOp::I32GtU => Some(BinaryOp::I32LeU),
            BinaryOp::I32LeU => Some(BinaryOp::I32GtU),
            BinaryOp::I64Eq => Some(BinaryOp::I64Ne),
            BinaryOp::I64Ne => Some(BinaryOp::I64Eq),
            BinaryOp::I64LtS => Some(BinaryOp::I64GeS),
            BinaryOp::I64GeS => Some(BinaryOp::I64LtS),
            BinaryOp::I64LtU => Some(BinaryOp::I64GeU),
            BinaryOp::I64GeU => Some(BinaryOp::I64LtU),
            BinaryOp::I64GtS => Some(BinaryOp::I64LeS),
            BinaryOp::I64LeS => Some(BinaryOp::I64GtS),
            BinaryOp::I64GtU => Some(BinaryOp::I64LeU),
            BinaryOp::I64LeU => Some(BinaryOp::I64GtU),
            BinaryOp::F32Eq => Some(BinaryOp::F32Ne),
            BinaryOp::F32Ne => Some(BinaryOp::F32Eq),
            BinaryOp::F64Eq => Some(BinaryOp::F64Ne),
            BinaryOp::F64Ne => Some(BinaryOp::F64Eq),
            _ => None,
        }
    }

    /// Computes [`Self::negated`].
    pub fn negated_exec(self) -> (r: Option<BinaryOp>)
        ensures
            r == self.negated(),
    {
        match self {
            BinaryOp::I32Eq => Some(BinaryOp::I32Ne),
            BinaryOp::I32Ne => Some(BinaryOp::I32Eq),
            BinaryOp::I32LtS => Some(BinaryOp::I32GeS),
            BinaryOp::I32GeS => Some(BinaryOp::I32LtS),
            BinaryOp::I32LtU => Some(BinaryOp::I32GeU),
            BinaryOp::I32GeU => Some(BinaryOp::I32LtU),
            BinaryOp::I32GtS => Some(BinaryOp::I32LeS),
            BinaryOp::I32LeS => Some(BinaryOp::I32GtS),
            BinaryOp::I32GtU => Some(BinaryOp::I32LeU),
            BinaryOp::I32LeU => Some(BinaryOp::I32GtU),
            BinaryOp::I64Eq => Some(BinaryOp::I64Ne),
            BinaryOp::I64Ne => Some(BinaryOp::I64Eq),
            BinaryOp::I64LtS => Some(BinaryOp::I64GeS),
            BinaryOp::I64GeS => Some(BinaryOp::I64LtS),
            BinaryOp::I64LtU => Some(BinaryOp::I64GeU),
            BinaryOp::I64GeU => Some(BinaryOp::I64LtU),
            BinaryOp::I64GtS => Some(BinaryOp::I64LeS),
            BinaryOp::I64LeS => Some(BinaryOp::I64GtS),
            BinaryOp::I64GtU => Some(BinaryOp::I64LeU),
            BinaryOp::I64LeU => Some(BinaryOp::I64GtU),
            BinaryOp::F32Eq => Some(BinaryOp::F32Ne),
            BinaryOp::F32Ne => Some(BinaryOp::F32Eq),
            BinaryOp::F64Eq => Some(BinaryOp::F64Ne),
            BinaryOp::F64Ne => Some(BinaryOp::F64Eq),
            _ => None,
        }
    }

    /// What the operator computes for the operands `lhs` and `rhs`, or the
    /// trap that it raises.
    pub open spec fn apply(self, lhs: u64, rhs: u64) -> Result<u64, TrapCode> {
        match self {
            BinaryOp::I32Eq => Ok(integer::i32_eq(lhs, rhs)),
            BinaryOp::I32Ne => Ok(integer::i32_ne(lhs, rhs)),
            BinaryOp::I32LtS => Ok(integer::i32_lt_s(lhs, rhs)),
            BinaryOp::I32LtU => Ok(integer::i32_lt_u(lhs, rhs)),
            BinaryOp::I32GtS => Ok(integer::i32_gt_s(lhs, rhs)),
            BinaryOp::I32GtU => Ok(integer::i32_gt_u(lhs, rhs)),
            BinaryOp::I32LeS => Ok(integer::i32_le_s(lhs, rhs)),
            BinaryOp::I32LeU => Ok(integer::i32_le_u(lhs, rhs)),
            BinaryOp::I32GeS => Ok(integer::i32_ge_s(lhs, rhs)),
            BinaryOp::I32GeU => Ok(integer::i32_ge_u(lhs, rhs)),
            BinaryOp::I32Add => Ok(integer::i32_add(lhs, rhs)),
            BinaryOp::I32Sub => Ok(integer::i32_sub(lhs, rhs)),
            BinaryOp::I32Mul => Ok(integer::i32_mul(lhs, rhs)),
            BinaryOp::I32DivS => integer::i32_div_s(lhs, rhs),
            BinaryOp::I32DivU => integer::i32_div_u(lhs, rhs),
            BinaryOp::I32RemS => integer::i32_rem_s(lhs, rhs),
            BinaryOp::I32RemU => integer::i32_rem_u(lhs, rhs),
            BinaryOp::I32And => Ok(integer::i32_and(lhs, rhs)),
            BinaryOp::I32Or => Ok(integer::i32_or(lhs, rhs)),
            BinaryOp::I32Xor => Ok(integer::i32_xor(lhs, rhs)),
            BinaryOp::I32Shl => Ok(integer::i32_shl(lhs, rhs)),
            BinaryOp::I32ShrS => Ok(integer::i32_shr_s(lhs, rhs)),
            BinaryOp::I32ShrU => Ok(integer::i32_shr_u(lhs, rhs)),
            BinaryOp::I32Rotl => Ok(numeric::i32_rotl(lhs, rhs)),
            BinaryOp::I32Rotr => Ok(numeric::i32_rotr(lhs, rhs)),
            BinaryOp::I64Eq => Ok(integer::i64_eq(lhs, rhs)),
            BinaryOp::I64Ne => Ok(integer::i64_ne(lhs, rhs)),
            BinaryOp::I64LtS => Ok(integer::i64_lt_s(lhs, rhs)),
            BinaryOp::I64LtU => Ok(integer::i64_lt_u(lhs, rhs)),
            BinaryOp::I64GtS => Ok(integer::i64_gt_s(lhs, rhs)),
            BinaryOp::I64GtU => Ok(integer::i64_gt_u(lhs, rhs)),
            BinaryOp::I64LeS => Ok(integer::i64_le_s(lhs, rhs)),
            BinaryOp::I64LeU => Ok(integer::i64_le_u(lhs, rhs)),
            BinaryOp::I64GeS => Ok(integer::i64_ge_s(lhs, rhs)),
            BinaryOp::I64GeU => Ok(integer::i64_ge_u(lhs, rhs)),
            BinaryOp::I64Add => Ok(integer::i64_add(lhs, rhs)),
            BinaryOp::I64Sub => Ok(integer::i64_sub(lhs, rhs)),
            BinaryOp::I64Mul => Ok(integer::i64_mul(lhs, rhs)),
            BinaryOp::I64DivS => integer::i64_div_s(lhs, rhs),
            BinaryOp::I64DivU => integer::i64_div_u(lhs, rhs),
            BinaryOp::I64RemS => integer::i64_rem_s(lhs, rhs),
            BinaryOp::I64RemU => integer::i64_rem_u(lhs, rhs),
            BinaryOp::I64And => Ok(integer::i64_and(lhs, rhs)),
            BinaryOp::I64Or => Ok(integer::i64_or(lhs, rhs)),
            BinaryOp::I64Xor => Ok(integer::i64_xor(lhs, rhs)),
            BinaryOp::I64Shl => Ok(integer::i64_shl(lhs, rhs)),
            BinaryOp::I64ShrS => Ok(integer::i64_shr_s(lhs, rhs)),
            BinaryOp::I64ShrU => Ok(integer::i64_shr_u(lhs, rhs)),
            BinaryOp::I64Rotl => Ok(numeric::i64_rotl(lhs, rhs)),
            BinaryOp::I64Rotr => Ok(numeric::i64_rotr(lhs, rhs)),
            BinaryOp::F32Eq => Ok(numeric::f32_eq(lhs, rhs)),
            BinaryOp::F32Ne => Ok(numeric::f32_ne(lhs, rhs)),
            BinaryOp::F32Lt => Ok(numeric::f32_lt(lhs, rhs)),
            BinaryOp::F32Gt => Ok(numeric::f32_gt(lhs, rhs)),
            BinaryOp::F32Le => Ok(numeric::f32_le(lhs, rhs)),
            BinaryOp::F32Ge => Ok(numeric::f32_ge(lhs, rhs)),
            BinaryOp::F32Add => Ok(float::f32_add(lhs, rhs)),
            BinaryOp::F32Sub => Ok(float::f32_sub(lhs, rhs)),
            BinaryOp::F32Mul => Ok(float::f32_mul(lhs, rhs)),
            BinaryOp::F32Div => Ok(float::f32_div(lhs, rhs)),
            BinaryOp::F32Min => Ok(float::f32_min(lhs, rhs)),
            BinaryOp::F32Max => Ok(float::f32_max(lhs, rhs)),
            BinaryOp::F32Copysign => Ok(numeric::f32_copysign(lhs, rhs)),
            BinaryOp::F64Eq => Ok(numeric::f64_eq(lhs, rhs)),
            BinaryOp::F64Ne => Ok(numeric::f64_ne(lhs, rhs)),
            BinaryOp::F64Lt => Ok(numeric::f64_lt(lhs, rhs)),
            BinaryOp::F64Gt => Ok(numeric::f64_gt(lhs, rhs)),
            BinaryOp::F64Le => Ok(numeric::f64_le(lhs, rhs)),
            BinaryOp::F64Ge => Ok(numeric::f64_ge(lhs, rhs)),
            BinaryOp::F64Add => Ok(float::f64_add(lhs, rhs)),
            BinaryOp::F64Sub => Ok(float::f64_sub(lhs, rhs)),
            BinaryOp::F64Mul => Ok(float::f64_mul(lhs, rhs)),
            BinaryOp::F64Div => Ok(float::f64_div(lhs, rhs)),
            BinaryOp::F64Min => Ok(float::f64_min(lhs, rhs)),
            BinaryOp::F64Max => Ok(float::f64_max(lhs, rhs)),
            BinaryOp::F64Copysign => Ok(numeric::f64_copysign(lhs, rhs)),
        }
    }

    /// Computes [`Self::apply`].
    pub fn eval(self, lhs: u64, rhs: u64) -> (r: Result<u64, TrapCode>)
        ensures
            r == self.apply(lhs, rhs),
    {
        match self {
            BinaryOp::I32Eq => Ok(integer::i32_eq_exec(lhs, rhs)),
            BinaryOp::I32Ne => Ok(integer::i32_ne_exec(lhs, rhs)),
            BinaryOp::I32LtS => Ok(integer::i32_lt_s_exec(lhs, rhs)),
            BinaryOp::I32LtU => Ok(integer::i32_lt_u_exec(lhs, rhs)),
            BinaryOp::I32GtS => Ok(integer::i32_gt_s_exec(lhs, rhs)),
            BinaryOp::I32GtU => Ok(integer::i32_gt_u_exec(lhs, rhs)),
            BinaryOp::I32LeS => Ok(integer::i32_le_s_exec(lhs, rhs)),
            BinaryOp::I32LeU => Ok(integer::i32_le_u_exec(lhs, rhs)),
            BinaryOp::I32GeS => Ok(integer::i32_ge_s_exec(lhs, rhs)),
            BinaryOp::I32GeU => Ok(integer::i32_ge_u_exec(lhs, rhs)),
            BinaryOp::I32Add => Ok(integer::i32_add_exec(lhs, rhs)),
            BinaryOp::I32Sub => Ok(integer::i32_sub_exec(lhs, rhs)),
            BinaryOp::I32Mul => Ok(integer::i32_mul_exec(lhs, rhs)),
            BinaryOp::I32DivS => integer::i32_div_s_exec(lhs, rhs),
            BinaryOp::I32DivU => integer::i32_div_u_exec(lhs, rhs),
            BinaryOp::I32RemS => integer::i32_rem_s_exec(lhs, rhs),
            BinaryOp::I32RemU => integer::i32_rem_u_exec(lhs, rhs),
            BinaryOp::I32And => Ok(integer::i32_and_exec(lhs, rhs)),
            BinaryOp::I32Or => Ok(integer::i32_or_exec(lhs, rhs)),
            BinaryOp::I32Xor => Ok(integer::i32_xor_exec(lhs, rhs)),
            BinaryOp::I32Shl => Ok(integer::i32_shl_exec(lhs, rhs)),
            BinaryOp::I32ShrS => Ok(integer::i32_shr_s_exec(lhs, rhs)),
            BinaryOp::I32ShrU => Ok(integer::i32_shr_u_exec(lhs, rhs)),
            BinaryOp::I32Rotl => Ok(numeric::i32_rotl_exec(lhs, rhs)),
            BinaryOp::I32Rotr => Ok(numeric::i32_rotr_exec(lhs, rhs)),
            BinaryOp::I64Eq => Ok(integer::i64_eq_exec(lhs, rhs)),
            BinaryOp::I64Ne => Ok(integer::i64_ne_exec(lhs, rhs)),
            BinaryOp::I64LtS => Ok(integer::i64_lt_s_exec(lhs, rhs)),
            BinaryOp::I64LtU => Ok(integer::i64_lt_u_exec(lhs, rhs)),
            BinaryOp::I64GtS => Ok(integer::i64_gt_s_exec(lhs, rhs)),
            BinaryOp::I64GtU => Ok(integer::i64_gt_u_exec(lhs, rhs)),
            BinaryOp::I64LeS => Ok(integer::i64_le_s_exec(lhs, rhs)),
            BinaryOp::I64LeU => Ok(integer::i64_le_u_exec(lhs, rhs)),
            BinaryOp::I64GeS => Ok(integer::i64_ge_s_exec(lhs, rhs)),
            BinaryOp::I64GeU => Ok(integer::i64_ge_u_exec(lhs, rhs)),
            BinaryOp::I64Add => Ok(integer::i64_add_exec(lhs, rhs)),
            BinaryOp::I64Sub => Ok(integer::i64_sub_exec(lhs, rhs)),
            BinaryOp::I64Mul => Ok(integer::i64_mul_exec(lhs, rhs)),
            BinaryOp::I64DivS => integer::i64_div_s_exec(lhs, rhs),
            BinaryOp::I64DivU => integer::i64_div_u_exec(lhs, rhs),
            BinaryOp::I64RemS => integer::i64_rem_s_exec(lhs, rhs),
            BinaryOp::I64RemU => integer::i64_rem_u_exec(lhs, rhs),
            BinaryOp::I64And => Ok(integer::i64_and_exec(lhs, rhs)),
            BinaryOp::I64Or => Ok(integer::i64_or_exec(lhs, rhs)),
            BinaryOp::I64Xor => Ok(integer::i64_xor_exec(lhs, rhs)),
            BinaryOp::I64Shl => Ok(integer::i64_shl_exec(lhs, rhs)),
            BinaryOp::I64ShrS => Ok(integer::i64_shr_s_exec(lhs, rhs)),
            BinaryOp::I64ShrU => Ok(integer::i64_shr_u_exec(lhs, rhs)),
            BinaryOp::I64Rotl => Ok(numeric::i64_rotl_exec(lhs, rhs)),
            BinaryOp::I64Rotr => Ok(numeric::i64_rotr_exec(lhs, rhs)),
            BinaryOp::F32Eq => Ok(numeric::f32_eq_exec(lhs, rhs)),
            BinaryOp::F32Ne => Ok(numeric::f32_ne_exec(lhs, rhs)),
            BinaryOp::F32Lt => Ok(numeric::f32_lt_exec(lhs, rhs)),
            BinaryOp::F32Gt => Ok(numeric::f32_gt_exec(lhs, rhs)),
            BinaryOp::F32Le => Ok(numeric::f32_le_exec(lhs, rhs)),
            BinaryOp::F32Ge => Ok(numeric::f32_ge_exec(lhs, rhs)),
            BinaryOp::F32Add => Ok(float::f32_add_exec(lhs, rhs)),
            BinaryOp::F32Sub => Ok(float::f32_sub_exec(lhs, rhs)),
            BinaryOp::F32Mul => Ok(float::f32_mul_exec(lhs, rhs)),
            BinaryOp::F32Div => Ok(float::f32_div_exec(lhs, rhs)),
            BinaryOp::F32Min => Ok(float::f32_min_exec(lhs, rhs)),
            BinaryOp::F32Max => Ok(float::f32_max_exec(lhs, rhs)),
            BinaryOp::F32Copysign => Ok(numeric::f32_copysign_exec(lhs, rhs)),
            BinaryOp::F64Eq => Ok(numeric::f64_eq_exec(lhs, rhs)),
            BinaryOp::F64Ne => Ok(numeric::f64_ne_exec(lhs, rhs)),
            BinaryOp::F64Lt => Ok(numeric::f64_lt_exec(lhs, rhs)),
            BinaryOp::F64Gt => Ok(numeric::f64_gt_exec(lhs, rhs)),
            BinaryOp::F64Le => Ok(numeric::f64_le_exec(lhs, rhs)),
            BinaryOp::F64Ge => Ok(numeric::f64_ge_exec(lhs, rhs)),
            BinaryOp::F64Add => Ok(float::f64_add_exec(lhs, rhs)),
            BinaryOp::F64Sub => Ok(float::f64_sub_exec(lhs, rhs)),
            BinaryOp::F64Mul => Ok(float::f64_mul_exec(lhs, rhs)),
            BinaryOp::F64Div => Ok(float::f64_div_exec(lhs, rhs)),
            BinaryOp::F64Min => Ok(float::f64_min_exec(lhs, rhs)),
            BinaryOp::F64Max => Ok(float::f64_max_exec(lhs, rhs)),
            BinaryOp::F64Copysign => Ok(numeric::f64_copysign_exec(lhs, rhs)),
        }
    }
}

} // verus!
