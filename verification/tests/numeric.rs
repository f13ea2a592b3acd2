use regmach::error::TrapCode;
use regmach::ops::{BinaryOp, UnaryOp};

fn f32w(value: f32) -> u64 {
    value.to_bits() as u64
}

fn f64w(value: f64) -> u64 {
    value.to_bits()
}

fn i32w(value: i32) -> u64 {
    value as u32 as u64
}

fn i64w(value: i64) -> u64 {
    value as u64
}

#[test]
fn f32_abs_of_a_number() {
    assert_eq!(UnaryOp::F32Abs.eval(f32w(-2.5)), Ok(f32w(2.5)));
}

#[test]
fn f32_ceil_of_a_number() {
    assert_eq!(UnaryOp::F32Ceil.eval(f32w(1.25)), Ok(f32w(2.0)));
}

#[test]
fn f32_floor_of_a_number() {
    assert_eq!(UnaryOp::F32Floor.eval(f32w(1.75)), Ok(f32w(1.0)));
}

#[test]
fn f32_trunc_of_a_number() {
    assert_eq!(UnaryOp::F32Trunc.eval(f32w(-1.75)), Ok(f32w(-1.0)));
}

#[test]
fn f32_nearest_of_a_number() {
    assert_eq!(UnaryOp::F32Nearest.eval(f32w(2.5)), Ok(f32w(2.0)));
    assert_eq!(UnaryOp::F32Nearest.eval(f32w(3.5)), Ok(f32w(4.0)));
}

#[test]
fn f32_sqrt_of_a_number() {
    assert_eq!(UnaryOp::F32Sqrt.eval(f32w(9.0)), Ok(f32w(3.0)));
}

#[test]
fn f32_add_of_two_numbers() {
    assert_eq!(BinaryOp::F32Add.eval(f32w(1.5), f32w(2.25)), Ok(f32w(3.75)));
}

#[test]
fn f32_sub_of_two_numbers() {
    assert_eq!(BinaryOp::F32Sub.eval(f32w(5.0), f32w(1.5)), Ok(f32w(3.5)));
}

#[test]
fn f32_mul_of_two_numbers() {
    assert_eq!(BinaryOp::F32Mul.eval(f32w(3.0), f32w(0.5)), Ok(f32w(1.5)));
}

#[test]
fn f32_div_of_two_numbers() {
    assert_eq!(BinaryOp::F32Div.eval(f32w(7.0), f32w(2.0)), Ok(f32w(3.5)));
}

#[test]
fn f32_min_of_two_numbers() {
    assert_eq!(BinaryOp::F32Min.eval(f32w(3.0), f32w(2.0)), Ok(f32w(2.0)));
    let nan = BinaryOp::F32Min.eval(f32w(f32::NAN), f32w(1.0)).unwrap();
    assert!(f32::from_bits(nan as u32).is_nan());
}

#[test]
fn f32_max_of_two_numbers() {
    assert_eq!(BinaryOp::F32Max.eval(f32w(2.0), f32w(3.0)), Ok(f32w(3.0)));
    let nan = BinaryOp::F32Max.eval(f32w(f32::NAN), f32w(1.0)).unwrap();
    assert!(f32::from_bits(nan as u32).is_nan());
}

#[test]
fn f32_copysign_of_two_numbers() {
    assert_eq!(BinaryOp::F32Copysign.eval(f32w(2.0), f32w(-1.0)), Ok(f32w(-2.0)));
}

#[test]
fn f32_eq_compares() {
    assert_eq!(BinaryOp::F32Eq.eval(f32w(2.0), f32w(2.0)), Ok(1));
    assert_eq!(BinaryOp::F32Eq.eval(f32w(2.0), f32w(3.0)), Ok(0));
    assert_eq!(BinaryOp::F32Eq.eval(f32w(f32::NAN), f32w(1.0)), Ok(0));
}

#[test]
fn f32_ne_compares() {
    assert_eq!(BinaryOp::F32Ne.eval(f32w(2.0), f32w(3.0)), Ok(1));
    assert_eq!(BinaryOp::F32Ne.eval(f32w(2.0), f32w(2.0)), Ok(0));
    assert_eq!(BinaryOp::F32Ne.eval(f32w(f32::NAN), f32w(1.0)), Ok(1));
}

#[test]
fn f32_lt_compares() {
    assert_eq!(BinaryOp::F32Lt.eval(f32w(2.0), f32w(3.0)), Ok(1));
    assert_eq!(BinaryOp::F32Lt.eval(f32w(3.0), f32w(2.0)), Ok(0));
    assert_eq!(BinaryOp::F32Lt.eval(f32w(f32::NAN), f32w(1.0)), Ok(0));
}

#[test]
fn f32_le_compares() {
    assert_eq!(BinaryOp::F32Le.eval(f32w(2.0), f32w(2.0)), Ok(1));
    assert_eq!(BinaryOp::F32Le.eval(f32w(3.0), f32w(2.0)), Ok(0));
    assert_eq!(BinaryOp::F32Le.eval(f32w(f32::NAN), f32w(1.0)), Ok(0));
}

#[test]
fn f32_gt_compares() {
    assert_eq!(BinaryOp::F32Gt.eval(f32w(3.0), f32w(2.0)), Ok(1));
    assert_eq!(BinaryOp::F32Gt.eval(f32w(2.0), f32w(3.0)), Ok(0));
    assert_eq!(BinaryOp::F32Gt.eval(f32w(f32::NAN), f32w(1.0)), Ok(0));
}

#[test]
fn f32_ge_compares() {
    assert_eq!(BinaryOp::F32Ge.eval(f32w(2.0), f32w(2.0)), Ok(1));
    assert_eq!(BinaryOp::F32Ge.eval(f32w(2.0), f32w(3.0)), Ok(0));
    assert_eq!(BinaryOp::F32Ge.eval(f32w(f32::NAN), f32w(1.0)), Ok(0));
}

#[test]
fn f64_abs_of_a_number() {
    assert_eq!(UnaryOp::F64Abs.eval(f64w(-2.5)), Ok(f64w(2.5)));
}

#[test]
fn f64_ceil_of_a_number() {
    assert_eq!(UnaryOp::F64Ceil.eval(f64w(1.25)), Ok(f64w(2.0)));
}

#[test]
fn f64_floor_of_a_number() {
    assert_eq!(UnaryOp::F64Floor.eval(f64w(1.75)), Ok(f64w(1.0)));
}

#[test]
fn f64_trunc_of_a_number() {
    assert_eq!(UnaryOp::F64Trunc.eval(f64w(-1.75)), Ok(f64w(-1.0)));
}

#[test]
fn f64_nearest_of_a_number() {
    assert_eq!(UnaryOp::F64Nearest.eval(f64w(2.5)), Ok(f64w(2.0)));
    assert_eq!(UnaryOp::F64Nearest.eval(f64w(3.5)), Ok(f64w(4.0)));
}

#[test]
fn f64_sqrt_of_a_number() {
    assert_eq!(UnaryOp::F64Sqrt.eval(f64w(9.0)), Ok(f64w(3.0)));
}

#[test]
fn f64_add_of_two_numbers() {
    assert_eq!(BinaryOp::F64Add.eval(f64w(1.5), f64w(2.25)), Ok(f64w(3.75)));
}

#[test]
fn f64_sub_of_two_numbers() {
    assert_eq!(BinaryOp::F64Sub.eval(f64w(5.0), f64w(1.5)), Ok(f64w(3.5)));
}

#[test]
fn f64_mul_of_two_numbers() {
    assert_eq!(BinaryOp::F64Mul.eval(f64w(3.0), f64w(0.5)), Ok(f64w(1.5)));
}

#[test]
fn f64_div_of_two_numbers() {
    assert_eq!(BinaryOp::F64Div.eval(f64w(7.0), f64w(2.0)), Ok(f64w(3.5)));
}

#[test]
fn f64_min_of_two_numbers() {
    assert_eq!(BinaryOp::F64Min.eval(f64w(3.0), f64w(2.0)), Ok(f64w(2.0)));
    let nan = BinaryOp::F64Min.eval(f64w(f64::NAN), f64w(1.0)).unwrap();
    assert!(f64::from_bits(nan as u64).is_nan());
}

#[test]
fn f64_max_of_two_numbers() {
    assert_eq!(BinaryOp::F64Max.eval(f64w(2.0), f64w(3.0)), Ok(f64w(3.0)));
    let nan = BinaryOp::F64Max.eval(f64w(f64::NAN), f64w(1.0)).unwrap();
    assert!(f64::from_bits(nan as u64).is_nan());
}

#[test]
fn f64_copysign_of_two_numbers() {
    assert_eq!(BinaryOp::F64Copysign.eval(f64w(2.0), f64w(-1.0)), Ok(f64w(-2.0)));
}

#[test]
fn f64_eq_compares() {
    assert_eq!(BinaryOp::F64Eq.eval(f64w(2.0), f64w(2.0)), Ok(1));
    assert_eq!(BinaryOp::F64Eq.eval(f64w(2.0), f64w(3.0)), Ok(0));
    assert_eq!(BinaryOp::F64Eq.eval(f64w(f64::NAN), f64w(1.0)), Ok(0));
}

#[test]
fn f64_ne_compares() {
    assert_eq!(BinaryOp::F64Ne.eval(f64w(2.0), f64w(3.0)), Ok(1));
    assert_eq!(BinaryOp::F64Ne.eval(f64w(2.0), f64w(2.0)), Ok(0));
    assert_eq!(BinaryOp::F64Ne.eval(f64w(f64::NAN), f64w(1.0)), Ok(1));
}

#[test]
fn f64_lt_compares() {
    assert_eq!(BinaryOp::F64Lt.eval(f64w(2.0), f64w(3.0)), Ok(1));
    assert_eq!(BinaryOp::F64Lt.eval(f64w(3.0), f64w(2.0)), Ok(0));
    assert_eq!(BinaryOp::F64Lt.eval(f64w(f64::NAN), f64w(1.0)), Ok(0));
}

#[test]
fn f64_le_compares() {
    assert_eq!(BinaryOp::F64Le.eval(f64w(2.0), f64w(2.0)), Ok(1));
    assert_eq!(BinaryOp::F64Le.eval(f64w(3.0), f64w(2.0)), Ok(0));
    assert_eq!(BinaryOp::F64Le.eval(f64w(f64::NAN), f64w(1.0)), Ok(0));
}

#[test]
fn f64_gt_compares() {
    assert_eq!(BinaryOp::F64Gt.eval(f64w(3.0), f64w(2.0)), Ok(1));
    assert_eq!(BinaryOp::F64Gt.eval(f64w(2.0), f64w(3.0)), Ok(0));
    assert_eq!(BinaryOp::F64Gt.eval(f64w(f64::NAN), f64w(1.0)), Ok(0));
}

#[test]
fn f64_ge_compares() {
    assert_eq!(BinaryOp::F64Ge.eval(f64w(2.0), f64w(2.0)), Ok(1));
    assert_eq!(BinaryOp::F64Ge.eval(f64w(2.0), f64w(3.0)), Ok(0));
    assert_eq!(BinaryOp::F64Ge.eval(f64w(f64::NAN), f64w(1.0)), Ok(0));
}

#[test]
fn i32_popcnt_counts_ones() {
    assert_eq!(UnaryOp::I32Popcnt.eval(i32w(0xF0)), Ok(4));
    assert_eq!(UnaryOp::I32Popcnt.eval(i32w(-1)), Ok(32));
}

#[test]
fn i32_rotl_rotates() {
    assert_eq!(BinaryOp::I32Rotl.eval(i32w(1), i32w(4)), Ok(16));
    assert_eq!(BinaryOp::I32Rotl.eval(i32w(i32::MIN), i32w(1)), Ok(1));
    assert_eq!(BinaryOp::I32Rotl.eval(i32w(1), i32w(36)), Ok(16));
}

#[test]
fn i32_rotr_rotates() {
    assert_eq!(BinaryOp::I32Rotr.eval(i32w(16), i32w(4)), Ok(1));
    assert_eq!(BinaryOp::I32Rotr.eval(i32w(1), i32w(1)), Ok(i32w(i32::MIN)));
}

#[test]
fn i64_popcnt_counts_ones() {
    assert_eq!(UnaryOp::I64Popcnt.eval(i64w(0xF0)), Ok(4));
    assert_eq!(UnaryOp::I64Popcnt.eval(i64w(-1)), Ok(64));
}

#[test]
fn i64_rotl_rotates() {
    assert_eq!(BinaryOp::I64Rotl.eval(i64w(1), i64w(4)), Ok(16));
    assert_eq!(BinaryOp::I64Rotl.eval(i64w(i64::MIN), i64w(1)), Ok(1));
    assert_eq!(BinaryOp::I64Rotl.eval(i64w(1), i64w(68)), Ok(16));
}

#[test]
fn i64_rotr_rotates() {
    assert_eq!(BinaryOp::I64Rotr.eval(i64w(16), i64w(4)), Ok(1));
    assert_eq!(BinaryOp::I64Rotr.eval(i64w(1), i64w(1)), Ok(i64w(i64::MIN)));
}

#[test]
fn i32_trunc_f32_s_truncates_or_traps() {
    assert_eq!(UnaryOp::I32TruncF32S.eval(f32w(3.7)), Ok(3));
    assert_eq!(UnaryOp::I32TruncF32S.eval(f32w(-3.7)), Ok(i32w(-3)));
    assert_eq!(UnaryOp::I32TruncF32S.eval(f32w(f32::NAN)), Err(TrapCode::BadConversionToInteger));
    assert_eq!(UnaryOp::I32TruncF32S.eval(f32w(f32::INFINITY)), Err(TrapCode::IntegerOverflow));
    assert_eq!(UnaryOp::I32TruncF32S.eval(f32w(1e30)), Err(TrapCode::IntegerOverflow));
}

#[test]
fn i32_trunc_sat_f32_s_truncates_or_saturates() {
    assert_eq!(UnaryOp::I32TruncSatF32S.eval(f32w(3.7)), Ok(3));
    assert_eq!(UnaryOp::I32TruncSatF32S.eval(f32w(-3.7)), Ok(i32w(-3)));
    assert_eq!(UnaryOp::I32TruncSatF32S.eval(f32w(f32::NAN)), Ok(0));
    assert_eq!(UnaryOp::I32TruncSatF32S.eval(f32w(1e30)), Ok(i32w(i32::MAX)));
}

#[test]
fn i32_trunc_f32_u_truncates_or_traps() {
    assert_eq!(UnaryOp::I32TruncF32U.eval(f32w(3.7)), Ok(3));
    assert_eq!(UnaryOp::I32TruncF32U.eval(f32w(-3.7)), Err(TrapCode::IntegerOverflow));
    assert_eq!(UnaryOp::I32TruncF32U.eval(f32w(f32::NAN)), Err(TrapCode::BadConversionToInteger));
    assert_eq!(UnaryOp::I32TruncF32U.eval(f32w(f32::INFINITY)), Err(TrapCode::IntegerOverflow));
    assert_eq!(UnaryOp::I32TruncF32U.eval(f32w(1e30)), Err(TrapCode::IntegerOverflow));
}

#[test]
fn i32_trunc_sat_f32_u_truncates_or_saturates() {
    assert_eq!(UnaryOp::I32TruncSatF32U.eval(f32w(3.7)), Ok(3));
    assert_eq!(UnaryOp::I32TruncSatF32U.eval(f32w(-3.7)), Ok(0));
    assert_eq!(UnaryOp::I32TruncSatF32U.eval(f32w(f32::NAN)), Ok(0));
    assert_eq!(UnaryOp::I32TruncSatF32U.eval(f32w(1e30)), Ok(0xFFFF_FFFF));
}

#[test]
fn i32_trunc_f64_s_truncates_or_traps() {
    assert_eq!(UnaryOp::I32TruncF64S.eval(f64w(3.7)), Ok(3));
    assert_eq!(UnaryOp::I32TruncF64S.eval(f64w(-3.7)), Ok(i32w(-3)));
    assert_eq!(UnaryOp::I32TruncF64S.eval(f64w(f64::NAN)), Err(TrapCode::BadConversionToInteger));
    assert_eq!(UnaryOp::I32TruncF64S.eval(f64w(f64::INFINITY)), Err(TrapCode::IntegerOverflow));
    assert_eq!(UnaryOp::I32TruncF64S.eval(f64w(1e30)), Err(TrapCode::IntegerOverflow));
}

#[test]
fn i32_trunc_sat_f64_s_truncates_or_saturates() {
    assert_eq!(UnaryOp::I32TruncSatF64S.eval(f64w(3.7)), Ok(3));
    assert_eq!(UnaryOp::I32TruncSatF64S.eval(f64w(-3.7)), Ok(i32w(-3)));
    assert_eq!(UnaryOp::I32TruncSatF64S.eval(f64w(f64::NAN)), Ok(0));
    assert_eq!(UnaryOp::I32TruncSatF64S.eval(f64w(1e30)), Ok(i32w(i32::MAX)));
}

#[test]
fn i32_trunc_f64_u_truncates_or_traps() {
    assert_eq!(UnaryOp::I32TruncF64U.eval(f64w(3.7)), Ok(3));
    assert_eq!(UnaryOp::I32TruncF64U.eval(f64w(-3.7)), Err(TrapCode::IntegerOverflow));
    assert_eq!(UnaryOp::I32TruncF64U.eval(f64w(f64::NAN)), Err(TrapCode::BadConversionToInteger));
    assert_eq!(UnaryOp::I32TruncF64U.eval(f64w(f64::INFINITY)), Err(TrapCode::IntegerOverflow));
    assert_eq!(UnaryOp::I32TruncF64U.eval(f64w(1e30)), Err(TrapCode::IntegerOverflow));
}

#[test]
fn i32_trunc_sat_f64_u_truncates_or_saturates() {
    assert_eq!(UnaryOp::I32TruncSatF64U.eval(f64w(3.7)), Ok(3));
    assert_eq!(UnaryOp::I32TruncSatF64U.eval(f64w(-3.7)), Ok(0));
    assert_eq!(UnaryOp::I32TruncSatF64U.eval(f64w(f64::NAN)), Ok(0));
    assert_eq!(UnaryOp::I32TruncSatF64U.eval(f64w(1e30)), Ok(0xFFFF_FFFF));
}

#[test]
fn i64_trunc_f32_s_truncates_or_traps() {
    assert_eq!(UnaryOp::I64TruncF32S.eval(f32w(3.7)), Ok(3));
    assert_eq!(UnaryOp::I64TruncF32S.eval(f32w(-3.7)), Ok(i64w(-3)));
    assert_eq!(UnaryOp::I64TruncF32S.eval(f32w(f32::NAN)), Err(TrapCode::BadConversionToInteger));
    assert_eq!(UnaryOp::I64TruncF32S.eval(f32w(f32::INFINITY)), Err(TrapCode::IntegerOverflow));
    assert_eq!(UnaryOp::I64TruncF32S.eval(f32w(1e30)), Err(TrapCode::IntegerOverflow));
}

#[test]
fn i64_trunc_sat_f32_s_truncates_or_saturates() {
    assert_eq!(UnaryOp::I64TruncSatF32S.eval(f32w(3.7)), Ok(3));
    assert_eq!(UnaryOp::I64TruncSatF32S.eval(f32w(-3.7)), Ok(i64w(-3)));
    assert_eq!(UnaryOp::I64TruncSatF32S.eval(f32w(f32::NAN)), Ok(0));
    assert_eq!(UnaryOp::I64TruncSatF32S.eval(f32w(1e30)), Ok(i64w(i64::MAX)));
}

#[test]
fn i64_trunc_f32_u_truncates_or_traps() {
    assert_eq!(UnaryOp::I64TruncF32U.eval(f32w(3.7)), Ok(3));
    assert_eq!(UnaryOp::I64TruncF32U.eval(f32w(-3.7)), Err(TrapCode::IntegerOverflow));
    assert_eq!(UnaryOp::I64TruncF32U.eval(f32w(f32::NAN)), Err(TrapCode::BadConversionToInteger));
    assert_eq!(UnaryOp::I64TruncF32U.eval(f32w(f32::INFINITY)), Err(TrapCode::IntegerOverflow));
    assert_eq!(UnaryOp::I64TruncF32U.eval(f32w(1e30)), Err(TrapCode::IntegerOverflow));
}

#[test]
fn i64_trunc_sat_f32_u_truncates_or_saturates() {
    assert_eq!(UnaryOp::I64TruncSatF32U.eval(f32w(3.7)), Ok(3));
    assert_eq!(UnaryOp::I64TruncSatF32U.eval(f32w(-3.7)), Ok(0));
    assert_eq!(UnaryOp::I64TruncSatF32U.eval(f32w(f32::NAN)), Ok(0));
    assert_eq!(UnaryOp::I64TruncSatF32U.eval(f32w(1e30)), Ok(u64::MAX));
}

#[test]
fn i64_trunc_f64_s_truncates_or_traps() {
    assert_eq!(UnaryOp::I64TruncF64S.eval(f64w(3.7)), Ok(3));
    assert_eq!(UnaryOp::I64TruncF64S.eval(f64w(-3.7)), Ok(i64w(-3)));
    assert_eq!(UnaryOp::I64TruncF64S.eval(f64w(f64::NAN)), Err(TrapCode::BadConversionToInteger));
    assert_eq!(UnaryOp::I64TruncF64S.eval(f64w(f64::INFINITY)), Err(TrapCode::IntegerOverflow));
    assert_eq!(UnaryOp::I64TruncF64S.eval(f64w(1e30)), Err(TrapCode::IntegerOverflow));
}

#[test]
fn i64_trunc_sat_f64_s_truncates_or_saturates() {
    assert_eq!(UnaryOp::I64TruncSatF64S.eval(f64w(3.7)), Ok(3));
    assert_eq!(UnaryOp::I64TruncSatF64S.eval(f64w(-3.7)), Ok(i64w(-3)));
    assert_eq!(UnaryOp::I64TruncSatF64S.eval(f64w(f64::NAN)), Ok(0));
    assert_eq!(UnaryOp::I64TruncSatF64S.eval(f64w(1e30)), Ok(i64w(i64::MAX)));
}

#[test]
fn i64_trunc_f64_u_truncates_or_traps() {
    assert_eq!(UnaryOp::I64TruncF64U.eval(f64w(3.7)), Ok(3));
    assert_eq!(UnaryOp::I64TruncF64U.eval(f64w(-3.7)), Err(TrapCode::IntegerOverflow));
    assert_eq!(UnaryOp::I64TruncF64U.eval(f64w(f64::NAN)), Err(TrapCode::BadConversionToInteger));
    assert_eq!(UnaryOp::I64TruncF64U.eval(f64w(f64::INFINITY)), Err(TrapCode::IntegerOverflow));
    assert_eq!(UnaryOp::I64TruncF64U.eval(f64w(1e30)), Err(TrapCode::IntegerOverflow));
}

#[test]
fn i64_trunc_sat_f64_u_truncates_or_saturates() {
    assert_eq!(UnaryOp::I64TruncSatF64U.eval(f64w(3.7)), Ok(3));
    assert_eq!(UnaryOp::I64TruncSatF64U.eval(f64w(-3.7)), Ok(0));
    assert_eq!(UnaryOp::I64TruncSatF64U.eval(f64w(f64::NAN)), Ok(0));
    assert_eq!(UnaryOp::I64TruncSatF64U.eval(f64w(1e30)), Ok(u64::MAX));
}

#[test]
fn f32_convert_i32_s_converts() {
    assert_eq!(UnaryOp::F32ConvertI32S.eval(i32w(-7)), Ok(f32w(-7.0)));
    assert_eq!(UnaryOp::F32ConvertI32S.eval(i32w(12)), Ok(f32w(12.0)));
}

#[test]
fn f32_convert_i32_u_converts() {
    assert_eq!(UnaryOp::F32ConvertI32U.eval(i32w(-7)), Ok(f32w((-7i32 as u32) as f32)));
    assert_eq!(UnaryOp::F32ConvertI32U.eval(i32w(12)), Ok(f32w(12.0)));
}

#[test]
fn f32_convert_i64_s_converts() {
    assert_eq!(UnaryOp::F32ConvertI64S.eval(i64w(-7)), Ok(f32w(-7.0)));
    assert_eq!(UnaryOp::F32ConvertI64S.eval(i64w(12)), Ok(f32w(12.0)));
}

#[test]
fn f32_convert_i64_u_converts() {
    assert_eq!(UnaryOp::F32ConvertI64U.eval(i64w(-7)), Ok(f32w((-7i64 as u64) as f32)));
    assert_eq!(UnaryOp::F32ConvertI64U.eval(i64w(12)), Ok(f32w(12.0)));
}

#[test]
fn f64_convert_i32_s_converts() {
    assert_eq!(UnaryOp::F64ConvertI32S.eval(i32w(-7)), Ok(f64w(-7.0)));
    assert_eq!(UnaryOp::F64ConvertI32S.eval(i32w(12)), Ok(f64w(12.0)));
}

#[test]
fn f64_convert_i32_u_converts() {
    assert_eq!(UnaryOp::F64ConvertI32U.eval(i32w(-7)), Ok(f64w((-7i32 as u32) as f64)));
    assert_eq!(UnaryOp::F64ConvertI32U.eval(i32w(12)), Ok(f64w(12.0)));
}

#[test]
fn f64_convert_i64_s_converts() {
    assert_eq!(UnaryOp::F64ConvertI64S.eval(i64w(-7)), Ok(f64w(-7.0)));
    assert_eq!(UnaryOp::F64ConvertI64S.eval(i64w(12)), Ok(f64w(12.0)));
}

#[test]
fn f64_convert_i64_u_converts() {
    assert_eq!(UnaryOp::F64ConvertI64U.eval(i64w(-7)), Ok(f64w((-7i64 as u64) as f64)));
    assert_eq!(UnaryOp::F64ConvertI64U.eval(i64w(12)), Ok(f64w(12.0)));
}

#[test]
fn f32_demote_f64_converts() {
    assert_eq!(UnaryOp::F32DemoteF64.eval(f64w(1.5)), Ok(f32w(1.5)));
    assert_eq!(UnaryOp::F32DemoteF64.eval(f64w(1e300)), Ok(f32w(f32::INFINITY)));
}

#[test]
fn f64_promote_f32_converts() {
    assert_eq!(UnaryOp::F64PromoteF32.eval(f32w(1.5)), Ok(f64w(1.5)));
    assert_eq!(UnaryOp::F64PromoteF32.eval(f32w(-0.25)), Ok(f64w(-0.25)));
}

#[test]
fn i32_arithmetic_wraps() {
    assert_eq!(BinaryOp::I32Add.eval(i32w(i32::MAX), i32w(1)), Ok(i32w(i32::MIN)));
    assert_eq!(BinaryOp::I32Sub.eval(i32w(0), i32w(1)), Ok(0xFFFF_FFFF));
    assert_eq!(BinaryOp::I32Mul.eval(i32w(0x10000), i32w(0x10000)), Ok(0));
    assert_eq!(BinaryOp::I32Add.eval(0xFFFF_FFFF_0000_0001, 2), Ok(3));
}

#[test]
fn i64_arithmetic_wraps() {
    assert_eq!(BinaryOp::I64Add.eval(i64w(i64::MAX), 1), Ok(i64w(i64::MIN)));
    assert_eq!(BinaryOp::I64Sub.eval(0, 1), Ok(u64::MAX));
    assert_eq!(BinaryOp::I64Mul.eval(1 << 32, 1 << 32), Ok(0));
}

#[test]
fn signed_division_truncates_and_traps() {
    assert_eq!(BinaryOp::I32DivS.eval(i32w(-7), i32w(2)), Ok(i32w(-3)));
    assert_eq!(BinaryOp::I32DivS.eval(i32w(7), i32w(-2)), Ok(i32w(-3)));
    assert_eq!(BinaryOp::I32DivS.eval(i32w(1), i32w(0)), Err(TrapCode::IntegerDivisionByZero));
    assert_eq!(BinaryOp::I32DivS.eval(i32w(i32::MIN), i32w(-1)), Err(TrapCode::IntegerOverflow));
    assert_eq!(BinaryOp::I64DivS.eval(i64w(-7), i64w(2)), Ok(i64w(-3)));
    assert_eq!(BinaryOp::I64DivS.eval(i64w(i64::MIN), i64w(-1)), Err(TrapCode::IntegerOverflow));
    assert_eq!(BinaryOp::I64DivS.eval(5, 0), Err(TrapCode::IntegerDivisionByZero));
}

#[test]
fn signed_remainder_has_the_sign_of_the_dividend() {
    assert_eq!(BinaryOp::I32RemS.eval(i32w(-7), i32w(2)), Ok(i32w(-1)));
    assert_eq!(BinaryOp::I32RemS.eval(i32w(7), i32w(-2)), Ok(1));
    assert_eq!(BinaryOp::I32RemS.eval(i32w(i32::MIN), i32w(-1)), Err(TrapCode::IntegerOverflow));
    assert_eq!(BinaryOp::I32RemS.eval(i32w(5), i32w(-1)), Ok(0));
    assert_eq!(BinaryOp::I32RemS.eval(i32w(1), i32w(0)), Err(TrapCode::IntegerDivisionByZero));
    assert_eq!(BinaryOp::I64RemS.eval(i64w(-7), i64w(2)), Ok(i64w(-1)));
    assert_eq!(BinaryOp::I64RemS.eval(i64w(i64::MIN), i64w(-1)), Err(TrapCode::IntegerOverflow));
    assert_eq!(BinaryOp::I64RemS.eval(i64w(-5), i64w(-1)), Ok(0));
}

#[test]
fn unsigned_division_and_remainder() {
    assert_eq!(BinaryOp::I32DivU.eval(i32w(-1), 2), Ok(0x7FFF_FFFF));
    assert_eq!(BinaryOp::I32RemU.eval(i32w(-1), 10), Ok(5));
    assert_eq!(BinaryOp::I32DivU.eval(1, 0), Err(TrapCode::IntegerDivisionByZero));
    assert_eq!(BinaryOp::I32RemU.eval(1, 0), Err(TrapCode::IntegerDivisionByZero));
    assert_eq!(BinaryOp::I64DivU.eval(u64::MAX, 2), Ok(u64::MAX / 2));
    assert_eq!(BinaryOp::I64RemU.eval(u64::MAX, 10), Ok(5));
    assert_eq!(BinaryOp::I64DivU.eval(1, 0), Err(TrapCode::IntegerDivisionByZero));
    assert_eq!(BinaryOp::I64RemU.eval(1, 0), Err(TrapCode::IntegerDivisionByZero));
}

#[test]
fn shifts_take_the_amount_modulo_the_width() {
    assert_eq!(BinaryOp::I32Shl.eval(1, 33), Ok(2));
    assert_eq!(BinaryOp::I32ShrU.eval(i32w(-1), 31), Ok(1));
    assert_eq!(BinaryOp::I32ShrS.eval(i32w(-8), 1), Ok(i32w(-4)));
    assert_eq!(BinaryOp::I64Shl.eval(1, 65), Ok(2));
    assert_eq!(BinaryOp::I64ShrU.eval(u64::MAX, 63), Ok(1));
    assert_eq!(BinaryOp::I64ShrS.eval(i64w(-8), 1), Ok(i64w(-4)));
}

#[test]
fn bitwise_operations() {
    assert_eq!(BinaryOp::I32And.eval(0b1100, 0b1010), Ok(0b1000));
    assert_eq!(BinaryOp::I32Or.eval(0b1100, 0b1010), Ok(0b1110));
    assert_eq!(BinaryOp::I32Xor.eval(0b1100, 0b1010), Ok(0b0110));
    assert_eq!(BinaryOp::I64And.eval(u64::MAX, 1 << 40), Ok(1 << 40));
    assert_eq!(BinaryOp::I64Or.eval(1 << 40, 1), Ok((1 << 40) | 1));
    assert_eq!(BinaryOp::I64Xor.eval(u64::MAX, 1), Ok(u64::MAX - 1));
}

#[test]
fn integer_comparisons() {
    assert_eq!(BinaryOp::I32LtS.eval(i32w(-1), 0), Ok(1));
    assert_eq!(BinaryOp::I32LtU.eval(i32w(-1), 0), Ok(0));
    assert_eq!(BinaryOp::I32GeS.eval(i32w(-1), 0), Ok(0));
    assert_eq!(BinaryOp::I32GeU.eval(i32w(-1), 0), Ok(1));
    assert_eq!(BinaryOp::I32Eq.eval(0x1_0000_0005, 5), Ok(1));
    assert_eq!(BinaryOp::I32Ne.eval(4, 5), Ok(1));
    assert_eq!(BinaryOp::I32GtS.eval(5, i32w(-5)), Ok(1));
    assert_eq!(BinaryOp::I32GtU.eval(5, i32w(-5)), Ok(0));
    assert_eq!(BinaryOp::I32LeS.eval(5, 5), Ok(1));
    assert_eq!(BinaryOp::I32LeU.eval(6, 5), Ok(0));
    assert_eq!(BinaryOp::I64LtS.eval(i64w(-1), 0), Ok(1));
    assert_eq!(BinaryOp::I64LtU.eval(i64w(-1), 0), Ok(0));
    assert_eq!(BinaryOp::I64Eq.eval(0x1_0000_0005, 5), Ok(0));
    assert_eq!(BinaryOp::I64Ne.eval(0x1_0000_0005, 5), Ok(1));
    assert_eq!(BinaryOp::I64GtS.eval(5, i64w(-5)), Ok(1));
    assert_eq!(BinaryOp::I64GtU.eval(5, i64w(-5)), Ok(0));
    assert_eq!(BinaryOp::I64LeS.eval(5, 5), Ok(1));
    assert_eq!(BinaryOp::I64LeU.eval(6, 5), Ok(0));
    assert_eq!(BinaryOp::I64GeS.eval(i64w(-1), 0), Ok(0));
    assert_eq!(BinaryOp::I64GeU.eval(i64w(-1), 0), Ok(1));
}

#[test]
fn counting_zeros_and_extensions() {
    assert_eq!(UnaryOp::I32Clz.eval(1), Ok(31));
    assert_eq!(UnaryOp::I32Clz.eval(0), Ok(32));
    assert_eq!(UnaryOp::I32Ctz.eval(8), Ok(3));
    assert_eq!(UnaryOp::I64Clz.eval(1), Ok(63));
    assert_eq!(UnaryOp::I64Ctz.eval(1 << 40), Ok(40));
    assert_eq!(UnaryOp::I32WrapI64.eval(0x1_2345_6789), Ok(0x2345_6789));
    assert_eq!(UnaryOp::I64ExtendI32S.eval(i32w(-2)), Ok(i64w(-2)));
    assert_eq!(UnaryOp::I64ExtendI32U.eval(i32w(-2)), Ok(0xFFFF_FFFE));
    assert_eq!(UnaryOp::I32Extend8S.eval(0x80), Ok(i32w(-128)));
    assert_eq!(UnaryOp::I32Extend16S.eval(0x8000), Ok(i32w(-32768)));
    assert_eq!(UnaryOp::I64Extend8S.eval(0xFF), Ok(i64w(-1)));
    assert_eq!(UnaryOp::I64Extend16S.eval(0x7FFF), Ok(0x7FFF));
    assert_eq!(UnaryOp::I64Extend32S.eval(0x8000_0000), Ok(i64w(i32::MIN as i64)));
    assert_eq!(UnaryOp::F32Neg.eval(f32w(1.5)), Ok(f32w(-1.5)));
    assert_eq!(UnaryOp::F64Neg.eval(f64w(-1.5)), Ok(f64w(1.5)));
}
