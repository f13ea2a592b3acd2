use regmach::code_map::CompiledFunc;
use regmach::engine::{EngineInner, Outcome};
use regmach::error::TrapCode;
use regmach::executor::ExecError;
use regmach::module::ModuleResources;
use regmach::ops::{BinaryOp, UnaryOp};
use regmach::translator::FuncTranslator;
use regmach::value::ValueType;

const BINARY: &[BinaryOp] = &[
    BinaryOp::I32Eq,
    BinaryOp::I32Ne,
    BinaryOp::I32LtS,
    BinaryOp::I32LtU,
    BinaryOp::I32GtS,
    BinaryOp::I32GtU,
    BinaryOp::I32LeS,
    BinaryOp::I32LeU,
    BinaryOp::I32GeS,
    BinaryOp::I32GeU,
    BinaryOp::I32Add,
    BinaryOp::I32Sub,
    BinaryOp::I32Mul,
    BinaryOp::I32DivS,
    BinaryOp::I32DivU,
    BinaryOp::I32RemS,
    BinaryOp::I32RemU,
    BinaryOp::I32And,
    BinaryOp::I32Or,
    BinaryOp::I32Xor,
    BinaryOp::I32Shl,
    BinaryOp::I32ShrS,
    BinaryOp::I32ShrU,
    BinaryOp::I32Rotl,
    BinaryOp::I32Rotr,
    BinaryOp::I64Eq,
    BinaryOp::I64Ne,
    BinaryOp::I64LtS,
    BinaryOp::I64LtU,
    BinaryOp::I64GtS,
    BinaryOp::I64GtU,
    BinaryOp::I64LeS,
    BinaryOp::I64LeU,
    BinaryOp::I64GeS,
    BinaryOp::I64GeU,
    BinaryOp::I64Add,
    BinaryOp::I64Sub,
    BinaryOp::I64Mul,
    BinaryOp::I64DivS,
    BinaryOp::I64DivU,
    BinaryOp::I64RemS,
    BinaryOp::I64RemU,
    BinaryOp::I64And,
    BinaryOp::I64Or,
    BinaryOp::I64Xor,
    BinaryOp::I64Shl,
    BinaryOp::I64ShrS,
    BinaryOp::I64ShrU,
    BinaryOp::I64Rotl,
    BinaryOp::I64Rotr,
    BinaryOp::F32Eq,
    BinaryOp::F32Ne,
    BinaryOp::F32Lt,
    BinaryOp::F32Gt,
    BinaryOp::F32Le,
    BinaryOp::F32Ge,
    BinaryOp::F32Add,
    BinaryOp::F32Sub,
    BinaryOp::F32Mul,
    BinaryOp::F32Div,
    BinaryOp::F32Min,
    BinaryOp::F32Max,
    BinaryOp::F32Copysign,
    BinaryOp::F64Eq,
    BinaryOp::F64Ne,
    BinaryOp::F64Lt,
    BinaryOp::F64Gt,
    BinaryOp::F64Le,
    BinaryOp::F64Ge,
    BinaryOp::F64Add,
    BinaryOp::F64Sub,
    BinaryOp::F64Mul,
    BinaryOp::F64Div,
    BinaryOp::F64Min,
    BinaryOp::F64Max,
    BinaryOp::F64Copysign,
];

const UNARY: &[UnaryOp] = &[
    UnaryOp::I32Clz,
    UnaryOp::I32Ctz,
    UnaryOp::I32Popcnt,
    UnaryOp::I64Clz,
    UnaryOp::I64Ctz,
    UnaryOp::I64Popcnt,
    UnaryOp::F32Abs,
    UnaryOp::F32Neg,
    UnaryOp::F32Ceil,
    UnaryOp::F32Floor,
    UnaryOp::F32Trunc,
    UnaryOp::F32Nearest,
    UnaryOp::F32Sqrt,
    UnaryOp::F64Abs,
    UnaryOp::F64Neg,
    UnaryOp::F64Ceil,
    UnaryOp::F64Floor,
    UnaryOp::F64Trunc,
    UnaryOp::F64Nearest,
    UnaryOp::F64Sqrt,
    UnaryOp::I32WrapI64,
    UnaryOp::I32TruncF32S,
    UnaryOp::I32TruncF32U,
    UnaryOp::I32TruncF64S,
    UnaryOp::I32TruncF64U,
    UnaryOp::I64ExtendI32S,
    UnaryOp::I64ExtendI32U,
    UnaryOp::I64TruncF32S,
    UnaryOp::I64TruncF32U,
    UnaryOp::I64TruncF64S,
    UnaryOp::I64TruncF64U,
    UnaryOp::F32ConvertI32S,
    UnaryOp::F32ConvertI32U,
    UnaryOp::F32ConvertI64S,
    UnaryOp::F32ConvertI64U,
    UnaryOp::F32DemoteF64,
    UnaryOp::F64ConvertI32S,
    UnaryOp::F64ConvertI32U,
    UnaryOp::F64ConvertI64S,
    UnaryOp::F64ConvertI64U,
    UnaryOp::F64PromoteF32,
    UnaryOp::I32Extend8S,
    UnaryOp::I32Extend16S,
    UnaryOp::I64Extend8S,
    UnaryOp::I64Extend16S,
    UnaryOp::I64Extend32S,
    UnaryOp::I32TruncSatF32S,
    UnaryOp::I32TruncSatF32U,
    UnaryOp::I32TruncSatF64S,
    UnaryOp::I32TruncSatF64U,
    UnaryOp::I64TruncSatF32S,
    UnaryOp::I64TruncSatF32U,
    UnaryOp::I64TruncSatF64S,
    UnaryOp::I64TruncSatF64U,
];

/// Words of the type `ty` at which operators behave in a special way, and some others.
fn samples(ty: ValueType) -> Vec<u64> {
    match ty {
        ValueType::I32 => [0, 1, -1, 2, -2, i32::MIN, i32::MAX, 31, 32, 33, 64, 0x7FFF, 0x8000, -0x8000, -0x8001, 0xFFFF, 0x10000, 123456789]
            .iter()
            .map(|v: &i32| *v as u32 as u64)
            .collect(),
        ValueType::I64 => [
            0,
            1,
            -1,
            2,
            -2,
            i64::MIN,
            i64::MAX,
            63,
            64,
            65,
            0x7FFF,
            0x8000,
            -0x8000,
            -0x8001,
            0xFFFF,
            0x10000,
            i32::MAX as i64,
            i32::MIN as i64,
            i32::MAX as i64 + 1,
            i32::MIN as i64 - 1,
            0xFFFF_FFFF,
            0x1_0000_0000,
            1234567890123456789,
        ]
        .iter()
        .map(|v: &i64| *v as u64)
        .collect(),
        ValueType::F32 => [0.0, -0.0, 1.0, -1.0, 1.5, -2.5, f32::INFINITY, f32::NEG_INFINITY, f32::NAN, f32::MAX, f32::MIN_POSITIVE, 1e10]
            .iter()
            .map(|v: &f32| v.to_bits() as u64)
            .collect(),
        _ => [0.0, -0.0, 1.0, -1.0, 1.5, -2.5, f64::INFINITY, f64::NEG_INFINITY, f64::NAN, f64::MAX, f64::MIN_POSITIVE, 1e300]
            .iter()
            .map(|v: &f64| v.to_bits())
            .collect(),
    }
}

fn is_nan(ty: ValueType, word: u64) -> bool {
    match ty {
        ValueType::F32 => f32::from_bits(word as u32).is_nan(),
        ValueType::F64 => f64::from_bits(word).is_nan(),
        _ => false,
    }
}

fn constant(t: &mut FuncTranslator, ty: ValueType, word: u64) {
    match ty {
        ValueType::I32 => t.visit_i32_const(word as u32 as i32),
        ValueType::I64 => t.visit_i64_const(word as i64),
        ValueType::F32 => t.visit_f32_const(word as u32),
        _ => t.visit_f64_const(word),
    }
    .unwrap()
}

fn run(func: CompiledFunc, params: &[u64]) -> Result<u64, TrapCode> {
    let mut engine = EngineInner::new(1024);
    engine.alloc_func(func);
    match engine.execute_func(0, &params.to_vec(), None, 1000) {
        Ok(Outcome::Returned(values)) => Ok(values[0]),
        Err(ExecError::Trap(code)) => Err(code),
        other => panic!("unexpected outcome: {:?}", other),
    }
}

fn same(ty: ValueType, actual: Result<u64, TrapCode>, expected: Result<u64, TrapCode>) -> bool {
    match (actual, expected) {
        (Ok(a), Ok(e)) => a == e || (is_nan(ty, a) && is_nan(ty, e)),
        (a, e) => a == e,
    }
}

/// Translates `op` on the operands `lhs` and `rhs`, each a constant or, if `None`, the
/// parameter of the function, and executes the code with the parameter `x`.
fn translated(op: BinaryOp, lhs: Option<u64>, rhs: Option<u64>, x: u64) -> Result<u64, TrapCode> {
    let res = ModuleResources::new();
    let ty = op.operand_type_exec();
    let mut t = FuncTranslator::new(&res, 1, 1, None).unwrap();
    for operand in [lhs, rhs] {
        match operand {
            Some(word) => constant(&mut t, ty, word),
            None => t.visit_local_get(0).unwrap(),
        }
    }
    t.translate_binary(op).unwrap();
    t.visit_end().unwrap();
    run(t.finish(1), &[x])
}

#[test]
fn binary_operators_with_a_constant_on_the_right() {
    for &op in BINARY {
        let ty = op.operand_type_exec();
        for &c in &samples(ty) {
            for &x in &samples(ty) {
                let actual = translated(op, None, Some(c), x);
                assert!(same(op.result_type_exec(), actual, op.eval(x, c)), "{:?} of {:#x} and the constant {:#x}: {:?}", op, x, c, actual);
            }
        }
    }
}

#[test]
fn binary_operators_with_a_constant_on_the_left() {
    for &op in BINARY {
        let ty = op.operand_type_exec();
        for &c in &samples(ty) {
            for &x in &samples(ty) {
                let actual = translated(op, Some(c), None, x);
                assert!(same(op.result_type_exec(), actual, op.eval(c, x)), "{:?} of the constant {:#x} and {:#x}: {:?}", op, c, x, actual);
            }
        }
    }
}

#[test]
fn binary_operators_on_one_register_twice() {
    for &op in BINARY {
        let ty = op.operand_type_exec();
        for &x in &samples(ty) {
            let actual = translated(op, None, None, x);
            assert!(same(op.result_type_exec(), actual, op.eval(x, x)), "{:?} of {:#x} and itself: {:?}", op, x, actual);
        }
    }
}

#[test]
fn binary_operators_on_two_constants() {
    for &op in BINARY {
        let ty = op.operand_type_exec();
        for &a in &samples(ty) {
            for &b in &samples(ty) {
                let actual = translated(op, Some(a), Some(b), 0);
                assert!(same(op.result_type_exec(), actual, op.eval(a, b)), "{:?} of the constants {:#x} and {:#x}: {:?}", op, a, b, actual);
            }
        }
    }
}

#[test]
fn binary_operators_on_two_registers() {
    let res = ModuleResources::new();
    for &op in BINARY {
        let ty = op.operand_type_exec();
        let mut t = FuncTranslator::new(&res, 2, 1, None).unwrap();
        t.visit_local_get(0).unwrap();
        t.visit_local_get(1).unwrap();
        t.translate_binary(op).unwrap();
        t.visit_end().unwrap();
        let func = t.finish(2);
        for &a in &samples(ty) {
            for &b in &samples(ty) {
                let code = CompiledFunc {
                    len_params: 2,
                    len_registers: func.len_registers,
                    instrs: func.instrs.clone(),
                    consts: func.consts.clone(),
                };
                let actual = run(code, &[a, b]);
                assert!(same(op.result_type_exec(), actual, op.eval(a, b)), "{:?} of {:#x} and {:#x}: {:?}", op, a, b, actual);
            }
        }
    }
}

fn input_type(op: UnaryOp) -> ValueType {
    let name = format!("{:?}", op);
    let tail = &name[3..];
    if tail.ends_with("I64") || tail.contains("I64S") || tail.contains("I64U") {
        ValueType::I64
    } else if tail.contains("F32") {
        ValueType::F32
    } else if tail.contains("F64") {
        ValueType::F64
    } else if tail.contains("I32") {
        ValueType::I32
    } else {
        match &name[..3] {
            "I32" => ValueType::I32,
            "I64" => ValueType::I64,
            "F32" => ValueType::F32,
            _ => ValueType::F64,
        }
    }
}

#[test]
fn unary_operators_on_constants_and_registers() {
    let res = ModuleResources::new();
    for &op in UNARY {
        let ty = input_type(op);
        for &x in &samples(ty) {
            let mut folded = FuncTranslator::new(&res, 1, 1, None).unwrap();
            constant(&mut folded, ty, x);
            folded.translate_unary(op).unwrap();
            folded.visit_end().unwrap();
            assert_eq!(folded.instrs().len(), 1);
            let mut emitted = FuncTranslator::new(&res, 1, 1, None).unwrap();
            emitted.visit_local_get(0).unwrap();
            emitted.translate_unary(op).unwrap();
            emitted.visit_end().unwrap();
            let expected = op.eval(x);
            let result = op.result_type_exec();
            assert!(same(result, run(folded.finish(1), &[x]), expected), "{:?} of the constant {:#x}", op, x);
            assert!(same(result, run(emitted.finish(1), &[x]), expected), "{:?} of {:#x}", op, x);
        }
    }
}
