use regmach::code_map::CompiledFunc;
use regmach::const_pool::{ConstPool, ConstRef};
use regmach::control::BlockType;
use regmach::encoder::InstrEncoder;
use regmach::engine::{EngineInner, Outcome};
use regmach::error::{TranslationError, TrapCode};
use regmach::executor::ExecError;
use regmach::instr::{Instr, Instruction};
use regmach::module::{FuncType, ModuleResources};
use regmach::ops::BinaryOp;
use regmach::register::{Const16, RegSpan, Register};
use regmach::stack::ValueStack;
use regmach::translator::{FuelCosts, FuncTranslator};
use regmach::value::{TypedProvider, TypedValue, ValueType};

const REGISTERS: usize = 16;

/// Encodes the copies of `values` to the registers from `dst` on, runs them on registers that
/// hold 100, 101, ... and returns the instructions and the registers afterwards.
fn copy(dst: i16, values: &[TypedProvider]) -> (Vec<Instruction>, Vec<u64>) {
    let mut encoder = InstrEncoder::new();
    let mut stack = ValueStack::new(REGISTERS).unwrap();
    let results = RegSpan::new(Register(dst)).iter(values.len());
    encoder.encode_copies(&mut stack, results, &values.to_vec()).unwrap();
    let mut instrs: Vec<Instruction> = (0..encoder.len()).map(|i| encoder.get(Instr(i as u32))).collect();
    let emitted = instrs.clone();
    instrs.push(Instruction::ReturnSpan { values: RegSpan::new(Register(0)), len: REGISTERS as u16 });
    let func = CompiledFunc {
        len_params: REGISTERS,
        len_registers: REGISTERS,
        instrs,
        consts: stack.consts().values().clone(),
    };
    let mut engine = EngineInner::new(1024);
    engine.alloc_func(func);
    let params: Vec<u64> = (0..REGISTERS as u64).map(|i| 100 + i).collect();
    match engine.execute_func(0, &params, None, 1000) {
        Ok(Outcome::Returned(values)) => (emitted, values),
        other => panic!("unexpected outcome: {:?}", other),
    }
}

fn registers(src: i16, len: usize) -> Vec<TypedProvider> {
    (0..len).map(|i| TypedProvider::Register(Register(src + i as i16))).collect()
}

fn check_span_copy(dst: i16, src: i16, len: usize, overlaps: bool) {
    let (emitted, after) = copy(dst, &registers(src, len));
    for r in 0..REGISTERS {
        let expected = if (dst as usize..dst as usize + len).contains(&r) {
            100 + (src as u64) + (r as u64 - dst as u64)
        } else {
            100 + r as u64
        };
        assert_eq!(after[r], expected, "register {} after copying {} from {} to {}", r, len, src, dst);
    }
    if dst == src || len == 0 {
        assert!(emitted.is_empty());
    } else if len >= 3 {
        let span = RegSpan::new(Register(dst));
        let values = RegSpan::new(Register(src));
        let expected = if overlaps {
            Instruction::CopySpanRev { results: span, values, len: len as u16 }
        } else {
            Instruction::CopySpan { results: span, values, len: len as u16 }
        };
        assert_eq!(emitted, vec![expected]);
    } else {
        assert_eq!(emitted.len(), 1);
    }
}

#[test]
fn overlap_table() {
    check_span_copy(0, 0, 0, false);
    check_span_copy(0, 0, 5, false);
    check_span_copy(0, 1, 1, false);
    check_span_copy(0, 1, 3, false);
    check_span_copy(0, 1, 5, false);
    check_span_copy(1, 0, 1, false);
    check_span_copy(1, 0, 2, true);
    check_span_copy(1, 0, 3, true);
    check_span_copy(2, 0, 3, true);
    check_span_copy(3, 0, 3, false);
    check_span_copy(4, 0, 4, false);
    check_span_copy(4, 1, 4, true);
    check_span_copy(4, 0, 5, true);
}

#[test]
fn copies_of_all_small_spans_are_safe() {
    for dst in 0..7i16 {
        for src in 0..7i16 {
            for len in 0..7usize {
                let overlaps = src < dst && (dst as usize) < src as usize + len;
                check_span_copy(dst, src, len, overlaps);
            }
        }
    }
}

#[test]
fn copies_of_mixed_providers_happen_at_once() {
    let constant = |bits: u64| TypedProvider::Const(TypedValue::new(ValueType::I64, bits));
    let reg = |r: i16| TypedProvider::Register(Register(r));
    // a swap
    let (emitted, after) = copy(3, &[reg(4), reg(3)]);
    assert_eq!(emitted, vec![Instruction::Copy2 { results: RegSpan::new(Register(3)), v0: Register(4), v1: Register(3) }]);
    assert_eq!(&after[3..5], &[104, 103]);
    // a rotation with a constant that needs the pool and one that does not
    let big = 0x1234_5678_9ABC_DEF0;
    let (emitted, after) = copy(2, &[reg(3), reg(4), constant(big), reg(2), constant(7), reg(9), reg(9)]);
    assert!(matches!(emitted[0], Instruction::CopyMany { .. }));
    assert_eq!(emitted.len(), 3);
    assert_eq!(&after[2..9], &[103, 104, big, 102, 7, 109, 109]);
    assert_eq!(after[9], 109);
    // values that are in place already are not copied
    let (emitted, after) = copy(1, &[reg(1), reg(2), reg(5)]);
    assert_eq!(emitted, vec![Instruction::Copy { result: Register(3), value: Register(5) }]);
    assert_eq!(&after[1..4], &[101, 102, 105]);
    let (emitted, _) = copy(1, &[reg(1), reg(5), reg(3)]);
    assert_eq!(emitted, vec![Instruction::Copy { result: Register(2), value: Register(5) }]);
}

#[test]
fn copies_of_constants_use_immediates_where_they_fit() {
    let constant = |ty: ValueType, bits: u64| TypedProvider::Const(TypedValue::new(ty, bits));
    let (emitted, after) = copy(0, &[constant(ValueType::I32, 0xFFFF_FFFF)]);
    assert_eq!(emitted, vec![Instruction::CopyImm32 { result: Register(0), value: 0xFFFF_FFFF }]);
    assert_eq!(after[0], 0xFFFF_FFFF);
    let (emitted, after) = copy(0, &[constant(ValueType::I64, (-5i64) as u64)]);
    assert_eq!(emitted, vec![Instruction::CopyI64Imm32 { result: Register(0), value: -5 }]);
    assert_eq!(after[0], (-5i64) as u64);
    let (emitted, after) = copy(0, &[constant(ValueType::F64, 1.5f64.to_bits())]);
    assert_eq!(emitted, vec![Instruction::Copy { result: Register(0), value: Register(-1) }]);
    assert_eq!(after[0], 1.5f64.to_bits());
}

#[test]
fn interning_is_idempotent() {
    let mut pool = ConstPool::new();
    let a = pool.intern(42).unwrap();
    let b = pool.intern(7).unwrap();
    assert_eq!(pool.intern(42), Ok(a));
    assert_eq!(pool.intern(7), Ok(b));
    assert_ne!(a, b);
    assert_eq!(pool.len(), 2);
    assert_eq!(pool.resolve(a), Some(42));
    assert_eq!(pool.resolve(b), Some(7));
    assert_eq!(pool.resolve(ConstRef(2)), None);
    assert_eq!(a.to_register(), Register(-1));
    assert_eq!(ConstRef::from_register(Register(-2)), b);
    let mut again = ConstPool::new();
    assert_eq!(again.intern(42), Ok(a));
    assert_eq!(again.intern(7), Ok(b));
}

#[test]
fn constant_pool_has_a_limit() {
    let mut pool = ConstPool::new();
    for value in 0..32768u64 {
        assert_eq!(pool.intern(value), Ok(ConstRef(value as u16)));
    }
    assert_eq!(pool.intern(32768), Err(TranslationError::TooManyFuncLocalConstValues));
    assert_eq!(pool.intern(5), Ok(ConstRef(5)));
}

#[test]
fn registers_have_a_limit() {
    let res = ModuleResources::new();
    assert!(matches!(FuncTranslator::new(&res, 32767, 0, None), Err(TranslationError::AllocatedTooManyRegisters)));
    assert!(matches!(FuncTranslator::new(&res, 32000, 767, None), Ok(_)));
    assert!(matches!(FuncTranslator::new(&res, 32000, 768, None), Err(TranslationError::AllocatedTooManyRegisters)));
    let mut t = FuncTranslator::new(&res, 32765, 0, None).unwrap();
    t.visit_local_get(0).unwrap();
    t.visit_i32_clz().unwrap();
    t.visit_local_get(0).unwrap();
    t.visit_i32_clz().unwrap();
    t.visit_local_get(0).unwrap();
    assert_eq!(t.visit_i32_clz(), Err(TranslationError::AllocatedTooManyRegisters));
    assert!(matches!(ValueStack::new(32768), Err(TranslationError::AllocatedTooManyRegisters)));
}

#[test]
fn block_height_has_a_limit() {
    let res = ModuleResources::new();
    let mut t = FuncTranslator::new(&res, 0, 0, None).unwrap();
    for _ in 0..32766 {
        t.visit_i32_const(1).unwrap();
    }
    t.visit_block(BlockType::new(0, 0)).unwrap();
    t.visit_i32_const(1).unwrap();
    assert_eq!(t.visit_block(BlockType::new(0, 0)), Err(TranslationError::AllocatedTooManyRegisters));
    t.visit_block(BlockType::new(1, 0)).unwrap();
    for _ in 0..32768 {
        t.visit_i32_const(1).unwrap();
    }
    assert_eq!(t.visit_block(BlockType::new(1, 0)), Err(TranslationError::AllocatedTooManyRegisters));
    t.visit_i32_const(1).unwrap();
    t.visit_i32_const(1).unwrap();
    assert_eq!(t.visit_block(BlockType::new(1, 0)), Err(TranslationError::EmulatedValueStackOverflow));
}

#[test]
fn fused_branch_has_a_limit() {
    let mut encoder = InstrEncoder::new();
    let stack = ValueStack::new(4).unwrap();
    let condition = Register(4);
    encoder
        .push_instr(Instruction::Binary { op: BinaryOp::I32LtS, result: condition, lhs: Register(0), rhs: Register(1) })
        .unwrap();
    let label = encoder.new_label();
    encoder.encode_branch_eqz(&stack, TypedProvider::Register(condition), label).unwrap();
    assert_eq!(encoder.len(), 1);
    assert!(matches!(encoder.get(Instr(0)), Instruction::BranchBinary { op: BinaryOp::I32GeS, .. }));
    for _ in 0..32767 {
        encoder.push_instr(Instruction::Return).unwrap();
    }
    let mut far = InstrEncoder::new();
    far.push_instr(Instruction::Binary { op: BinaryOp::I32LtS, result: condition, lhs: Register(0), rhs: Register(1) })
        .unwrap();
    let far_label = far.new_label();
    far.encode_branch_nez(&stack, TypedProvider::Register(condition), far_label).unwrap();
    for _ in 0..32766 {
        far.push_instr(Instruction::Return).unwrap();
    }
    far.pin_label(far_label).unwrap();
    assert!(matches!(far.get(Instr(0)), Instruction::BranchBinary { op: BinaryOp::I32LtS, .. }));
    encoder.push_instr(Instruction::Return).unwrap();
    assert_eq!(encoder.pin_label(label), Err(TranslationError::BranchOffsetOutOfBounds));
}

#[test]
fn branch_on_local_or_float_order_is_not_fused_away() {
    let mut encoder = InstrEncoder::new();
    let stack = ValueStack::new(4).unwrap();
    encoder
        .push_instr(Instruction::Binary { op: BinaryOp::I32LtS, result: Register(2), lhs: Register(0), rhs: Register(1) })
        .unwrap();
    let label = encoder.new_label();
    encoder.encode_branch_eqz(&stack, TypedProvider::Register(Register(2)), label).unwrap();
    assert_eq!(encoder.len(), 2);
    let mut floats = InstrEncoder::new();
    floats
        .push_instr(Instruction::Binary { op: BinaryOp::F32Lt, result: Register(4), lhs: Register(0), rhs: Register(1) })
        .unwrap();
    let label = floats.new_label();
    floats.encode_branch_eqz(&stack, TypedProvider::Register(Register(4)), label).unwrap();
    assert_eq!(floats.len(), 2);
    let label = floats.new_label();
    floats
        .push_instr(Instruction::Binary { op: BinaryOp::F32Lt, result: Register(4), lhs: Register(0), rhs: Register(1) })
        .unwrap();
    floats.encode_branch_nez(&stack, TypedProvider::Register(Register(4)), label).unwrap();
    assert_eq!(floats.len(), 3);
    assert!(matches!(floats.get(Instr(2)), Instruction::BranchBinary { op: BinaryOp::F32Lt, .. }));
}

#[test]
fn block_fuel_has_a_limit() {
    let mut res = ModuleResources::new();
    let ty = res.push_func_type(FuncType { len_params: 0, len_results: 0 }) as u32;
    res.push_func(ty, None);
    let mut t = FuncTranslator::new(&res, 0, 0, Some(FuelCosts { base: 1, call: 0xFFFF_FFFE })).unwrap();
    t.visit_call(0).unwrap();
    assert_eq!(t.instrs()[0], Instruction::ConsumeFuel { amount: 0xFFFF_FFFF });
    assert_eq!(t.visit_call(0), Err(TranslationError::BlockFuelOutOfBounds));
}

#[test]
fn code_with_registers_out_of_the_frame_is_invalid() {
    let run = |instrs: Vec<Instruction>| {
        let mut engine = EngineInner::new(64);
        engine.alloc_func(CompiledFunc { len_params: 0, len_registers: 2, instrs, consts: vec![9] });
        engine.execute_func(0, &vec![], None, 100)
    };
    assert!(matches!(run(vec![Instruction::ReturnReg { value: Register(-1) }]), Ok(Outcome::Returned(v)) if v == vec![9]));
    assert!(matches!(run(vec![Instruction::ReturnReg { value: Register(2) }]), Err(ExecError::InvalidCode)));
    assert!(matches!(run(vec![Instruction::ReturnReg { value: Register(-2) }]), Err(ExecError::InvalidCode)));
    assert!(matches!(
        run(vec![Instruction::CopyImm32 { result: Register(-1), value: 1 }]),
        Err(ExecError::InvalidCode)
    ));
    assert!(matches!(run(vec![Instruction::Register1 { r0: Register(0) }]), Err(ExecError::InvalidCode)));
    assert!(matches!(run(vec![]), Err(ExecError::InvalidCode)));
    assert!(matches!(
        run(vec![Instruction::CopyImm32 { result: Register(0), value: 1 }]),
        Err(ExecError::InvalidCode)
    ));
    let mut engine = EngineInner::new(64);
    assert!(matches!(engine.execute_func(3, &vec![], None, 100), Err(ExecError::InvalidCode)));
    assert!(matches!(
        run(vec![Instruction::Trap { code: TrapCode::TableOutOfBounds }]),
        Err(ExecError::Trap(TrapCode::TableOutOfBounds))
    ));
}

#[test]
fn results_go_to_the_buffer() {
    let mut buffer = vec![0, 0];
    EngineInner::return_result(&vec![4, 5], &mut buffer);
    assert_eq!(buffer, vec![4, 5]);
    let mut none: Vec<u64> = vec![];
    EngineInner::return_result(&vec![], &mut none);
    assert_eq!(none, Vec::<u64>::new());
}

#[test]
fn immediates_fit_or_do_not() {
    assert_eq!(Const16::from_i32(-32768), Some(Const16(-32768)));
    assert_eq!(Const16::from_i32(32768), None);
    assert_eq!(Const16::from_u32(65535), Some(Const16(-1)));
    assert_eq!(Const16::from_u32(65536), None);
    assert_eq!(Const16::from_i64(-32769), None);
    assert_eq!(Const16::from_u64(40000), Some(Const16(40000u16 as i16)));
    assert_eq!(Const16(-1).to_i32_word(), 0xFFFF_FFFF);
    assert_eq!(Const16(-1).to_unsigned_word(), 0xFFFF);
    assert_eq!(Const16(-1).to_i64_word(), u64::MAX);
    assert_eq!(BinaryOp::I32LtU.imm16_exec(0xFFFF), Some(Const16(-1)));
    assert_eq!(BinaryOp::I32LtS.imm16_exec(0xFFFF), None);
    assert_eq!(BinaryOp::I32Shl.imm16_exec(33), Some(Const16(1)));
    assert_eq!(BinaryOp::I64Add.imm32_exec(u64::MAX), Some(0xFFFF_FFFF));
    assert_eq!(BinaryOp::I64Add.imm32_exec(0xFFFF_FFFF), None);
    assert_eq!(BinaryOp::I64Add.imm32_word_exec(0xFFFF_FFFF), u64::MAX);
    assert_eq!(BinaryOp::I32Add.imm32_word_exec(0xFFFF_FFFF), 0xFFFF_FFFF);
}
