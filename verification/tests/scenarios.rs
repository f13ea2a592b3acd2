use regmach::code_map::CompiledFunc;
use regmach::control::BlockType;
use regmach::engine::{EngineInner, Outcome};
use regmach::error::TrapCode;
use regmach::executor::ExecError;
use regmach::instr::{BranchOffset, BranchOffset16, BulkOp, Instruction};
use regmach::module::{FuncType, GlobalDecl, GlobalInit, ModuleResources};
use regmach::ops::{BinaryOp, UnaryOp};
use regmach::register::{Const16, RegSpan, Register};
use regmach::translator::{FuelCosts, FuncTranslator};
use regmach::value::{TypedProvider, TypedValue, ValueType};

fn run(func: CompiledFunc, params: &[u64]) -> Result<Vec<u64>, ExecError> {
    let mut engine = EngineInner::new(1 << 16);
    let handle = engine.alloc_func(func) as u32;
    match engine.execute_func(handle, &params.to_vec(), None, 1_000_000)? {
        Outcome::Returned(values) => Ok(values),
        other => panic!("the function did not return: {:?}", other),
    }
}

fn f32_word(value: f32) -> u64 {
    value.to_bits() as u64
}

#[test]
fn adds_two_constants() {
    let res = ModuleResources::new();
    let mut t = FuncTranslator::new(&res, 0, 1, None).unwrap();
    t.visit_i32_const(41).unwrap();
    t.visit_i32_const(1).unwrap();
    t.visit_i32_add().unwrap();
    assert!(t.instrs().is_empty());
    t.visit_end().unwrap();
    assert_eq!(t.instrs().as_slice(), &[Instruction::ReturnImm32 { value: 42 }]);
    assert_eq!(run(t.finish(0), &[]), Ok(vec![42]));
}

#[test]
fn multiplies_local_by_zero() {
    let res = ModuleResources::new();
    let mut t = FuncTranslator::new(&res, 1, 1, None).unwrap();
    t.visit_local_get(0).unwrap();
    t.visit_i32_const(0).unwrap();
    t.visit_i32_mul().unwrap();
    t.visit_end().unwrap();
    assert_eq!(t.instrs().as_slice(), &[Instruction::ReturnImm32 { value: 0 }]);
    assert_eq!(run(t.finish(1), &[7]), Ok(vec![0]));
}

#[test]
fn branches_out_of_block_with_result() {
    let res = ModuleResources::new();
    let mut t = FuncTranslator::new(&res, 0, 1, None).unwrap();
    t.visit_block(BlockType::new(0, 1)).unwrap();
    t.visit_i32_const(10).unwrap();
    t.visit_br(0).unwrap();
    assert!(!t.is_reachable());
    t.visit_end().unwrap();
    assert!(t.is_reachable());
    t.visit_end().unwrap();
    assert_eq!(
        t.instrs().as_slice(),
        &[
            Instruction::CopyImm32 { result: Register(0), value: 10 },
            Instruction::Branch { offset: BranchOffset(1) },
            Instruction::ReturnReg { value: Register(0) },
        ]
    );
    assert_eq!(run(t.finish(0), &[]), Ok(vec![10]));
}

#[test]
fn counts_down_in_loop() {
    let res = ModuleResources::new();
    let mut t = FuncTranslator::new(&res, 1, 1, None).unwrap();
    t.visit_loop(BlockType::new(0, 1)).unwrap();
    t.visit_local_get(0).unwrap();
    t.visit_i32_const(1).unwrap();
    t.visit_i32_sub().unwrap();
    t.visit_local_set(0).unwrap();
    t.visit_local_get(0).unwrap();
    t.visit_i32_const(0).unwrap();
    t.visit_i32_gt_s().unwrap();
    t.visit_br_if(0).unwrap();
    t.visit_local_get(0).unwrap();
    t.visit_end().unwrap();
    t.visit_end().unwrap();
    assert_eq!(
        t.instrs().as_slice(),
        &[
            Instruction::BinaryImm16 { op: BinaryOp::I32Sub, result: Register(0), lhs: Register(0), rhs: Const16(1) },
            Instruction::BranchBinaryImm {
                op: BinaryOp::I32GtS,
                lhs: Register(0),
                rhs: Const16(0),
                offset: BranchOffset16(-1),
            },
            Instruction::ReturnReg { value: Register(0) },
        ]
    );
    assert_eq!(run(t.finish(1), &[5]), Ok(vec![0]));
}

#[test]
fn division_by_constant_zero_traps() {
    let res = ModuleResources::new();
    let mut t = FuncTranslator::new(&res, 0, 1, None).unwrap();
    t.visit_i32_const(1).unwrap();
    t.visit_i32_const(0).unwrap();
    t.visit_i32_div_s().unwrap();
    assert!(!t.is_reachable());
    t.visit_end().unwrap();
    assert_eq!(t.instrs().as_slice(), &[Instruction::Trap { code: TrapCode::IntegerDivisionByZero }]);
    assert_eq!(run(t.finish(0), &[]), Err(ExecError::Trap(TrapCode::IntegerDivisionByZero)));
}

#[test]
fn division_of_register_by_zero_traps() {
    let res = ModuleResources::new();
    let mut t = FuncTranslator::new(&res, 2, 1, None).unwrap();
    t.visit_local_get(0).unwrap();
    t.visit_local_get(1).unwrap();
    t.visit_i32_div_s().unwrap();
    t.visit_end().unwrap();
    let func = t.finish(2);
    assert_eq!(run(func, &[1, 0]), Err(ExecError::Trap(TrapCode::IntegerDivisionByZero)));
}

#[test]
fn comparison_with_nan_folds_to_false() {
    let res = ModuleResources::new();
    let mut t = FuncTranslator::new(&res, 0, 1, None).unwrap();
    t.visit_f32_const(f32::NAN.to_bits()).unwrap();
    t.visit_f32_const(1.0f32.to_bits()).unwrap();
    t.visit_f32_lt().unwrap();
    t.visit_end().unwrap();
    assert_eq!(t.instrs().as_slice(), &[Instruction::ReturnImm32 { value: 0 }]);
    assert_eq!(run(t.finish(0), &[]), Ok(vec![0]));
}

#[test]
fn comparison_of_register_with_nan_folds_to_false() {
    let res = ModuleResources::new();
    let mut t = FuncTranslator::new(&res, 1, 1, None).unwrap();
    t.visit_local_get(0).unwrap();
    t.visit_f32_const(f32::NAN.to_bits()).unwrap();
    t.visit_f32_lt().unwrap();
    t.visit_end().unwrap();
    assert_eq!(t.instrs().as_slice(), &[Instruction::ReturnImm32 { value: 0 }]);
    assert_eq!(run(t.finish(1), &[f32_word(3.0)]), Ok(vec![0]));
}

#[test]
fn float_multiplication_by_zero_is_not_folded() {
    let res = ModuleResources::new();
    let mut t = FuncTranslator::new(&res, 1, 1, None).unwrap();
    t.visit_local_get(0).unwrap();
    t.visit_f32_const(0.0f32.to_bits()).unwrap();
    t.visit_f32_mul().unwrap();
    t.visit_end().unwrap();
    let func = t.finish(1);
    assert_eq!(func.instrs.len(), 2);
    let returned = run(func, &[f32_word(f32::INFINITY)]).unwrap();
    assert!(f32::from_bits(returned[0] as u32).is_nan());
}

#[test]
fn tee_then_get_pushes_the_local_twice() {
    let res = ModuleResources::new();
    let mut t = FuncTranslator::new(&res, 2, 1, None).unwrap();
    t.visit_local_get(1).unwrap();
    t.visit_local_tee(0).unwrap();
    let emitted = t.instrs().len();
    let height = t.stack().height();
    t.visit_local_get(0).unwrap();
    assert_eq!(t.instrs().len(), emitted);
    assert_eq!(t.stack().height(), height + 1);
    assert_eq!(t.stack().get(height), t.stack().get(height - 1));
    t.visit_i32_add().unwrap();
    t.visit_end().unwrap();
    assert_eq!(run(t.finish(2), &[1, 20]), Ok(vec![40]));
}

#[test]
fn local_set_saves_pending_reads_of_the_local() {
    let res = ModuleResources::new();
    let mut t = FuncTranslator::new(&res, 1, 1, None).unwrap();
    t.visit_local_get(0).unwrap();
    t.visit_i32_const(100).unwrap();
    t.visit_local_set(0).unwrap();
    t.visit_local_get(0).unwrap();
    t.visit_i32_sub().unwrap();
    t.visit_end().unwrap();
    assert_eq!(run(t.finish(1), &[7]), Ok(vec![0u64.wrapping_sub(93) & 0xFFFF_FFFF]));
}

#[test]
fn br_if_with_constant_condition() {
    let res = ModuleResources::new();
    let mut t = FuncTranslator::new(&res, 0, 1, None).unwrap();
    t.visit_block(BlockType::new(0, 1)).unwrap();
    t.visit_i32_const(1).unwrap();
    t.visit_i32_const(0).unwrap();
    t.visit_br_if(0).unwrap();
    assert!(t.is_reachable());
    assert!(t.instrs().is_empty());
    t.visit_i32_const(1).unwrap();
    t.visit_br_if(0).unwrap();
    assert!(!t.is_reachable());
    t.visit_end().unwrap();
    t.visit_end().unwrap();
    assert_eq!(run(t.finish(0), &[]), Ok(vec![1]));

    let mut u = FuncTranslator::new(&res, 0, 1, None).unwrap();
    u.visit_block(BlockType::new(0, 1)).unwrap();
    u.visit_i32_const(1).unwrap();
    u.visit_br(0).unwrap();
    u.visit_end().unwrap();
    u.visit_end().unwrap();
    let mut v = FuncTranslator::new(&res, 0, 1, None).unwrap();
    v.visit_block(BlockType::new(0, 1)).unwrap();
    v.visit_i32_const(1).unwrap();
    v.visit_i32_const(7).unwrap();
    v.visit_br_if(0).unwrap();
    v.visit_end().unwrap();
    v.visit_end().unwrap();
    assert_eq!(u.instrs().as_slice(), v.instrs().as_slice());
}

#[test]
fn if_else_selects_a_branch() {
    let res = ModuleResources::new();
    let mut t = FuncTranslator::new(&res, 1, 1, None).unwrap();
    t.visit_local_get(0).unwrap();
    t.visit_if(BlockType::new(0, 1)).unwrap();
    t.visit_i32_const(11).unwrap();
    t.visit_else().unwrap();
    t.visit_i32_const(22).unwrap();
    t.visit_end().unwrap();
    t.visit_end().unwrap();
    let func = t.finish(1);
    let code = CompiledFunc {
        len_params: func.len_params,
        len_registers: func.len_registers,
        instrs: func.instrs.clone(),
        consts: func.consts.clone(),
    };
    assert_eq!(run(func, &[1]), Ok(vec![11]));
    assert_eq!(run(code, &[0]), Ok(vec![22]));
}

#[test]
fn if_without_else_hands_its_parameter_on() {
    let res = ModuleResources::new();
    for (condition, expected) in [(1u64, 6u64), (0, 5)] {
        let mut t = FuncTranslator::new(&res, 2, 1, None).unwrap();
        t.visit_local_get(1).unwrap();
        t.visit_local_get(0).unwrap();
        t.visit_if(BlockType::new(1, 1)).unwrap();
        t.visit_i32_const(1).unwrap();
        t.visit_i32_add().unwrap();
        t.visit_end().unwrap();
        t.visit_end().unwrap();
        assert_eq!(run(t.finish(2), &[condition, 5]), Ok(vec![expected]));
    }
}

#[test]
fn if_with_constant_condition_keeps_one_branch() {
    let res = ModuleResources::new();
    for (condition, expected) in [(1, 11u64), (0, 22)] {
        let mut t = FuncTranslator::new(&res, 0, 1, None).unwrap();
        t.visit_i32_const(condition).unwrap();
        t.visit_if(BlockType::new(0, 1)).unwrap();
        t.visit_i32_const(11).unwrap();
        t.visit_else().unwrap();
        t.visit_i32_const(22).unwrap();
        t.visit_end().unwrap();
        t.visit_end().unwrap();
        assert_eq!(t.instrs().as_slice(), &[Instruction::ReturnImm32 { value: expected as u32 }]);
        assert_eq!(run(t.finish(0), &[]), Ok(vec![expected]));
    }
}

#[test]
fn block_without_branch_leaves_the_stack_alone() {
    let res = ModuleResources::new();
    let mut t = FuncTranslator::new(&res, 1, 1, None).unwrap();
    t.visit_block(BlockType::new(0, 1)).unwrap();
    t.visit_local_get(0).unwrap();
    let height = t.stack().height();
    t.visit_end().unwrap();
    assert_eq!(t.stack().height(), height);
    assert!(t.instrs().is_empty());
    t.visit_end().unwrap();
    assert_eq!(run(t.finish(1), &[9]), Ok(vec![9]));
}

fn table_function(res: &ModuleResources, different_params: bool) -> CompiledFunc {
    // (func (param i32) (result i32)
    //   (block (result i32)
    //     (block (result i32)
    //       i32.const 100  local.get 0  br_table 0 1 2)
    //     i32.const 1 i32.add)
    //   (loop ... ) is not needed: the outer targets differ by their frames)
    let mut t = FuncTranslator::new(res, 1, 1, None).unwrap();
    t.visit_block(BlockType::new(0, 1)).unwrap();
    if different_params {
        t.visit_i32_const(5).unwrap();
    }
    t.visit_block(BlockType::new(0, 1)).unwrap();
    t.visit_i32_const(100).unwrap();
    t.visit_local_get(0).unwrap();
    assert!(t.accepts_br_table(&vec![0, 1, 2, 0, 1]));
    t.visit_br_table(&vec![0, 1, 2, 0], 1).unwrap();
    t.visit_end().unwrap();
    t.visit_i32_const(1).unwrap();
    t.visit_i32_add().unwrap();
    if different_params {
        t.visit_i32_add().unwrap();
    }
    t.visit_end().unwrap();
    t.visit_i32_const(10).unwrap();
    t.visit_i32_add().unwrap();
    t.visit_end().unwrap();
    t.finish(1)
}

fn copy_of(func: &CompiledFunc) -> CompiledFunc {
    CompiledFunc {
        len_params: func.len_params,
        len_registers: func.len_registers,
        instrs: func.instrs.clone(),
        consts: func.consts.clone(),
    }
}

#[test]
fn br_table_with_shared_parameters() {
    let res = ModuleResources::new();
    let func = table_function(&res, false);
    assert!(func.instrs.iter().any(|i| matches!(i, Instruction::BranchTable { len_targets: 5, .. })));
    // inner block: 100 + 1 + 10; outer block: 100 + 10; function: 100
    assert_eq!(run(copy_of(&func), &[0]), Ok(vec![111]));
    assert_eq!(run(copy_of(&func), &[1]), Ok(vec![110]));
    assert_eq!(run(copy_of(&func), &[2]), Ok(vec![100]));
    assert_eq!(run(copy_of(&func), &[3]), Ok(vec![111]));
    assert_eq!(run(copy_of(&func), &[4]), Ok(vec![110]));
    assert_eq!(run(copy_of(&func), &[1000]), Ok(vec![110]));
}

#[test]
fn br_table_with_different_parameters() {
    let res = ModuleResources::new();
    let func = table_function(&res, true);
    // inner block: 5 + (100 + 1), then + 10; outer block: 100 + 10; function: 100
    assert_eq!(run(copy_of(&func), &[0]), Ok(vec![116]));
    assert_eq!(run(copy_of(&func), &[1]), Ok(vec![110]));
    assert_eq!(run(copy_of(&func), &[2]), Ok(vec![100]));
    assert_eq!(run(copy_of(&func), &[3]), Ok(vec![116]));
    assert_eq!(run(copy_of(&func), &[77]), Ok(vec![110]));
}

#[test]
fn br_table_with_constant_index_is_a_branch() {
    let res = ModuleResources::new();
    let mut t = FuncTranslator::new(&res, 0, 1, None).unwrap();
    t.visit_block(BlockType::new(0, 1)).unwrap();
    t.visit_i32_const(3).unwrap();
    t.visit_i32_const(7).unwrap();
    t.visit_br_table(&vec![1, 1], 0).unwrap();
    t.visit_end().unwrap();
    t.visit_i32_const(1).unwrap();
    t.visit_i32_add().unwrap();
    t.visit_end().unwrap();
    assert!(!t.instrs().iter().any(|i| matches!(i, Instruction::BranchTable { .. })));
    assert_eq!(run(t.finish(0), &[]), Ok(vec![4]));
}

#[test]
fn calls_an_internal_function() {
    let mut res = ModuleResources::new();
    let ty = res.push_func_type(FuncType { len_params: 2, len_results: 1 }) as u32;
    res.push_func(ty, Some(0));
    res.push_func(ty, Some(1));
    // function 0: subtracts its parameters
    let mut callee = FuncTranslator::new(&res, 2, 1, None).unwrap();
    callee.visit_local_get(0).unwrap();
    callee.visit_local_get(1).unwrap();
    callee.visit_i32_sub().unwrap();
    callee.visit_end().unwrap();
    // function 1: calls function 0 with its parameters swapped, and doubles the result
    let mut caller = FuncTranslator::new(&res, 2, 1, None).unwrap();
    caller.visit_local_get(1).unwrap();
    caller.visit_local_get(0).unwrap();
    caller.visit_call(0).unwrap();
    caller.visit_i32_const(2).unwrap();
    caller.visit_i32_mul().unwrap();
    caller.visit_end().unwrap();
    assert!(matches!(caller.instrs()[0], Instruction::CallInternal { func: 0, .. }));
    assert_eq!(caller.instrs()[1], Instruction::Register2 { r0: Register(1), r1: Register(0) });
    let mut engine = EngineInner::new(1024);
    assert_eq!(engine.alloc_func(callee.finish(2)), 0);
    assert_eq!(engine.alloc_func(caller.finish(2)), 1);
    match engine.execute_func(1, &vec![3, 10], None, 1000) {
        Ok(Outcome::Returned(values)) => assert_eq!(values, vec![14]),
        other => panic!("unexpected outcome: {:?}", other),
    }
}

#[test]
fn tail_call_replaces_the_frame() {
    let mut res = ModuleResources::new();
    let ty = res.push_func_type(FuncType { len_params: 1, len_results: 1 }) as u32;
    res.push_func(ty, Some(0));
    // function 0: if the parameter is zero, 99; else itself with the parameter less one
    let mut t = FuncTranslator::new(&res, 1, 1, None).unwrap();
    t.visit_local_get(0).unwrap();
    t.visit_if(BlockType::new(0, 0)).unwrap();
    t.visit_local_get(0).unwrap();
    t.visit_i32_const(1).unwrap();
    t.visit_i32_sub().unwrap();
    t.visit_return_call(0).unwrap();
    t.visit_end().unwrap();
    t.visit_i32_const(99).unwrap();
    t.visit_end().unwrap();
    let mut engine = EngineInner::new(64);
    engine.alloc_func(t.finish(1));
    match engine.execute_func(0, &vec![1000], None, 1_000_000) {
        Ok(Outcome::Returned(values)) => assert_eq!(values, vec![99]),
        other => panic!("unexpected outcome: {:?}", other),
    }
}

#[test]
fn deep_recursion_overflows_the_stack() {
    let mut res = ModuleResources::new();
    let ty = res.push_func_type(FuncType { len_params: 0, len_results: 0 }) as u32;
    res.push_func(ty, Some(0));
    res.push_func(ty, Some(1));
    let mut t = FuncTranslator::new(&res, 0, 0, None).unwrap();
    t.visit_call(0).unwrap();
    t.visit_end().unwrap();
    let mut engine = EngineInner::new(64);
    engine.alloc_func(t.finish(0));
    let mut locals = FuncTranslator::new(&res, 8, 0, None).unwrap();
    locals.visit_call(1).unwrap();
    locals.visit_end().unwrap();
    engine.alloc_func(locals.finish(0));
    assert!(matches!(engine.execute_func(1, &vec![], None, 1_000_000), Err(ExecError::Trap(TrapCode::StackOverflow))));
    assert!(matches!(engine.execute_func(0, &vec![], None, 1000), Ok(Outcome::OutOfSteps)));
}

#[test]
fn imported_call_goes_to_the_embedder() {
    let mut res = ModuleResources::new();
    let ty = res.push_func_type(FuncType { len_params: 1, len_results: 1 }) as u32;
    res.push_func(ty, None);
    let mut t = FuncTranslator::new(&res, 1, 1, None).unwrap();
    t.visit_local_get(0).unwrap();
    t.visit_call(0).unwrap();
    t.visit_i32_const(1).unwrap();
    t.visit_i32_add().unwrap();
    t.visit_end().unwrap();
    assert_eq!(t.instrs()[0], Instruction::CallImported { results: RegSpan::new(Register(1)), func: 0 });
    let mut engine = EngineInner::new(64);
    engine.alloc_func(t.finish(1));
    assert!(matches!(engine.execute_func(0, &vec![5], None, 1000), Ok(Outcome::Host)));
    engine.execute_host_func(RegSpan::new(Register(1)), &vec![50], 2).unwrap();
    match engine.execute_frame(1000) {
        Ok(Outcome::Returned(values)) => assert_eq!(values, vec![51]),
        other => panic!("unexpected outcome: {:?}", other),
    }
}

#[test]
fn fuel_is_charged_per_block() {
    let res = ModuleResources::new();
    let costs = FuelCosts { base: 3, call: 10 };
    let mut t = FuncTranslator::new(&res, 1, 1, Some(costs)).unwrap();
    t.visit_loop(BlockType::new(0, 0)).unwrap();
    t.visit_local_get(0).unwrap();
    t.visit_i32_const(1).unwrap();
    t.visit_i32_sub().unwrap();
    t.visit_local_tee(0).unwrap();
    t.visit_br_if(0).unwrap();
    t.visit_end().unwrap();
    t.visit_local_get(0).unwrap();
    t.visit_end().unwrap();
    assert_eq!(t.instrs()[0], Instruction::ConsumeFuel { amount: 3 });
    assert_eq!(t.instrs()[1], Instruction::ConsumeFuel { amount: 3 });
    let func = t.finish(1);
    let mut engine = EngineInner::new(64);
    engine.alloc_func(func);
    // the function charges 3, each of the 4 iterations charges 3
    assert!(matches!(engine.execute_func(0, &vec![4], Some(15), 1000), Ok(Outcome::Returned(_))));
    assert!(matches!(
        engine.execute_func(0, &vec![4], Some(14), 1000),
        Err(ExecError::Trap(TrapCode::OutOfFuel))
    ));
}

#[test]
fn unreachable_traps() {
    let res = ModuleResources::new();
    let mut t = FuncTranslator::new(&res, 0, 0, None).unwrap();
    t.visit_unreachable().unwrap();
    t.visit_i32_const(1).unwrap();
    t.visit_drop().unwrap();
    t.visit_end().unwrap();
    assert_eq!(t.instrs().as_slice(), &[Instruction::Trap { code: TrapCode::UnreachableCodeReached }]);
    assert_eq!(run(t.finish(0), &[]), Err(ExecError::Trap(TrapCode::UnreachableCodeReached)));
}

#[test]
fn conversion_of_constant_nan_traps() {
    let res = ModuleResources::new();
    let mut t = FuncTranslator::new(&res, 0, 1, None).unwrap();
    t.visit_f32_const(f32::NAN.to_bits()).unwrap();
    t.visit_i32_trunc_f32_s().unwrap();
    t.visit_end().unwrap();
    assert_eq!(t.instrs().as_slice(), &[Instruction::Trap { code: TrapCode::BadConversionToInteger }]);
    let mut u = FuncTranslator::new(&res, 0, 1, None).unwrap();
    u.visit_f32_const(1e10f32.to_bits()).unwrap();
    u.visit_i32_trunc_f32_s().unwrap();
    u.visit_end().unwrap();
    assert_eq!(u.instrs().as_slice(), &[Instruction::Trap { code: TrapCode::IntegerOverflow }]);
    assert_eq!(UnaryOp::I32TruncF32S.eval(f32_word(-3.7)), Ok(0xFFFF_FFFD));
}

#[test]
fn select_picks_by_condition() {
    let res = ModuleResources::new();
    let mut t = FuncTranslator::new(&res, 3, 1, None).unwrap();
    t.visit_local_get(0).unwrap();
    t.visit_local_get(1).unwrap();
    t.visit_local_get(2).unwrap();
    t.visit_select().unwrap();
    t.visit_end().unwrap();
    let func = t.finish(3);
    assert_eq!(run(copy_of(&func), &[10, 20, 1]), Ok(vec![10]));
    assert_eq!(run(copy_of(&func), &[10, 20, 0]), Ok(vec![20]));
    let mut u = FuncTranslator::new(&res, 2, 1, None).unwrap();
    u.visit_local_get(0).unwrap();
    u.visit_local_get(1).unwrap();
    u.visit_i32_const(0).unwrap();
    u.visit_select().unwrap();
    u.visit_end().unwrap();
    assert_eq!(u.instrs().as_slice(), &[Instruction::ReturnReg { value: Register(1) }]);
}

#[test]
fn immutable_global_is_its_constant() {
    let mut res = ModuleResources::new();
    res.push_global(GlobalDecl { content: ValueType::I64, mutable: false, init: GlobalInit::Const(77) });
    res.push_global(GlobalDecl { content: ValueType::I32, mutable: true, init: GlobalInit::Const(5) });
    let mut t = FuncTranslator::new(&res, 0, 1, None).unwrap();
    t.visit_global_get(0).unwrap();
    assert!(t.instrs().is_empty());
    t.visit_global_get(1).unwrap();
    assert_eq!(t.instrs().as_slice(), &[Instruction::GlobalGet { result: Register(1), global: 1 }]);
    t.visit_global_set(1).unwrap();
    t.visit_i32_const(-3).unwrap();
    t.visit_global_set(1).unwrap();
    assert_eq!(t.instrs()[1], Instruction::GlobalSet { global: 1, input: Register(1) });
    assert_eq!(t.instrs()[2], Instruction::GlobalSetI32Imm16 { global: 1, input: Const16(-3) });
    t.visit_end().unwrap();
    let mut engine = EngineInner::new(64);
    engine.alloc_func(t.finish(0));
    assert!(matches!(engine.execute_func(0, &vec![], None, 1000), Ok(Outcome::Host)));
}

#[test]
fn loop_parameters_move_to_their_registers() {
    let res = ModuleResources::new();
    // (func (param i32) (result i32)
    //   i32.const 0  local.get 0
    //   (loop (param i32 i32) (result i32)   ;; sum, counter
    //     ... sum += counter; counter -= 1; br_if 0 with (sum, counter) ... ))
    let mut t = FuncTranslator::new(&res, 1, 1, None).unwrap();
    t.visit_i32_const(0).unwrap();
    t.visit_local_get(0).unwrap();
    t.visit_loop(BlockType::new(2, 1)).unwrap();
    t.visit_local_set(0).unwrap();
    t.visit_local_get(0).unwrap();
    t.visit_i32_add().unwrap();
    t.visit_local_get(0).unwrap();
    t.visit_i32_const(1).unwrap();
    t.visit_i32_sub().unwrap();
    t.visit_local_tee(0).unwrap();
    t.visit_local_get(0).unwrap();
    t.visit_br_if(0).unwrap();
    t.visit_drop().unwrap();
    t.visit_end().unwrap();
    t.visit_end().unwrap();
    assert_eq!(run(t.finish(1), &[4]), Ok(vec![10]));
}

#[test]
fn entering_a_block_or_a_loop_emits_nothing_and_keeps_the_operands() {
    let res = ModuleResources::new();
    let mut t = FuncTranslator::new(&res, 2, 1, None).unwrap();
    t.visit_local_get(0).unwrap();
    t.visit_i32_const(5).unwrap();
    t.visit_block(BlockType::new(0, 0)).unwrap();
    assert_eq!(t.control_depth(), 1);
    t.visit_loop(BlockType::new(0, 0)).unwrap();
    assert_eq!(t.control_depth(), 2);
    assert_eq!(t.instrs().len(), 0);
    assert_eq!(t.stack().height(), 2);
    assert_eq!(t.stack().get(0), TypedProvider::Register(Register(0)));
    assert_eq!(t.stack().get(1), TypedProvider::Const(TypedValue { ty: ValueType::I32, bits: 5 }));
}

#[test]
fn entering_an_if_emits_the_branch_and_keeps_the_operands() {
    let res = ModuleResources::new();
    let mut t = FuncTranslator::new(&res, 2, 1, None).unwrap();
    t.visit_local_get(0).unwrap();
    t.visit_local_get(1).unwrap();
    t.visit_if(BlockType::new(1, 1)).unwrap();
    assert_eq!(t.control_depth(), 1);
    assert_eq!(t.instrs().len(), 1);
    assert!(matches!(t.instrs()[0], Instruction::BranchEqz { condition: Register(1), .. }));
    assert_eq!(t.stack().height(), 1);
    assert_eq!(t.stack().get(0), TypedProvider::Register(Register(0)));
    t.visit_else().unwrap();
    assert_eq!(t.stack().height(), 1);
    assert_eq!(t.stack().get(0), TypedProvider::Register(Register(0)));
}

#[test]
fn remainder_by_minus_one_is_computed_when_the_code_runs() {
    let res = ModuleResources::new();
    let mut t = FuncTranslator::new(&res, 1, 1, None).unwrap();
    t.visit_local_get(0).unwrap();
    t.visit_i32_const(-1).unwrap();
    t.visit_i32_rem_s().unwrap();
    assert_eq!(t.instrs().len(), 1);
    t.visit_end().unwrap();
    let func = t.finish(1);
    let again = CompiledFunc {
        len_params: 1,
        len_registers: func.len_registers,
        instrs: func.instrs.clone(),
        consts: func.consts.clone(),
    };
    assert_eq!(run(func, &[9]), Ok(vec![0]));
    assert_eq!(run(again, &[i32::MIN as u32 as u64]), Err(ExecError::Trap(TrapCode::IntegerOverflow)));
    let mut t = FuncTranslator::new(&res, 1, 1, None).unwrap();
    t.visit_local_get(0).unwrap();
    t.visit_i32_const(1).unwrap();
    t.visit_i32_rem_s().unwrap();
    assert_eq!(t.instrs().len(), 0);
}

#[test]
fn table_fill_has_a_form_for_each_choice_of_constants() {
    let res = ModuleResources::new();
    let mut forms = Vec::new();
    for choice in 0..8u32 {
        let mut t = FuncTranslator::new(&res, 3, 0, None).unwrap();
        for operand in 0..3u32 {
            if choice & (1 << operand) != 0 {
                t.visit_i64_const(9).unwrap();
            } else {
                t.visit_local_get(operand).unwrap();
            }
        }
        t.visit_table_fill(4).unwrap();
        assert_eq!(t.stack().height(), 0);
        assert_eq!(t.instrs().len(), 2);
        assert_eq!(t.instrs()[1], Instruction::TableIdx { index: 4 });
        forms.push(t.instrs()[0]);
    }
    let (r0, r1, r2, c) = (Register(0), Register(1), Register(2), Const16(9));
    let op = BulkOp::TableFill;
    assert_eq!(
        forms,
        vec![
            Instruction::Bulk { op, dst: r0, src: r1, len: r2 },
            Instruction::BulkTo { op, dst: c, src: r1, len: r2 },
            Instruction::BulkFrom { op, dst: r0, src: c, len: r2 },
            Instruction::BulkFromTo { op, dst: c, src: c, len: r2 },
            Instruction::BulkExact { op, dst: r0, src: r1, len: c },
            Instruction::BulkToExact { op, dst: c, src: r1, len: c },
            Instruction::BulkFromExact { op, dst: r0, src: c, len: c },
            Instruction::BulkFromToExact { op, dst: c, src: c, len: c },
        ]
    );
}

#[test]
fn arithmetic_gives_the_canonical_not_a_number() {
    let (nan32, nan64) = (0x7FC0_0000u64, 0x7FF8_0000_0000_0000u64);
    let inf32 = f32::INFINITY.to_bits() as u64;
    let inf64 = f64::INFINITY.to_bits();
    let payload32 = 0xFFA1_2345u64;
    let payload64 = 0xFFF1_2345_6789_ABCDu64;
    assert_eq!(BinaryOp::F32Div.eval(0, 0), Ok(nan32));
    assert_eq!(BinaryOp::F32Sub.eval(inf32, inf32), Ok(nan32));
    assert_eq!(BinaryOp::F32Mul.eval(0, inf32), Ok(nan32));
    assert_eq!(BinaryOp::F32Add.eval(payload32, 1.0f32.to_bits() as u64), Ok(nan32));
    assert_eq!(BinaryOp::F32Min.eval(payload32, 1.0f32.to_bits() as u64), Ok(nan32));
    assert_eq!(BinaryOp::F32Max.eval(1.0f32.to_bits() as u64, payload32), Ok(nan32));
    assert_eq!(UnaryOp::F32Sqrt.eval((-1.0f32).to_bits() as u64), Ok(nan32));
    assert_eq!(UnaryOp::F32Ceil.eval(payload32), Ok(nan32));
    assert_eq!(UnaryOp::F32DemoteF64.eval(payload64), Ok(nan32));
    assert_eq!(BinaryOp::F64Div.eval(0, 0), Ok(nan64));
    assert_eq!(BinaryOp::F64Sub.eval(inf64, inf64), Ok(nan64));
    assert_eq!(BinaryOp::F64Min.eval(payload64, 1.0f64.to_bits()), Ok(nan64));
    assert_eq!(UnaryOp::F64Sqrt.eval((-1.0f64).to_bits()), Ok(nan64));
    assert_eq!(UnaryOp::F64Nearest.eval(payload64), Ok(nan64));
    assert_eq!(UnaryOp::F64PromoteF32.eval(payload32), Ok(nan64));
    assert_eq!(BinaryOp::F32Add.eval(1.5f32.to_bits() as u64, 2.25f32.to_bits() as u64), Ok(3.75f32.to_bits() as u64));
    assert_eq!(BinaryOp::F64Mul.eval(1.5f64.to_bits(), (-2.0f64).to_bits()), Ok((-3.0f64).to_bits()));
    // the sign operations keep every bit but the sign
    assert_eq!(UnaryOp::F32Abs.eval(payload32), Ok(0x7FA1_2345));
    assert_eq!(UnaryOp::F64Neg.eval(payload64), Ok(0x7FF1_2345_6789_ABCD));
}

#[test]
fn minimum_and_maximum_of_two_zeros() {
    let (pos32, neg32) = (0u64, 0x8000_0000u64);
    let (pos64, neg64) = (0u64, 0x8000_0000_0000_0000u64);
    for (lhs, rhs, min, max) in [
        (pos32, neg32, neg32, pos32),
        (neg32, pos32, neg32, pos32),
        (pos32, pos32, pos32, pos32),
        (neg32, neg32, neg32, neg32),
    ] {
        assert_eq!(BinaryOp::F32Min.eval(lhs, rhs), Ok(min));
        assert_eq!(BinaryOp::F32Max.eval(lhs, rhs), Ok(max));
    }
    for (lhs, rhs, min, max) in [
        (pos64, neg64, neg64, pos64),
        (neg64, pos64, neg64, pos64),
        (pos64, pos64, pos64, pos64),
        (neg64, neg64, neg64, neg64),
    ] {
        assert_eq!(BinaryOp::F64Min.eval(lhs, rhs), Ok(min));
        assert_eq!(BinaryOp::F64Max.eval(lhs, rhs), Ok(max));
    }
    assert_eq!(BinaryOp::F32Min.eval(1.0f32.to_bits() as u64, neg32), Ok(neg32));
    assert_eq!(BinaryOp::F64Max.eval((-1.0f64).to_bits(), neg64), Ok(neg64));
}

#[test]
fn stack_height_at_end_is_entry_height_plus_results() {
    let res = ModuleResources::new();
    let mut t = FuncTranslator::new(&res, 1, 1, None).unwrap();
    t.visit_i32_const(1).unwrap();
    t.visit_i32_const(2).unwrap();
    t.visit_block(BlockType::new(1, 2)).unwrap();
    let entry = t.stack().height() - 1;
    t.visit_local_get(0).unwrap();
    assert!(t.accepts_end());
    assert_eq!(t.stack().height(), entry + 2);
    t.visit_local_get(0).unwrap();
    assert!(!t.accepts_end());
    t.visit_drop().unwrap();
    t.visit_local_get(0).unwrap();
    t.visit_br_if(0).unwrap();
    t.visit_end().unwrap();
    assert_eq!(t.stack().height(), entry + 2);
    assert!(!t.accepts_else());
    t.visit_i32_add().unwrap();
    t.visit_i32_add().unwrap();
    assert!(t.accepts_end());
    t.visit_end().unwrap();
    assert_eq!(run(t.finish(1), &[4]), Ok(vec![7]));
}

#[test]
fn every_branch_holds_the_distance_to_its_target() {
    let res = ModuleResources::new();
    let mut t = FuncTranslator::new(&res, 1, 0, None).unwrap();
    t.visit_block(BlockType::new(0, 0)).unwrap();
    t.visit_block(BlockType::new(0, 0)).unwrap();
    t.visit_local_get(0).unwrap();
    t.visit_br_if(1).unwrap();
    t.visit_local_get(0).unwrap();
    t.visit_br_if(0).unwrap();
    t.visit_br(1).unwrap();
    t.visit_end().unwrap();
    t.visit_nop().unwrap();
    t.visit_end().unwrap();
    t.visit_end().unwrap();
    let func = t.finish(1);
    let len = func.instrs.len() as i64;
    for (at, instr) in func.instrs.iter().enumerate() {
        let offset = match instr {
            Instruction::Branch { offset } => offset.0 as i64,
            Instruction::BranchNez { offset, .. } | Instruction::BranchEqz { offset, .. } => offset.0 as i64,
            _ => continue,
        };
        assert_eq!(at as i64 + offset, len - 1, "the branch at {} goes to the return", at);
    }
    assert_eq!(func.instrs.iter().filter(|i| matches!(i, Instruction::BranchNez { .. })).count(), 2);
}

#[test]
fn constant_on_the_left_of_a_shift_keeps_its_sign() {
    let res = ModuleResources::new();
    let mut t = FuncTranslator::new(&res, 1, 1, None).unwrap();
    t.visit_i32_const(-8).unwrap();
    t.visit_local_get(0).unwrap();
    t.visit_i32_shr_s().unwrap();
    t.visit_end().unwrap();
    assert_eq!(
        t.instrs()[0],
        Instruction::BinaryImm16Rev { op: BinaryOp::I32ShrS, result: Register(1), lhs: Const16(-8), rhs: Register(0) }
    );
    assert_eq!(run(t.finish(1), &[1]), Ok(vec![(-4i32) as u32 as u64]));
    let mut u = FuncTranslator::new(&res, 1, 1, None).unwrap();
    u.visit_i64_const(-8).unwrap();
    u.visit_local_get(0).unwrap();
    u.visit_i64_sub().unwrap();
    u.visit_end().unwrap();
    assert_eq!(run(u.finish(1), &[2]), Ok(vec![(-10i64) as u64]));
}
