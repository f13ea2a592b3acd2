use regmach::control::BlockType;
use regmach::engine::{EngineInner, Outcome};
use regmach::error::TrapCode;
use regmach::executor::ExecError;
use regmach::module::ModuleResources;
use regmach::translator::FuncTranslator;
use regmach::value::TypedProvider;

/// An operator of a small structured language whose values are all of the type `i32`.
#[derive(Clone, Debug)]
enum Op {
    Const(i32),
    LocalGet(u32),
    LocalSet(u32),
    LocalTee(u32),
    Binary(u8),
    Eqz,
    Drop,
    Select,
    Nop,
    Block(u32, u32, Vec<Op>),
    Loop(u32, u32, Vec<Op>),
    If(u32, u32, Vec<Op>, Option<Vec<Op>>),
    Br(u32),
    BrIf(u32),
    BrTable(Vec<u32>, u32),
    Return,
    Unreachable,
}

const LOCALS: u32 = 3;
const PARAMS: usize = 2;
const BINARY: u8 = 20;

struct Rng(u64);

impl Rng {
    fn next(&mut self) -> u64 {
        self.0 ^= self.0 << 13;
        self.0 ^= self.0 >> 7;
        self.0 ^= self.0 << 17;
        self.0
    }

    fn below(&mut self, n: u64) -> u64 {
        self.next() % n
    }

    fn constant(&mut self) -> i32 {
        match self.below(8) {
            0 => 0,
            1 => 1,
            2 => -1,
            3 => i32::MIN,
            4 => i32::MAX,
            5 => self.below(100) as i32 - 50,
            6 => 40000 + self.below(100000) as i32,
            _ => self.next() as i32,
        }
    }
}

/// Generates the body of a block that begins with `height` operands and ends with `results`
/// operands. `labels` are the numbers of operands that the branches to the enclosing blocks
/// carry, the innermost last.
fn body(rng: &mut Rng, labels: &mut Vec<u32>, height: u32, results: u32, size: &mut u32) -> Vec<Op> {
    let mut ops = Vec::new();
    let mut h = height;
    while *size > 0 && rng.below(12) != 0 {
        *size -= 1;
        let depth = rng.below(labels.len() as u64 + 1) as u32;
        let carried = if (depth as usize) < labels.len() { labels[labels.len() - 1 - depth as usize] } else { 1 };
        match rng.below(26) {
            0..=2 => {
                ops.push(Op::Const(rng.constant()));
                h += 1;
            }
            3..=5 => {
                ops.push(Op::LocalGet(rng.below(LOCALS as u64) as u32));
                h += 1;
            }
            6 if h >= 1 => {
                ops.push(Op::LocalSet(rng.below(LOCALS as u64) as u32));
                h -= 1;
            }
            7 if h >= 1 => ops.push(Op::LocalTee(rng.below(LOCALS as u64) as u32)),
            8..=11 if h >= 2 => {
                ops.push(Op::Binary(rng.below(BINARY as u64) as u8));
                h -= 1;
            }
            12 if h >= 1 => ops.push(Op::Eqz),
            13 if h >= 1 => {
                ops.push(Op::Drop);
                h -= 1;
            }
            14 if h >= 3 => {
                ops.push(Op::Select);
                h -= 2;
            }
            15 => ops.push(Op::Nop),
            16 | 17 => {
                let p = rng.below(h.min(2) as u64 + 1) as u32;
                let r = rng.below(3) as u32;
                let is_loop = rng.below(3) == 0;
                labels.push(if is_loop { p } else { r });
                let inner = body(rng, labels, p, r, size);
                labels.pop();
                ops.push(if is_loop { Op::Loop(p, r, inner) } else { Op::Block(p, r, inner) });
                h = h - p + r;
            }
            18 | 19 if h >= 1 => {
                let p = rng.below((h - 1).min(2) as u64 + 1) as u32;
                let with_else = rng.below(2) == 0;
                let r = if with_else { rng.below(3) as u32 } else { p };
                labels.push(r);
                let then = body(rng, labels, p, r, size);
                let otherwise = if with_else { Some(body(rng, labels, p, r, size)) } else { None };
                labels.pop();
                ops.push(Op::If(p, r, then, otherwise));
                h = h - 1 - p + r;
            }
            20 | 21 if h >= carried + 1 => {
                ops.push(Op::BrIf(depth));
                h -= 1;
            }
            22 if h >= carried => {
                ops.push(Op::Br(depth));
                dead(rng, &mut ops);
                return ops;
            }
            23 if h >= 2 => {
                // all targets of a table carry as many operands: those of the default
                let mut targets = Vec::new();
                for _ in 0..rng.below(4) {
                    let other = rng.below(labels.len() as u64 + 1) as u32;
                    let arity =
                        if (other as usize) < labels.len() { labels[labels.len() - 1 - other as usize] } else { 1 };
                    if arity == carried {
                        targets.push(other);
                    }
                }
                if h >= carried + 1 {
                    ops.push(Op::BrTable(targets, depth));
                    dead(rng, &mut ops);
                    return ops;
                }
            }
            24 if h >= 1 && rng.below(4) == 0 => {
                ops.push(Op::Return);
                dead(rng, &mut ops);
                return ops;
            }
            25 if rng.below(8) == 0 => {
                ops.push(Op::Unreachable);
                dead(rng, &mut ops);
                return ops;
            }
            _ => {}
        }
    }
    while h > results {
        ops.push(Op::Drop);
        h -= 1;
    }
    while h < results {
        ops.push(Op::Const(rng.constant()));
        h += 1;
    }
    ops
}

/// Appends code that cannot be reached.
fn dead(rng: &mut Rng, ops: &mut Vec<Op>) {
    for _ in 0..rng.below(3) {
        match rng.below(5) {
            0 => ops.push(Op::Const(7)),
            1 => ops.push(Op::Binary(0)),
            2 => ops.push(Op::Block(0, 1, vec![Op::Const(1), Op::Br(0)])),
            3 => ops.push(Op::If(0, 0, vec![Op::LocalGet(0), Op::Drop], Some(vec![Op::Nop]))),
            _ => ops.push(Op::Loop(0, 0, vec![Op::Unreachable])),
        }
    }
}

fn binary(op: u8, a: u32, b: u32) -> Result<u32, TrapCode> {
    let (sa, sb) = (a as i32, b as i32);
    Ok(match op {
        0 => a.wrapping_add(b),
        1 => a.wrapping_sub(b),
        2 => a.wrapping_mul(b),
        3 => a & b,
        4 => a | b,
        5 => a ^ b,
        6 => a.wrapping_shl(b),
        7 => sa.wrapping_shr(b) as u32,
        8 => a.wrapping_shr(b),
        9 => a.rotate_left(b),
        10 => (a == b) as u32,
        11 => (a != b) as u32,
        12 => (sa < sb) as u32,
        13 => (a < b) as u32,
        14 => (sa > sb) as u32,
        15 => (a >= b) as u32,
        16 => (sa <= sb) as u32,
        17 => {
            if b == 0 {
                return Err(TrapCode::IntegerDivisionByZero);
            }
            if sa == i32::MIN && sb == -1 {
                return Err(TrapCode::IntegerOverflow);
            }
            sa.wrapping_div(sb) as u32
        }
        18 => {
            if b == 0 {
                return Err(TrapCode::IntegerDivisionByZero);
            }
            a % b
        }
        _ => {
            if b == 0 {
                return Err(TrapCode::IntegerDivisionByZero);
            }
            if sa == i32::MIN && sb == -1 {
                return Err(TrapCode::IntegerOverflow);
            }
            sa.wrapping_rem(sb) as u32
        }
    })
}

enum Signal {
    Next,
    Branch(u32),
    Return,
    Trap(TrapCode),
    Timeout,
}

/// The reference: executes the operators on a stack of operands.
fn interpret(ops: &[Op], stack: &mut Vec<u32>, locals: &mut [u32], steps: &mut u32) -> Signal {
    for op in ops {
        if *steps == 0 {
            return Signal::Timeout;
        }
        *steps -= 1;
        match op {
            Op::Const(value) => stack.push(*value as u32),
            Op::LocalGet(i) => stack.push(locals[*i as usize]),
            Op::LocalSet(i) => locals[*i as usize] = stack.pop().unwrap(),
            Op::LocalTee(i) => locals[*i as usize] = *stack.last().unwrap(),
            Op::Binary(op) => {
                let b = stack.pop().unwrap();
                let a = stack.pop().unwrap();
                match binary(*op, a, b) {
                    Ok(value) => stack.push(value),
                    Err(code) => return Signal::Trap(code),
                }
            }
            Op::Eqz => {
                let a = stack.pop().unwrap();
                stack.push((a == 0) as u32);
            }
            Op::Drop => {
                stack.pop().unwrap();
            }
            Op::Select => {
                let c = stack.pop().unwrap();
                let b = stack.pop().unwrap();
                let a = stack.pop().unwrap();
                stack.push(if c != 0 { a } else { b });
            }
            Op::Nop => {}
            Op::Block(p, r, inner) => {
                let base = stack.len() - *p as usize;
                match interpret(inner, stack, locals, steps) {
                    Signal::Next => {}
                    Signal::Branch(0) => carry(stack, base, *r),
                    Signal::Branch(n) => return Signal::Branch(n - 1),
                    other => return other,
                }
            }
            Op::Loop(p, _, inner) => loop {
                let base = stack.len() - *p as usize;
                match interpret(inner, stack, locals, steps) {
                    Signal::Next => break,
                    Signal::Branch(0) => carry(stack, base, *p),
                    Signal::Branch(n) => return Signal::Branch(n - 1),
                    other => return other,
                }
            },
            Op::If(p, r, then, otherwise) => {
                let c = stack.pop().unwrap();
                let base = stack.len() - *p as usize;
                let empty = Vec::new();
                let branch = if c != 0 { then } else { otherwise.as_ref().unwrap_or(&empty) };
                match interpret(branch, stack, locals, steps) {
                    Signal::Next => {}
                    Signal::Branch(0) => carry(stack, base, *r),
                    Signal::Branch(n) => return Signal::Branch(n - 1),
                    other => return other,
                }
            }
            Op::Br(depth) => return Signal::Branch(*depth),
            Op::BrIf(depth) => {
                if stack.pop().unwrap() != 0 {
                    return Signal::Branch(*depth);
                }
            }
            Op::BrTable(targets, default) => {
                let index = stack.pop().unwrap() as usize;
                return Signal::Branch(*targets.get(index).unwrap_or(default));
            }
            Op::Return => return Signal::Return,
            Op::Unreachable => return Signal::Trap(TrapCode::UnreachableCodeReached),
        }
    }
    Signal::Next
}

fn carry(stack: &mut Vec<u32>, base: usize, n: u32) {
    let values = stack.split_off(stack.len() - n as usize);
    stack.truncate(base);
    stack.extend(values);
}

/// Whether one of the operands below the topmost `above` is the register of a local in code
/// that can be reached. Such an operand is read when it is used, and saved when the local is
/// written: a write inside a frame that is entered now may be skipped or repeated.
fn local_waits(t: &FuncTranslator, above: usize) -> bool {
    let stack = t.stack();
    t.is_reachable()
        && (0..stack.height() - above).any(|i| match stack.get(i) {
            TypedProvider::Register(register) => stack.is_local(register),
            TypedProvider::Const(_) => false,
        })
}

/// Hands the operators to the translator, after checking that it accepts each of them.
/// Sets `waiting` if a frame is entered while a local waits among the operands.
fn translate(t: &mut FuncTranslator, ops: &[Op], waiting: &mut bool) {
    for op in ops {
        match op {
            Op::Const(value) => t.visit_i32_const(*value).unwrap(),
            Op::LocalGet(i) => t.visit_local_get(*i).unwrap(),
            Op::LocalSet(i) => {
                assert!(t.has_operands(1));
                t.visit_local_set(*i).unwrap()
            }
            Op::LocalTee(i) => {
                assert!(t.has_operands(1));
                t.visit_local_tee(*i).unwrap()
            }
            Op::Binary(op) => {
                assert!(t.has_operands(2));
                match op {
                    0 => t.visit_i32_add(),
                    1 => t.visit_i32_sub(),
                    2 => t.visit_i32_mul(),
                    3 => t.visit_i32_and(),
                    4 => t.visit_i32_or(),
                    5 => t.visit_i32_xor(),
                    6 => t.visit_i32_shl(),
                    7 => t.visit_i32_shr_s(),
                    8 => t.visit_i32_shr_u(),
                    9 => t.visit_i32_rotl(),
                    10 => t.visit_i32_eq(),
                    11 => t.visit_i32_ne(),
                    12 => t.visit_i32_lt_s(),
                    13 => t.visit_i32_lt_u(),
                    14 => t.visit_i32_gt_s(),
                    15 => t.visit_i32_ge_u(),
                    16 => t.visit_i32_le_s(),
                    17 => t.visit_i32_div_s(),
                    18 => t.visit_i32_rem_u(),
                    _ => t.visit_i32_rem_s(),
                }
                .unwrap()
            }
            Op::Eqz => {
                assert!(t.has_operands(1));
                t.visit_i32_eqz().unwrap()
            }
            Op::Drop => {
                assert!(t.has_operands(1));
                t.visit_drop().unwrap()
            }
            Op::Select => {
                assert!(t.has_operands(3));
                t.visit_select().unwrap()
            }
            Op::Nop => t.visit_nop().unwrap(),
            Op::Block(p, r, inner) => {
                assert!(t.has_operands(*p as usize));
                *waiting |= local_waits(t, 0);
                t.visit_block(BlockType::new(*p, *r)).unwrap();
                translate(t, inner, waiting);
                assert!(t.accepts_end());
                t.visit_end().unwrap();
            }
            Op::Loop(p, r, inner) => {
                assert!(t.has_operands(*p as usize));
                *waiting |= local_waits(t, 0);
                t.visit_loop(BlockType::new(*p, *r)).unwrap();
                translate(t, inner, waiting);
                assert!(t.accepts_end());
                t.visit_end().unwrap();
            }
            Op::If(p, r, then, otherwise) => {
                assert!(t.has_operands(*p as usize + 1));
                *waiting |= local_waits(t, 1);
                t.visit_if(BlockType::new(*p, *r)).unwrap();
                translate(t, then, waiting);
                if let Some(otherwise) = otherwise {
                    assert!(t.accepts_else());
                    t.visit_else().unwrap();
                    translate(t, otherwise, waiting);
                }
                assert!(t.accepts_end());
                t.visit_end().unwrap();
            }
            Op::Br(depth) => {
                assert!(t.accepts_branch(*depth, 0));
                t.visit_br(*depth).unwrap()
            }
            Op::BrIf(depth) => {
                assert!(t.accepts_branch(*depth, 1));
                t.visit_br_if(*depth).unwrap()
            }
            Op::BrTable(targets, default) => {
                let mut all = targets.clone();
                all.push(*default);
                assert!(t.accepts_br_table(&all));
                t.visit_br_table(targets, *default).unwrap()
            }
            Op::Return => {
                assert!(t.has_operands(1));
                t.visit_return().unwrap()
            }
            Op::Unreachable => t.visit_unreachable().unwrap(),
        }
    }
}

fn check(seed: u64) -> Result<bool, String> {
    let mut rng = Rng(seed.wrapping_mul(0x9E37_79B9_7F4A_7C15) | 1);
    let mut size = 6 + rng.below(60) as u32;
    let mut labels = Vec::new();
    let ops = body(&mut rng, &mut labels, 0, 1, &mut size);
    let params = [rng.constant() as u32, rng.below(6) as u32];

    let mut stack = Vec::new();
    let mut locals = [params[0], params[1], 0];
    let mut steps = 20_000;
    let expected = match interpret(&ops, &mut stack, &mut locals, &mut steps) {
        Signal::Next | Signal::Return | Signal::Branch(_) => Ok(vec![*stack.last().unwrap() as u64]),
        Signal::Trap(code) => Err(ExecError::Trap(code)),
        Signal::Timeout => return Ok(false),
    };

    let res = ModuleResources::new();
    let mut t = FuncTranslator::new(&res, LOCALS as usize, 1, None).unwrap();
    let mut waiting = false;
    translate(&mut t, &ops, &mut waiting);
    assert!(t.accepts_end(), "seed {}: {:?}", seed, ops);
    t.visit_end().unwrap();
    assert_eq!(t.control_depth(), 0);
    if waiting {
        return Ok(false);
    }
    let func = t.finish(PARAMS);
    let listing = format!("{:?}\n{:?}", ops, func.instrs);
    let mut engine = EngineInner::new(1 << 16);
    engine.alloc_func(func);
    let words: Vec<u64> = params.iter().map(|p| *p as u64).collect();
    let actual = match engine.execute_func(0, &words, None, 10_000_000) {
        Ok(Outcome::Returned(values)) => Ok(values),
        Ok(other) => return Err(format!("seed {}: the engine stopped with {:?}\n{}", seed, other, listing)),
        Err(error) => Err(error),
    };
    if actual != expected {
        return Err(format!(
            "seed {} with the parameters {:?}: {:?} in place of {:?}\n{}",
            seed, params, actual, expected, listing
        ));
    }
    Ok(true)
}

fn compare(seeds: std::ops::RangeInclusive<u64>) {
    let mut compared = 0;
    let mut failures = Vec::new();
    for seed in seeds {
        match check(seed) {
            Ok(true) => compared += 1,
            Ok(false) => {}
            Err(failure) => failures.push(failure),
        }
    }
    failures.sort_by_key(|failure| failure.len());
    failures.truncate(4);
    assert!(failures.is_empty(), "{}", failures.join("\n\n"));
    assert!(compared > 8000, "only {} programs were compared", compared);
}

#[test]
fn translated_programs_compute_what_the_operators_say() {
    compare(1..=20000);
}

#[test]
fn more_translated_programs_compute_what_the_operators_say() {
    compare(100_001..=120_000);
}
