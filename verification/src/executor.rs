//! Execution of one instruction on the registers of the current frame.

use vstd::prelude::*;
use crate::error::TrapCode;
use crate::instr::Instruction;

use crate::regfile::{copy_sources, register_list, register_list_slots, run_copy, RegisterFile};
use crate::register::{RegSpan, Register};

verus! {

/// Why an execution ended abnormally.
#[derive(Clone, Copy, Debug, PartialEq, Eq, Structural, Hash)]
pub enum ExecError {
    /// The code trapped.
    Trap(TrapCode),
    /// The code is not code that the translator emits: it names a register
    /// that the frame does not have, branches out of the function, or
    /// holds a slot where an instruction must stand.
    InvalidCode,
}

/// What one instruction does.
pub enum Step {
    /// The execution goes on at the position `ip`, with these cells in the
    /// register arena and this much fuel.
    Next { cells: Seq<u64>, ip: int, fuel: Option<u64> },
    /// The function returns these values.
    Return { values: Seq<u64> },
    /// The function calls the function of this module with the code
    /// `func`, with these arguments; the results go to the registers from
    /// `results` on, and the execution goes on at the position `resume`.
    Call { func: u32, results: RegSpan, args: Seq<u64>, resume: int },
    /// The function calls the function of this module with the code
    /// `func` in place of returning.
    ReturnCall { func: u32, args: Seq<u64> },
    /// The instruction goes beyond the registers and the code of this
    /// module: to an imported function, a table, a memory or a global.
    Host,
    /// The instruction traps.
    Trap(TrapCode),
    /// The code is not code that the translator emits.
    Invalid,
}

impl RegisterFile {
    /// Whether the frame has the register `r` and the register can be
    /// written: it holds no constant.
    pub open spec fn can_set(self, r: Register) -> bool {
        r.0 >= 0 && self.has(r.0 as int)
    }

    /// The step that writes `value` to the register `result` and goes on
    /// at the position `ip`.
    pub open spec fn write_result(self, result: Register, value: u64, ip: int, fuel: Option<u64>) -> Step {
        if self.can_set(result) {
            Step::Next { cells: self.set(result.0 as int, value).cells, ip, fuel }
        } else {
            Step::Invalid
        }
    }

    /// The step that writes the result of an operator, or traps with its
    /// trap.
    pub open spec fn write_outcome(self, result: Register, outcome: Result<u64, TrapCode>, ip: int, fuel: Option<u64>) -> Step {
        match outcome {
            Ok(value) => self.write_result(result, value, ip, fuel),
            Err(code) => Step::Trap(code),
        }
    }

    /// The step that returns the words of `registers`.
    pub open spec fn return_registers(self, registers: Seq<Register>) -> Step {
        if self.has_all(registers) {
            Step::Return { values: self.gather(registers) }
        } else {
            Step::Invalid
        }
    }
}

/// Where a branch at the position `ip` with the distance `offset` goes on,
/// if that is in the code.
pub open spec fn branch_target(code: Seq<Instruction>, ip: int, offset: int) -> Option<int> {
    if 0 <= ip + offset < code.len() {
        Some(ip + offset)
    } else {
        None
    }
}

/// The step of a branch that is taken if `taken`.
pub open spec fn branch_step(code: Seq<Instruction>, ip: int, offset: int, taken: bool, frame: RegisterFile, fuel: Option<
    u64,
>) -> Step {
    if taken {
        match branch_target(code, ip, offset) {
            Some(target) => Step::Next { cells: frame.cells, ip: target, fuel },
            None => Step::Invalid,
        }
    } else {
        Step::Next { cells: frame.cells, ip: ip + 1, fuel }
    }
}

/// What the copy instruction at the position `ip` does: what
/// [`run_copy`] says, if the frame has the registers that the instruction
/// names and those that it writes hold no constants.
pub open spec fn copy_step(code: Seq<Instruction>, ip: int, frame: RegisterFile, fuel: Option<u64>) -> Step {
    let cells = run_copy(code, ip, frame).cells;
    match code[ip] {
        Instruction::Copy { result, value } => if frame.can_set(result) && frame.has(value.0 as int) {
            Step::Next { cells, ip: ip + 1, fuel }
        } else {
            Step::Invalid
        },
        Instruction::Copy2 { results, v0, v1 } => if results.head.0 >= 0 && frame.has_span(
            results.head.0 as int,
            2,
        ) && frame.has_all(seq![v0, v1]) {
            Step::Next { cells, ip: ip + 1, fuel }
        } else {
            Step::Invalid
        },
        Instruction::CopyMany { results, v0, v1 } => {
            let sources = seq![v0, v1] + register_list(code, ip + 1);
            if results.head.0 >= 0 && frame.has_span(results.head.0 as int, sources.len() as int) && frame.has_all(
                sources,
            ) {
                Step::Next { cells, ip: ip + 1 + register_list_slots(code, ip + 1), fuel }
            } else {
                Step::Invalid
            }
        },
        Instruction::CopySpan { results, values, len } | Instruction::CopySpanRev { results, values, len } => if results.head.0
            >= 0 && frame.has_span(results.head.0 as int, len as int) && frame.has_span(
            values.head.0 as int,
            len as int,
        ) {
            Step::Next { cells, ip: ip + 1, fuel }
        } else {
            Step::Invalid
        },
        _ => Step::Invalid,
    }
}

/// What the instruction at the position `ip` of the code `code` does to
/// the registers `frame`, with the fuel `fuel` if fuel is metered.
pub open spec fn step(code: Seq<Instruction>, ip: int, frame: RegisterFile, fuel: Option<u64>) -> Step {
    if !(0 <= ip < code.len()) {
        Step::Invalid
    } else {
        let next = ip + 1;
        match code[ip] {
            Instruction::Trap { code } => Step::Trap(code),
            Instruction::ConsumeFuel { amount } => match fuel {
                None => Step::Next { cells: frame.cells, ip: next, fuel },
                Some(left) => if left >= amount {
                    Step::Next { cells: frame.cells, ip: next, fuel: Some((left - amount) as u64) }
                } else {
                    Step::Trap(TrapCode::OutOfFuel)
                },
            },
            Instruction::Return => Step::Return { values: Seq::empty() },
            Instruction::ReturnReg { value } => frame.return_registers(seq![value]),
            Instruction::ReturnReg2 { v0, v1 } => frame.return_registers(seq![v0, v1]),
            Instruction::ReturnReg3 { v0, v1, v2 } => frame.return_registers(seq![v0, v1, v2]),
            Instruction::ReturnImm32 { value } => Step::Return { values: seq![value as u64] },
            Instruction::ReturnI64Imm32 { value } => Step::Return { values: seq![(value as i64) as u64] },
            Instruction::ReturnSpan { values, len } => frame.return_registers(
                Seq::new(len as nat, |i: int| Register((values.head.0 + i) as i16)),
            ),
            Instruction::ReturnMany { v0, v1, v2 } => frame.return_registers(
                seq![v0, v1, v2] + register_list(code, next),
            ),
            Instruction::Branch { offset } => branch_step(code, ip, offset.0 as int, true, frame, fuel),
            Instruction::BranchEqz { condition, offset } => if frame.has(condition.0 as int) {
                branch_step(code, ip, offset.0 as int, frame.get(condition.0 as int) as u32 == 0, frame, fuel)
            } else {
                Step::Invalid
            },
            Instruction::BranchNez { condition, offset } => if frame.has(condition.0 as int) {
                branch_step(code, ip, offset.0 as int, frame.get(condition.0 as int) as u32 != 0, frame, fuel)
            } else {
                Step::Invalid
            },
            Instruction::BranchBinary { op, lhs, rhs, offset } => if frame.has(lhs.0 as int) && frame.has(
                rhs.0 as int,
            ) {
                match op.apply(frame.get(lhs.0 as int), frame.get(rhs.0 as int)) {
                    Ok(holds) => branch_step(code, ip, offset.0 as int, holds as u32 != 0, frame, fuel),
                    Err(code) => Step::Trap(code),
                }
            } else {
                Step::Invalid
            },
            Instruction::BranchBinaryImm { op, lhs, rhs, offset } => if frame.has(lhs.0 as int) {
                match op.apply(frame.get(lhs.0 as int), op.imm16_word(rhs)) {
                    Ok(holds) => branch_step(code, ip, offset.0 as int, holds as u32 != 0, frame, fuel),
                    Err(code) => Step::Trap(code),
                }
            } else {
                Step::Invalid
            },
            Instruction::BranchTable { index, len_targets } => if frame.has(index.0 as int) && len_targets > 0 {
                let chosen = frame.get(index.0 as int) as u32;
                let arm = if chosen < len_targets {
                    chosen
                } else {
                    (len_targets - 1) as u32
                };
                branch_step(code, ip, 1 + arm, true, frame, fuel)
            } else {
                Step::Invalid
            },
            Instruction::Copy { .. } | Instruction::Copy2 { .. } | Instruction::CopySpan { .. }
            | Instruction::CopySpanRev { .. } | Instruction::CopyMany { .. } => copy_step(code, ip, frame, fuel),
            Instruction::CopyImm32 { result, value } => frame.write_result(result, value as u64, next, fuel),
            Instruction::CopyI64Imm32 { result, value } => frame.write_result(
                result,
                (value as i64) as u64,
                next,
                fuel,
            ),
            Instruction::CallInternal0 { results, func } => Step::Call {
                func,
                results,
                args: Seq::empty(),
                resume: next,
            },
            Instruction::CallInternal { results, func } => if frame.has_all(register_list(code, next)) {
                Step::Call {
                    func,
                    results,
                    args: frame.gather(register_list(code, next)),
                    resume: next + register_list_slots(code, next),
                }
            } else {
                Step::Invalid
            },
            Instruction::ReturnCallInternal0 { func } => Step::ReturnCall { func, args: Seq::empty() },
            Instruction::ReturnCallInternal { func } => if frame.has_all(register_list(code, next)) {
                Step::ReturnCall { func, args: frame.gather(register_list(code, next)) }
            } else {
                Step::Invalid
            },
            Instruction::Select { result, condition, lhs } => if next < code.len() && frame.has(
                condition.0 as int,
            ) && frame.has(lhs.0 as int) {
                match code[next] {
                    Instruction::Register1 { r0 } => if frame.has(r0.0 as int) {
                        frame.write_result(
                            result,
                            if frame.get(condition.0 as int) as u32 != 0 {
                                frame.get(lhs.0 as int)
                            } else {
                                frame.get(r0.0 as int)
                            },
                            next + 1,
                            fuel,
                        )
                    } else {
                        Step::Invalid
                    },
                    _ => Step::Invalid,
                }
            } else {
                Step::Invalid
            },
            Instruction::Unary { op, result, input } => if frame.has(input.0 as int) {
                frame.write_outcome(result, op.apply(frame.get(input.0 as int)), next, fuel)
            } else {
                Step::Invalid
            },
            Instruction::Binary { op, result, lhs, rhs } => if frame.has(lhs.0 as int) && frame.has(rhs.0 as int) {
                frame.write_outcome(
                    result,
                    op.apply(frame.get(lhs.0 as int), frame.get(rhs.0 as int)),
                    next,
                    fuel,
                )
            } else {
                Step::Invalid
            },
            Instruction::BinaryAssign { op, inout, rhs } => if frame.has(inout.0 as int) && frame.has(rhs.0 as int) {
                frame.write_outcome(
                    inout,
                    op.apply(frame.get(inout.0 as int), frame.get(rhs.0 as int)),
                    next,
                    fuel,
                )
            } else {
                Step::Invalid
            },
            Instruction::BinaryAssignImm32 { op, inout, rhs } => if frame.has(inout.0 as int) {
                frame.write_outcome(inout, op.apply(frame.get(inout.0 as int), op.imm32_word(rhs)), next, fuel)
            } else {
                Step::Invalid
            },
            Instruction::BinaryImm16 { op, result, lhs, rhs } => if frame.has(lhs.0 as int) {
                frame.write_outcome(result, op.apply(frame.get(lhs.0 as int), op.imm16_word(rhs)), next, fuel)
            } else {
                Step::Invalid
            },
            Instruction::BinaryImm16Rev { op, result, lhs, rhs } => if frame.has(rhs.0 as int) {
                frame.write_outcome(result, op.apply(op.imm16_rev_word(lhs), frame.get(rhs.0 as int)), next, fuel)
            } else {
                Step::Invalid
            },
            Instruction::RegisterList { .. } | Instruction::Register3 { .. } | Instruction::Register2 { .. }
            | Instruction::Register1 { .. } | Instruction::Const32 { .. } | Instruction::CallIndirectParams { .. }
            | Instruction::CallIndirectParamsImm16 { .. } | Instruction::DataIdx { .. } | Instruction::ElemIdx { .. }
            | Instruction::TableIdx { .. } => Step::Invalid,
            _ => Step::Host,
        }
    }
}

/// The registers of the current frame in the register arena.
#[derive(Debug)]
pub struct Registers {
    pub(crate) cells: Vec<u64>,
    pub(crate) base: usize,
    pub(crate) zero: usize,
}

impl View for Registers {
    type V = RegisterFile;

    open(crate) spec fn view(&self) -> RegisterFile {
        RegisterFile { cells: self.cells@, base: self.base as int, zero: self.zero as int }
    }
}

impl Registers {
    /// The frame lies in the arena.
    pub open spec fn wf(&self) -> bool {
        self@.base <= self@.zero <= self@.cells.len()
    }

    /// An arena without cells.
    pub fn new() -> (r: Registers)
        ensures
            r.wf(),
            r@.cells.len() == 0,
            r@.base == 0,
            r@.zero == 0,
    {
        Registers { cells: Vec::new(), base: 0, zero: 0 }
    }

    /// The position of the cell of the register `r`, if the frame has it.
    pub fn index(&self, r: Register) -> (i: Option<usize>)
        requires
            self.wf(),
        ensures
            i is Some == self@.has(r.0 as int),
            i matches Some(at) ==> at == self@.zero + r.0,
    {
        if r.0 >= 0 {
            let off = r.0 as usize;
            if off < self.cells.len() - self.zero {
                Some(self.zero + off)
            } else {
                None
            }
        } else {
            let off = (-(r.0 as i32)) as usize;
            if off <= self.zero - self.base {
                Some(self.zero - off)
            } else {
                None
            }
        }
    }

    /// The word of the register `r`, if the frame has it.
    pub fn get(&self, r: Register) -> (v: Option<u64>)
        requires
            self.wf(),
        ensures
            v == if self@.has(r.0 as int) {
                Some(self@.get(r.0 as int))
            } else {
                None::<u64>
            },
    {
        match self.index(r) {
            Some(i) => Some(self.cells[i]),
            None => None,
        }
    }

    /// Writes `value` to the register `r`, if the frame has it and it
    /// holds no constant. Tells whether it did.
    pub fn set(&mut self, r: Register, value: u64) -> (done: bool)
        requires
            old(self).wf(),
        ensures
            final(self).wf(),
            done == old(self)@.can_set(r),
            final(self)@ == if done {
                old(self)@.set(r.0 as int, value)
            } else {
                old(self)@
            },
    {
        if r.0 < 0 {
            return false;
        }
        match self.index(r) {
            Some(i) => {
                self.cells[i] = value;
                true
            },
            None => false,
        }
    }

    /// The words of the registers `registers`, if the frame has them.
    pub fn gather(&self, registers: &Vec<Register>) -> (r: Option<Vec<u64>>)
        requires
            self.wf(),
        ensures
            r is Some == self@.has_all(registers@),
            r matches Some(words) ==> words@ == self@.gather(registers@),
    {
        let n = registers.len();
        let mut words: Vec<u64> = Vec::new();
        let mut i: usize = 0;
        while i < n
            invariant
                i <= n,
                n == registers.len(),
                self.wf(),
                words@.len() == i,
                forall|j: int| 0 <= j < i ==> self@.has((#[trigger] registers@[j]).0 as int),
                forall|j: int| 0 <= j < i ==> #[trigger] words@[j] == self@.get(registers@[j].0 as int),
            decreases n - i,
        {
            match self.get(registers[i]) {
                Some(word) => {
                    words.push(word);
                },
                None => {
                    return None;
                },
            }
            i += 1;
        }
        assert(words@ =~= self@.gather(registers@));
        Some(words)
    }

    /// Writes `words` to the registers from `head` on, if the frame has
    /// them and they hold no constants. Tells whether it did.
    pub fn write(&mut self, head: Register, words: &Vec<u64>) -> (done: bool)
        requires
            old(self).wf(),
        ensures
            final(self).wf(),
            done == (head.0 >= 0 && old(self)@.has_span(head.0 as int, words@.len() as int)),
            final(self)@ == if done {
                old(self)@.write(head.0 as int, words@)
            } else {
                old(self)@
            },
    {
        let n = words.len();
        if head.0 < 0 {
            return false;
        }
        if n == 0 {
            assert(self@.cells =~= self@.write(head.0 as int, words@).cells);
            return true;
        }
        let room = self.cells.len() - self.zero;
        if head.0 as usize >= room || n > room - head.0 as usize {
            return false;
        }
        let start = self.zero + head.0 as usize;
        let mut i: usize = 0;
        while i < n
            invariant
                i <= n,
                n == words.len(),
                start == old(self)@.zero + head.0,
                start + n <= self.cells.len(),
                self.base == old(self).base,
                self.zero == old(self).zero,
                self.cells.len() == old(self).cells.len(),
                forall|c: int| start <= c < start + i ==> #[trigger] self.cells@[c] == words@[c - start],
                forall|c: int|
                    0 <= c < self.cells.len() && !(start <= c < start + i) ==> #[trigger] self.cells@[c] == old(
                        self,
                    ).cells@[c],
            decreases n - i,
        {
            self.cells[start + i] = words[i];
            i += 1;
        }
        assert(self@.cells =~= old(self)@.write(head.0 as int, words@).cells);
        true
    }
}

/// What the execution of an instruction asks of the engine.
#[derive(Debug)]
pub enum CallOutcome {
    /// Nothing: the execution goes on in the same frame.
    Continue,
    /// To return these values from the current frame.
    Return { returned: Vec<u64> },
    /// To call the function with the code `callee` with the arguments
    /// `params`, and to leave its results in the registers from `results`
    /// on of the current frame.
    Call { results: RegSpan, callee: u32, params: Vec<u64> },
    /// To call the function with the code `callee` with the arguments
    /// `params` in place of the current frame.
    ReturnCall { callee: u32, params: Vec<u64> },
    /// To hand the instruction at the current position to the embedder.
    Host,
}

/// The registers of the current frame, the position in its code and the
/// fuel that is left.
#[derive(Debug)]
pub struct Machine {
    /// The registers of the current frame.
    pub regs: Registers,
    /// The position of the next instruction in the code of the function.
    pub ip: usize,
    /// The fuel that is left, if fuel is metered.
    pub fuel: Option<u64>,
}

impl Machine {
    /// Whether the machine is in the state that `step` names and `r` is
    /// what `step` asks of the engine, for a machine that was `before`.
    pub open spec fn stepped(&self, before: &Machine, step: Step, r: Result<CallOutcome, ExecError>) -> bool {
        match step {
            Step::Next { cells, ip, fuel } => {
                &&& r matches Ok(CallOutcome::Continue)
                &&& self.regs@ == (RegisterFile { cells, ..before.regs@ })
                &&& self.ip == ip
                &&& self.fuel == fuel
            },
            Step::Return { values } => {
                &&& r matches Ok(CallOutcome::Return { returned })
                &&& returned@ == values
                &&& self.regs@ == before.regs@
                &&& self.ip == before.ip
                &&& self.fuel == before.fuel
            },
            Step::Call { func, results, args, resume } => {
                &&& r matches Ok(CallOutcome::Call { results: res, callee, params })
                &&& res == results
                &&& callee == func
                &&& params@ == args
                &&& self.regs@ == before.regs@
                &&& self.ip == resume
                &&& self.fuel == before.fuel
            },
            Step::ReturnCall { func, args } => {
                &&& r matches Ok(CallOutcome::ReturnCall { callee, params })
                &&& callee == func
                &&& params@ == args
                &&& self.regs@ == before.regs@
                &&& self.ip == before.ip
                &&& self.fuel == before.fuel
            },
            Step::Host => {
                &&& r matches Ok(CallOutcome::Host)
                &&& self.regs@ == before.regs@
                &&& self.ip == before.ip
                &&& self.fuel == before.fuel
            },
            Step::Trap(code) => r matches Err(ExecError::Trap(c)) && c == code,
            Step::Invalid => r matches Err(ExecError::InvalidCode),
        }
    }

    /// The invariant of the machine.
    pub open spec fn wf(&self) -> bool {
        self.regs.wf()
    }

    /// The registers that the register list starting at the slot `at`
    /// names, and the number of slots that it takes.
    pub fn decode_register_list(code: &Vec<Instruction>, at: usize) -> (r: (Vec<Register>, usize))
        ensures
            r.0@ == register_list(code@, at as int),
            r.1 == register_list_slots(code@, at as int),
            at + r.1 <= code.len() || r.1 == 0,
    {
        let mut list: Vec<Register> = Vec::new();
        let mut i: usize = at;
        let n = code.len();
        if at >= n {
            return (list, 0);
        }
        while i < n
            invariant
                at <= i <= n,
                n == code.len(),
                register_list(code@, at as int) == list@ + register_list(code@, i as int),
                register_list_slots(code@, at as int) == (i - at) + register_list_slots(code@, i as int),
            decreases n - i,
        {
            match code[i] {
                Instruction::RegisterList { r0, r1, r2 } => {
                    let ghost before = list@;
                    list.push(r0);
                    list.push(r1);
                    list.push(r2);
                    proof {
                        assert(list@ =~= before + seq![r0, r1, r2]);
                        assert(before + (seq![r0, r1, r2] + register_list(code@, i + 1)) =~= list@ + register_list(
                            code@,
                            i + 1,
                        ));
                    }
                    i += 1;
                },
                Instruction::Register3 { r0, r1, r2 } => {
                    let ghost before = list@;
                    list.push(r0);
                    list.push(r1);
                    list.push(r2);
                    assert(list@ =~= before + seq![r0, r1, r2]);
                    return (list, i - at + 1);
                },
                Instruction::Register2 { r0, r1 } => {
                    let ghost before = list@;
                    list.push(r0);
                    list.push(r1);
                    assert(list@ =~= before + seq![r0, r1]);
                    return (list, i - at + 1);
                },
                Instruction::Register1 { r0 } => {
                    let ghost before = list@;
                    list.push(r0);
                    assert(list@ =~= before + seq![r0]);
                    return (list, i - at + 1);
                },
                _ => {
                    assert(list@ + Seq::<Register>::empty() =~= list@);
                    return (list, i - at);
                },
            }
        }
        assert(list@ + Seq::<Register>::empty() =~= list@);
        (list, i - at)
    }

    /// Writes `value` to the register `result` and goes on at the position
    /// `ip`.
    fn write_result(&mut self, result: Register, value: u64, ip: usize) -> (r: Result<CallOutcome, ExecError>)
        requires
            old(self).wf(),
        ensures
            final(self).wf(),
            final(self).stepped(old(self), old(self).regs@.write_result(result, value, ip as int, old(self).fuel), r),
    {
        if self.regs.set(result, value) {
            self.ip = ip;
            Ok(CallOutcome::Continue)
        } else {
            Err(ExecError::InvalidCode)
        }
    }

    /// Writes the result of an operator, or traps with its trap.
    fn write_outcome(&mut self, result: Register, outcome: Result<u64, TrapCode>, ip: usize) -> (r: Result<
        CallOutcome,
        ExecError,
    >)
        requires
            old(self).wf(),
        ensures
            final(self).wf(),
            final(self).stepped(old(self), old(self).regs@.write_outcome(result, outcome, ip as int, old(self).fuel), r),
    {
        match outcome {
            Ok(value) => self.write_result(result, value, ip),
            Err(code) => Err(ExecError::Trap(code)),
        }
    }

    /// Returns the words of `registers`.
    fn return_registers(&self, registers: &Vec<Register>) -> (r: Result<CallOutcome, ExecError>)
        requires
            self.wf(),
        ensures
            self.stepped(self, self.regs@.return_registers(registers@), r),
    {
        match self.regs.gather(registers) {
            Some(returned) => Ok(CallOutcome::Return { returned }),
            None => Err(ExecError::InvalidCode),
        }
    }

    /// Branches by `offset` if `taken`, else goes on at the next position.
    fn branch(&mut self, code: &Vec<Instruction>, offset: i64, taken: bool) -> (r: Result<CallOutcome, ExecError>)
        requires
            old(self).wf(),
            old(self).ip < code.len(),
            -0x8000_0000 <= offset <= 0xFFFF_FFFF,
        ensures
            final(self).wf(),
            final(self).stepped(
                old(self),
                branch_step(code@, old(self).ip as int, offset as int, taken, old(self).regs@, old(self).fuel),
                r,
            ),
    {
        if taken {
            if offset >= 0 {
                let forward = offset as usize;
                if forward < code.len() - self.ip {
                    self.ip = self.ip + forward;
                    return Ok(CallOutcome::Continue);
                }
            } else {
                let backward = (-offset) as usize;
                if backward <= self.ip {
                    self.ip = self.ip - backward;
                    return Ok(CallOutcome::Continue);
                }
            }
            Err(ExecError::InvalidCode)
        } else {
            self.ip = self.ip + 1;
            Ok(CallOutcome::Continue)
        }
    }

    /// Executes the copy of a span at the current position.
    fn copy_span(&mut self, code: &Vec<Instruction>) -> (r: Result<CallOutcome, ExecError>)
        requires
            old(self).wf(),
            old(self).ip < code.len(),
            code@[old(self).ip as int] is CopySpan || code@[old(self).ip as int] is CopySpanRev,
        ensures
            final(self).wf(),
            final(self).stepped(old(self), copy_step(code@, old(self).ip as int, old(self).regs@, old(self).fuel), r),
    {
        let (results, values, len, forward) = match code[self.ip] {
            Instruction::CopySpan { results, values, len } => (results, values, len as usize, true),
            Instruction::CopySpanRev { results, values, len } => (results, values, len as usize, false),
            _ => {
                return Err(ExecError::InvalidCode);
            },
        };
        if results.head.0 < 0 {
            return Err(ExecError::InvalidCode);
        }
        if len == 0 {
            self.ip = self.ip + 1;
            return Ok(CallOutcome::Continue);
        }
        let last = (len - 1) as i16;
        let dst = match self.regs.index(results.head) {
            Some(i) => i,
            None => {
                return Err(ExecError::InvalidCode);
            },
        };
        let src = match self.regs.index(values.head) {
            Some(i) => i,
            None => {
                return Err(ExecError::InvalidCode);
            },
        };
        let n = self.regs.cells.len();
        if len > n - dst || len > n - src {
            return Err(ExecError::InvalidCode);
        }
        let ghost frame = self.regs@;
        let ghost d = results.head.0 as int;
        let ghost s = values.head.0 as int;
        let mut i: usize = 0;
        if forward {
            while i < len
                invariant
                    i <= len,
                    dst + len <= n,
                    src + len <= n,
                    n == self.regs.cells.len(),
                    dst == frame.zero + d,
                    src == frame.zero + s,
                    self.regs@.base == frame.base,
                    self.regs@.zero == frame.zero,
                    self.ip == old(self).ip,
                    self.fuel == old(self).fuel,
                    self.wf(),
                    frame.copy_forward(d, s, len as nat) == self.regs@.copy_forward(d + i, s + i, (len - i) as nat),
                decreases len - i,
            {
                let word = self.regs.cells[src + i];
                self.regs.cells[dst + i] = word;
                i += 1;
            }
        } else {
            while i < len
                invariant
                    i <= len,
                    dst + len <= n,
                    src + len <= n,
                    n == self.regs.cells.len(),
                    dst == frame.zero + d,
                    src == frame.zero + s,
                    self.regs@.base == frame.base,
                    self.regs@.zero == frame.zero,
                    self.ip == old(self).ip,
                    self.fuel == old(self).fuel,
                    self.wf(),
                    frame.copy_backward(d, s, len as nat) == self.regs@.copy_backward(d, s, (len - i) as nat),
                decreases len - i,
            {
                let k = len - 1 - i;
                let word = self.regs.cells[src + k];
                self.regs.cells[dst + k] = word;
                i += 1;
            }
        }
        self.ip = self.ip + 1;
        Ok(CallOutcome::Continue)
    }

    /// Executes the copy of registers to a span at the current position.
    fn copy_many(&mut self, code: &Vec<Instruction>) -> (r: Result<CallOutcome, ExecError>)
        requires
            old(self).wf(),
            old(self).ip < code.len(),
            code@[old(self).ip as int] is Copy2 || code@[old(self).ip as int] is CopyMany,
        ensures
            final(self).wf(),
            final(self).stepped(old(self), copy_step(code@, old(self).ip as int, old(self).regs@, old(self).fuel), r),
    {
        let (results, sources, slots) = match code[self.ip] {
            Instruction::Copy2 { results, v0, v1 } => {
                let mut sources: Vec<Register> = Vec::new();
                sources.push(v0);
                sources.push(v1);
                assert(sources@ =~= seq![v0, v1]);
                (results, sources, 1usize)
            },
            Instruction::CopyMany { results, v0, v1 } => {
                let (mut rest, slots) = Self::decode_register_list(code, self.ip + 1);
                let mut sources: Vec<Register> = Vec::new();
                sources.push(v0);
                sources.push(v1);
                let ghost list = rest@;
                sources.append(&mut rest);
                assert(sources@ =~= seq![v0, v1] + list);
                (results, sources, 1 + slots)
            },
            _ => {
                return Err(ExecError::InvalidCode);
            },
        };
        assert(sources@ == copy_sources(code@, self.ip as int));
        let words = match self.regs.gather(&sources) {
            Some(words) => words,
            None => {
                return Err(ExecError::InvalidCode);
            },
        };
        if !self.regs.write(results.head, &words) {
            return Err(ExecError::InvalidCode);
        }
        self.ip = self.ip + slots;
        Ok(CallOutcome::Continue)
    }

    /// Executes the return at the current position.
    fn execute_return(&mut self, code: &Vec<Instruction>) -> (r: Result<CallOutcome, ExecError>)
        requires
            old(self).wf(),
            old(self).ip < code.len(),
            ({
                let instr = code@[old(self).ip as int];
                instr is Return || instr is ReturnReg || instr is ReturnReg2 || instr is ReturnReg3
                    || instr is ReturnImm32 || instr is ReturnI64Imm32 || instr is ReturnSpan || instr is ReturnMany
            }),
        ensures
            final(self).wf(),
            final(self).stepped(old(self), step(code@, old(self).ip as int, old(self).regs@, old(self).fuel), r),
    {
        let next = self.ip + 1;
        match code[self.ip] {
            Instruction::Return => Ok(CallOutcome::Return { returned: Vec::new() }),
            Instruction::ReturnReg { value } => {
                let mut registers: Vec<Register> = Vec::new();
                registers.push(value);
                assert(registers@ =~= seq![value]);
                self.return_registers(&registers)
            },
            Instruction::ReturnReg2 { v0, v1 } => {
                let mut registers: Vec<Register> = Vec::new();
                registers.push(v0);
                registers.push(v1);
                assert(registers@ =~= seq![v0, v1]);
                self.return_registers(&registers)
            },
            Instruction::ReturnReg3 { v0, v1, v2 } => {
                let mut registers: Vec<Register> = Vec::new();
                registers.push(v0);
                registers.push(v1);
                registers.push(v2);
                assert(registers@ =~= seq![v0, v1, v2]);
                self.return_registers(&registers)
            },
            Instruction::ReturnImm32 { value } => {
                let mut returned: Vec<u64> = Vec::new();
                returned.push(value as u64);
                assert(returned@ =~= seq![value as u64]);
                Ok(CallOutcome::Return { returned })
            },
            Instruction::ReturnI64Imm32 { value } => {
                let mut returned: Vec<u64> = Vec::new();
                let wide: i64 = value as i64;
                returned.push(#[verifier::truncate] (wide as u64));
                assert(returned@ =~= seq![(value as i64) as u64]);
                Ok(CallOutcome::Return { returned })
            },
            Instruction::ReturnSpan { values, len } => {
                let mut registers: Vec<Register> = Vec::new();
                let mut i: u16 = 0;
                assert(registers@ =~= Seq::new(0 as nat, |k: int| Register((values.head.0 + k) as i16)));
                while i < len
                    invariant
                        i <= len,
                        registers@ == Seq::new(i as nat, |k: int| Register((values.head.0 + k) as i16)),
                    decreases len - i,
                {
                    registers.push(Register(#[verifier::truncate] ((values.head.0 as i32 + i as i32) as i16)));
                    assert(registers@ =~= Seq::new((i + 1) as nat, |k: int| Register((values.head.0 + k) as i16)));
                    i += 1;
                }
                self.return_registers(&registers)
            },
            Instruction::ReturnMany { v0, v1, v2 } => {
                let (mut rest, _) = Self::decode_register_list(code, next);
                let mut registers: Vec<Register> = Vec::new();
                registers.push(v0);
                registers.push(v1);
                registers.push(v2);
                let ghost list = rest@;
                registers.append(&mut rest);
                assert(registers@ =~= seq![v0, v1, v2] + list);
                self.return_registers(&registers)
            },
            _ => Err(ExecError::InvalidCode),
        }
    }

    /// Executes the branch at the current position.
    fn execute_branch(&mut self, code: &Vec<Instruction>) -> (r: Result<CallOutcome, ExecError>)
        requires
            old(self).wf(),
            old(self).ip < code.len(),
            ({
                let instr = code@[old(self).ip as int];
                instr is Branch || instr is BranchEqz || instr is BranchNez || instr is BranchBinary
                    || instr is BranchBinaryImm || instr is BranchTable
            }),
        ensures
            final(self).wf(),
            final(self).stepped(old(self), step(code@, old(self).ip as int, old(self).regs@, old(self).fuel), r),
    {
        match code[self.ip] {
            Instruction::Branch { offset } => self.branch(code, offset.0 as i64, true),
            Instruction::BranchEqz { condition, offset } => match self.regs.get(condition) {
                Some(word) => {
                    let low: u32 = #[verifier::truncate] (word as u32);
                    self.branch(code, offset.0 as i64, low == 0)
                },
                None => Err(ExecError::InvalidCode),
            },
            Instruction::BranchNez { condition, offset } => match self.regs.get(condition) {
                Some(word) => {
                    let low: u32 = #[verifier::truncate] (word as u32);
                    self.branch(code, offset.0 as i64, low != 0)
                },
                None => Err(ExecError::InvalidCode),
            },
            Instruction::BranchBinary { op, lhs, rhs, offset } => match (self.regs.get(lhs), self.regs.get(rhs)) {
                (Some(l), Some(r)) => match op.eval(l, r) {
                    Ok(holds) => {
                        let low: u32 = #[verifier::truncate] (holds as u32);
                        self.branch(code, offset.0 as i64, low != 0)
                    },
                    Err(code) => Err(ExecError::Trap(code)),
                },
                _ => Err(ExecError::InvalidCode),
            },
            Instruction::BranchBinaryImm { op, lhs, rhs, offset } => match self.regs.get(lhs) {
                Some(l) => match op.eval(l, op.imm16_word_exec(rhs)) {
                    Ok(holds) => {
                        let low: u32 = #[verifier::truncate] (holds as u32);
                        self.branch(code, offset.0 as i64, low != 0)
                    },
                    Err(code) => Err(ExecError::Trap(code)),
                },
                None => Err(ExecError::InvalidCode),
            },
            Instruction::BranchTable { index, len_targets } => match self.regs.get(index) {
                Some(word) => {
                    if len_targets == 0 {
                        return Err(ExecError::InvalidCode);
                    }
                    let chosen: u32 = #[verifier::truncate] (word as u32);
                    let arm = if chosen < len_targets {
                        chosen
                    } else {
                        len_targets - 1
                    };
                    self.branch(code, 1 + arm as i64, true)
                },
                None => Err(ExecError::InvalidCode),
            },
            _ => Err(ExecError::InvalidCode),
        }
    }

    /// Executes the call at the current position.
    fn execute_call(&mut self, code: &Vec<Instruction>) -> (r: Result<CallOutcome, ExecError>)
        requires
            old(self).wf(),
            old(self).ip < code.len(),
            ({
                let instr = code@[old(self).ip as int];
                instr is CallInternal0 || instr is CallInternal || instr is ReturnCallInternal0
                    || instr is ReturnCallInternal
            }),
        ensures
            final(self).wf(),
            final(self).stepped(old(self), step(code@, old(self).ip as int, old(self).regs@, old(self).fuel), r),
    {
        let next = self.ip + 1;
        match code[self.ip] {
            Instruction::CallInternal0 { results, func } => {
                self.ip = next;
                Ok(CallOutcome::Call { results, callee: func, params: Vec::new() })
            },
            Instruction::CallInternal { results, func } => {
                let (list, slots) = Self::decode_register_list(code, next);
                match self.regs.gather(&list) {
                    Some(params) => {
                        self.ip = next + slots;
                        Ok(CallOutcome::Call { results, callee: func, params })
                    },
                    None => Err(ExecError::InvalidCode),
                }
            },
            Instruction::ReturnCallInternal0 { func } => Ok(
                CallOutcome::ReturnCall { callee: func, params: Vec::new() },
            ),
            Instruction::ReturnCallInternal { func } => {
                let (list, _) = Self::decode_register_list(code, next);
                match self.regs.gather(&list) {
                    Some(params) => Ok(CallOutcome::ReturnCall { callee: func, params }),
                    None => Err(ExecError::InvalidCode),
                }
            },
            _ => Err(ExecError::InvalidCode),
        }
    }

    /// Executes the operator at the current position.
    fn execute_operator(&mut self, code: &Vec<Instruction>) -> (r: Result<CallOutcome, ExecError>)
        requires
            old(self).wf(),
            old(self).ip < code.len(),
            ({
                let instr = code@[old(self).ip as int];
                instr is Select || instr is Unary || instr is Binary || instr is BinaryAssign
                    || instr is BinaryAssignImm32 || instr is BinaryImm16 || instr is BinaryImm16Rev
            }),
        ensures
            final(self).wf(),
            final(self).stepped(old(self), step(code@, old(self).ip as int, old(self).regs@, old(self).fuel), r),
    {
        let next = self.ip + 1;
        match code[self.ip] {
            Instruction::Select { result, condition, lhs } => {
                if next >= code.len() {
                    return Err(ExecError::InvalidCode);
                }
                match (self.regs.get(condition), self.regs.get(lhs), code[next]) {
                    (Some(c), Some(l), Instruction::Register1 { r0 }) => match self.regs.get(r0) {
                        Some(r) => {
                            let low: u32 = #[verifier::truncate] (c as u32);
                            self.write_result(
                                result,
                                if low != 0 {
                                    l
                                } else {
                                    r
                                },
                                next + 1,
                            )
                        },
                        None => Err(ExecError::InvalidCode),
                    },
                    _ => Err(ExecError::InvalidCode),
                }
            },
            Instruction::Unary { op, result, input } => match self.regs.get(input) {
                Some(word) => self.write_outcome(result, op.eval(word), next),
                None => Err(ExecError::InvalidCode),
            },
            Instruction::Binary { op, result, lhs, rhs } => match (self.regs.get(lhs), self.regs.get(rhs)) {
                (Some(l), Some(r)) => self.write_outcome(result, op.eval(l, r), next),
                _ => Err(ExecError::InvalidCode),
            },
            Instruction::BinaryAssign { op, inout, rhs } => match (self.regs.get(inout), self.regs.get(rhs)) {
                (Some(l), Some(r)) => self.write_outcome(inout, op.eval(l, r), next),
                _ => Err(ExecError::InvalidCode),
            },
            Instruction::BinaryAssignImm32 { op, inout, rhs } => match self.regs.get(inout) {
                Some(l) => self.write_outcome(inout, op.eval(l, op.imm32_word_exec(rhs)), next),
                None => Err(ExecError::InvalidCode),
            },
            Instruction::BinaryImm16 { op, result, lhs, rhs } => match self.regs.get(lhs) {
                Some(l) => self.write_outcome(result, op.eval(l, op.imm16_word_exec(rhs)), next),
                None => Err(ExecError::InvalidCode),
            },
            Instruction::BinaryImm16Rev { op, result, lhs, rhs } => match self.regs.get(rhs) {
                Some(r) => self.write_outcome(result, op.eval(op.imm16_rev_word_exec(lhs), r), next),
                None => Err(ExecError::InvalidCode),
            },
            _ => Err(ExecError::InvalidCode),
        }
    }

    /// Executes the instruction at the current position.
    pub fn execute_instr(&mut self, code: &Vec<Instruction>) -> (r: Result<CallOutcome, ExecError>)
        requires
            old(self).wf(),
        ensures
            final(self).wf(),
            final(self).stepped(old(self), step(code@, old(self).ip as int, old(self).regs@, old(self).fuel), r),
    {
        if self.ip >= code.len() {
            return Err(ExecError::InvalidCode);
        }
        let next = self.ip + 1;
        match code[self.ip] {
            Instruction::Trap { code } => Err(ExecError::Trap(code)),
            Instruction::ConsumeFuel { amount } => {
                match self.fuel {
                    None => {},
                    Some(left) => {
                        if left < amount as u64 {
                            return Err(ExecError::Trap(TrapCode::OutOfFuel));
                        }
                        self.fuel = Some(left - amount as u64);
                    },
                }
                self.ip = next;
                Ok(CallOutcome::Continue)
            },
            Instruction::Return | Instruction::ReturnReg { .. } | Instruction::ReturnReg2 { .. }
            | Instruction::ReturnReg3 { .. } | Instruction::ReturnImm32 { .. } | Instruction::ReturnI64Imm32 { .. }
            | Instruction::ReturnSpan { .. } | Instruction::ReturnMany { .. } => self.execute_return(code),
            Instruction::Branch { .. } | Instruction::BranchEqz { .. } | Instruction::BranchNez { .. }
            | Instruction::BranchBinary { .. } | Instruction::BranchBinaryImm { .. }
            | Instruction::BranchTable { .. } => self.execute_branch(code),
            Instruction::Copy { result, value } => match self.regs.get(value) {
                Some(word) => {
                    if self.regs.set(result, word) {
                        self.ip = next;
                        Ok(CallOutcome::Continue)
                    } else {
                        Err(ExecError::InvalidCode)
                    }
                },
                None => Err(ExecError::InvalidCode),
            },
            Instruction::Copy2 { .. } | Instruction::CopyMany { .. } => self.copy_many(code),
            Instruction::CopySpan { .. } | Instruction::CopySpanRev { .. } => self.copy_span(code),
            Instruction::CopyImm32 { result, value } => self.write_result(result, value as u64, next),
            Instruction::CopyI64Imm32 { result, value } => {
                let wide: i64 = value as i64;
                self.write_result(result, #[verifier::truncate] (wide as u64), next)
            },
            Instruction::CallInternal0 { .. } | Instruction::CallInternal { .. }
            | Instruction::ReturnCallInternal0 { .. } | Instruction::ReturnCallInternal { .. } => self.execute_call(
                code,
            ),
            Instruction::Select { .. } | Instruction::Unary { .. } | Instruction::Binary { .. }
            | Instruction::BinaryAssign { .. } | Instruction::BinaryAssignImm32 { .. }
            | Instruction::BinaryImm16 { .. } | Instruction::BinaryImm16Rev { .. } => self.execute_operator(code),
            Instruction::RegisterList { .. } | Instruction::Register3 { .. } | Instruction::Register2 { .. }
            | Instruction::Register1 { .. } | Instruction::Const32 { .. } | Instruction::CallIndirectParams { .. }
            | Instruction::CallIndirectParamsImm16 { .. } | Instruction::DataIdx { .. } | Instruction::ElemIdx { .. }
            | Instruction::TableIdx { .. } => Err(ExecError::InvalidCode),
            _ => Ok(CallOutcome::Host),
        }
    }
}

} // verus!
