//! The engine: the code of the translated functions and the stack of the
//! frames that execute it.

use vstd::prelude::*;
use crate::code_map::{CodeMap, CompiledFunc, CompiledFuncView};
use crate::const_pool::{interned, ConstPool};
use crate::error::TrapCode;
use crate::executor::{step, CallOutcome, ExecError, Machine, Registers, Step};
use crate::regfile::RegisterFile;
use crate::register::RegSpan;

verus! {

/// What is kept of a frame while a function that it called executes.
#[derive(Clone, Copy, Debug, PartialEq, Eq, Structural, Hash)]
pub struct StackFrame {
    /// The handle of the code of the function.
    pub func: u32,
    /// The position at which the function goes on after the call.
    pub ip: usize,
    /// The position of the first cell of the frame in the register arena.
    pub base: usize,
    /// The position of register 0 of the frame in the register arena.
    pub zero: usize,
    /// The registers of the frame to which the function that it called
    /// returns its results.
    pub results: RegSpan,
}

/// How an execution stands when the engine hands it back.
pub enum Event {
    /// The execution goes on.
    Continue,
    /// The function that was called first has returned these values.
    Returned(Seq<u64>),
    /// The instruction at the current position is for the embedder.
    Host,
    /// The steps that were granted are used up.
    OutOfSteps,
    /// The execution ended abnormally.
    Error(ExecError),
}

/// The state of an execution as a mathematical value.
pub struct EngineView {
    /// The cells of the register arena.
    pub cells: Seq<u64>,
    /// The position of the first cell of the current frame.
    pub base: int,
    /// The position of register 0 of the current frame.
    pub zero: int,
    /// The position of the next instruction in the current function.
    pub ip: int,
    /// The fuel that is left, if fuel is metered.
    pub fuel: Option<u64>,
    /// The handle of the code of the current function.
    pub func: u32,
    /// The frames of the callers, the caller of the current frame last.
    pub frames: Seq<StackFrame>,
    /// The most cells that the register arena may have.
    pub limit: nat,
}

/// The words `words` in the opposite order.
pub open spec fn reversed(words: Seq<u64>) -> Seq<u64> {
    Seq::new(words.len(), |i: int| words[words.len() - 1 - i])
}

/// `n` words that are zero.
pub open spec fn zeros(n: nat) -> Seq<u64> {
    Seq::new(n, |i: int| 0u64)
}

impl EngineView {
    /// The registers of the current frame.
    pub open spec fn registers(self) -> RegisterFile {
        RegisterFile { cells: self.cells, base: self.base, zero: self.zero }
    }

    /// The state in which the function with the code `callee` starts on a
    /// new frame at the end of the register arena, with the arguments
    /// `params`: the constants of the function come first, the last one
    /// first; then the parameters; then the other registers, which are
    /// zero. There is no such state if the code map has no such code, if
    /// the arguments are not as many as the parameters, or if the arena
    /// would outgrow its limit.
    pub open spec fn enter(self, code: Seq<CompiledFuncView>, callee: u32, params: Seq<u64>) -> Result<
        EngineView,
        ExecError,
    > {
        if callee >= code.len() {
            Err(ExecError::InvalidCode)
        } else {
            let f = code[callee as int];
            if params.len() != f.len_params || f.len_params > f.len_registers {
                Err(ExecError::InvalidCode)
            } else if self.cells.len() + f.consts.len() + f.len_registers > self.limit {
                Err(ExecError::Trap(TrapCode::StackOverflow))
            } else {
                Ok(
                    EngineView {
                        cells: self.cells + reversed(f.consts) + params + zeros((f.len_registers - f.len_params) as nat),
                        base: self.cells.len() as int,
                        zero: (self.cells.len() + f.consts.len()) as int,
                        ip: 0,
                        func: callee,
                        ..self
                    },
                )
            }
        }
    }

    /// The state without the cells of the current frame.
    pub open spec fn dropped(self) -> EngineView {
        EngineView { cells: self.cells.take(self.base), zero: self.base, ..self }
    }

    /// The state after the current function has returned `returned`, and
    /// what has happened: the first function has returned; or the caller
    /// goes on with the values in the registers that it wanted them in.
    pub open spec fn leave(self, returned: Seq<u64>) -> (EngineView, Event) {
        if self.frames.len() == 0 {
            (self.dropped(), Event::Returned(returned))
        } else {
            let caller = self.frames.last();
            let back = EngineView {
                cells: self.cells.take(self.base),
                base: caller.base as int,
                zero: caller.zero as int,
                ip: caller.ip as int,
                func: caller.func,
                frames: self.frames.drop_last(),
                ..self
            };
            if caller.base <= caller.zero <= back.cells.len() && caller.results.head.0 >= 0
                && back.registers().has_span(caller.results.head.0 as int, returned.len() as int) {
                (
                    EngineView { cells: back.registers().write(caller.results.head.0 as int, returned).cells, ..back },
                    Event::Continue,
                )
            } else {
                (back, Event::Error(ExecError::InvalidCode))
            }
        }
    }

    /// The state after one instruction, and what has happened.
    pub open spec fn step(self, code: Seq<CompiledFuncView>) -> (EngineView, Event) {
        if self.func >= code.len() {
            (self, Event::Error(ExecError::InvalidCode))
        } else {
            match step(code[self.func as int].instrs, self.ip, self.registers(), self.fuel) {
                Step::Next { cells, ip, fuel } => (EngineView { cells, ip, fuel, ..self }, Event::Continue),
                Step::Return { values } => self.leave(values),
                Step::Call { func, results, args, resume } => {
                    let caller = StackFrame {
                        func: self.func,
                        ip: resume as usize,
                        base: self.base as usize,
                        zero: self.zero as usize,
                        results,
                    };
                    match (EngineView { frames: self.frames.push(caller), ip: resume, ..self }).enter(
                        code,
                        func,
                        args,
                    ) {
                        Ok(state) => (state, Event::Continue),
                        Err(e) => (self, Event::Error(e)),
                    }
                },
                Step::ReturnCall { func, args } => match self.dropped().enter(code, func, args) {
                    Ok(state) => (state, Event::Continue),
                    Err(e) => (self, Event::Error(e)),
                },
                Step::Host => (self, Event::Host),
                Step::Trap(code) => (self, Event::Error(ExecError::Trap(code))),
                Step::Invalid => (self, Event::Error(ExecError::InvalidCode)),
            }
        }
    }

    /// The state after at most `steps` instructions, and how the execution
    /// stands then: it goes on until the first function returns, an
    /// instruction is for the embedder, the execution ends abnormally, or
    /// the steps are used up.
    pub open spec fn run(self, code: Seq<CompiledFuncView>, steps: nat) -> (EngineView, Event)
        decreases steps,
    {
        if steps == 0 {
            (self, Event::OutOfSteps)
        } else {
            match self.step(code) {
                (state, Event::Continue) => state.run(code, (steps - 1) as nat),
                other => other,
            }
        }
    }
}

/// How an execution stands when the engine hands it back.
#[derive(Debug)]
pub enum Outcome {
    /// The function that was called first has returned these values.
    Returned(Vec<u64>),
    /// The instruction at the current position is for the embedder.
    Host,
    /// The steps that were granted are used up.
    OutOfSteps,
}

/// The stack of the frames of an execution.
#[derive(Debug)]
pub struct Stack {
    pub(crate) machine: Machine,
    pub(crate) frames: Vec<StackFrame>,
    pub(crate) func: u32,
    pub(crate) limit: usize,
}

impl View for Stack {
    type V = EngineView;

    open(crate) spec fn view(&self) -> EngineView {
        EngineView {
            cells: self.machine.regs.cells@,
            base: self.machine.regs.base as int,
            zero: self.machine.regs.zero as int,
            ip: self.machine.ip as int,
            fuel: self.machine.fuel,
            func: self.func,
            frames: self.frames@,
            limit: self.limit as nat,
        }
    }
}

impl Stack {
    /// The current frame lies in the register arena.
    pub open spec fn wf(&self) -> bool {
        self@.base <= self@.zero <= self@.cells.len()
    }

    /// A stack without frames, whose register arena may have `limit`
    /// cells.
    pub fn new(limit: usize) -> (r: Stack)
        ensures
            r.wf(),
            r@.cells.len() == 0,
            r@.frames.len() == 0,
            r@.base == 0,
            r@.zero == 0,
            r@.fuel is None,
            r@.limit == limit,
    {
        Stack { machine: Machine { regs: Registers::new(), ip: 0, fuel: None }, frames: Vec::new(), func: 0, limit }
    }

    /// Starts the function with the code `callee` on a new frame at the
    /// end of the register arena.
    pub fn enter(&mut self, code: &CodeMap, callee: u32, params: &Vec<u64>) -> (r: Result<(), ExecError>)
        requires
            old(self).wf(),
        ensures
            match old(self)@.enter(code@, callee, params@) {
                Ok(state) => r is Ok && final(self)@ == state && final(self).wf(),
                Err(e) => r == Err::<(), ExecError>(e) && final(self)@ == old(self)@,
            },
    {
        let f = match code.get(callee) {
            Some(f) => f,
            None => {
                return Err(ExecError::InvalidCode);
            },
        };
        if params.len() != f.len_params || f.len_params > f.len_registers {
            return Err(ExecError::InvalidCode);
        }
        let start = self.machine.regs.cells.len();
        let n = f.consts.len();
        if start > self.limit || n > self.limit - start || f.len_registers > self.limit - start - n {
            return Err(ExecError::Trap(TrapCode::StackOverflow));
        }
        let ghost before = self.machine.regs.cells@;
        let mut i: usize = 0;
        while i < n
            invariant
                i <= n,
                n == f.consts.len(),
                self.machine.regs.cells@ == before + reversed(f.consts@).take(i as int),
                self.machine.regs.base == old(self).machine.regs.base,
                self.machine.regs.zero == old(self).machine.regs.zero,
                self.machine.ip == old(self).machine.ip,
                self.machine.fuel == old(self).machine.fuel,
                self.frames == old(self).frames,
                self.func == old(self).func,
                self.limit == old(self).limit,
            decreases n - i,
        {
            self.machine.regs.cells.push(f.consts[n - 1 - i]);
            assert(self.machine.regs.cells@ =~= before + reversed(f.consts@).take(i + 1));
            i += 1;
        }
        let ghost with_consts = self.machine.regs.cells@;
        assert(with_consts =~= before + reversed(f.consts@));
        let m = params.len();
        let mut j: usize = 0;
        while j < m
            invariant
                j <= m,
                m == params.len(),
                self.machine.regs.cells@ == with_consts + params@.take(j as int),
                self.machine.regs.base == old(self).machine.regs.base,
                self.machine.regs.zero == old(self).machine.regs.zero,
                self.machine.ip == old(self).machine.ip,
                self.machine.fuel == old(self).machine.fuel,
                self.frames == old(self).frames,
                self.func == old(self).func,
                self.limit == old(self).limit,
            decreases m - j,
        {
            self.machine.regs.cells.push(params[j]);
            assert(self.machine.regs.cells@ =~= with_consts + params@.take(j + 1));
            j += 1;
        }
        let ghost with_params = self.machine.regs.cells@;
        assert(with_params =~= with_consts + params@);
        let rest = f.len_registers - f.len_params;
        let mut k: usize = 0;
        while k < rest
            invariant
                k <= rest,
                self.machine.regs.cells@ == with_params + zeros(k as nat),
                self.machine.regs.base == old(self).machine.regs.base,
                self.machine.regs.zero == old(self).machine.regs.zero,
                self.machine.ip == old(self).machine.ip,
                self.machine.fuel == old(self).machine.fuel,
                self.frames == old(self).frames,
                self.func == old(self).func,
                self.limit == old(self).limit,
            decreases rest - k,
        {
            self.machine.regs.cells.push(0);
            assert(self.machine.regs.cells@ =~= with_params + zeros((k + 1) as nat));
            k += 1;
        }
        self.machine.regs.base = start;
        self.machine.regs.zero = start + n;
        self.machine.ip = 0;
        self.func = callee;
        Ok(())
    }

    /// Ends the current frame, whose function has returned `returned`. If
    /// a caller goes on, the values are in the registers that it wanted
    /// them in, and `None` is returned; if it was the first function that
    /// returned, the values are handed back.
    pub fn leave(&mut self, returned: Vec<u64>) -> (r: Result<Option<Vec<u64>>, ExecError>)
        requires
            old(self).wf(),
        ensures
            ({
                let (state, event) = old(self)@.leave(returned@);
                match event {
                    Event::Returned(values) => {
                        &&& r matches Ok(Some(handed))
                        &&& r->Ok_0->Some_0@ == values
                        &&& final(self)@ == state
                        &&& final(self).wf()
                    },
                    Event::Continue => {
                        &&& r matches Ok(None)
                        &&& final(self)@ == state
                        &&& final(self).wf()
                    },
                    Event::Error(e) => r == Err::<Option<Vec<u64>>, ExecError>(e),
                    _ => false,
                }
            }),
    {
        let base = self.machine.regs.base;
        self.machine.regs.cells.truncate(base);
        proof {
            assert(self.machine.regs.cells@ =~= old(self)@.cells.take(old(self)@.base));
        }
        match self.frames.pop() {
            None => {
                self.machine.regs.zero = base;
                Ok(Some(returned))
            },
            Some(caller) => {
                if caller.base > caller.zero || caller.zero > self.machine.regs.cells.len() {
                    self.machine.regs.zero = base;
                    return Err(ExecError::InvalidCode);
                }
                self.machine.regs.base = caller.base;
                self.machine.regs.zero = caller.zero;
                self.machine.ip = caller.ip;
                self.func = caller.func;
                if self.machine.regs.write(caller.results.head, &returned) {
                    Ok(None)
                } else {
                    Err(ExecError::InvalidCode)
                }
            },
        }
    }
}

/// The pool `pool` after interning the constants `values` one after the
/// other, each as far as the pool has room for it.
pub open spec fn interned_all(pool: Seq<u64>, values: Seq<u64>) -> Seq<u64>
    decreases values.len(),
{
    if values.len() == 0 {
        pool
    } else {
        interned_all(
            match interned(pool, values[0]) {
                Ok((next, _)) => next,
                Err(_) => pool,
            },
            values.skip(1),
        )
    }
}

/// The engine: the code of the functions, the stack of an execution, and
/// the constants of all functions, each of them once.
#[derive(Debug)]
pub struct EngineInner {
    pub(crate) code_map: CodeMap,
    pub(crate) stack: Stack,
    pub(crate) const_pool: ConstPool,
}

impl EngineInner {
    /// The invariant of the engine.
    pub open spec fn wf(&self) -> bool {
        &&& self.stack().wf()
        &&& self.const_pool().wf()
    }

    /// The stack of the execution.
    pub closed spec fn stack(&self) -> &Stack {
        &self.stack
    }

    /// The code of the functions.
    pub closed spec fn code(&self) -> Seq<CompiledFuncView> {
        self.code_map@
    }

    /// The constants of the functions.
    pub closed spec fn const_pool(&self) -> &ConstPool {
        &self.const_pool
    }

    /// The state in which an execution of the function with the code
    /// `func` starts, with the arguments `params`, the fuel `fuel` if fuel
    /// is metered, and a register arena of at most `limit` cells.
    pub open spec fn start(code: Seq<CompiledFuncView>, func: u32, params: Seq<u64>, fuel: Option<u64>, limit: nat) -> Result<
        EngineView,
        ExecError,
    > {
        (EngineView {
            cells: Seq::empty(),
            base: 0,
            zero: 0,
            ip: 0,
            fuel,
            func: 0,
            frames: Seq::empty(),
            limit,
        }).enter(code, func, params)
    }

    /// Whether the engine stands as `expected` says after an execution
    /// that has handed back `r`.
    pub open spec fn executed(&self, expected: (EngineView, Event), r: Result<Outcome, ExecError>) -> bool {
        match expected.1 {
            Event::Returned(values) => {
                &&& r matches Ok(Outcome::Returned(returned))
                &&& r->Ok_0->Returned_0@ == values
                &&& self.stack()@ == expected.0
                &&& self.wf()
            },
            Event::Host => {
                &&& r matches Ok(Outcome::Host)
                &&& self.stack()@ == expected.0
                &&& self.wf()
            },
            Event::OutOfSteps => {
                &&& r matches Ok(Outcome::OutOfSteps)
                &&& self.stack()@ == expected.0
                &&& self.wf()
            },
            Event::Error(e) => r == Err::<Outcome, ExecError>(e),
            Event::Continue => false,
        }
    }

    /// An engine without code, whose register arena may have `limit`
    /// cells.
    pub fn new(limit: usize) -> (r: EngineInner)
        ensures
            r.wf(),
            r.code().len() == 0,
            r.stack()@.limit == limit,
            r.const_pool()@.len() == 0,
    {
        EngineInner { code_map: CodeMap::new(), stack: Stack::new(limit), const_pool: ConstPool::new() }
    }

    /// Adds the code of a function and returns its handle. The constants
    /// of the function are interned in the constant pool of the engine, one
    /// after the other, as far as the pool has room.
    pub fn alloc_func(&mut self, func: CompiledFunc) -> (r: usize)
        requires
            old(self).wf(),
        ensures
            final(self).wf(),
            r == old(self).code().len(),
            final(self).code() == old(self).code().push(func@),
            final(self).stack() == old(self).stack(),
            final(self).const_pool()@ == interned_all(old(self).const_pool()@, func@.consts),
    {
        let n = func.consts.len();
        let mut i: usize = 0;
        proof {
            assert(func.consts@.skip(0) =~= func.consts@);
        }
        while i < n
            invariant
                i <= n,
                n == func.consts.len(),
                self.const_pool.wf(),
                self.stack == old(self).stack,
                self.code_map == old(self).code_map,
                interned_all(old(self).const_pool@, func.consts@) == interned_all(
                    self.const_pool@,
                    func.consts@.skip(i as int),
                ),
            decreases n - i,
        {
            proof {
                assert(func.consts@.skip(i as int)[0] == func.consts@[i as int]);
                assert(func.consts@.skip(i as int).skip(1) =~= func.consts@.skip(i + 1));
            }
            let _ = self.const_pool.intern(func.consts[i]);
            i += 1;
        }
        self.code_map.alloc_func(func)
    }

    /// The code of the function with the handle `func`, if there is one.
    pub fn get_func(&self, func: u32) -> (r: Option<&CompiledFunc>)
        ensures
            r is Some == (func < self.code().len()),
            r matches Some(code) ==> code@ == self.code()[func as int],
    {
        self.code_map.get(func)
    }

    /// The handle of the code of the current function and the position of
    /// the next instruction in it.
    pub fn position(&self) -> (r: (u32, usize))
        ensures
            r.0 == self.stack()@.func,
            r.1 == self.stack()@.ip,
    {
        (self.stack.func, self.stack.machine.ip)
    }

    /// The constant with the handle `cref` in the constant pool of the
    /// engine, if the pool has one.
    pub fn resolve_const(&self, cref: crate::const_pool::ConstRef) -> (r: Option<u64>)
        ensures
            r == if cref.0 < self.const_pool()@.len() {
                Some(self.const_pool()@[cref.0 as int])
            } else {
                None
            },
    {
        self.const_pool.resolve(cref)
    }

    /// Starts an execution of the function with the code `func`: the stack
    /// is emptied, and the function gets a frame with the arguments in its
    /// first registers and zeros in the others.
    pub fn initialize_args(&mut self, func: u32, params: &Vec<u64>, fuel: Option<u64>) -> (r: Result<(), ExecError>)
        requires
            old(self).wf(),
        ensures
            final(self).code() == old(self).code(),
            final(self).const_pool() == old(self).const_pool(),
            match Self::start(old(self).code(), func, params@, fuel, old(self).stack()@.limit) {
                Ok(state) => r is Ok && final(self).stack()@ == state && final(self).wf(),
                Err(e) => r == Err::<(), ExecError>(e),
            },
    {
        self.stack.machine.regs.cells.clear();
        self.stack.machine.regs.base = 0;
        self.stack.machine.regs.zero = 0;
        self.stack.machine.ip = 0;
        self.stack.machine.fuel = fuel;
        self.stack.frames.clear();
        self.stack.func = 0;
        proof {
            assert(self.stack@.cells =~= Seq::<u64>::empty());
            assert(self.stack@.frames =~= Seq::<StackFrame>::empty());
        }
        self.stack.enter(&self.code_map, func, params)
    }

    /// Executes one instruction and what it asks of the engine.
    fn execute_step(&mut self) -> (r: Result<Option<Outcome>, ExecError>)
        requires
            old(self).wf(),
        ensures
            final(self).code() == old(self).code(),
            final(self).const_pool() == old(self).const_pool(),
            ({
                let (state, event) = old(self).stack()@.step(old(self).code());
                match event {
                    Event::Continue => r matches Ok(None) && final(self).stack()@ == state && final(self).wf(),
                    Event::Returned(values) => {
                        &&& r matches Ok(Some(Outcome::Returned(returned)))
                        &&& r->Ok_0->Some_0->Returned_0@ == values
                        &&& final(self).stack()@ == state
                        &&& final(self).wf()
                    },
                    Event::Host => {
                        &&& r matches Ok(Some(Outcome::Host))
                        &&& final(self).stack()@ == state
                        &&& final(self).wf()
                    },
                    Event::Error(e) => r == Err::<Option<Outcome>, ExecError>(e),
                    Event::OutOfSteps => false,
                }
            }),
    {
        let code = match self.code_map.get(self.stack.func) {
            Some(code) => code,
            None => {
                return Err(ExecError::InvalidCode);
            },
        };
        match self.stack.machine.execute_instr(&code.instrs)? {
            CallOutcome::Continue => Ok(None),
            CallOutcome::Host => Ok(Some(Outcome::Host)),
            CallOutcome::Return { returned } => match self.stack.leave(returned)? {
                Some(values) => Ok(Some(Outcome::Returned(values))),
                None => Ok(None),
            },
            CallOutcome::Call { results, callee, params } => {
                self.stack.frames.push(
                    StackFrame {
                        func: self.stack.func,
                        ip: self.stack.machine.ip,
                        base: self.stack.machine.regs.base,
                        zero: self.stack.machine.regs.zero,
                        results,
                    },
                );
                self.stack.enter(&self.code_map, callee, &params)?;
                Ok(None)
            },
            CallOutcome::ReturnCall { callee, params } => {
                let base = self.stack.machine.regs.base;
                self.stack.machine.regs.cells.truncate(base);
                self.stack.machine.regs.zero = base;
                proof {
                    assert(self.stack@.cells =~= old(self).stack@.cells.take(old(self).stack@.base));
                }
                self.stack.enter(&self.code_map, callee, &params)?;
                Ok(None)
            },
        }
    }

    /// Executes the frames on the stack for at most `max_steps`
    /// instructions: until the function at the bottom of the stack
    /// returns, an instruction is for the embedder, the execution ends
    /// abnormally, or the steps are used up.
    pub fn execute_frame(&mut self, max_steps: u64) -> (r: Result<Outcome, ExecError>)
        requires
            old(self).wf(),
        ensures
            final(self).code() == old(self).code(),
            final(self).const_pool() == old(self).const_pool(),
            final(self).executed(old(self).stack()@.run(old(self).code(), max_steps as nat), r),
    {
        let mut steps = max_steps;
        loop
            invariant
                self.wf(),
                self.code() == old(self).code(),
                self.const_pool() == old(self).const_pool(),
                old(self).stack()@.run(old(self).code(), max_steps as nat) == self.stack()@.run(
                    self.code(),
                    steps as nat,
                ),
            decreases steps,
        {
            if steps == 0 {
                return Ok(Outcome::OutOfSteps);
            }
            match self.execute_step()? {
                Some(outcome) => {
                    return Ok(outcome);
                },
                None => {},
            }
            steps -= 1;
        }
    }

    /// Executes the function with the code `func` with the arguments
    /// `params`, for at most `max_steps` instructions, with the fuel `fuel`
    /// if fuel is metered.
    pub fn execute_func(&mut self, func: u32, params: &Vec<u64>, fuel: Option<u64>, max_steps: u64) -> (r: Result<
        Outcome,
        ExecError,
    >)
        requires
            old(self).wf(),
        ensures
            final(self).code() == old(self).code(),
            final(self).const_pool() == old(self).const_pool(),
            match Self::start(old(self).code(), func, params@, fuel, old(self).stack()@.limit) {
                Ok(state) => final(self).executed(state.run(old(self).code(), max_steps as nat), r),
                Err(e) => r == Err::<Outcome, ExecError>(e),
            },
    {
        self.initialize_args(func, params, fuel)?;
        self.execute_frame(max_steps)
    }

    /// Completes an instruction that went to the embedder: the values
    /// `returned` are written to the registers from `results` on of the
    /// current frame, and the execution will go on `slots` slots after the
    /// instruction. Fails, and changes nothing, if the frame has not these
    /// registers.
    pub fn execute_host_func(&mut self, results: RegSpan, returned: &Vec<u64>, slots: usize) -> (r: Result<
        (),
        ExecError,
    >)
        requires
            old(self).wf(),
            old(self).stack()@.ip + slots <= usize::MAX,
        ensures
            final(self).wf(),
            final(self).code() == old(self).code(),
            final(self).const_pool() == old(self).const_pool(),
            ({
                let before = old(self).stack()@;
                if results.head.0 >= 0 && before.registers().has_span(results.head.0 as int, returned@.len() as int) {
                    &&& r is Ok
                    &&& final(self).stack()@ == (EngineView {
                        cells: before.registers().write(results.head.0 as int, returned@).cells,
                        ip: before.ip + slots,
                        ..before
                    })
                } else {
                    &&& r == Err::<(), ExecError>(ExecError::InvalidCode)
                    &&& final(self).stack()@ == before
                }
            }),
    {
        if self.stack.machine.regs.write(results.head, returned) {
            self.stack.machine.ip = self.stack.machine.ip + slots;
            Ok(())
        } else {
            Err(ExecError::InvalidCode)
        }
    }

    /// Writes the values `returned` to the buffer `results`, which the
    /// caller has made for as many values.
    pub fn return_result(returned: &Vec<u64>, results: &mut Vec<u64>)
        requires
            returned@.len() == old(results)@.len(),
        ensures
            final(results)@ == returned@,
    {
        let n = returned.len();
        let mut i: usize = 0;
        while i < n
            invariant
                i <= n,
                n == returned.len(),
                n == results.len(),
                forall|j: int| 0 <= j < i ==> #[trigger] results@[j] == returned@[j],
            decreases n - i,
        {
            results[i] = returned[i];
            i += 1;
        }
        assert(results@ =~= returned@);
    }
}

} // verus!
