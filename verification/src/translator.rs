//! The translator of one function: its state, the invariant of that state,
//! and the steps that the operators share.

use vstd::prelude::*;

use crate::control::{ControlFrame, ControlStack, ControlView};
use crate::branches::lemma_encode_return_kept;
use crate::copies::{code_grows, extends, lemma_encode_copies_kept, Encoded};
use crate::encoder::{lemma_resolve_users_wf, Label};
use crate::encoder::{EncoderView, InstrEncoder, LabelRef};
use crate::error::{TranslationError, TrapCode};
use crate::instr::{Instr, Instruction};
use crate::module::ModuleResources;
use crate::register::{RegSpan, RegSpanIter, Register};
use crate::stack::{ValueStack, ValueStackView, MAX_REGISTERS};
use crate::value::TypedProvider;

verus! {

/// What the operations of the translated code cost in fuel.
#[derive(Clone, Copy, Debug, PartialEq, Eq, Structural, Hash)]
pub struct FuelCosts {
    /// The fuel that entering a basic block costs.
    pub base: u32,
    /// The fuel that a call costs.
    pub call: u64,
}

/// The state of the translator as a mathematical value.
pub struct TranslatorView {
    /// Whether the code at the current point can be reached.
    pub reachable: bool,
    /// The operand stack.
    pub stack: ValueStackView,
    /// The control stack.
    pub control: ControlView,
    /// The code emitted so far and its labels.
    pub encoder: EncoderView,
    /// The number of results of the function.
    pub len_results: u32,
    /// The costs of fuel, if fuel is metered.
    pub fuel: Option<FuelCosts>,
    /// The instruction that charges the fuel of the body of the function.
    pub func_fuel: Option<Instr>,
}

/// The outcome of a step of the translator: the state after it, or the
/// error that ended the translation.
pub type Translated = Result<TranslatorView, TranslationError>;

/// Whether `frame` holds the label `label` unpinned: the end of a `block`
/// or an `if`, or the `else` of an `if` whose `else` is still to come.
pub open spec fn owns_label(frame: ControlFrame, label: LabelRef) -> bool {
    match frame {
        ControlFrame::Block(f) => f.end_label == label,
        ControlFrame::If(f) => f.end_label == label || (f.keeps_else_providers() && f.else_label() == Some(label)),
        _ => false,
    }
}

/// The label of the end of `frame`, if the frame has one to pin.
pub open spec fn end_label_of(frame: ControlFrame) -> Option<LabelRef> {
    match frame {
        ControlFrame::Block(f) => Some(f.end_label),
        ControlFrame::If(f) => Some(f.end_label),
        _ => None,
    }
}

/// The label of the `else` of `frame`, if the frame has one to pin.
pub open spec fn else_label_of(frame: ControlFrame) -> Option<LabelRef> {
    match frame {
        ControlFrame::If(f) if f.keeps_else_providers() => f.else_label(),
        _ => None,
    }
}

/// Whether one of `frames` holds the label `label` unpinned.
pub open spec fn label_owned(frames: Seq<ControlFrame>, label: LabelRef) -> bool {
    exists|i: int| 0 <= i < frames.len() && #[trigger] owns_label(frames[i], label)
}

/// Whether nothing stands against reaching the code in `frame`: the frame
/// is not that of unreachable code, nor that of an `if` with a constant
/// condition in the branch that the condition rules out.
pub open spec fn may_be_reached(frame: ControlFrame) -> bool {
    match frame {
        ControlFrame::Unreachable(_) => false,
        ControlFrame::If(f) => !(f.reachability is OnlyThen && f.visited_else) && !(f.reachability is OnlyElse
            && !f.visited_else),
        _ => true,
    }
}

/// Whether the frame `a` may stand below the frame `b` on the control
/// stack: only unreachable frames stand above a frame whose code cannot be
/// reached, blocks
/// start no lower than the blocks around them, no two frames hold the same
/// label, and the providers kept for `else` branches follow each other.
pub open spec fn frames_ordered(a: ControlFrame, b: ControlFrame) -> bool {
    &&& !may_be_reached(a) ==> b is Unreachable
    &&& !(b is Unreachable) ==> a.block_height() <= b.block_height()
    &&& end_label_of(a) is Some && end_label_of(b) is Some ==> end_label_of(a) != end_label_of(b)
    &&& end_label_of(a) is Some && else_label_of(b) is Some ==> end_label_of(a) != else_label_of(b)
    &&& else_label_of(a) is Some && end_label_of(b) is Some ==> else_label_of(a) != end_label_of(b)
    &&& else_label_of(a) is Some && else_label_of(b) is Some ==> else_label_of(a) != else_label_of(b)
    &&& keeps_else(a) && keeps_else(b) ==> else_end(a) <= b->If_0.else_start
}

/// Whether `frame` keeps providers for an `else` branch to come.
pub open spec fn keeps_else(frame: ControlFrame) -> bool {
    frame matches ControlFrame::If(f) && f.keeps_else_providers()
}

/// The position after the providers that `frame` keeps for its `else`
/// branch.
pub open spec fn else_end(frame: ControlFrame) -> int {
    match frame {
        ControlFrame::If(f) => f.else_start + f.block_type.len_params,
        _ => 0,
    }
}

impl TranslatorView {
    /// The height of the operand stack.
    pub open spec fn height(self) -> nat {
        self.stack.height()
    }

    /// The number of locals of the function.
    pub open spec fn len_locals(self) -> nat {
        self.stack.len_locals
    }

    /// The height of the operand stack at which the innermost block began,
    /// its parameters not counted.
    pub open spec fn base_height(self) -> nat {
        if self.control.frames.len() > 0 {
            self.control.frames.last().block_height()
        } else {
            0
        }
    }

    /// Whether the `n` topmost operands belong to the innermost block, or
    /// the code cannot be reached.
    pub open spec fn operands_ok(self, n: nat) -> bool {
        self.reachable ==> self.base_height() + n <= self.height()
    }

    /// Whether the `len` providers kept from the position `start` on may
    /// stand on the operand stack from the height `height` on.
    pub open spec fn kept_in_place(self, start: int, len: int, height: int) -> bool {
        forall|k: int|
            start <= k < start + len ==> self.stack.in_place(
                #[trigger] self.control.else_providers[k],
                height + (k - start),
            )
    }

    /// The invariant of the frame at the position `i`.
    pub open spec fn frame_wf(self, i: int) -> bool {
        let frame = self.control.frames[i];
        match frame {
            ControlFrame::Unreachable(_) => !self.reachable,
            _ => {
                &&& frame.block_height() <= self.height()
                &&& frame.branch_params().head == self.stack.dynamic(frame.block_height() as int)
                &&& self.len_locals() + frame.block_height() + frame.len_branch_params() <= MAX_REGISTERS
                &&& self.len_locals() + frame.block_height() < MAX_REGISTERS
                &&& frame.block_height() + frame.len_branch_params() <= self.stack.max_height
                &&& frame.consume_fuel_instr() matches Some(at) ==> at.0 < self.encoder.instrs.len()
                &&& match frame {
                    ControlFrame::Block(f) => self.encoder.is_unpinned(f.end_label),
                    ControlFrame::Loop(f) => self.encoder.is_pinned(f.head_label),
                    ControlFrame::If(f) => {
                        &&& self.encoder.is_unpinned(f.end_label)
                        &&& f.else_label() matches Some(l) ==> l != f.end_label && l.0 < self.encoder.labels.len()
                        &&& f.reachability is OnlyThen && f.visited_else ==> !self.reachable && (
                        f.end_of_then_is_reachable == Some(true) ==> frame.block_height()
                            + f.block_type.len_results == self.height())
                        &&& f.reachability is OnlyElse && !f.visited_else ==> !self.reachable && self.height()
                            == frame.block_height() + f.block_type.len_params
                        &&& !f.visited_else ==> f.end_of_then_is_reachable is None
                        &&& f.keeps_else_providers() ==> {
                            &&& self.encoder.is_unpinned(f.else_label()->Some_0)
                            &&& f.stack_height.0 + f.block_type.len_params <= self.stack.max_height
                            &&& f.else_start + f.block_type.len_params <= self.control.else_providers.len()
                            &&& self.kept_in_place(f.else_start as int, f.block_type.len_params as int, f.stack_height.0 as int)
                        }
                    },
                    ControlFrame::Unreachable(_) => true,
                }
            },
        }
    }

    /// The invariant of the translator.
    pub open spec fn wf(self) -> bool {
        &&& self.stack.wf()
        &&& self.encoder.wf()
        &&& self.len_locals() + self.len_results <= MAX_REGISTERS
        &&& self.len_locals() < MAX_REGISTERS
        &&& self.len_results <= self.stack.max_height
        &&& self.func_fuel matches Some(at) ==> at.0 < self.encoder.instrs.len()
        &&& forall|i: int| 0 <= i < self.control.frames.len() ==> #[trigger] self.frame_wf(i)
        &&& forall|i: int, j: int|
            0 <= i < j < self.control.frames.len() ==> frames_ordered(
                #[trigger] self.control.frames[i],
                #[trigger] self.control.frames[j],
            )
        &&& forall|k: int|
            0 <= k < self.encoder.users.len() ==> label_owned(
                self.control.frames,
                (#[trigger] self.encoder.users[k]).label,
            )
        &&& forall|l: int|
            0 <= l < self.encoder.labels.len() ==> (#[trigger] self.encoder.labels[l]) is Pinned || label_owned(
                self.control.frames,
                LabelRef(l as usize),
            )
    }

    /// The state with the outcome of an encoding step.
    pub open spec fn emit(self, encoded: Encoded) -> Translated {
        match encoded {
            Ok((encoder, stack)) => Ok(TranslatorView { encoder, stack, ..self }),
            Err(e) => Err(e),
        }
    }

    /// The state after emitting `instr`.
    pub open spec fn push_instr(self, instr: Instruction) -> Translated {
        match self.encoder.push_instr(instr) {
            Ok((encoder, _)) => Ok(TranslatorView { encoder, ..self }),
            Err(e) => Err(e),
        }
    }

    /// The state after appending the slot `instr`.
    pub open spec fn append_instr(self, instr: Instruction) -> Translated {
        match self.encoder.append_instr(instr) {
            Ok((encoder, _)) => Ok(TranslatorView { encoder, ..self }),
            Err(e) => Err(e),
        }
    }

    /// The state with the operand stack `stack`.
    pub open spec fn with_stack(self, stack: ValueStackView) -> TranslatorView {
        TranslatorView { stack, ..self }
    }

    /// The state after pushing a constant or the register of a local.
    pub open spec fn push(self, provider: TypedProvider) -> TranslatorView {
        self.with_stack(self.stack.push(provider))
    }

    /// The state after a trap: the trap is emitted, and what follows
    /// cannot be reached.
    pub open spec fn trap(self, code: TrapCode) -> Translated {
        match self.push_instr(Instruction::Trap { code }) {
            Ok(t) => Ok(TranslatorView { reachable: false, ..t }),
            Err(e) => Err(e),
        }
    }

    /// The instruction that charges the fuel of the code at the current
    /// point.
    pub open spec fn current_fuel(self) -> Option<Instr> {
        if self.control.frames.len() > 0 {
            self.control.frames.last().consume_fuel_instr()
        } else {
            self.func_fuel
        }
    }

    /// The state after charging `delta` more fuel for the current basic
    /// block, if fuel is metered.
    pub open spec fn bump_fuel(self, delta: u64) -> Translated {
        match (self.fuel, self.current_fuel()) {
            (Some(_), Some(at)) => match self.encoder.bump_fuel(at, delta) {
                Ok(encoder) => Ok(TranslatorView { encoder, ..self }),
                Err(e) => Err(e),
            },
            _ => Ok(self),
        }
    }

    /// The state after emitting the instruction that charges the fuel of a
    /// new basic block, and the position of that instruction, if fuel is
    /// metered.
    pub open spec fn push_consume_fuel(self) -> Result<(TranslatorView, Option<Instr>), TranslationError> {
        match self.fuel {
            Some(costs) => match self.encoder.push_instr(Instruction::ConsumeFuel { amount: costs.base }) {
                Ok((encoder, at)) => Ok((TranslatorView { encoder, ..self }, Some(at))),
                Err(e) => Err(e),
            },
            None => Ok((self, None)),
        }
    }

    /// The state after moving the `len` topmost operands to the registers
    /// from `params` on.
    pub open spec fn copy_branch_params(self, params: RegSpan, len: nat) -> Translated {
        if len == 0 {
            Ok(self)
        } else {
            self.emit(
                self.encoder.encode_copies(
                    self.stack.drop_n(len as int),
                    RegSpanIter { next: params.head, last: Register((params.head.0 + len) as i16) },
                    self.stack.peek_n(len as int),
                ),
            )
        }
    }

    /// The state after returning the topmost operands as the results of
    /// the function.
    pub open spec fn translate_return(self) -> Translated {
        let len = self.len_results as int;
        match self.emit(self.encoder.encode_return(self.stack.drop_n(len), self.stack.peek_n(len))) {
            Ok(t) => Ok(TranslatorView { reachable: false, ..t }),
            Err(e) => Err(e),
        }
    }

    /// The state after pushing an operand that stands for `provider`: the
    /// provider itself if it may stand at the next position, else the
    /// temporary of that position, with a copy to it.
    pub open spec fn push_forward(self, provider: TypedProvider) -> Translated {
        if self.stack.in_place(provider, self.height() as int) {
            Ok(self.push(provider))
        } else {
            match self.stack.push_dynamic() {
                Ok((stack, result)) => self.emit(self.encoder.encode_copy(stack, result, provider)),
                Err(e) => Err(e),
            }
        }
    }

    /// The state after saving, from the position `pos` of the operand
    /// stack on, every operand that is the local `local`: the operand
    /// becomes the temporary of its position, and a copy of the local to
    /// that temporary is emitted.
    pub open spec fn preserve_locals(self, local: Register, pos: nat) -> Translated
        decreases self.height() - pos,
    {
        if pos >= self.height() {
            Ok(self)
        } else if self.stack.providers[pos as int] == TypedProvider::Register(local) {
            match self.stack.preserve_at(pos as int) {
                Err(e) => Err(e),
                Ok((stack, saved)) => match self.encoder.push_instr(Instruction::Copy { result: saved, value: local }) {
                    Err(e) => Err(e),
                    Ok((encoder, _)) => (TranslatorView { stack, encoder, ..self }).preserve_locals(local, pos + 1),
                },
            }
        } else {
            self.preserve_locals(local, pos + 1)
        }
    }
}

/// When the last block of a function has ended, every label is pinned and
/// every branch of its code holds the distance to its target: no branch
/// waits for a label.
pub proof fn lemma_all_resolved(a: TranslatorView)
    requires
        a.wf(),
        a.control.frames.len() == 0,
    ensures
        a.encoder.all_resolved(),
        a.encoder.all_pinned(),
{
    if a.encoder.users.len() > 0 {
        assert(label_owned(a.control.frames, a.encoder.users[0].label));
    }
    assert forall|l: int| 0 <= l < a.encoder.labels.len() implies (#[trigger] a.encoder.labels[l]) is Pinned by {
        if !(a.encoder.labels[l] is Pinned) {
            assert(label_owned(a.control.frames, LabelRef(l as usize)));
        }
    }
}

/// The operand stack is never lower than where the innermost block began.
pub proof fn lemma_base_height(a: TranslatorView)
    requires
        a.wf(),
    ensures
        a.base_height() <= a.height(),
        forall|i: int| 0 <= i < a.control.frames.len() ==> (#[trigger] a.control.frames[i]).block_height() <= a.height(),
        a.reachable ==> forall|i: int|
            0 <= i < a.control.frames.len() ==> (#[trigger] a.control.frames[i]).block_height() <= a.base_height(),
        a.reachable ==> forall|i: int| 0 <= i < a.control.frames.len() ==> !(#[trigger] a.control.frames[i] is Unreachable),
{
    let n = a.control.frames.len() as int;
    if n > 0 {
        assert(a.frame_wf(n - 1));
    }
    assert forall|i: int| 0 <= i < n implies (#[trigger] a.control.frames[i]).block_height() <= a.height() by {
        assert(a.frame_wf(i));
    }
    if a.reachable {
        assert forall|i: int| 0 <= i < n implies (#[trigger] a.control.frames[i]).block_height() <= a.base_height()
            && !(a.control.frames[i] is Unreachable) by {
            assert(a.frame_wf(i));
            if i < n - 1 {
                assert(frames_ordered(a.control.frames[i], a.control.frames[n - 1]));
            }
        }
    }
}

/// A step that leaves the control stack, the labels and the waiting
/// branches alone, keeps the operand stack at or above the height at which
/// the innermost block began, and does not make unreachable code
/// reachable, keeps the invariant of the translator.
pub proof fn lemma_step_wf(a: TranslatorView, b: TranslatorView)
    requires
        a.wf(),
        b.stack.wf(),
        b.encoder.wf(),
        b.control == a.control,
        b.len_results == a.len_results,
        b.fuel == a.fuel,
        b.func_fuel == a.func_fuel,
        b.stack.len_locals == a.stack.len_locals,
        b.stack.max_height >= a.stack.max_height,
        b.encoder.labels == a.encoder.labels,
        b.encoder.users == a.encoder.users,
        b.encoder.instrs.len() >= a.encoder.instrs.len(),
        b.reachable ==> a.reachable,
        a.reachable ==> b.base_height() <= b.height(),
        !a.reachable ==> b.height() == a.height(),
    ensures
        b.wf(),
{
    lemma_base_height(a);
    assert forall|i: int| 0 <= i < b.control.frames.len() implies #[trigger] b.frame_wf(i) by {
        assert(a.frame_wf(i));
    }
}

/// The translator of one function.
#[derive(Debug)]
pub struct FuncTranslator<'a> {
    pub(crate) reachable: bool,
    pub(crate) stack: ValueStack,
    pub(crate) control: ControlStack,
    pub(crate) encoder: InstrEncoder,
    pub(crate) buffer: Vec<TypedProvider>,
    pub(crate) br_table_targets: Vec<u32>,
    pub(crate) res: &'a ModuleResources,
    pub(crate) len_results: u32,
    pub(crate) fuel: Option<FuelCosts>,
    pub(crate) func_fuel: Option<Instr>,
}

impl<'a> View for FuncTranslator<'a> {
    type V = TranslatorView;

    open(crate) spec fn view(&self) -> TranslatorView {
        TranslatorView {
            reachable: self.reachable,
            stack: self.stack@,
            control: self.control@,
            encoder: self.encoder@,
            len_results: self.len_results,
            fuel: self.fuel,
            func_fuel: self.func_fuel,
        }
    }
}

impl<'a> FuncTranslator<'a> {
    /// The invariant of the translator.
    pub open spec fn wf(&self) -> bool {
        &&& self@.wf()
        &&& self.module().wf()
    }

    /// The module that the function belongs to.
    pub open(crate) spec fn module(&self) -> &ModuleResources {
        self.res
    }

    /// Whether the translator has made the step `expected`: it is in the
    /// state that the step leads to and reports success, or it reports the
    /// error that the step ends with.
    pub open spec fn translated(&self, before: &Self, expected: Translated, r: Result<(), TranslationError>) -> bool {
        match expected {
            Ok(state) => r is Ok && self@ == state && self.wf() && self.module() == before.module(),
            Err(e) => r == Err::<(), TranslationError>(e),
        }
    }

    /// The invariants of the operand stack, of the encoder and of the
    /// module.
    pub open spec fn parts_wf(&self) -> bool {
        &&& self@.stack.wf()
        &&& self@.encoder.wf()
        &&& self.module().wf()
    }

    /// Whether the translator has made the step `expected`, which may be
    /// part of the translation of an operator: as [`Self::translated`],
    /// but only the parts of the translator are known to be in order.
    pub open spec fn advanced(&self, before: &Self, expected: Translated, r: Result<(), TranslationError>) -> bool {
        match expected {
            Ok(state) => r is Ok && self@ == state && self.parts_wf() && self.module() == before.module(),
            Err(e) => r == Err::<(), TranslationError>(e),
        }
    }

    /// The translator at the start of the body of a function with
    /// `len_locals` locals, parameters included, and `len_results`
    /// results. With `fuel`, the translated code meters fuel. Fails if the
    /// locals or the results outnumber the registers.
    pub fn new(res: &'a ModuleResources, len_locals: usize, len_results: u32, fuel: Option<FuelCosts>) -> (r: Result<
        FuncTranslator<'a>,
        TranslationError,
    >)
        requires
            res.wf(),
        ensures
            r is Ok <==> len_locals < MAX_REGISTERS && len_locals + len_results <= MAX_REGISTERS,
            r matches Err(e) ==> e == TranslationError::AllocatedTooManyRegisters,
            r matches Ok(t) ==> {
                &&& t.wf()
                &&& t.module() == res
                &&& t@.reachable
                &&& t@.stack.providers.len() == 0
                &&& t@.stack.len_locals == len_locals
                &&& t@.stack.consts.len() == 0
                &&& t@.control.frames.len() == 0
                &&& t@.len_results == len_results
                &&& t@.fuel == fuel
                &&& t@.encoder.labels.len() == 0
                &&& t@.encoder.users.len() == 0
                &&& t@.encoder.instrs == match fuel {
                    Some(costs) => seq![Instruction::ConsumeFuel { amount: costs.base }],
                    None => Seq::<Instruction>::empty(),
                }
            },
    {
        let mut stack = ValueStack::new(len_locals)?;
        match stack.peek_dynamic_n(len_results as usize) {
            Ok(_) => {},
            Err(e) => {
                return Err(e);
            },
        }
        let mut encoder = InstrEncoder::new();
        let func_fuel = match fuel {
            Some(costs) => {
                let at = encoder.push_instr(Instruction::ConsumeFuel { amount: costs.base });
                assert(at is Ok);
                match at {
                    Ok(at) => Some(at),
                    Err(e) => None,
                }
            },
            None => None,
        };
        let t = FuncTranslator {
            reachable: true,
            stack,
            control: ControlStack::new(),
            encoder,
            buffer: Vec::new(),
            br_table_targets: Vec::new(),
            res,
            len_results,
            fuel,
            func_fuel,
        };
        assert(t@.encoder.instrs =~= match fuel {
            Some(costs) => seq![Instruction::ConsumeFuel { amount: costs.base }],
            None => Seq::<Instruction>::empty(),
        });
        Ok(t)
    }

    /// Hands out the code of the function when its last `end` has been
    /// translated: its instructions, its constants, and the number of
    /// registers that its locals and temporaries take. Every label is
    /// pinned, and every branch of the code holds the distance to its
    /// target.
    pub fn finish(self, len_params: usize) -> (r: crate::code_map::CompiledFunc)
        requires
            self.wf(),
            self@.control.frames.len() == 0,
        ensures
            self@.encoder.all_resolved(),
            self@.encoder.all_pinned(),
            r@.instrs == self@.encoder.instrs,
            r@.consts == self@.stack.consts,
            r@.len_params == len_params,
            r@.len_registers == if self@.len_locals() + self@.stack.max_height <= MAX_REGISTERS {
                self@.len_locals() + self@.stack.max_height
            } else {
                MAX_REGISTERS as nat
            },
    {
        proof {
            lemma_all_resolved(self@);
        }
        let locals = self.stack.len_locals();
        let high = self.stack.max_height();
        let len_registers = if high <= MAX_REGISTERS - locals {
            locals + high
        } else {
            MAX_REGISTERS
        };
        crate::code_map::CompiledFunc {
            len_params,
            len_registers,
            instrs: self.encoder.instrs,
            consts: self.stack.into_consts().into_values(),
        }
    }

    /// Whether the code at the current point can be reached.
    pub fn is_reachable(&self) -> (r: bool)
        ensures
            r == self@.reachable,
    {
        self.reachable
    }

    /// Whether fuel is metered.
    pub fn is_fuel_metering_enabled(&self) -> (r: bool)
        ensures
            r == self@.fuel.is_some(),
    {
        self.fuel.is_some()
    }

    /// The operand stack.
    pub fn stack(&self) -> (r: &ValueStack)
        ensures
            r@ == self@.stack,
    {
        &self.stack
    }

    /// The code emitted so far.
    pub fn instrs(&self) -> (r: &Vec<Instruction>)
        ensures
            r@ == self@.encoder.instrs,
    {
        &self.encoder.instrs
    }

    /// The number of frames on the control stack.
    pub fn control_depth(&self) -> (r: usize)
        ensures
            r == self@.control.frames.len(),
    {
        self.control.len()
    }

    /// Whether the `n` topmost operands belong to the innermost block, or
    /// the code cannot be reached.
    pub fn has_operands(&self, n: usize) -> (r: bool)
        ensures
            r == self@.operands_ok(n as nat),
    {
        if !self.reachable {
            return true;
        }
        let base = if self.control.len() > 0 {
            self.control.last().block_height_exec()
        } else {
            0
        };
        let h = self.stack.height();
        base <= h && n <= h - base
    }

    /// The instruction that charges the fuel of the code at the current
    /// point.
    pub(crate) fn current_fuel(&self) -> (r: Option<Instr>)
        ensures
            r == self@.current_fuel(),
    {
        if self.control.len() > 0 {
            self.control.last().consume_fuel_instr_exec()
        } else {
            self.func_fuel
        }
    }

    /// Charges `delta` more fuel for the current basic block, if fuel is
    /// metered.
    pub(crate) fn bump_fuel_consumption(&mut self, delta: u64) -> (r: Result<(), TranslationError>)
        requires
            old(self).wf(),
        ensures
            final(self).translated(old(self), old(self)@.bump_fuel(delta), r),
            final(self).buffer == old(self).buffer,
    {
        if self.fuel.is_none() {
            return Ok(());
        }
        match self.current_fuel() {
            Some(at) => {
                proof {
                    if self@.control.frames.len() > 0 {
                        assert(self@.frame_wf(self@.control.frames.len() - 1));
                    }
                }
                self.encoder.bump_fuel_consumption(at, delta)?;
                proof {
                    lemma_base_height(old(self)@);
                    lemma_step_wf(old(self)@, self@);
                }
                Ok(())
            },
            None => Ok(()),
        }
    }

    /// Emits a trap; what follows cannot be reached.
    pub(crate) fn translate_trap(&mut self, code: TrapCode) -> (r: Result<(), TranslationError>)
        requires
            old(self).wf(),
            old(self)@.reachable,
        ensures
            final(self).translated(old(self), old(self)@.trap(code), r),
    {
        self.encoder.push_instr(Instruction::Trap { code })?;
        self.reachable = false;
        proof {
            let a = old(self)@;
            let mid = TranslatorView { reachable: true, ..self@ };
            lemma_base_height(a);
            lemma_step_wf(a, mid);
            lemma_unreachable_wf(mid);
        }
        Ok(())
    }

    /// Moves the `len` topmost operands to the registers from `params` on.
    pub(crate) fn translate_copy_branch_params(&mut self, params: RegSpan, len: usize) -> (r: Result<
        (),
        TranslationError,
    >)
        requires
            old(self).parts_wf(),
            len <= old(self)@.height(),
            params.head.0 + len <= i16::MAX,
        ensures
            final(self).advanced(old(self), old(self)@.copy_branch_params(params, len as nat), r),
            final(self).br_table_targets == old(self).br_table_targets,
    {
        if len == 0 {
            return Ok(());
        }
        self.stack.pop_n(len, &mut self.buffer);
        let results = params.iter(len);
        self.encoder.encode_copies(&mut self.stack, results, &self.buffer)
    }

    /// Returns the topmost operands as the results of the function; what
    /// follows cannot be reached.
    pub(crate) fn translate_return(&mut self) -> (r: Result<(), TranslationError>)
        requires
            old(self).parts_wf(),
            old(self)@.len_results <= old(self)@.height(),
        ensures
            final(self).advanced(old(self), old(self)@.translate_return(), r),
    {
        self.stack.pop_n(self.len_results as usize, &mut self.buffer);
        self.encoder.encode_return(&mut self.stack, &self.buffer)?;
        self.reachable = false;
        Ok(())
    }

    /// Makes the operands from the height `height` on the `len`
    /// temporaries of their positions.
    pub(crate) fn push_results(&mut self, height: usize, len: usize)
        requires
            old(self).parts_wf(),
            height <= old(self)@.height(),
            old(self)@.len_locals() + height + len <= MAX_REGISTERS,
            old(self)@.len_locals() + height < MAX_REGISTERS,
        ensures
            final(self)@ == old(self)@.push_results(height as nat, len as nat),
            final(self).parts_wf(),
            final(self).module() == old(self).module(),
    {
        self.stack.trunc(height);
        proof {
            let cut = self@.stack;
            assert(cut.dynamics(height as int, len as nat) =~= old(self)@.stack.dynamics(height as int, len as nat));
        }
        let pushed = self.stack.push_dynamic_n(len);
        assert(pushed is Ok);
    }

    /// Pins `label`.
    pub(crate) fn pin(&mut self, label: LabelRef) -> (r: Result<(), TranslationError>)
        requires
            old(self).parts_wf(),
            old(self)@.encoder.is_unpinned(label),
        ensures
            final(self).advanced(old(self), old(self)@.pin(label), r),
            final(self).br_table_targets == old(self).br_table_targets,
            final(self).buffer == old(self).buffer,
    {
        self.encoder.pin_label(label)
    }

    /// Emits a branch to `label`.
    pub(crate) fn branch(&mut self, label: LabelRef) -> (r: Result<(), TranslationError>)
        requires
            old(self).parts_wf(),
            label.0 < old(self)@.encoder.labels.len(),
        ensures
            final(self).advanced(old(self), old(self)@.branch(label), r),
            final(self).br_table_targets == old(self).br_table_targets,
            final(self).buffer == old(self).buffer,
    {
        self.encoder.encode_branch(label)
    }
}

/// Whether the operands that the branch of `frame` which can be reached
/// has or will have wait on an operand stack of the height `height` while
/// the other branch is passed over, for an `if` with a constant
/// condition: the results of the `then` branch, or the parameters for the
/// `else` branch.
pub open spec fn then_results_wait(frame: ControlFrame, height: nat) -> bool {
    &&& (frame matches ControlFrame::If(f) && f.reachability is OnlyThen && f.visited_else
        && f.end_of_then_is_reachable == Some(true)) ==> frame.block_height() + frame.block_type().len_results
        == height
    &&& (frame matches ControlFrame::If(f) && f.reachability is OnlyElse && !f.visited_else)
        ==> frame.block_height() + frame.block_type().len_params == height
}

/// A step that keeps the first `m` frames of the control stack, drops the
/// others and may push one frame, `top`, keeps the invariant of the
/// translator, provided that the parts of the translator are in order,
/// that only labels which none of the frames holds have been pinned, that
/// every waiting branch targets a label of a frame, that the providers
/// kept for the remaining frames are still kept, that the operand stack
/// is no lower than where the remaining blocks began, that the code can be
/// reached only if every remaining frame allows it, and that the new
/// frame is in order and may stand on the others.
pub proof fn lemma_restack_wf(a: TranslatorView, b: TranslatorView, m: int, top: Option<ControlFrame>)
    requires
        a.wf(),
        b.stack.wf(),
        b.encoder.wf(),
        0 <= m <= a.control.frames.len(),
        b.control.frames == match top {
            Some(frame) => a.control.frames.take(m).push(frame),
            None => a.control.frames.take(m),
        },
        b.len_results == a.len_results,
        b.fuel == a.fuel,
        b.func_fuel == a.func_fuel,
        b.stack.len_locals == a.stack.len_locals,
        b.stack.max_height >= a.stack.max_height,
        b.encoder.labels.len() >= a.encoder.labels.len(),
        forall|l: int|
            0 <= l < a.encoder.labels.len() ==> #[trigger] b.encoder.labels[l] == a.encoder.labels[l] || (
            a.encoder.labels[l] is Unpinned && !label_owned(a.control.frames.take(m), LabelRef(l as usize))),
        b.encoder.instrs.len() >= a.encoder.instrs.len(),
        forall|k: int|
            0 <= k < b.encoder.users.len() ==> label_owned(b.control.frames, (#[trigger] b.encoder.users[k]).label),
        forall|i: int|
            0 <= i < m && keeps_else(#[trigger] a.control.frames[i]) ==> else_end(a.control.frames[i])
                <= b.control.else_providers.len() && else_end(a.control.frames[i])
                <= a.control.else_providers.len(),
        forall|i: int, j: int|
            0 <= i < m && keeps_else(#[trigger] a.control.frames[i]) && 0 <= j < else_end(a.control.frames[i])
                ==> #[trigger] b.control.else_providers[j] == a.control.else_providers[j],
        forall|i: int| 0 <= i < m ==> (#[trigger] a.control.frames[i]).block_height() <= b.height(),
        b.reachable ==> forall|i: int| 0 <= i < m ==> may_be_reached(#[trigger] a.control.frames[i]),
        forall|i: int| 0 <= i < m ==> then_results_wait(#[trigger] a.control.frames[i], b.height()),
        top matches Some(frame) ==> b.frame_wf(m) && forall|i: int|
            0 <= i < m ==> frames_ordered(#[trigger] a.control.frames[i], frame),
        forall|l: int|
            0 <= l < b.encoder.labels.len() ==> (#[trigger] b.encoder.labels[l]) is Pinned || label_owned(
                b.control.frames,
                LabelRef(l as usize),
            ),
    ensures
        b.wf(),
{
    let kept = a.control.frames.take(m);
    assert forall|i: int| 0 <= i < b.control.frames.len() implies #[trigger] b.frame_wf(i) by {
        if i < m {
            let frame = a.control.frames[i];
            assert(kept[i] == frame);
            assert(b.control.frames[i] == frame);
            assert(a.frame_wf(i));
            assert(may_be_reached(frame) || !b.reachable);
            assert(then_results_wait(frame, b.height()));
            match frame {
                ControlFrame::Block(f) => {
                    assert(owns_label(kept[i], f.end_label));
                    assert(b.encoder.labels[f.end_label.0 as int] == a.encoder.labels[f.end_label.0 as int]);
                },
                ControlFrame::Loop(f) => {
                    assert(b.encoder.labels[f.head_label.0 as int] == a.encoder.labels[f.head_label.0 as int]);
                },
                ControlFrame::If(f) => {
                    assert(owns_label(kept[i], f.end_label));
                    assert(b.encoder.labels[f.end_label.0 as int] == a.encoder.labels[f.end_label.0 as int]);
                    if f.keeps_else_providers() {
                        let l = f.else_label()->Some_0;
                        assert(owns_label(kept[i], l));
                        assert(b.encoder.labels[l.0 as int] == a.encoder.labels[l.0 as int]);
                        assert(keeps_else(frame));
                        assert forall|k: int|
                            f.else_start <= k < f.else_start + f.block_type.len_params implies b.stack.in_place(
                            #[trigger] b.control.else_providers[k],
                            f.stack_height.0 + (k - f.else_start),
                        ) by {
                            assert(b.control.else_providers[k] == a.control.else_providers[k]);
                            assert(a.stack.in_place(
                                a.control.else_providers[k],
                                f.stack_height.0 + (k - f.else_start),
                            ));
                        }
                    }
                },
                ControlFrame::Unreachable(_) => {},
            }
        }
    }
    assert forall|i: int, j: int| 0 <= i < j < b.control.frames.len() implies frames_ordered(
        #[trigger] b.control.frames[i],
        #[trigger] b.control.frames[j],
    ) by {
        assert(kept[i] == a.control.frames[i]);
        if j < m {
            assert(kept[j] == a.control.frames[j]);
            assert(frames_ordered(a.control.frames[i], a.control.frames[j]));
        }
    }
}

/// A label that the innermost frame holds is held by no other frame, and
/// a label that a frame holds, but not the innermost, is held by one of
/// the frames below the innermost.
pub proof fn lemma_label_owner(a: TranslatorView, label: LabelRef)
    requires
        a.wf(),
        a.control.frames.len() > 0,
    ensures
        owns_label(a.control.frames.last(), label) ==> !label_owned(a.control.frames.drop_last(), label),
        label_owned(a.control.frames, label) && !owns_label(a.control.frames.last(), label) ==> label_owned(
            a.control.frames.drop_last(),
            label,
        ),
{
    let frames = a.control.frames;
    let n = frames.len() as int;
    let below = frames.drop_last();
    if owns_label(frames.last(), label) {
        if label_owned(below, label) {
            let i = choose|i: int| 0 <= i < below.len() && #[trigger] owns_label(below[i], label);
            assert(frames_ordered(frames[i], frames[n - 1]));
            assert(false);
        }
    } else if label_owned(frames, label) {
        let i = choose|i: int| 0 <= i < frames.len() && #[trigger] owns_label(frames[i], label);
        assert(owns_label(below[i], label));
    }
}

/// Whether the state `later` differs from the state `earlier` by code
/// emitted, constants interned and the `dropped` topmost operands popped,
/// and by nothing else.
pub open spec fn emitted(later: TranslatorView, earlier: TranslatorView, dropped: int) -> bool {
    &&& later.stack.wf()
    &&& later.encoder.wf()
    &&& code_grows(later.encoder, earlier.encoder)
    &&& later.stack.providers == earlier.stack.drop_n(dropped).providers
    &&& later.stack.len_locals == earlier.stack.len_locals
    &&& later.stack.max_height == earlier.stack.max_height
    &&& extends(later.stack.consts, earlier.stack.consts)
    &&& later.control == earlier.control
    &&& later.reachable == earlier.reachable
    &&& later.len_results == earlier.len_results
    &&& later.fuel == earlier.fuel
    &&& later.func_fuel == earlier.func_fuel
}

/// Moving operands to the registers of a frame pops them and emits code,
/// and changes nothing else.
pub proof fn lemma_copy_branch_params_kept(t: TranslatorView, params: RegSpan, len: nat)
    requires
        t.stack.wf(),
        t.encoder.wf(),
        len <= t.height(),
    ensures
        t.copy_branch_params(params, len) matches Ok(t2) ==> emitted(t2, t, len as int),
{
    let dropped = t.stack.drop_n(len as int);
    assert forall|i: int| 0 <= i < dropped.height() implies dropped.in_place(#[trigger] dropped.providers[i], i) by {
        assert(t.stack.in_place(t.stack.providers[i], i));
    }
    if len > 0 {
        lemma_encode_copies_kept(
            t.encoder,
            dropped,
            RegSpanIter { next: params.head, last: Register((params.head.0 + len) as i16) },
            t.stack.peek_n(len as int),
        );
    } else {
        assert(t.stack.drop_n(0).providers =~= t.stack.providers);
    }
}

/// Returning from the function pops the results and emits code; what
/// follows cannot be reached, and nothing else changes.
pub proof fn lemma_translate_return_kept(t: TranslatorView)
    requires
        t.stack.wf(),
        t.encoder.wf(),
        t.len_results <= t.height(),
    ensures
        t.translate_return() matches Ok(t2) ==> emitted(
            t2,
            TranslatorView { reachable: false, ..t },
            t.len_results as int,
        ),
{
    let dropped = t.stack.drop_n(t.len_results as int);
    assert forall|i: int| 0 <= i < dropped.height() implies dropped.in_place(#[trigger] dropped.providers[i], i) by {
        assert(t.stack.in_place(t.stack.providers[i], i));
    }
    lemma_encode_return_kept(t.encoder, dropped, t.stack.peek_n(t.len_results as int));
}

/// Pinning a label changes that label only, keeps waiting the branches
/// that wait for other labels, and keeps the code as long as it was.
pub proof fn lemma_pin_kept(t: TranslatorView, label: LabelRef)
    requires
        t.encoder.wf(),
        t.encoder.is_unpinned(label),
    ensures
        t.pin(label) matches Ok(t2) ==> {
            &&& t2.encoder.wf()
            &&& t2.stack == t.stack
            &&& t2.control == t.control
            &&& t2.reachable == t.reachable
            &&& t2.len_results == t.len_results
            &&& t2.fuel == t.fuel
            &&& t2.func_fuel == t.func_fuel
            &&& t2.encoder.instrs.len() == t.encoder.instrs.len()
            &&& t2.encoder.labels == t.encoder.labels.update(label.0 as int, Label::Pinned(t.encoder.next_instr()))
            &&& forall|k: int|
                0 <= k < t2.encoder.users.len() ==> (#[trigger] t2.encoder.users[k]).label != label
                    && t.encoder.users.contains(t2.encoder.users[k])
        },
{
    lemma_resolve_users_wf(t.encoder.instrs, t.encoder.users, label, t.encoder.instrs.len() as int);
    if let Ok(t2) = t.pin(label) {
        let e = t.encoder;
        let e2 = t2.encoder;
        assert forall|i: int| 0 <= i < e2.users.len() implies {
            let u = #[trigger] e2.users[i];
            &&& u.label.0 < e2.labels.len()
            &&& e2.labels[u.label.0 as int] is Unpinned
            &&& u.user.0 < e2.instrs.len()
            &&& e2.instrs[u.user.0 as int].is_branch()
        } by {
            let u = e2.users[i];
            assert(e.users.contains(u));
            let j = choose|j: int| 0 <= j < e.users.len() && e.users[j] == u;
            assert(e.users[j] == u);
        }
    }
}

/// Code that can be reached may become unreachable: the invariant of the
/// translator stays.
pub proof fn lemma_unreachable_wf(a: TranslatorView)
    requires
        a.wf(),
    ensures
        (TranslatorView { reachable: false, ..a }).wf(),
{
    let b = TranslatorView { reachable: false, ..a };
    assert forall|i: int| 0 <= i < b.control.frames.len() implies #[trigger] b.frame_wf(i) by {
        assert(a.frame_wf(i));
    }
}

} // verus!
