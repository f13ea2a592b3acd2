//! Encoding of branches, returns and writes to locals, with the fusions
//! that the preceding instruction allows.

use vstd::prelude::*;
use crate::copies::{
    as_span, has_providers, holds_consts, holds_provider, lemma_encode_register_list, lemma_provider_register,
    provider_value, Encoded,
};
use crate::executor::{step, Step};
use crate::regfile::{register_list, RegisterFile};
use crate::encoder::{EncoderView, InstrEncoder, LabelRef, Label, LabelUser, MAX_INSTRS};
use crate::error::TranslationError;
use crate::instr::{BranchOffset16, Instr, Instruction};

use crate::register::{RegSpan, Register};
use crate::stack::{ValueStack, ValueStackView};
use crate::value::TypedProvider;

verus! {

/// The conditional branch that stands for `relation`, an instruction that
/// computes a relation, followed by a branch on its result; `negate` tells
/// whether the branch is taken where the result is zero. `None` if the
/// instruction computes no relation, or none that has the negation asked
/// for.
pub open spec fn fused_branch(relation: Instruction, negate: bool) -> Option<Instruction> {
    match relation {
        Instruction::Binary { op, lhs, rhs, .. } if op.is_relation() => {
            if !negate {
                Some(Instruction::BranchBinary { op, lhs, rhs, offset: BranchOffset16(0) })
            } else {
                match op.negated() {
                    Some(op) => Some(Instruction::BranchBinary { op, lhs, rhs, offset: BranchOffset16(0) }),
                    None => None,
                }
            }
        },
        Instruction::BinaryImm16 { op, lhs, rhs, .. } if op.is_relation() => {
            if !negate {
                Some(Instruction::BranchBinaryImm { op, lhs, rhs, offset: BranchOffset16(0) })
            } else {
                match op.negated() {
                    Some(op) => Some(Instruction::BranchBinaryImm { op, lhs, rhs, offset: BranchOffset16(0) }),
                    None => None,
                }
            }
        },
        _ => None,
    }
}

/// Computes [`fused_branch`].
pub fn fuse_branch(relation: Instruction, negate: bool) -> (r: Option<Instruction>)
    ensures
        r == fused_branch(relation, negate),
{
    match relation {
        Instruction::Binary { op, lhs, rhs, .. } => {
            if !op.is_relation_exec() {
                return None;
            }
            if !negate {
                Some(Instruction::BranchBinary { op, lhs, rhs, offset: BranchOffset16(0) })
            } else {
                match op.negated_exec() {
                    Some(op) => Some(Instruction::BranchBinary { op, lhs, rhs, offset: BranchOffset16(0) }),
                    None => None,
                }
            }
        },
        Instruction::BinaryImm16 { op, lhs, rhs, .. } => {
            if !op.is_relation_exec() {
                return None;
            }
            if !negate {
                Some(Instruction::BranchBinaryImm { op, lhs, rhs, offset: BranchOffset16(0) })
            } else {
                match op.negated_exec() {
                    Some(op) => Some(Instruction::BranchBinaryImm { op, lhs, rhs, offset: BranchOffset16(0) }),
                    None => None,
                }
            }
        },
        _ => None,
    }
}

/// The register that a relation instruction writes.
pub open spec fn relation_result(relation: Instruction) -> Option<Register> {
    match relation {
        Instruction::Binary { result, .. } | Instruction::BinaryImm16 { result, .. } => Some(result),
        _ => None,
    }
}

impl EncoderView {
    /// Emits a branch to `label`.
    pub open spec fn encode_branch(self, label: LabelRef) -> Result<EncoderView, TranslationError> {
        let (enc, offset) = self.resolve_label_for(label, self.next_instr());
        match enc.push_instr(Instruction::Branch { offset }) {
            Ok((enc, _)) => Ok(enc),
            Err(e) => Err(e),
        }
    }

    /// Appends a branch to `label` as a slot of the preceding instruction.
    pub open spec fn append_branch(self, label: LabelRef) -> Result<EncoderView, TranslationError> {
        let (enc, offset) = self.resolve_label_for(label, self.next_instr());
        match enc.append_instr(Instruction::Branch { offset }) {
            Ok((enc, _)) => Ok(enc),
            Err(e) => Err(e),
        }
    }

    /// The last instruction, if it is the last slot of the code and a
    /// branch on `condition` can take its place: it computes `condition`,
    /// which is a temporary, by a relation that can be branched on.
    pub open spec fn fusion(self, stack: ValueStackView, condition: Register, negate: bool) -> Option<
        (Instr, Instruction),
    > {
        match self.last_instr {
            Some(last) if last.0 + 1 == self.instrs.len() && !stack.is_local(condition) && relation_result(
                self.instrs[last.0 as int],
            ) == Some(condition) => match fused_branch(self.instrs[last.0 as int], negate) {
                Some(branch) => Some((last, branch)),
                None => None,
            },
            _ => None,
        }
    }

    /// Replaces the last instruction by the branch `branch` to `label`, if
    /// the distance is not known yet or fits the branch.
    pub open spec fn fuse(self, last: Instr, branch: Instruction, label: LabelRef) -> Option<EncoderView> {
        match self.labels[label.0 as int] {
            Label::Pinned(at) => match branch.with_offset(at.0 - last.0) {
                Some(branch) => Some(EncoderView { instrs: self.instrs.update(last.0 as int, branch), ..self }),
                None => None,
            },
            Label::Unpinned => Some(
                EncoderView {
                    instrs: self.instrs.update(last.0 as int, branch),
                    users: self.users.push(LabelUser { label, user: last }),
                    ..self
                },
            ),
        }
    }

    /// Emits a branch to `label` that is taken if `condition` is zero
    /// (`negate`) or not zero. A constant condition makes it a plain branch
    /// or nothing at all; a relation computed just before takes the branch
    /// into itself.
    pub open spec fn encode_branch_if(self, stack: ValueStackView, condition: TypedProvider, label: LabelRef, negate: bool) -> Result<
        EncoderView,
        TranslationError,
    > {
        match condition {
            TypedProvider::Const(c) => if c.is_true() != negate {
                self.encode_branch(label)
            } else {
                Ok(self)
            },
            TypedProvider::Register(condition) => {
                let fused = match self.fusion(stack, condition, negate) {
                    Some((last, branch)) => self.fuse(last, branch, label),
                    None => None,
                };
                match fused {
                    Some(enc) => Ok(enc),
                    None => {
                        let (enc, offset) = self.resolve_label_for(label, self.next_instr());
                        let branch = if negate {
                            Instruction::BranchEqz { condition, offset }
                        } else {
                            Instruction::BranchNez { condition, offset }
                        };
                        match enc.push_instr(branch) {
                            Ok((enc, _)) => Ok(enc),
                            Err(e) => Err(e),
                        }
                    },
                }
            },
        }
    }

    /// Emits the return of `values`.
    pub open spec fn encode_return(self, stack: ValueStackView, values: Seq<TypedProvider>) -> Encoded {
        if values.len() == 0 {
            match self.push_instr(Instruction::Return) {
                Ok((enc, _)) => Ok((enc, stack)),
                Err(e) => Err(e),
            }
        } else if values.len() == 1 {
            match values[0] {
                TypedProvider::Const(c) if c.bits <= u32::MAX => match self.push_instr(
                    Instruction::ReturnImm32 { value: c.bits as u32 },
                ) {
                    Ok((enc, _)) => Ok((enc, stack)),
                    Err(e) => Err(e),
                },
                TypedProvider::Const(c) if i32::MIN <= (c.bits as i64) <= i32::MAX => match self.push_instr(
                    Instruction::ReturnI64Imm32 { value: (c.bits as i64) as i32 },
                ) {
                    Ok((enc, _)) => Ok((enc, stack)),
                    Err(e) => Err(e),
                },
                _ => match stack.provider_register(values[0]) {
                    Err(e) => Err(e),
                    Ok((stack, value)) => match self.push_instr(Instruction::ReturnReg { value }) {
                        Ok((enc, _)) => Ok((enc, stack)),
                        Err(e) => Err(e),
                    },
                },
            }
        } else {
            match as_span(values) {
                Some(head) if values.len() > 3 && values.len() <= u16::MAX => match self.push_instr(
                    Instruction::ReturnSpan { values: RegSpan { head }, len: values.len() as u16 },
                ) {
                    Ok((enc, _)) => Ok((enc, stack)),
                    Err(e) => Err(e),
                },
                _ => match stack.provider_register(values[0]) {
                    Err(e) => Err(e),
                    Ok((stack, v0)) => match stack.provider_register(values[1]) {
                        Err(e) => Err(e),
                        Ok((stack, v1)) => if values.len() == 2 {
                            match self.push_instr(Instruction::ReturnReg2 { v0, v1 }) {
                                Ok((enc, _)) => Ok((enc, stack)),
                                Err(e) => Err(e),
                            }
                        } else {
                            match stack.provider_register(values[2]) {
                                Err(e) => Err(e),
                                Ok((stack, v2)) => if values.len() == 3 {
                                    match self.push_instr(Instruction::ReturnReg3 { v0, v1, v2 }) {
                                        Ok((enc, _)) => Ok((enc, stack)),
                                        Err(e) => Err(e),
                                    }
                                } else {
                                    match self.push_instr(Instruction::ReturnMany { v0, v1, v2 }) {
                                        Ok((enc, _)) => enc.encode_register_list(stack, values.skip(3)),
                                        Err(e) => Err(e),
                                    }
                                },
                            }
                        },
                    },
                },
            }
        }
    }

    /// The last instruction writing to `local` what it wrote to the
    /// temporary `value`, if it is the last slot of the code and can do so.
    pub open spec fn relink(self, stack: ValueStackView, local: Register, value: TypedProvider) -> Option<
        EncoderView,
    > {
        match (value, self.last_instr) {
            (TypedProvider::Register(v), Some(last)) if last.0 + 1 == self.instrs.len() && !stack.is_local(v) => {
                match self.instrs[last.0 as int].relinked(local, v) {
                    Some(instr) => Some(EncoderView { instrs: self.instrs.update(last.0 as int, instr), ..self }),
                    None => None,
                }
            },
            _ => None,
        }
    }

    /// Emits what writes `value` to the local `local`: the instruction
    /// that has just computed `value` is made to write to the local if
    /// that can be, else a copy is emitted.
    pub open spec fn encode_local_set(self, stack: ValueStackView, local: Register, value: TypedProvider) -> Encoded {
        match self.relink(stack, local, value) {
            Some(enc) => Ok((enc, stack)),
            None => self.encode_copy(stack, local, value),
        }
    }
}

/// Whether the encoder `later` is the encoder `earlier` after emitting a
/// branch to `label`: it has the same labels and no less code, and the
/// branches that waited before still wait, joined at most by one that
/// waits for `label`.
pub open spec fn branch_added(later: EncoderView, earlier: EncoderView, label: LabelRef) -> bool {
    &&& later.labels == earlier.labels
    &&& later.instrs.len() >= earlier.instrs.len()
    &&& later.users == earlier.users || (earlier.is_unpinned(label) && exists|user: Instr|
        later.users == earlier.users.push(LabelUser { label, user }))
}

/// Encoding a branch adds at most one waiting branch, to its label.
pub proof fn lemma_encode_branch_kept(enc: EncoderView, label: LabelRef)
    requires
        enc.wf(),
        label.0 < enc.labels.len(),
    ensures
        enc.encode_branch(label) matches Ok(enc2) ==> branch_added(enc2, enc, label),
{
}

/// Appending a branch adds at most one waiting branch, to its label.
pub proof fn lemma_append_branch_kept(enc: EncoderView, label: LabelRef)
    requires
        enc.wf(),
        label.0 < enc.labels.len(),
    ensures
        enc.append_branch(label) matches Ok(enc2) ==> branch_added(enc2, enc, label),
{
}

/// Encoding a conditional branch adds at most one waiting branch, to its
/// label.
pub proof fn lemma_encode_branch_if_kept(
    enc: EncoderView,
    stack: ValueStackView,
    condition: TypedProvider,
    label: LabelRef,
    negate: bool,
)
    requires
        enc.wf(),
        label.0 < enc.labels.len(),
    ensures
        enc.encode_branch_if(stack, condition, label, negate) matches Ok(enc2) ==> branch_added(enc2, enc, label),
{
    lemma_encode_branch_kept(enc, label);
}

/// Encoding a return keeps the labels, the waiting branches and the
/// operands.
pub proof fn lemma_encode_return_kept(enc: EncoderView, stack: ValueStackView, values: Seq<TypedProvider>)
    requires
        enc.wf(),
        stack.wf(),
    ensures
        crate::copies::encoded_in_order(enc.encode_return(stack, values), enc, stack),
{
    if values.len() > 0 {
        lemma_provider_register(stack, values[0]);
        if let Ok((s0, v0)) = stack.provider_register(values[0]) {
            if values.len() > 1 {
                lemma_provider_register(s0, values[1]);
                if let Ok((s1, v1)) = s0.provider_register(values[1]) {
                    if values.len() > 2 {
                        lemma_provider_register(s1, values[2]);
                        if let Ok((s2, v2)) = s1.provider_register(values[2]) {
                            if values.len() > 3 {
                                if let Ok((enc1, _)) = enc.push_instr(Instruction::ReturnMany { v0, v1, v2 }) {
                                    crate::copies::lemma_encode_register_list_kept(enc1, s2, values.skip(3));
                                }
                            }
                        }
                    }
                }
            }
        }
    }
}

/// What an encoded return does: when `encode_return` has succeeded,
/// executing what it emitted on a frame that has the registers concerned
/// and holds the constants of the function returns the words that the
/// values stand for.
pub proof fn lemma_encode_return(
    enc: EncoderView,
    stack: ValueStackView,
    values: Seq<TypedProvider>,
    frame: RegisterFile,
    fuel: Option<u64>,
)
    requires
        enc.wf(),
        stack.wf(),
        enc.encode_return(stack, values) is Ok,
        holds_consts(frame, enc.encode_return(stack, values)->Ok_0.1.consts),
        has_providers(frame, values),
    ensures
        step(enc.encode_return(stack, values)->Ok_0.0.instrs, enc.instrs.len() as int, frame, fuel) == (Step::Return {
            values: Seq::new(values.len(), |i: int| provider_value(frame, values[i])),
        }),
{
    let (enc2, stack2) = enc.encode_return(stack, values)->Ok_0;
    let at = enc.instrs.len() as int;
    let words = Seq::new(values.len(), |i: int| provider_value(frame, values[i]));
    if values.len() == 0 {
        assert(enc2.instrs[at] == Instruction::Return);
        assert(words =~= Seq::<u64>::empty());
    } else if values.len() == 1 {
        match values[0] {
            TypedProvider::Const(c) if c.bits <= u32::MAX => {
                assert(enc2.instrs[at] == Instruction::ReturnImm32 { value: c.bits as u32 });
                assert(words =~= seq![(c.bits as u32) as u64]);
            },
            TypedProvider::Const(c) if i32::MIN <= (c.bits as i64) <= i32::MAX => {
                let w = c.bits;
                assert((((w as i64) as i32) as i64) as u64 == w) by (bit_vector)
                    requires
                        -2147483648 <= (w as i64) <= 2147483647,
                ;
                assert(enc2.instrs[at] == Instruction::ReturnI64Imm32 { value: (c.bits as i64) as i32 });
                assert(words =~= seq![(((c.bits as i64) as i32) as i64) as u64]);
            },
            _ => {
                lemma_provider_register(stack, values[0]);
                let (s0, value) = stack.provider_register(values[0])->Ok_0;
                assert(enc2.instrs[at] == Instruction::ReturnReg { value });
                lemma_gather(frame, seq![value], values, stack2.consts);
            },
        }
    } else {
        let spanned = match as_span(values) {
            Some(_) if values.len() > 3 && values.len() <= u16::MAX => true,
            _ => false,
        };
        if spanned {
            let head = as_span(values)->Some_0;
            let len = values.len() as u16;
            assert(enc2.instrs[at] == Instruction::ReturnSpan { values: RegSpan { head }, len });
            let registers = Seq::new(len as nat, |i: int| Register((head.0 + i) as i16));
            assert forall|i: int| 0 <= i < values.len() implies holds_provider(
                #[trigger] registers[i],
                values[i],
                stack2.consts,
            ) by {
                assert(values[i] == TypedProvider::Register(Register((head.0 + i) as i16)));
            }
            lemma_gather(frame, registers, values, stack2.consts);
        } else {
            lemma_provider_register(stack, values[0]);
            let (s0, v0) = stack.provider_register(values[0])->Ok_0;
            lemma_provider_register(s0, values[1]);
            let (s1, v1) = s0.provider_register(values[1])->Ok_0;
            if values.len() == 2 {
                assert(enc2.instrs[at] == Instruction::ReturnReg2 { v0, v1 });
                lemma_gather(frame, seq![v0, v1], values, stack2.consts);
            } else {
                lemma_provider_register(s1, values[2]);
                let (s2, v2) = s1.provider_register(values[2])->Ok_0;
                if values.len() == 3 {
                    assert(enc2.instrs[at] == Instruction::ReturnReg3 { v0, v1, v2 });
                    lemma_gather(frame, seq![v0, v1, v2], values, stack2.consts);
                } else {
                    let (enc1, _) = enc.push_instr(Instruction::ReturnMany { v0, v1, v2 })->Ok_0;
                    lemma_encode_register_list(enc1, s2, values.skip(3));
                    assert(enc1.instrs[at] == Instruction::ReturnMany { v0, v1, v2 });
                    assert(enc2.instrs[at] == enc1.instrs[at]);
                    let tail = register_list(enc2.instrs, at + 1);
                    let registers = seq![v0, v1, v2] + tail;
                    assert forall|i: int| 0 <= i < values.len() implies holds_provider(
                        #[trigger] registers[i],
                        values[i],
                        stack2.consts,
                    ) by {
                        if i >= 3 {
                            assert(registers[i] == tail[i - 3]);
                            assert(values.skip(3)[i - 3] == values[i]);
                            assert(holds_provider(tail[i - 3], values.skip(3)[i - 3], stack2.consts));
                        }
                    }
                    lemma_gather(frame, registers, values, stack2.consts);
                }
            }
        }
    }
}

/// The registers that hold providers hold, on a frame that has the
/// registers among the providers and holds the constants, the words that
/// the providers stand for.
pub proof fn lemma_gather(frame: RegisterFile, registers: Seq<Register>, values: Seq<TypedProvider>, consts: Seq<u64>)
    requires
        registers.len() == values.len(),
        forall|i: int| 0 <= i < values.len() ==> holds_provider(#[trigger] registers[i], values[i], consts),
        holds_consts(frame, consts),
        has_providers(frame, values),
    ensures
        frame.has_all(registers),
        frame.gather(registers) == Seq::new(values.len(), |i: int| provider_value(frame, values[i])),
{
    assert forall|i: int| 0 <= i < registers.len() implies frame.has((#[trigger] registers[i]).0 as int)
        && frame.get(registers[i].0 as int) == provider_value(frame, values[i]) by {
        assert(holds_provider(registers[i], values[i], consts));
        match values[i] {
            TypedProvider::Register(x) => {},
            TypedProvider::Const(c) => {
                assert(consts[-1 - registers[i].0] == c.bits);
            },
        }
    }
    assert(frame.gather(registers) =~= Seq::new(values.len(), |i: int| provider_value(frame, values[i])));
}

/// Encoding a write to a local keeps the labels, the waiting branches and
/// the operands.
pub proof fn lemma_encode_local_set_kept(enc: EncoderView, stack: ValueStackView, local: Register, value: TypedProvider)
    requires
        enc.wf(),
        stack.wf(),
    ensures
        crate::copies::encoded_in_order(enc.encode_local_set(stack, local, value), enc, stack),
{
    crate::copies::lemma_encode_copy_kept(enc, stack, local, value);
    if let Some(enc2) = enc.relink(stack, local, value) {
        let last = enc.last_instr->Some_0;
        assert forall|i: int| 0 <= i < enc2.users.len() implies enc2.instrs[(#[trigger] enc2.users[i]).user.0 as int].is_branch() by {
            let u = enc.users[i];
            assert(enc.instrs[u.user.0 as int].is_branch());
        }
    }
}

impl InstrEncoder {
    /// Emits a branch to `label`.
    pub fn encode_branch(&mut self, label: LabelRef) -> (r: Result<(), TranslationError>)
        requires
            old(self).wf(),
            label.0 < old(self)@.labels.len(),
        ensures
            match old(self)@.encode_branch(label) {
                Ok(enc) => r is Ok && final(self)@ == enc && final(self).wf(),
                Err(e) => r == Err::<(), TranslationError>(e),
            },
    {
        let user = Instr(self.instrs.len() as u32);
        let offset = self.resolve_label_for(label, user);
        if self.instrs.len() >= MAX_INSTRS {
            return Err(TranslationError::TooManyInstructions);
        }
        self.instrs.push(Instruction::Branch { offset });
        self.last_instr = Some(user);
        Ok(())
    }

    /// Appends a branch to `label` as a slot of the preceding instruction.
    pub fn append_branch(&mut self, label: LabelRef) -> (r: Result<(), TranslationError>)
        requires
            old(self).wf(),
            label.0 < old(self)@.labels.len(),
        ensures
            match old(self)@.append_branch(label) {
                Ok(enc) => r is Ok && final(self)@ == enc && final(self).wf(),
                Err(e) => r == Err::<(), TranslationError>(e),
            },
    {
        let user = Instr(self.instrs.len() as u32);
        let offset = self.resolve_label_for(label, user);
        if self.instrs.len() >= MAX_INSTRS {
            return Err(TranslationError::TooManyInstructions);
        }
        self.instrs.push(Instruction::Branch { offset });
        Ok(())
    }

    /// The last instruction and the branch on `condition` that can take
    /// its place.
    pub fn fusion(&self, stack: &ValueStack, condition: Register, negate: bool) -> (r: Option<(Instr, Instruction)>)
        requires
            self.wf(),
        ensures
            r == self@.fusion(stack@, condition, negate),
    {
        match self.last_instr {
            Some(last) => {
                if last.0 as usize + 1 != self.instrs.len() || stack.is_local(condition) {
                    return None;
                }
                let relation = self.instrs[last.0 as usize];
                let computes = match relation {
                    Instruction::Binary { result, .. } => result == condition,
                    Instruction::BinaryImm16 { result, .. } => result == condition,
                    _ => false,
                };
                if !computes {
                    return None;
                }
                match fuse_branch(relation, negate) {
                    Some(branch) => Some((last, branch)),
                    None => None,
                }
            },
            None => None,
        }
    }

    /// Emits a branch to `label` that is taken if `condition` is zero
    /// (`negate`) or not zero.
    pub fn encode_branch_if(&mut self, stack: &ValueStack, condition: TypedProvider, label: LabelRef, negate: bool) -> (r:
        Result<(), TranslationError>)
        requires
            old(self).wf(),
            label.0 < old(self)@.labels.len(),
        ensures
            match old(self)@.encode_branch_if(stack@, condition, label, negate) {
                Ok(enc) => r is Ok && final(self)@ == enc && final(self).wf(),
                Err(e) => r == Err::<(), TranslationError>(e),
            },
    {
        match condition {
            TypedProvider::Const(c) => {
                if c.is_true_exec() != negate {
                    self.encode_branch(label)
                } else {
                    Ok(())
                }
            },
            TypedProvider::Register(condition) => {
                match self.fusion(stack, condition, negate) {
                    Some((last, branch)) => {
                        assert(branch.is_branch());
                        match self.labels[label.0] {
                            Label::Pinned(at) => {
                                let offset: i32 = (at.0 as i64 - last.0 as i64) as i32;
                                match branch.update_branch_offset(offset) {
                                    Some(branch) => {
                                        self.instrs[last.0 as usize] = branch;
                                        return Ok(());
                                    },
                                    None => {},
                                }
                            },
                            Label::Unpinned => {
                                self.instrs[last.0 as usize] = branch;
                                self.users.push(LabelUser { label, user: last });
                                return Ok(());
                            },
                        }
                    },
                    None => {},
                }
                let user = Instr(self.instrs.len() as u32);
                let offset = self.resolve_label_for(label, user);
                let branch = if negate {
                    Instruction::BranchEqz { condition, offset }
                } else {
                    Instruction::BranchNez { condition, offset }
                };
                if self.instrs.len() >= MAX_INSTRS {
                    return Err(TranslationError::TooManyInstructions);
                }
                self.instrs.push(branch);
                self.last_instr = Some(user);
                Ok(())
            },
        }
    }

    /// Emits a branch to `label` that is taken if `condition` is zero.
    pub fn encode_branch_eqz(&mut self, stack: &ValueStack, condition: TypedProvider, label: LabelRef) -> (r: Result<
        (),
        TranslationError,
    >)
        requires
            old(self).wf(),
            label.0 < old(self)@.labels.len(),
        ensures
            match old(self)@.encode_branch_if(stack@, condition, label, true) {
                Ok(enc) => r is Ok && final(self)@ == enc && final(self).wf(),
                Err(e) => r == Err::<(), TranslationError>(e),
            },
    {
        self.encode_branch_if(stack, condition, label, true)
    }

    /// Emits a branch to `label` that is taken if `condition` is not zero.
    pub fn encode_branch_nez(&mut self, stack: &ValueStack, condition: TypedProvider, label: LabelRef) -> (r: Result<
        (),
        TranslationError,
    >)
        requires
            old(self).wf(),
            label.0 < old(self)@.labels.len(),
        ensures
            match old(self)@.encode_branch_if(stack@, condition, label, false) {
                Ok(enc) => r is Ok && final(self)@ == enc && final(self).wf(),
                Err(e) => r == Err::<(), TranslationError>(e),
            },
    {
        self.encode_branch_if(stack, condition, label, false)
    }

    /// Emits the return of the providers of `values`.
    pub fn encode_return(&mut self, stack: &mut ValueStack, values: &Vec<TypedProvider>) -> (r: Result<
        (),
        TranslationError,
    >)
        requires
            old(self).wf(),
            old(stack).wf(),
        ensures
            match old(self)@.encode_return(old(stack)@, values@) {
                Ok((enc, st)) => r is Ok && final(self)@ == enc && final(stack)@ == st && final(self).wf()
                    && final(stack).wf(),
                Err(e) => r == Err::<(), TranslationError>(e),
            },
    {
        let n = values.len();
        if n == 0 {
            self.push_instr(Instruction::Return)?;
            return Ok(());
        }
        if n == 1 {
            match values[0] {
                TypedProvider::Const(c) => {
                    let wide: i64 = c.as_i64();
                    if c.bits <= u32::MAX as u64 {
                        self.push_instr(Instruction::ReturnImm32 { value: c.bits as u32 })?;
                        return Ok(());
                    }
                    if -2147483648 <= wide && wide <= 2147483647 {
                        self.push_instr(Instruction::ReturnI64Imm32 { value: wide as i32 })?;
                        return Ok(());
                    }
                },
                _ => {},
            }
            let value = stack.provider_register(values[0])?;
            self.push_instr(Instruction::ReturnReg { value })?;
            return Ok(());
        }
        assert(values@.skip(0) =~= values@);
        match Self::providers_as_span(values, 0) {
            Some(head) if n > 3 && n <= 65535 => {
                self.push_instr(Instruction::ReturnSpan { values: RegSpan { head }, len: n as u16 })?;
                Ok(())
            },
            _ => {
                let v0 = stack.provider_register(values[0])?;
                let v1 = stack.provider_register(values[1])?;
                if n == 2 {
                    self.push_instr(Instruction::ReturnReg2 { v0, v1 })?;
                    return Ok(());
                }
                let v2 = stack.provider_register(values[2])?;
                if n == 3 {
                    self.push_instr(Instruction::ReturnReg3 { v0, v1, v2 })?;
                    return Ok(());
                }
                self.push_instr(Instruction::ReturnMany { v0, v1, v2 })?;
                self.encode_register_list(stack, values, 3)
            },
        }
    }

    /// Emits what writes `value` to the local `local`.
    pub fn encode_local_set(&mut self, stack: &mut ValueStack, local: Register, value: TypedProvider) -> (r: Result<
        (),
        TranslationError,
    >)
        requires
            old(self).wf(),
            old(stack).wf(),
        ensures
            match old(self)@.encode_local_set(old(stack)@, local, value) {
                Ok((enc, st)) => r is Ok && final(self)@ == enc && final(stack)@ == st && final(self).wf()
                    && final(stack).wf(),
                Err(e) => r == Err::<(), TranslationError>(e),
            },
    {
        match (value, self.last_instr) {
            (TypedProvider::Register(v), Some(last)) => {
                if last.0 as usize + 1 == self.instrs.len() && !stack.is_local(v) {
                    match self.instrs[last.0 as usize].relink_result(local, v) {
                        Some(instr) => {
                            self.instrs[last.0 as usize] = instr;
                            return Ok(());
                        },
                        None => {},
                    }
                }
            },
            _ => {},
        }
        self.encode_copy(stack, local, value)
    }
}

} // verus!
