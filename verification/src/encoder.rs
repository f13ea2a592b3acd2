//! The instruction encoder: the code of the function under translation,
//! which only grows, and the table of its labels.

use vstd::prelude::*;
use crate::error::TranslationError;
use crate::instr::{BranchOffset, Instr, Instruction};

verus! {

/// The most instructions that the code of one function can have: the
/// distance between any two of them fits a branch offset.
pub const MAX_INSTRS: usize = 0x7FFF_FFFF;

/// The handle of a label: its position in the label table.
#[derive(Clone, Copy, Debug, PartialEq, Eq, Structural, Hash)]
pub struct LabelRef(pub usize);

/// A label: a position in the code that branches can target.
#[derive(Clone, Copy, Debug, PartialEq, Eq, Structural, Hash)]
pub enum Label {
    /// The label stands for the instruction at this position.
    Pinned(Instr),
    /// The position of the label is not known yet.
    Unpinned,
}

/// A branch that was emitted before its label was pinned: the distance
/// that it holds is still to be filled in.
#[derive(Clone, Copy, Debug, PartialEq, Eq, Structural, Hash)]
pub struct LabelUser {
    /// The label that the branch targets.
    pub label: LabelRef,
    /// The position of the branch.
    pub user: Instr,
}

/// Fills the distance to `target` into the branches of `users` that target
/// `label`, and keeps the others for later. `None` if one of the branches
/// cannot hold its distance.
pub open spec fn resolve_users(instrs: Seq<Instruction>, users: Seq<LabelUser>, label: LabelRef, target: int) -> Option<
    (Seq<Instruction>, Seq<LabelUser>),
>
    decreases users.len(),
{
    if users.len() == 0 {
        Some((instrs, Seq::empty()))
    } else {
        let u = users.last();
        match resolve_users(instrs, users.drop_last(), label, target) {
            None => None,
            Some((patched, pending)) => if u.label == label {
                match patched[u.user.0 as int].with_offset(target - u.user.0) {
                    Some(branch) => Some((patched.update(u.user.0 as int, branch), pending)),
                    None => None,
                }
            } else {
                Some((patched, pending.push(u)))
            },
        }
    }
}

/// The encoder as a mathematical value.
pub struct EncoderView {
    /// The instructions emitted so far.
    pub instrs: Seq<Instruction>,
    /// The label table.
    pub labels: Seq<Label>,
    /// The branches whose label is not pinned yet.
    pub users: Seq<LabelUser>,
    /// The instruction that later instructions may be fused with, if any.
    pub last_instr: Option<Instr>,
}

impl EncoderView {
    /// The invariant of the encoder.
    pub open spec fn wf(self) -> bool {
        &&& self.instrs.len() <= MAX_INSTRS
        &&& self.labels.len() <= usize::MAX
        &&& forall|i: int|
            0 <= i < self.users.len() ==> {
                let u = #[trigger] self.users[i];
                &&& u.label.0 < self.labels.len()
                &&& self.labels[u.label.0 as int] is Unpinned
                &&& u.user.0 < self.instrs.len()
                &&& self.instrs[u.user.0 as int].is_branch()
            }
        &&& forall|l: int|
            0 <= l < self.labels.len() ==> (#[trigger] self.labels[l] matches Label::Pinned(at) ==> at.0
                <= self.instrs.len())
        &&& self.last_instr matches Some(last) ==> last.0 < self.instrs.len()
    }

    /// Whether every branch emitted so far holds the distance to its
    /// target: no label that a branch targets is left to pin.
    pub open spec fn all_resolved(self) -> bool {
        self.users.len() == 0
    }

    /// Whether every label has its position.
    pub open spec fn all_pinned(self) -> bool {
        forall|l: int| 0 <= l < self.labels.len() ==> (#[trigger] self.labels[l]) is Pinned
    }

    /// The position that the next instruction will get.
    pub open spec fn next_instr(self) -> Instr {
        Instr(self.instrs.len() as u32)
    }

    /// Appends `instr` and remembers it as the instruction to fuse with.
    pub open spec fn push_instr(self, instr: Instruction) -> Result<(EncoderView, Instr), TranslationError> {
        if self.instrs.len() >= MAX_INSTRS {
            Err(TranslationError::TooManyInstructions)
        } else {
            Ok(
                (
                    EncoderView {
                        instrs: self.instrs.push(instr),
                        last_instr: Some(self.next_instr()),
                        ..self
                    },
                    self.next_instr(),
                ),
            )
        }
    }

    /// Appends `instr`, a slot that continues the preceding instruction.
    pub open spec fn append_instr(self, instr: Instruction) -> Result<(EncoderView, Instr), TranslationError> {
        if self.instrs.len() >= MAX_INSTRS {
            Err(TranslationError::TooManyInstructions)
        } else {
            Ok((EncoderView { instrs: self.instrs.push(instr), ..self }, self.next_instr()))
        }
    }

    /// Adds a label that is not pinned.
    pub open spec fn new_label(self) -> (EncoderView, LabelRef) {
        (EncoderView { labels: self.labels.push(Label::Unpinned), ..self }, LabelRef(self.labels.len() as usize))
    }

    /// Whether `label` is a label of the table that is not pinned.
    pub open spec fn is_unpinned(self, label: LabelRef) -> bool {
        label.0 < self.labels.len() && self.labels[label.0 as int] is Unpinned
    }

    /// Whether `label` is a label of the table that is pinned.
    pub open spec fn is_pinned(self, label: LabelRef) -> bool {
        label.0 < self.labels.len() && self.labels[label.0 as int] is Pinned
    }

    /// Pins `label` to the position of the next instruction and fills the
    /// distance into the branches that wait for it. Nothing is fused across
    /// a pinned label.
    pub open spec fn pin_label(self, label: LabelRef) -> Result<EncoderView, TranslationError> {
        match resolve_users(self.instrs, self.users, label, self.instrs.len() as int) {
            Some((instrs, users)) => Ok(
                EncoderView {
                    instrs,
                    users,
                    labels: self.labels.update(label.0 as int, Label::Pinned(self.next_instr())),
                    last_instr: None,
                },
            ),
            None => Err(TranslationError::BranchOffsetOutOfBounds),
        }
    }

    /// The distance from the branch at `user` to `label`; if the label is
    /// not pinned, the branch is noted as waiting for it and the distance
    /// is zero for the time being.
    pub open spec fn resolve_label_for(self, label: LabelRef, user: Instr) -> (EncoderView, BranchOffset) {
        match self.labels[label.0 as int] {
            Label::Pinned(at) => (self, BranchOffset((at.0 - user.0) as i32)),
            Label::Unpinned => (
                EncoderView { users: self.users.push(LabelUser { label, user }), ..self },
                BranchOffset(0),
            ),
        }
    }

    /// The encoder that fuses nothing with what it has emitted so far.
    pub open spec fn reset_last_instr(self) -> EncoderView {
        EncoderView { last_instr: None, ..self }
    }

    /// Adds `delta` to the fuel that the instruction at `instr` charges.
    pub open spec fn bump_fuel(self, instr: Instr, delta: u64) -> Result<EncoderView, TranslationError> {
        match self.instrs[instr.0 as int] {
            Instruction::ConsumeFuel { amount } => if amount + delta <= u32::MAX {
                Ok(
                    EncoderView {
                        instrs: self.instrs.update(
                            instr.0 as int,
                            Instruction::ConsumeFuel { amount: (amount + delta) as u32 },
                        ),
                        ..self
                    },
                )
            } else {
                Err(TranslationError::BlockFuelOutOfBounds)
            },
            _ => Ok(self),
        }
    }
}

/// A branch that cannot hold its distance makes the whole resolution fail,
/// wherever it stands among the waiting branches.
pub proof fn lemma_resolve_users_prefix(
    instrs: Seq<Instruction>,
    users: Seq<LabelUser>,
    label: LabelRef,
    target: int,
    k: int,
)
    requires
        0 <= k <= users.len(),
        resolve_users(instrs, users.take(k), label, target) is None,
    ensures
        resolve_users(instrs, users, label, target) is None,
    decreases users.len() - k,
{
    if k < users.len() {
        assert(users.take(k + 1).drop_last() =~= users.take(k));
        lemma_resolve_users_prefix(instrs, users, label, target, k + 1);
    } else {
        assert(users.take(k) =~= users);
    }
}

/// Resolving the waiting branches keeps the code as long as it was, keeps
/// waiting only branches of other labels, and leaves branches branches.
pub proof fn lemma_resolve_users_wf(instrs: Seq<Instruction>, users: Seq<LabelUser>, label: LabelRef, target: int)
    requires
        forall|i: int| 0 <= i < users.len() ==> (#[trigger] users[i]).user.0 < instrs.len(),
    ensures
        resolve_users(instrs, users, label, target) matches Some((patched, pending)) ==> {
            &&& patched.len() == instrs.len()
            &&& forall|p: int|
                0 <= p < instrs.len() ==> (#[trigger] patched[p]).is_branch() == instrs[p].is_branch()
            &&& forall|p: int| 0 <= p < instrs.len() && !instrs[p].is_branch() ==> #[trigger] patched[p] == instrs[p]
            &&& forall|i: int|
                0 <= i < pending.len() ==> (#[trigger] pending[i]).label != label && users.contains(pending[i])
        },
    decreases users.len(),
{
    if users.len() > 0 {
        let rest = users.drop_last();
        let u = users.last();
        assert forall|i: int| 0 <= i < rest.len() implies (#[trigger] rest[i]).user.0 < instrs.len() by {
            assert(rest[i] == users[i]);
        }
        lemma_resolve_users_wf(instrs, rest, label, target);
        if let Some((patched, pending)) = resolve_users(instrs, users, label, target) {
            let (p0, q0) = resolve_users(instrs, rest, label, target).unwrap();
            assert forall|i: int| 0 <= i < pending.len() implies (#[trigger] pending[i]).label != label
                && users.contains(pending[i]) by {
                if i < q0.len() {
                    assert(pending[i] == q0[i]);
                    assert(rest.contains(q0[i]));
                    let j = choose|j: int| 0 <= j < rest.len() && rest[j] == q0[i];
                    assert(users[j] == q0[i]);
                } else {
                    assert(pending[i] == u);
                    assert(users[users.len() - 1] == u);
                }
            }
        }
    }
}

/// Where no branch waits for a label, pinning it changes neither the code
/// nor the waiting branches.
pub proof fn lemma_resolve_users_none(instrs: Seq<Instruction>, users: Seq<LabelUser>, label: LabelRef, target: int)
    requires
        forall|i: int| 0 <= i < users.len() ==> (#[trigger] users[i]).label != label,
    ensures
        resolve_users(instrs, users, label, target) == Some((instrs, users)),
    decreases users.len(),
{
    if users.len() > 0 {
        let rest = users.drop_last();
        assert forall|i: int| 0 <= i < rest.len() implies (#[trigger] rest[i]).label != label by {
            assert(rest[i] == users[i]);
        }
        lemma_resolve_users_none(instrs, rest, label, target);
        assert(rest.push(users.last()) =~= users);
    } else {
        assert(users =~= Seq::<LabelUser>::empty());
    }
}

/// The code of the function under translation and its labels.
#[derive(Debug)]
pub struct InstrEncoder {
    pub(crate) instrs: Vec<Instruction>,
    pub(crate) labels: Vec<Label>,
    pub(crate) users: Vec<LabelUser>,
    pub(crate) last_instr: Option<Instr>,
}

impl View for InstrEncoder {
    type V = EncoderView;

    open(crate) spec fn view(&self) -> EncoderView {
        EncoderView {
            instrs: self.instrs@,
            labels: self.labels@,
            users: self.users@,
            last_instr: self.last_instr,
        }
    }
}

impl InstrEncoder {
    /// The invariant of the encoder.
    pub open spec fn wf(&self) -> bool {
        self@.wf()
    }

    /// The encoder of a function without code.
    pub fn new() -> (r: InstrEncoder)
        ensures
            r.wf(),
            r@ == (EncoderView {
                instrs: Seq::empty(),
                labels: Seq::empty(),
                users: Seq::empty(),
                last_instr: None,
            }),
    {
        InstrEncoder { instrs: Vec::new(), labels: Vec::new(), users: Vec::new(), last_instr: None }
    }

    /// The number of instructions emitted so far.
    pub fn len(&self) -> (r: usize)
        ensures
            r == self@.instrs.len(),
    {
        self.instrs.len()
    }

    /// The instruction at the position `instr`.
    pub fn get(&self, instr: Instr) -> (r: Instruction)
        requires
            instr.0 < self@.instrs.len(),
        ensures
            r == self@.instrs[instr.0 as int],
    {
        self.instrs[instr.0 as usize]
    }

    /// The instruction that later instructions may be fused with.
    pub fn last_instr(&self) -> (r: Option<Instr>)
        ensures
            r == self@.last_instr,
    {
        self.last_instr
    }

    /// Appends `instr` and returns its position. Later instructions may be
    /// fused with it.
    pub fn push_instr(&mut self, instr: Instruction) -> (r: Result<Instr, TranslationError>)
        requires
            old(self).wf(),
        ensures
            match old(self)@.push_instr(instr) {
                Ok((encoder, at)) => r == Ok::<Instr, TranslationError>(at) && final(self)@ == encoder
                    && final(self).wf(),
                Err(e) => r == Err::<Instr, TranslationError>(e) && final(self)@ == old(self)@,
            },
    {
        let n = self.instrs.len();
        if n >= MAX_INSTRS {
            return Err(TranslationError::TooManyInstructions);
        }
        self.instrs.push(instr);
        self.last_instr = Some(Instr(n as u32));
        Ok(Instr(n as u32))
    }

    /// Appends `instr`, a slot that continues the preceding instruction, and
    /// returns its position. Nothing is ever fused with it.
    pub fn append_instr(&mut self, instr: Instruction) -> (r: Result<Instr, TranslationError>)
        requires
            old(self).wf(),
        ensures
            match old(self)@.append_instr(instr) {
                Ok((encoder, at)) => r == Ok::<Instr, TranslationError>(at) && final(self)@ == encoder
                    && final(self).wf(),
                Err(e) => r == Err::<Instr, TranslationError>(e) && final(self)@ == old(self)@,
            },
    {
        let n = self.instrs.len();
        if n >= MAX_INSTRS {
            return Err(TranslationError::TooManyInstructions);
        }
        self.instrs.push(instr);
        Ok(Instr(n as u32))
    }

    /// Adds a label that is not pinned and returns its handle.
    pub fn new_label(&mut self) -> (r: LabelRef)
        requires
            old(self).wf(),
        ensures
            final(self).wf(),
            final(self)@ == old(self)@.new_label().0,
            r == old(self)@.new_label().1,
    {
        let n = self.labels.len();
        self.labels.push(Label::Unpinned);
        let _ = self.labels.len();
        LabelRef(n)
    }

    /// Whether `label` is pinned.
    pub fn is_pinned(&self, label: LabelRef) -> (r: bool)
        ensures
            r == self@.is_pinned(label),
    {
        if label.0 < self.labels.len() {
            match self.labels[label.0] {
                Label::Pinned(_) => true,
                Label::Unpinned => false,
            }
        } else {
            false
        }
    }

    /// Pins `label` to the position of the next instruction and fills the
    /// distance into every branch that waits for it. Fails if one of these
    /// branches cannot hold its distance.
    pub fn pin_label(&mut self, label: LabelRef) -> (r: Result<(), TranslationError>)
        requires
            old(self).wf(),
            old(self)@.is_unpinned(label),
        ensures
            match old(self)@.pin_label(label) {
                Ok(encoder) => r == Ok::<(), TranslationError>(()) && final(self)@ == encoder
                    && final(self).wf(),
                Err(e) => r == Err::<(), TranslationError>(e),
            },
    {
        let target = self.instrs.len();
        let n = self.users.len();
        let mut pending: Vec<LabelUser> = Vec::new();
        let mut i: usize = 0;
        proof {
            assert(self.users@.take(0) =~= Seq::<LabelUser>::empty());
        }
        while i < n
            invariant
                i <= n,
                n == self.users.len(),
                old(self).wf(),
                self.users == old(self).users,
                self.labels == old(self).labels,
                self.last_instr == old(self).last_instr,
                target == old(self).instrs.len(),
                self.instrs.len() == target,
                resolve_users(old(self).instrs@, old(self).users@.take(i as int), label, target as int) == Some(
                    (self.instrs@, pending@),
                ),
            decreases n - i,
        {
            let u = self.users[i];
            proof {
                assert(old(self)@.users[i as int] == u);
                assert(old(self).users@.take(i + 1).drop_last() =~= old(self).users@.take(i as int));
                assert(old(self).users@.take(i + 1).last() == u);
            }
            if u.label.0 == label.0 {
                let offset: i32 = (target as i64 - u.user.0 as i64) as i32;
                match self.instrs[u.user.0 as usize].update_branch_offset(offset) {
                    Some(branch) => {
                        self.instrs[u.user.0 as usize] = branch;
                    },
                    None => {
                        proof {
                            lemma_resolve_users_prefix(
                                old(self).instrs@,
                                old(self).users@,
                                label,
                                target as int,
                                i + 1,
                            );
                        }
                        return Err(TranslationError::BranchOffsetOutOfBounds);
                    },
                }
            } else {
                pending.push(u);
            }
            i += 1;
        }
        proof {
            assert(old(self).users@.take(n as int) =~= old(self).users@);
            lemma_resolve_users_wf(old(self).instrs@, old(self).users@, label, target as int);
        }
        self.users = pending;
        self.labels[label.0] = Label::Pinned(Instr(target as u32));
        self.last_instr = None;
        proof {
            let v = self@;
            assert forall|k: int| 0 <= k < v.users.len() implies {
                let u = #[trigger] v.users[k];
                &&& u.label.0 < v.labels.len()
                &&& v.labels[u.label.0 as int] is Unpinned
                &&& u.user.0 < v.instrs.len()
                &&& v.instrs[u.user.0 as int].is_branch()
            } by {
                let u = v.users[k];
                assert(old(self)@.users.contains(u));
                let j = choose|j: int| 0 <= j < old(self)@.users.len() && old(self)@.users[j] == u;
                assert(old(self)@.users[j] == u);
            }
        }
        Ok(())
    }

    /// Pins `label` unless it is pinned already.
    pub fn pin_label_if_unpinned(&mut self, label: LabelRef) -> (r: Result<(), TranslationError>)
        requires
            old(self).wf(),
            label.0 < old(self)@.labels.len(),
        ensures
            old(self)@.is_pinned(label) ==> r == Ok::<(), TranslationError>(()) && final(self)@ == old(
                self,
            )@,
            !old(self)@.is_pinned(label) ==> match old(self)@.pin_label(label) {
                Ok(encoder) => r == Ok::<(), TranslationError>(()) && final(self)@ == encoder
                    && final(self).wf(),
                Err(e) => r == Err::<(), TranslationError>(e),
            },
    {
        if self.is_pinned(label) {
            Ok(())
        } else {
            self.pin_label(label)
        }
    }

    /// The distance from the branch at `user` to `label`. If the label is
    /// not pinned, the branch is noted as waiting for it, and the distance
    /// returned is zero.
    pub fn resolve_label_for(&mut self, label: LabelRef, user: Instr) -> (r: BranchOffset)
        requires
            old(self).wf(),
            label.0 < old(self)@.labels.len(),
            user.0 <= MAX_INSTRS,
        ensures
            final(self)@ == old(self)@.resolve_label_for(label, user).0,
            r == old(self)@.resolve_label_for(label, user).1,
            final(self)@.instrs == old(self)@.instrs,
            final(self)@.labels == old(self)@.labels,
            final(self)@.last_instr == old(self)@.last_instr,
    {
        match self.labels[label.0] {
            Label::Pinned(at) => BranchOffset((at.0 as i64 - user.0 as i64) as i32),
            Label::Unpinned => {
                self.users.push(LabelUser { label, user });
                BranchOffset(0)
            },
        }
    }

    /// The distance from the next instruction to `label`, for a branch that
    /// is emitted next. If the label is not pinned, the branch is noted as
    /// waiting for it, and the distance returned is zero.
    pub fn try_resolve_label(&mut self, label: LabelRef) -> (r: BranchOffset)
        requires
            old(self).wf(),
            label.0 < old(self)@.labels.len(),
        ensures
            final(self)@ == old(self)@.resolve_label_for(label, old(self)@.next_instr()).0,
            r == old(self)@.resolve_label_for(label, old(self)@.next_instr()).1,
    {
        let user = Instr(self.instrs.len() as u32);
        self.resolve_label_for(label, user)
    }

    /// Forgets the instruction to fuse with: the next instruction starts a
    /// basic block.
    pub fn reset_last_instr(&mut self)
        requires
            old(self).wf(),
        ensures
            final(self).wf(),
            final(self)@ == old(self)@.reset_last_instr(),
    {
        self.last_instr = None;
    }

    /// Adds `delta` to the fuel that the instruction at `instr` charges.
    /// Fails if the sum does not fit the instruction.
    pub fn bump_fuel_consumption(&mut self, instr: Instr, delta: u64) -> (r: Result<(), TranslationError>)
        requires
            old(self).wf(),
            instr.0 < old(self)@.instrs.len(),
        ensures
            match old(self)@.bump_fuel(instr, delta) {
                Ok(encoder) => r == Ok::<(), TranslationError>(()) && final(self)@ == encoder
                    && final(self).wf(),
                Err(e) => r == Err::<(), TranslationError>(e) && final(self)@ == old(self)@,
            },
    {
        match self.instrs[instr.0 as usize] {
            Instruction::ConsumeFuel { amount } => {
                if delta > u32::MAX as u64 - amount as u64 {
                    return Err(TranslationError::BlockFuelOutOfBounds);
                }
                self.instrs[instr.0 as usize] = Instruction::ConsumeFuel { amount: amount + delta as u32 };
                Ok(())
            },
            _ => Ok(()),
        }
    }
}

} // verus!
