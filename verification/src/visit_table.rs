//! Translation of `br_table`.

use vstd::prelude::*;
use crate::branches::{lemma_append_branch_kept, lemma_encode_branch_kept, lemma_encode_return_kept};
use crate::control::AcquiredTarget;
use crate::copies::lemma_encode_copies_kept;
use crate::encoder::{Label, LabelRef};
use crate::error::TranslationError;
use crate::instr::Instruction;
use crate::register::{RegSpan, RegSpanIter, Register};

use crate::translator::{
    else_end,
    keeps_else,
    label_owned,
    lemma_base_height,
    lemma_copy_branch_params_kept,
    lemma_pin_kept,
    lemma_restack_wf,
    lemma_step_wf,
    lemma_unreachable_wf,
    may_be_reached,
    owns_label,
    then_results_wait,
    FuncTranslator,
    Translated,
    TranslatorView,
};
use crate::value::TypedProvider;
use crate::visit_branch::{lemma_branched_wf, lemma_bump_wf};

verus! {

/// The position of the first of `targets` that equals the one at the
/// position `k`.
pub open spec fn first_occurrence(targets: Seq<u32>, k: int) -> int {
    first_from(targets, targets[k], 0)
}

/// The position of the first of `targets`, from the position `from` on,
/// that equals `value`; the length of `targets` if there is none.
pub open spec fn first_from(targets: Seq<u32>, value: u32, from: int) -> int
    decreases targets.len() - from,
{
    if 0 <= from < targets.len() {
        if targets[from] == value {
            from
        } else {
            first_from(targets, value, from + 1)
        }
    } else {
        targets.len() as int
    }
}

/// The first occurrence of a target is a position at or before its own at
/// which the same target stands.
pub proof fn lemma_first_occurrence(targets: Seq<u32>, k: int)
    requires
        0 <= k < targets.len(),
    ensures
        0 <= first_occurrence(targets, k) <= k,
        targets[first_occurrence(targets, k)] == targets[k],
        first_occurrence(targets, first_occurrence(targets, k)) == first_occurrence(targets, k),
{
    lemma_first_from(targets, targets[k], 0, k);
}

proof fn lemma_first_from(targets: Seq<u32>, value: u32, from: int, k: int)
    requires
        0 <= from <= k < targets.len(),
        targets[k] == value,
    ensures
        from <= first_from(targets, value, from) <= k,
        targets[first_from(targets, value, from)] == value,
    decreases k - from,
{
    if targets[from] != value {
        lemma_first_from(targets, value, from + 1, k);
    }
}

impl TranslatorView {
    /// The registers that a branch of the depth `depth` leaves its
    /// operands in: those of the frame, or the first temporaries for a
    /// return from the function.
    pub open spec fn target_params(self, depth: u32) -> RegSpan {
        match self.control.acquire_target(depth) {
            AcquiredTarget::Return => RegSpan { head: self.stack.dynamic(0) },
            AcquiredTarget::Branch(i) => self.control.frames[i as int].branch_params(),
        }
    }

    /// Whether every branch of `targets` that does not return leaves its
    /// operands in the registers from `head` on.
    pub open spec fn same_params(self, targets: Seq<u32>, head: Register) -> bool {
        forall|k: int|
            0 <= k < targets.len() ==> (self.control.acquire_target(#[trigger] targets[k]) matches AcquiredTarget::Branch(
                i,
            ) ==> self.control.frames[i as int].branch_params().head == head)
    }

    /// Whether the translator accepts a `br_table` with the targets
    /// `targets`, of which the last is the default: the code cannot be
    /// reached, or every target names a frame or the function, all carry
    /// the same number of operands, and the index and these operands are
    /// there.
    pub open spec fn br_table_ok(self, targets: Seq<u32>) -> bool {
        self.reachable ==> {
            &&& 0 < targets.len() <= u32::MAX
            &&& forall|k: int| 0 <= k < targets.len() ==> #[trigger] targets[k] <= self.control.frames.len()
            &&& forall|k: int|
                0 <= k < targets.len() ==> self.target_len(#[trigger] targets[k]) == self.target_len(targets.last())
            &&& self.operands_ok(1 + self.target_len(targets.last()))
        }
    }

    /// The arms of a `br_table` whose branches need no copies of their
    /// own, from the arm `k` on: a branch for a target that is a frame,
    /// `return_instr` for the function.
    pub open spec fn table_arms(self, targets: Seq<u32>, return_instr: Instruction, k: int) -> Translated
        decreases targets.len() - k,
    {
        if 0 <= k < targets.len() {
            let arm = match self.control.acquire_target(targets[k]) {
                AcquiredTarget::Return => self.append_instr(return_instr),
                AcquiredTarget::Branch(i) => {
                    let t = self.bump_branches(i as int);
                    match t.encoder.append_branch(t.control.frames[i as int].branch_destination()) {
                        Ok(encoder) => Ok(TranslatorView { encoder, ..t }),
                        Err(e) => Err(e),
                    }
                },
            };
            match arm {
                Err(e) => Err(e),
                Ok(t) => t.table_arms(targets, return_instr, k + 1),
            }
        } else {
            Ok(self)
        }
    }

    /// The state with `n` more labels, none of them pinned.
    pub open spec fn new_labels(self, n: nat) -> TranslatorView {
        TranslatorView {
            encoder: crate::encoder::EncoderView {
                labels: self.encoder.labels + Seq::new(n, |i: int| Label::Unpinned),
                ..self.encoder
            },
            ..self
        }
    }

    /// The arms of a `br_table` whose branches need copies of their own,
    /// from the arm `k` on: each arm branches to the label of the first
    /// arm with its target; these labels follow the label `first`.
    pub open spec fn table_jumps(self, targets: Seq<u32>, first: int, k: int) -> Translated
        decreases targets.len() - k,
    {
        if 0 <= k < targets.len() {
            let label = LabelRef((first + first_occurrence(targets, k)) as usize);
            match self.encoder.append_branch(label) {
                Err(e) => Err(e),
                Ok(encoder) => (TranslatorView { encoder, ..self }).table_jumps(targets, first, k + 1),
            }
        } else {
            Ok(self)
        }
    }

    /// The code that an arm of a `br_table` with the target `target`
    /// branches to: the label `label` is pinned, and the operands `values`
    /// are returned, or copied to where the frame expects them and
    /// followed by a branch to the frame.
    pub open spec fn table_landing(self, target: u32, values: Seq<TypedProvider>, label: LabelRef) -> Translated {
        match self.pin(label) {
            Err(e) => Err(e),
            Ok(t) => match t.control.acquire_target(target) {
                AcquiredTarget::Return => t.emit(t.encoder.encode_return(t.stack, values)),
                AcquiredTarget::Branch(i) => {
                    let frame = t.control.frames[i as int];
                    let t = t.bump_branches(i as int);
                    match t.emit(
                        t.encoder.encode_copies(
                            t.stack,
                            RegSpanIter {
                                next: frame.branch_params().head,
                                last: Register((frame.branch_params().head.0 + values.len()) as i16),
                            },
                            values,
                        ),
                    ) {
                        Err(e) => Err(e),
                        Ok(t) => t.branch(frame.branch_destination()),
                    }
                },
            },
        }
    }

    /// The code that the arms of a `br_table` branch to, from the arm `k`
    /// on: one landing for the first arm with a given target. No arm
    /// branches to the label of a later arm with that target: it is pinned
    /// where the code stands, so that the `br_table` leaves no label open.
    pub open spec fn table_landings(self, targets: Seq<u32>, values: Seq<TypedProvider>, first: int, k: int) -> Translated
        decreases targets.len() - k,
    {
        if 0 <= k < targets.len() {
            if first_occurrence(targets, k) != k {
                match self.pin(LabelRef((first + k) as usize)) {
                    Err(e) => Err(e),
                    Ok(t) => t.table_landings(targets, values, first, k + 1),
                }
            } else {
                match self.table_landing(targets[k], values, LabelRef((first + k) as usize)) {
                    Err(e) => Err(e),
                    Ok(t) => t.table_landings(targets, values, first, k + 1),
                }
            }
        } else {
            Ok(self)
        }
    }

    /// A `br_table` on the register `index` in code that can be reached,
    /// once the index is popped; the last of `targets` is the default.
    /// Where no target needs copies of its own, the operands are copied
    /// once, to where the default target expects them, and the arms branch
    /// to the targets. Else the arms branch to code of their own, which
    /// copies the operands and branches on.
    pub open spec fn br_table(self, index: Register, targets: Seq<u32>) -> Translated {
        let default = targets.last();
        let params = self.target_params(default);
        let len = self.target_len(default);
        let header = Instruction::BranchTable { index, len_targets: targets.len() as u32 };
        if len == 0 || self.same_params(targets, params.head) {
            match self.copy_branch_params(params, len) {
                Err(e) => Err(e),
                Ok(t) => match t.push_instr(header) {
                    Err(e) => Err(e),
                    Ok(t) => {
                        let return_instr = if len == 0 {
                            Instruction::Return
                        } else if len == 1 {
                            Instruction::ReturnReg { value: params.head }
                        } else {
                            Instruction::ReturnSpan { values: params, len: len as u16 }
                        };
                        match t.table_arms(targets, return_instr, 0) {
                            Err(e) => Err(e),
                            Ok(t) => Ok(TranslatorView { reachable: false, ..t }),
                        }
                    },
                },
            }
        } else {
            match self.push_instr(header) {
                Err(e) => Err(e),
                Ok(t) => {
                    let first = t.encoder.labels.len() as int;
                    match t.new_labels(targets.len()).table_jumps(targets, first, 0) {
                        Err(e) => Err(e),
                        Ok(t) => {
                            let values = t.stack.peek_n(len as int);
                            match t.with_stack(t.stack.drop_n(len as int)).table_landings(targets, values, first, 0) {
                                Err(e) => Err(e),
                                Ok(t) => Ok(TranslatorView { reachable: false, ..t }),
                            }
                        },
                    }
                },
            }
        }
    }

    /// `br_table` with the targets `targets`, of which the last is the
    /// default. With the default as its only target, or with a constant
    /// index, it is a `br` to the target that the index selects.
    pub open spec fn visit_br_table(self, targets: Seq<u32>) -> Translated {
        if !self.reachable {
            Ok(self)
        } else {
            let index = self.stack.top();
            let t = self.with_stack(self.stack.drop_n(1));
            if targets.len() == 1 {
                t.br(targets.last())
            } else {
                match index {
                    TypedProvider::Const(c) => {
                        let chosen = c.bits as u32;
                        t.br(
                            if chosen < targets.len() - 1 {
                                targets[chosen as int]
                            } else {
                                targets.last()
                            },
                        )
                    },
                    TypedProvider::Register(index) => t.br_table(index, targets),
                }
            }
        }
    }
}

/// Whether `label` is one of the `n` labels that follow the label `first`,
/// at or after the one for the arm `k`, and stands for the first arm with
/// its target.
pub open spec fn is_landing(targets: Seq<u32>, first: int, k: int, label: LabelRef) -> bool {
    &&& first + k <= label.0 < first + targets.len()
    &&& first_occurrence(targets, label.0 - first) == label.0 - first
}

/// Whether the state `b` is what the arms and the landings of a
/// `br_table`, those before the arm `k`, may make of the state `g`, in
/// which the labels of the landings do not exist yet: the control stack is
/// the same; the labels that were there are as they were; the labels of
/// the arms before the arm `k` are pinned, those from the arm `k` on are
/// not; and a branch that
/// waits has waited before, or waits for a label of a frame or for the
/// label of a landing to come.
pub open spec fn landing(b: TranslatorView, g: TranslatorView, targets: Seq<u32>, first: int, k: int) -> bool {
    &&& b.stack.wf()
    &&& b.encoder.wf()
    &&& b.control == g.control
    &&& b.reachable == g.reachable
    &&& b.len_results == g.len_results
    &&& b.fuel == g.fuel
    &&& b.func_fuel == g.func_fuel
    &&& b.stack.len_locals == g.stack.len_locals
    &&& b.stack.max_height == g.stack.max_height
    &&& first == g.encoder.labels.len()
    &&& b.encoder.labels.len() == first + targets.len()
    &&& forall|l: int| 0 <= l < first ==> #[trigger] b.encoder.labels[l] == g.encoder.labels[l]
    &&& forall|l: int| first <= l < first + k ==> #[trigger] b.encoder.labels[l] is Pinned
    &&& forall|l: int| first + k <= l < first + targets.len() ==> #[trigger] b.encoder.labels[l] is Unpinned
    &&& b.encoder.instrs.len() >= g.encoder.instrs.len()
    &&& forall|u: int|
        0 <= u < b.encoder.users.len() ==> {
            let user = #[trigger] b.encoder.users[u];
            g.encoder.users.contains(user) || (user.label.0 < first && label_owned(g.control.frames, user.label))
                || is_landing(targets, first, k, user.label)
        }
}

/// A label that a frame holds is still held when a branch to a frame is
/// counted.
pub proof fn lemma_label_owned_bump(g: TranslatorView, index: int, label: LabelRef)
    requires
        0 <= index < g.control.frames.len(),
        label_owned(g.control.frames, label),
    ensures
        label_owned(g.bump_branches(index).control.frames, label),
{
    let i = choose|i: int| 0 <= i < g.control.frames.len() && #[trigger] owns_label(g.control.frames[i], label);
    assert(owns_label(g.bump_branches(index).control.frames[i], label));
}

/// When all landings of a `br_table` are emitted, the invariant of the
/// translator holds again.
pub proof fn lemma_landing_wf(b: TranslatorView, g: TranslatorView, targets: Seq<u32>, first: int)
    requires
        g.wf(),
        g.reachable,
        landing(b, g, targets, first, targets.len() as int),
        g.base_height() <= b.height(),
    ensures
        b.wf(),
{
    lemma_base_height(g);
    let n = g.control.frames.len() as int;
    assert(g.control.frames.take(n) =~= g.control.frames);
    assert forall|i: int| 0 <= i < n implies then_results_wait(#[trigger] g.control.frames[i], b.height())
        && may_be_reached(g.control.frames[i]) by {
        assert(g.frame_wf(i));
    }
    assert forall|k: int| 0 <= k < b.encoder.users.len() implies label_owned(
        b.control.frames,
        (#[trigger] b.encoder.users[k]).label,
    ) by {
        let u = b.encoder.users[k];
        if g.encoder.users.contains(u) {
            let j = choose|j: int| 0 <= j < g.encoder.users.len() && g.encoder.users[j] == u;
            assert(label_owned(g.control.frames, g.encoder.users[j].label));
        }
    }
    assert forall|i: int| 0 <= i < n && keeps_else(#[trigger] g.control.frames[i]) implies else_end(
        g.control.frames[i],
    ) <= g.control.else_providers.len() by {
        assert(g.frame_wf(i));
    }
    assert forall|l: int| 0 <= l < g.encoder.labels.len() implies #[trigger] b.encoder.labels[l]
        == g.encoder.labels[l] || (g.encoder.labels[l] is Unpinned && !label_owned(
        g.control.frames.take(n),
        LabelRef(l as usize),
    )) by {}
    assert forall|l: int| 0 <= l < b.encoder.labels.len() implies (#[trigger] b.encoder.labels[l]) is Pinned
        || label_owned(b.control.frames, LabelRef(l as usize)) by {
        if l < first {
            assert(b.encoder.labels[l] == g.encoder.labels[l]);
        }
    }
    lemma_restack_wf(g, b, n, None);
}

impl<'a> FuncTranslator<'a> {
    /// Whether the translator accepts a `br_table` with the targets
    /// `targets`, of which the last is the default.
    pub fn accepts_br_table(&self, targets: &Vec<u32>) -> (r: bool)
        requires
            self.wf(),
        ensures
            r == self@.br_table_ok(targets@),
    {
        if !self.reachable {
            return true;
        }
        let n = targets.len();
        if n == 0 || n > u32::MAX as usize {
            return false;
        }
        let depth = self.control.len();
        let default = targets[n - 1];
        if default as usize > depth {
            return false;
        }
        let len = match self.control.acquire_target(default) {
            AcquiredTarget::Return => self.len_results,
            AcquiredTarget::Branch(i) => self.control.get(i).len_branch_params_exec(),
        };
        let mut k: usize = 0;
        while k < n
            invariant
                k <= n,
                n == targets.len(),
                self@.reachable,
                depth == self@.control.frames.len(),
                len == self@.target_len(targets@.last()),
                forall|j: int| 0 <= j < k ==> #[trigger] targets@[j] <= depth,
                forall|j: int| 0 <= j < k ==> self@.target_len(#[trigger] targets@[j]) == len,
            decreases n - k,
        {
            let target = targets[k];
            if target as usize > depth {
                return false;
            }
            let target_len = match self.control.acquire_target(target) {
                AcquiredTarget::Return => self.len_results,
                AcquiredTarget::Branch(i) => self.control.get(i).len_branch_params_exec(),
            };
            if target_len != len {
                return false;
            }
            k += 1;
        }
        let base = if self.control.len() > 0 {
            self.control.last().block_height_exec()
        } else {
            0
        };
        let h = self.stack.height();
        base <= h && 1 <= h - base && len as usize <= h - base - 1
    }

    /// Whether every branch of the targets of the `br_table` under
    /// translation that does not return leaves its operands in the
    /// registers from `head` on.
    fn same_params(&self, head: Register) -> (r: bool)
        requires
            forall|k: int|
                0 <= k < self.br_table_targets@.len() ==> #[trigger] self.br_table_targets@[k]
                    <= self@.control.frames.len(),
        ensures
            r == self@.same_params(self.br_table_targets@, head),
    {
        let n = self.br_table_targets.len();
        let mut k: usize = 0;
        while k < n
            invariant
                k <= n,
                n == self.br_table_targets.len(),
                forall|j: int|
                    0 <= j < self.br_table_targets@.len() ==> #[trigger] self.br_table_targets@[j]
                        <= self@.control.frames.len(),
                forall|j: int|
                    0 <= j < k ==> (self@.control.acquire_target(
                        #[trigger] self.br_table_targets@[j],
                    ) matches AcquiredTarget::Branch(i) ==> self@.control.frames[i as int].branch_params().head
                        == head),
            decreases n - k,
        {
            match self.control.acquire_target(self.br_table_targets[k]) {
                AcquiredTarget::Return => {},
                AcquiredTarget::Branch(i) => {
                    if self.control.get(i).branch_params_exec().head != head {
                        return false;
                    }
                },
            }
            k += 1;
        }
        true
    }

    /// Emits the arms of a `br_table` whose branches need no copies of
    /// their own.
    fn translate_table_arms(&mut self, return_instr: Instruction) -> (r: Result<(), TranslationError>)
        requires
            old(self).wf(),
            old(self)@.reachable,
            forall|k: int|
                0 <= k < old(self).br_table_targets@.len() ==> #[trigger] old(self).br_table_targets@[k] <= old(
                    self,
                )@.control.frames.len(),
        ensures
            final(self).translated(
                old(self),
                old(self)@.table_arms(old(self).br_table_targets@, return_instr, 0),
                r,
            ),
            r is Ok ==> final(self)@.reachable,
    {
        let n = self.br_table_targets.len();
        let ghost targets = self.br_table_targets@;
        let mut k: usize = 0;
        while k < n
            invariant
                k <= n,
                n == targets.len(),
                self.br_table_targets@ == targets,
                old(self).br_table_targets@ == targets,
                self.wf(),
                self@.reachable,
                self.module() == old(self).module(),
                self@.control.frames.len() == old(self)@.control.frames.len(),
                forall|j: int| 0 <= j < targets.len() ==> #[trigger] targets[j] <= self@.control.frames.len(),
                old(self)@.table_arms(targets, return_instr, 0) == self@.table_arms(targets, return_instr, k as int),
            decreases n - k,
        {
            let ghost a = self@;
            proof {
                lemma_base_height(a);
            }
            match self.control.acquire_target(self.br_table_targets[k]) {
                AcquiredTarget::Return => {
                    proof {
                        assert(a.table_arms(targets, return_instr, k as int) == match a.append_instr(return_instr) {
                            Err(e) => Err(e),
                            Ok(t) => t.table_arms(targets, return_instr, k + 1),
                        });
                    }
                    self.encoder.append_instr(return_instr)?;
                    proof {
                        lemma_step_wf(a, self@);
                    }
                },
                AcquiredTarget::Branch(i) => {
                    let label = self.control.get(i).branch_destination_exec();
                    self.control.bump_branches(i);
                    let ghost bumped = self@;
                    proof {
                        lemma_bump_wf(a, i as int);
                        assert(a.frame_wf(i as int));
                        assert(bumped.frame_wf(i as int));
                    }
                    proof {
                        lemma_append_branch_kept(self@.encoder, label);
                        assert(a.table_arms(targets, return_instr, k as int) == match bumped.encoder.append_branch(
                            label,
                        ) {
                            Err(e) => Err(e),
                            Ok(encoder) => (TranslatorView { encoder, ..bumped }).table_arms(
                                targets,
                                return_instr,
                                k + 1,
                            ),
                        });
                    }
                    self.encoder.append_branch(label)?;
                    proof {
                        let b = self@;
                        assert(bumped.stack.drop_n(0).providers =~= bumped.stack.providers);
                        assert forall|u: int| 0 <= u < b.encoder.users.len() implies bumped.encoder.users.contains(
                            #[trigger] b.encoder.users[u],
                        ) || (b.encoder.users[u].label == label && bumped.encoder.is_unpinned(label)) by {
                            if u < bumped.encoder.users.len() {
                                assert(bumped.encoder.users[u] == b.encoder.users[u]);
                            }
                        }
                        lemma_base_height(bumped);
                        lemma_branched_wf(bumped, b, 0, i as int);
                    }
                },
            }
            k += 1;
        }
        Ok(())
    }

    /// Emits the arms of a `br_table` whose branches need copies of their
    /// own: each arm branches to the label of the first arm with its
    /// target.
    fn translate_table_jumps(&mut self, first: usize, Ghost(g): Ghost<TranslatorView>) -> (r: Result<
        (),
        TranslationError,
    >)
        requires
            old(self).parts_wf(),
            landing(old(self)@, g, old(self).br_table_targets@, first as int, 0),
        ensures
            final(self).advanced(old(self), old(self)@.table_jumps(old(self).br_table_targets@, first as int, 0), r),
            final(self).br_table_targets == old(self).br_table_targets,
            r is Ok ==> landing(final(self)@, g, old(self).br_table_targets@, first as int, 0)
                && final(self)@.stack == old(self)@.stack,
    {
        let n = self.br_table_targets.len();
        let ghost targets = self.br_table_targets@;
        let mut k: usize = 0;
        while k < n
            invariant
                k <= n,
                n == targets.len(),
                self.br_table_targets == old(self).br_table_targets,
                self.br_table_targets@ == targets,
                self.parts_wf(),
                self.module() == old(self).module(),
                self@.stack == old(self)@.stack,
                landing(self@, g, targets, first as int, 0),
                old(self)@.table_jumps(targets, first as int, 0) == self@.table_jumps(targets, first as int, k as int),
            decreases n - k,
        {
            let target = self.br_table_targets[k];
            let mut j: usize = 0;
            while self.br_table_targets[j] != target
                invariant
                    j <= k < n,
                    n == targets.len(),
                    self.br_table_targets@ == targets,
                    target == targets[k as int],
                    first_from(targets, target, 0) == first_from(targets, target, j as int),
                decreases k - j,
            {
                j += 1;
            }
            proof {
                lemma_first_occurrence(targets, k as int);
                assert(first_occurrence(targets, k as int) == j);
                lemma_first_occurrence(targets, j as int);
            }
            let ghost a = self@;
            let label = LabelRef(first + j);
            proof {
                lemma_append_branch_kept(self@.encoder, label);
            }
            self.encoder.append_branch(label)?;
            proof {
                let b = self@;
                assert forall|u: int| 0 <= u < b.encoder.users.len() implies {
                    let user = #[trigger] b.encoder.users[u];
                    g.encoder.users.contains(user) || (user.label.0 < first && label_owned(
                        g.control.frames,
                        user.label,
                    )) || is_landing(targets, first as int, 0, user.label)
                } by {
                    if u < a.encoder.users.len() {
                        assert(a.encoder.users[u] == b.encoder.users[u]);
                    }
                }
            }
            k += 1;
        }
        Ok(())
    }

    /// The position of the first target of the `br_table` under
    /// translation that equals the one at the position `k`.
    fn first_occurrence(&self, k: usize) -> (j: usize)
        requires
            k < self.br_table_targets@.len(),
        ensures
            j == first_occurrence(self.br_table_targets@, k as int),
            j <= k,
    {
        let target = self.br_table_targets[k];
        let ghost targets = self.br_table_targets@;
        let mut j: usize = 0;
        while self.br_table_targets[j] != target
            invariant
                j <= k < targets.len(),
                self.br_table_targets@ == targets,
                target == targets[k as int],
                first_from(targets, target, 0) == first_from(targets, target, j as int),
            decreases k - j,
        {
            j += 1;
        }
        proof {
            lemma_first_occurrence(targets, k as int);
        }
        j
    }

    /// Emits the code that the arm `k` of a `br_table` branches to, the
    /// first arm with its target. The operands that the branch carries are
    /// in the buffer of the translator.
    fn translate_table_landing(&mut self, first: usize, k: usize, Ghost(g): Ghost<TranslatorView>) -> (r: (
        Result<(), TranslationError>,
        Ghost<TranslatorView>,
    ))
        requires
            old(self).parts_wf(),
            g.wf(),
            g.reachable,
            k < old(self).br_table_targets@.len(),
            first_occurrence(old(self).br_table_targets@, k as int) == k,
            landing(old(self)@, g, old(self).br_table_targets@, first as int, k as int),
            old(self).br_table_targets@[k as int] <= g.control.frames.len(),
            g.target_len(old(self).br_table_targets@[k as int]) == old(self).buffer@.len(),
        ensures
            final(self).br_table_targets == old(self).br_table_targets,
            final(self).buffer == old(self).buffer,
            final(self).advanced(
                old(self),
                old(self)@.table_landing(
                    old(self).br_table_targets@[k as int],
                    old(self).buffer@,
                    LabelRef((first + k) as usize),
                ),
                r.0,
            ),
            r.0 is Ok ==> {
                &&& r.1@.wf()
                &&& r.1@.reachable
                &&& r.1@.base_height() == g.base_height()
                &&& r.1@.control.frames.len() == g.control.frames.len()
                &&& forall|depth: u32|
                    depth <= g.control.frames.len() ==> #[trigger] r.1@.target_len(depth) == g.target_len(depth)
                &&& final(self)@.height() == old(self)@.height()
                &&& landing(final(self)@, r.1@, old(self).br_table_targets@, first as int, k + 1)
            },
    {
        let ghost targets = self.br_table_targets@;
        let ghost values = self.buffer@;
        let ghost a = self@;
        let target = self.br_table_targets[k];
        let label = LabelRef(first + k);
        proof {
            assert(a.encoder.labels[first + k] is Unpinned);
            lemma_pin_kept(a, label);
        }
        match self.pin(label) {
            Ok(()) => {},
            Err(e) => {
                return (Err(e), Ghost(g));
            },
        }
        let ghost a1 = self@;
        proof {
            assert forall|u: int| 0 <= u < a1.encoder.users.len() implies {
                let user = #[trigger] a1.encoder.users[u];
                g.encoder.users.contains(user) || (user.label.0 < first && label_owned(g.control.frames, user.label))
                    || is_landing(targets, first as int, k + 1, user.label)
            } by {
                let user = a1.encoder.users[u];
                assert(a.encoder.users.contains(user));
                let i = choose|i: int| 0 <= i < a.encoder.users.len() && a.encoder.users[i] == user;
                assert(a.encoder.users[i] == user);
            }
            assert(landing(a1, g, targets, first as int, k + 1));
        }
        match self.control.acquire_target(target) {
            AcquiredTarget::Return => {
                proof {
                    lemma_encode_return_kept(self@.encoder, self@.stack, values);
                }
                match self.encoder.encode_return(&mut self.stack, &self.buffer) {
                    Ok(()) => (Ok(()), Ghost(g)),
                    Err(e) => (Err(e), Ghost(g)),
                }
            },
            AcquiredTarget::Branch(i) => {
                let frame = self.control.get(i);
                self.control.bump_branches(i);
                let ghost g1 = g.bump_branches(i as int);
                proof {
                    lemma_bump_wf(g, i as int);
                    assert(g.frame_wf(i as int));
                    assert(g1.frame_wf(i as int));
                }
                let len = self.buffer.len();
                let results = frame.branch_params_exec().iter(len);
                proof {
                    lemma_encode_copies_kept(self@.encoder, self@.stack, results, values);
                }
                match self.encoder.encode_copies(&mut self.stack, results, &self.buffer) {
                    Ok(()) => {},
                    Err(e) => {
                        return (Err(e), Ghost(g));
                    },
                }
                let ghost a2 = self@;
                proof {
                    lemma_encode_branch_kept(self@.encoder, frame.branch_destination());
                }
                match self.branch(frame.branch_destination_exec()) {
                    Ok(()) => {},
                    Err(e) => {
                        return (Err(e), Ghost(g));
                    },
                }
                proof {
                    let b = self@;
                    let dst = frame.branch_destination();
                    assert forall|u: int| 0 <= u < b.encoder.users.len() implies {
                        let user = #[trigger] b.encoder.users[u];
                        g1.encoder.users.contains(user) || (user.label.0 < first && label_owned(
                            g1.control.frames,
                            user.label,
                        )) || is_landing(targets, first as int, k + 1, user.label)
                    } by {
                        let user = b.encoder.users[u];
                        if u < a2.encoder.users.len() && a2.encoder.users[u] == user {
                            assert(a1.encoder.users[u] == user);
                            if user.label.0 < first && label_owned(g.control.frames, user.label) {
                                lemma_label_owned_bump(g, i as int, user.label);
                            }
                        } else {
                            assert(user.label == dst);
                            assert(a2.encoder.is_unpinned(dst));
                            assert(owns_label(g1.control.frames[i as int], dst));
                        }
                    }
                }
                proof {
                    assert forall|depth: u32| depth <= g.control.frames.len() implies #[trigger] g1.target_len(depth)
                        == g.target_len(depth) by {
                        if depth < g.control.frames.len() {
                            let idx = g.control.frames.len() - 1 - depth;
                            assert(g1.control.frames[idx].len_branch_params() == g.control.frames[idx].len_branch_params());
                        }
                    }
                }
                (Ok(()), Ghost(g1))
            },
        }
    }

    /// Emits the code that the arms of a `br_table` branch to, for
    /// branches that need copies of their own. The operands that the
    /// branches carry are in the buffer of the translator.
    fn translate_table_landings(&mut self, first: usize, Ghost(g0): Ghost<TranslatorView>) -> (r: Result<
        (),
        TranslationError,
    >)
        requires
            old(self).parts_wf(),
            g0.wf(),
            g0.reachable,
            landing(old(self)@, g0, old(self).br_table_targets@, first as int, 0),
            g0.base_height() <= old(self)@.height(),
            forall|k: int|
                0 <= k < old(self).br_table_targets@.len() ==> #[trigger] old(self).br_table_targets@[k]
                    <= g0.control.frames.len(),
            forall|k: int|
                0 <= k < old(self).br_table_targets@.len() ==> g0.target_len(
                    #[trigger] old(self).br_table_targets@[k],
                ) == old(self).buffer@.len(),
        ensures
            final(self).advanced(
                old(self),
                old(self)@.table_landings(old(self).br_table_targets@, old(self).buffer@, first as int, 0),
                r,
            ),
            r is Ok ==> final(self).wf() && final(self)@.reachable,
    {
        let n = self.br_table_targets.len();
        let ghost targets = self.br_table_targets@;
        let ghost values = self.buffer@;
        let ghost g = g0;
        let mut k: usize = 0;
        while k < n
            invariant
                k <= n,
                n == targets.len(),
                self.br_table_targets@ == targets,
                old(self).br_table_targets@ == targets,
                self.buffer@ == values,
                old(self).buffer@ == values,
                self.parts_wf(),
                self.module() == old(self).module(),
                g.wf(),
                g.reachable,
                g.base_height() <= self@.height(),
                landing(self@, g, targets, first as int, k as int),
                forall|j: int| 0 <= j < targets.len() ==> #[trigger] targets[j] <= g.control.frames.len(),
                forall|j: int| 0 <= j < targets.len() ==> g.target_len(#[trigger] targets[j]) == values.len(),
                old(self)@.table_landings(targets, values, first as int, 0) == self@.table_landings(
                    targets,
                    values,
                    first as int,
                    k as int,
                ),
            decreases n - k,
        {
            let j = self.first_occurrence(k);
            if j == k {
                let (landed, next) = self.translate_table_landing(first, k, Ghost(g));
                landed?;
                proof {
                    g = next@;
                }
            } else {
                let ghost a = self@;
                let label = LabelRef(first + k);
                proof {
                    assert(a.encoder.labels[first + k] is Unpinned);
                    lemma_pin_kept(a, label);
                }
                self.pin(label)?;
                proof {
                    let a1 = self@;
                    assert forall|u: int| 0 <= u < a1.encoder.users.len() implies {
                        let user = #[trigger] a1.encoder.users[u];
                        g.encoder.users.contains(user) || (user.label.0 < first && label_owned(
                            g.control.frames,
                            user.label,
                        )) || is_landing(targets, first as int, k + 1, user.label)
                    } by {
                        let user = a1.encoder.users[u];
                        assert(a.encoder.users.contains(user));
                        let i = choose|i: int| 0 <= i < a.encoder.users.len() && a.encoder.users[i] == user;
                        assert(a.encoder.users[i] == user);
                    }
                    assert(landing(a1, g, targets, first as int, k + 1));
                }
            }
            k += 1;
        }
        proof {
            lemma_landing_wf(self@, g, targets, first as int);
        }
        Ok(())
    }

    /// Translates a `br_table` whose branches need no copies of their own.
    fn translate_br_table_shared(&mut self, index: Register, params: RegSpan, len: usize) -> (r: Result<
        (),
        TranslationError,
    >)
        requires
            old(self).wf(),
            old(self)@.reachable,
            0 < old(self).br_table_targets@.len() <= u32::MAX,
            forall|k: int|
                0 <= k < old(self).br_table_targets@.len() ==> #[trigger] old(self).br_table_targets@[k] <= old(
                    self,
                )@.control.frames.len(),
            params == old(self)@.target_params(old(self).br_table_targets@.last()),
            len == old(self)@.target_len(old(self).br_table_targets@.last()),
            old(self)@.operands_ok(len as nat),
            params.head.0 + len <= i16::MAX,
            len == 0 || old(self)@.same_params(old(self).br_table_targets@, params.head),
        ensures
            final(self).translated(old(self), old(self)@.br_table(index, old(self).br_table_targets@), r),
    {
        let ghost a = self@;
        let n = self.br_table_targets.len();
        let header = Instruction::BranchTable { index, len_targets: n as u32 };
        proof {
            lemma_base_height(a);
            lemma_copy_branch_params_kept(a, params, len as nat);
        }
        self.translate_copy_branch_params(params, len)?;
        self.encoder.push_instr(header)?;
        proof {
            lemma_step_wf(a, self@);
        }
        let return_instr = if len == 0 {
            Instruction::Return
        } else if len == 1 {
            Instruction::ReturnReg { value: params.head }
        } else {
            Instruction::ReturnSpan { values: params, len: len as u16 }
        };
        self.translate_table_arms(return_instr)?;
        self.reachable = false;
        proof {
            lemma_unreachable_wf(TranslatorView { reachable: true, ..self@ });
        }
        Ok(())
    }

    /// Adds `n` labels, none of them pinned.
    fn new_labels(&mut self, n: usize)
        requires
            old(self).parts_wf(),
        ensures
            final(self).parts_wf(),
            final(self)@ == old(self)@.new_labels(n as nat),
            final(self).module() == old(self).module(),
            final(self).br_table_targets == old(self).br_table_targets,
            final(self).buffer == old(self).buffer,
    {
        let mut k: usize = 0;
        proof {
            assert(self@.encoder.labels =~= old(self)@.new_labels(0).encoder.labels);
        }
        while k < n
            invariant
                k <= n,
                self.parts_wf(),
                self.module() == old(self).module(),
                self.br_table_targets == old(self).br_table_targets,
                self.buffer == old(self).buffer,
                self@ == old(self)@.new_labels(k as nat),
            decreases n - k,
        {
            self.encoder.new_label();
            proof {
                assert(self@.encoder.labels =~= old(self)@.new_labels((k + 1) as nat).encoder.labels);
            }
            k += 1;
        }
    }

    /// Translates a `br_table` whose branches need copies of their own.
    fn translate_br_table_landings(&mut self, index: Register, len: usize) -> (r: Result<(), TranslationError>)
        requires
            old(self).wf(),
            old(self)@.reachable,
            0 < old(self).br_table_targets@.len() <= u32::MAX,
            forall|k: int|
                0 <= k < old(self).br_table_targets@.len() ==> #[trigger] old(self).br_table_targets@[k] <= old(
                    self,
                )@.control.frames.len(),
            forall|k: int|
                0 <= k < old(self).br_table_targets@.len() ==> old(self)@.target_len(
                    #[trigger] old(self).br_table_targets@[k],
                ) == len,
            len == old(self)@.target_len(old(self).br_table_targets@.last()),
            old(self)@.operands_ok(len as nat),
            !(len == 0 || old(self)@.same_params(
                old(self).br_table_targets@,
                old(self)@.target_params(old(self).br_table_targets@.last()).head,
            )),
        ensures
            final(self).translated(old(self), old(self)@.br_table(index, old(self).br_table_targets@), r),
    {
        let ghost a = self@;
        let ghost targets = self.br_table_targets@;
        let n = self.br_table_targets.len();
        let header = Instruction::BranchTable { index, len_targets: n as u32 };
        proof {
            lemma_base_height(a);
        }
        self.encoder.push_instr(header)?;
        let ghost g = self@;
        proof {
            lemma_step_wf(a, g);
        }
        let first = self.encoder.labels.len();
        self.new_labels(n);
        proof {
            let b = self@;
            assert forall|u: int| 0 <= u < b.encoder.users.len() implies {
                let user = #[trigger] b.encoder.users[u];
                g.encoder.users.contains(user) || (user.label.0 < first && label_owned(
                    g.control.frames,
                    user.label,
                )) || is_landing(targets, first as int, 0, user.label)
            } by {
                assert(g.encoder.users[u] == b.encoder.users[u]);
            }
        }
        self.translate_table_jumps(first, Ghost(g))?;
        self.stack.pop_n(len, &mut self.buffer);
        proof {
            lemma_base_height(g);
            assert forall|t: int| 0 <= t < targets.len() implies g.target_len(#[trigger] targets[t])
                == self.buffer@.len() by {
                assert(a.target_len(targets[t]) == len);
            }
        }
        self.translate_table_landings(first, Ghost(g))?;
        self.reachable = false;
        proof {
            lemma_unreachable_wf(TranslatorView { reachable: true, ..self@ });
        }
        Ok(())
    }

    /// Translates a `br_table` on the register `index` in code that can
    /// be reached, once the index is popped. The targets are in the
    /// buffer of targets, the default last.
    fn translate_br_table(&mut self, index: Register) -> (r: Result<(), TranslationError>)
        requires
            old(self).wf(),
            old(self)@.reachable,
            0 < old(self).br_table_targets@.len() <= u32::MAX,
            forall|k: int|
                0 <= k < old(self).br_table_targets@.len() ==> #[trigger] old(self).br_table_targets@[k] <= old(
                    self,
                )@.control.frames.len(),
            forall|k: int|
                0 <= k < old(self).br_table_targets@.len() ==> old(self)@.target_len(
                    #[trigger] old(self).br_table_targets@[k],
                ) == old(self)@.target_len(old(self).br_table_targets@.last()),
            old(self)@.operands_ok(old(self)@.target_len(old(self).br_table_targets@.last())),
        ensures
            final(self).translated(old(self), old(self)@.br_table(index, old(self).br_table_targets@), r),
    {
        let ghost a = self@;
        let n = self.br_table_targets.len();
        let default = self.br_table_targets[n - 1];
        let (params, len) = match self.control.acquire_target(default) {
            AcquiredTarget::Return => (
                RegSpan { head: Register(self.stack.len_locals() as i16) },
                self.len_results as usize,
            ),
            AcquiredTarget::Branch(i) => {
                proof {
                    assert(a.frame_wf(i as int));
                }
                let frame = self.control.get(i);
                (frame.branch_params_exec(), frame.len_branch_params_exec() as usize)
            },
        };
        if len == 0 || self.same_params(params.head) {
            self.translate_br_table_shared(index, params, len)
        } else {
            self.translate_br_table_landings(index, len)
        }
    }

    /// Translates `br_table` with the targets `targets` and the default
    /// target `default_target`.
    pub fn visit_br_table(&mut self, targets: &Vec<u32>, default_target: u32) -> (r: Result<(), TranslationError>)
        requires
            old(self).wf(),
            old(self)@.br_table_ok(targets@.push(default_target)),
        ensures
            final(self).translated(old(self), old(self)@.visit_br_table(targets@.push(default_target)), r),
    {
        if !self.reachable {
            return Ok(());
        }
        let ghost all = targets@.push(default_target);
        proof {
            lemma_base_height(self@);
            assert(all.last() == default_target);
        }
        let index = self.stack.pop();
        proof {
            lemma_step_wf(old(self)@, self@);
        }
        let n = targets.len();
        if n == 0 {
            proof {
                assert(all[0] == default_target);
            }
            return self.translate_br(default_target);
        }
        match index {
            TypedProvider::Const(c) => {
                let chosen = c.as_u32() as usize;
                let target = if chosen < n {
                    targets[chosen]
                } else {
                    default_target
                };
                proof {
                    if chosen < n {
                        assert(all[chosen as int] == target);
                    }
                }
                self.translate_br(target)
            },
            TypedProvider::Register(index) => {
                self.br_table_targets.clear();
                let mut k: usize = 0;
                while k < n
                    invariant
                        k <= n,
                        n == targets.len(),
                        self.br_table_targets@ == targets@.take(k as int),
                        self@ == old(self)@.with_stack(old(self)@.stack.drop_n(1)),
                        self.wf(),
                        self.module() == old(self).module(),
                    decreases n - k,
                {
                    self.br_table_targets.push(targets[k]);
                    proof {
                        assert(targets@.take(k + 1) =~= targets@.take(k as int).push(targets@[k as int]));
                    }
                    k += 1;
                }
                self.br_table_targets.push(default_target);
                proof {
                    assert(targets@.take(n as int) =~= targets@);
                    assert(self.br_table_targets@ =~= all);
                    let a = self@;
                    assert forall|t: int| 0 <= t < all.len() implies #[trigger] all[t] <= a.control.frames.len()
                        && a.target_len(all[t]) == a.target_len(all.last()) by {
                        assert(old(self)@.target_len(all[t]) == old(self)@.target_len(all.last()));
                    }
                }
                self.translate_br_table(index)
            },
        }
    }
}

} // verus!
