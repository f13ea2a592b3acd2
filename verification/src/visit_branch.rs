//! Translation of the branches: `br`, `br_if`, `br_table` and `return`.

use vstd::prelude::*;
use crate::branches::{lemma_encode_branch_if_kept, lemma_encode_branch_kept, lemma_encode_return_kept};
use crate::control::AcquiredTarget;
use crate::copies::{is_span, lemma_encode_copies_kept};
use crate::encoder::LabelRef;
use crate::error::TranslationError;

use crate::register::{RegSpanIter, Register};

use crate::translator::{
    else_end,
    frames_ordered,
    keeps_else,
    label_owned,
    lemma_base_height,
    lemma_copy_branch_params_kept,
    lemma_pin_kept,
    lemma_restack_wf,
    lemma_step_wf,
    lemma_translate_return_kept,
    may_be_reached,
    owns_label,
    then_results_wait,
    FuncTranslator,
    Translated,
    TranslatorView,
};
use crate::value::TypedProvider;

verus! {

impl TranslatorView {
    /// The number of operands that a branch of the depth `depth` carries:
    /// the results of the function, the parameters of a loop, or the
    /// results of any other block.
    pub open spec fn target_len(self, depth: u32) -> nat {
        match self.control.acquire_target(depth) {
            AcquiredTarget::Return => self.len_results as nat,
            AcquiredTarget::Branch(i) => self.control.frames[i as int].len_branch_params() as nat,
        }
    }

    /// Whether the translator accepts a branch of the depth `depth`, taken
    /// after `extra` more operands are popped: the code cannot be reached,
    /// or the depth names a frame or the function, and the operands that
    /// the branch carries are there.
    pub open spec fn branch_ok(self, depth: u32, extra: nat) -> bool {
        self.reachable ==> {
            &&& depth <= self.control.frames.len()
            &&& self.operands_ok(extra + self.target_len(depth))
        }
    }

    /// The state with one branch more counted for the frame at `index`.
    pub open spec fn bump_branches(self, index: int) -> TranslatorView {
        TranslatorView { control: self.control.bump_branches(index), ..self }
    }

    /// `return`: the results of the function are returned, and what
    /// follows cannot be reached.
    pub open spec fn visit_return(self) -> Translated {
        if !self.reachable {
            Ok(self)
        } else {
            self.translate_return()
        }
    }

    /// A branch of the depth `depth` in code that can be reached: a return
    /// if the depth names the function; else the operands move to where
    /// the frame expects them and a branch to its label is emitted. What
    /// follows cannot be reached.
    pub open spec fn br(self, depth: u32) -> Translated {
        match self.control.acquire_target(depth) {
            AcquiredTarget::Return => self.translate_return(),
            AcquiredTarget::Branch(i) => {
                let frame = self.control.frames[i as int];
                match self.bump_branches(i as int).copy_branch_params(
                    frame.branch_params(),
                    frame.len_branch_params() as nat,
                ) {
                    Err(e) => Err(e),
                    Ok(t) => match t.branch(frame.branch_destination()) {
                        Err(e) => Err(e),
                        Ok(t) => Ok(TranslatorView { reachable: false, ..t }),
                    },
                }
            },
        }
    }

    /// `br`.
    pub open spec fn visit_br(self, depth: u32) -> Translated {
        if !self.reachable {
            Ok(self)
        } else {
            self.br(depth)
        }
    }

    /// A return under the condition that the register `condition` is not
    /// zero: a branch over the return for a condition that is zero, then
    /// the return of the topmost operands, which stay on the stack.
    pub open spec fn return_if(self, condition: TypedProvider) -> Translated {
        let (encoder, skip) = self.encoder.new_label();
        match encoder.encode_branch_if(self.stack, condition, skip, true) {
            Err(e) => Err(e),
            Ok(encoder) => match encoder.encode_return(self.stack, self.stack.peek_n(self.len_results as int)) {
                Err(e) => Err(e),
                Ok((encoder, stack)) => (TranslatorView { encoder, stack, ..self }).pin(skip),
            },
        }
    }

    /// A branch to the frame at `index` under the condition that the
    /// register `condition` is not zero. The operands that the branch
    /// carries stay on the stack. Where the frame expects none, or finds
    /// them where it expects them, one conditional branch does; else a
    /// branch for a condition that is zero skips the copies and the branch
    /// that follow it.
    pub open spec fn branch_if(self, index: int, condition: TypedProvider) -> Translated {
        let frame = self.control.frames[index];
        let t = self.bump_branches(index);
        let len = frame.len_branch_params() as nat;
        let values = self.stack.peek_n(len as int);
        let label = frame.branch_destination();
        if len == 0 || is_span(values, frame.branch_params().head) {
            match t.encoder.encode_branch_if(t.stack, condition, label, false) {
                Ok(encoder) => Ok(TranslatorView { encoder, ..t }),
                Err(e) => Err(e),
            }
        } else {
            let (encoder, skip) = t.encoder.new_label();
            match encoder.encode_branch_if(t.stack, condition, skip, true) {
                Err(e) => Err(e),
                Ok(encoder) => match encoder.encode_copies(
                    t.stack,
                    RegSpanIter {
                        next: frame.branch_params().head,
                        last: Register((frame.branch_params().head.0 + len) as i16),
                    },
                    values,
                ) {
                    Err(e) => Err(e),
                    Ok((encoder, stack)) => match (TranslatorView { encoder, stack, ..t }).branch(label) {
                        Err(e) => Err(e),
                        Ok(t) => t.pin(skip),
                    },
                },
            }
        }
    }

    /// `br_if`: with a constant condition, a `br` or nothing; else a
    /// conditional return or a conditional branch.
    pub open spec fn visit_br_if(self, depth: u32) -> Translated {
        if !self.reachable {
            Ok(self)
        } else {
            let condition = self.stack.top();
            let t = self.with_stack(self.stack.drop_n(1));
            match condition {
                TypedProvider::Const(c) => if c.is_true() {
                    t.br(depth)
                } else {
                    Ok(t)
                },
                TypedProvider::Register(_) => match t.control.acquire_target(depth) {
                    AcquiredTarget::Return => t.return_if(condition),
                    AcquiredTarget::Branch(i) => t.branch_if(i as int, condition),
                },
            }
        }
    }
}

/// Counting a branch to a frame keeps the invariant of the translator.
pub proof fn lemma_bump_wf(a: TranslatorView, index: int)
    requires
        a.wf(),
        0 <= index < a.control.frames.len(),
    ensures
        a.bump_branches(index).wf(),
        a.bump_branches(index).control.frames.len() == a.control.frames.len(),
{
    let b = a.bump_branches(index);
    assert forall|i: int| 0 <= i < b.control.frames.len() implies #[trigger] b.frame_wf(i) by {
        assert(a.frame_wf(i));
    }
    assert forall|l: int| 0 <= l < b.encoder.labels.len() implies (#[trigger] b.encoder.labels[l]) is Pinned
        || label_owned(b.control.frames, LabelRef(l as usize)) by {
        if !(a.encoder.labels[l] is Pinned) {
            let i = choose|i: int|
                0 <= i < a.control.frames.len() && #[trigger] owns_label(a.control.frames[i], LabelRef(l as usize));
            assert(owns_label(b.control.frames[i], LabelRef(l as usize)));
        }
    }
    assert forall|i: int, j: int| 0 <= i < j < b.control.frames.len() implies frames_ordered(
        #[trigger] b.control.frames[i],
        #[trigger] b.control.frames[j],
    ) by {
        assert(frames_ordered(a.control.frames[i], a.control.frames[j]));
    }
    assert forall|k: int| 0 <= k < b.encoder.users.len() implies label_owned(
        b.control.frames,
        (#[trigger] b.encoder.users[k]).label,
    ) by {
        let l = a.encoder.users[k].label;
        let i = choose|i: int| 0 <= i < a.control.frames.len() && #[trigger] owns_label(a.control.frames[i], l);
        assert(owns_label(b.control.frames[i], l));
    }
}

/// Whether the state `b` is what a step may make of the state `a` that
/// keeps the control stack, pops `dropped` operands, emits code, creates
/// and pins labels of its own, and leaves waiting, besides the branches
/// that waited before, only branches to `label`.
pub open spec fn branched(b: TranslatorView, a: TranslatorView, dropped: int, label: LabelRef) -> bool {
    &&& b.stack.wf()
    &&& b.encoder.wf()
    &&& b.control == a.control
    &&& b.len_results == a.len_results
    &&& b.fuel == a.fuel
    &&& b.func_fuel == a.func_fuel
    &&& b.stack.len_locals == a.stack.len_locals
    &&& b.stack.max_height == a.stack.max_height
    &&& b.stack.providers == a.stack.drop_n(dropped).providers
    &&& b.encoder.labels.len() >= a.encoder.labels.len()
    &&& forall|l: int| 0 <= l < a.encoder.labels.len() ==> #[trigger] b.encoder.labels[l] == a.encoder.labels[l]
    &&& forall|l: int| a.encoder.labels.len() <= l < b.encoder.labels.len() ==> #[trigger] b.encoder.labels[l] is Pinned
    &&& b.encoder.instrs.len() >= a.encoder.instrs.len()
    &&& forall|k: int|
        0 <= k < b.encoder.users.len() ==> a.encoder.users.contains(#[trigger] b.encoder.users[k]) || (
        b.encoder.users[k].label == label && a.encoder.is_unpinned(label))
}

/// A step that branches to a label of a frame keeps the invariant of the
/// translator, if the operand stack stays at or above the height at which
/// the innermost block began and unreachable code stays unreachable.
pub proof fn lemma_branched_wf(a: TranslatorView, b: TranslatorView, dropped: int, index: int)
    requires
        a.wf(),
        a.reachable,
        0 <= index < a.control.frames.len(),
        0 <= dropped,
        a.base_height() + dropped <= a.height(),
        branched(b, a, dropped, a.control.frames[index].branch_destination()),
    ensures
        b.wf(),
{
    lemma_base_height(a);
    let n = a.control.frames.len() as int;
    let frame = a.control.frames[index];
    assert(a.control.frames.take(n) =~= a.control.frames);
    assert(a.frame_wf(index));
    assert forall|i: int| 0 <= i < n implies then_results_wait(#[trigger] a.control.frames[i], b.height()) by {
        assert(a.frame_wf(i));
    }
    assert forall|i: int| 0 <= i < n implies may_be_reached(#[trigger] a.control.frames[i]) by {
        assert(a.frame_wf(i));
    }
    assert forall|k: int| 0 <= k < b.encoder.users.len() implies label_owned(
        b.control.frames,
        (#[trigger] b.encoder.users[k]).label,
    ) by {
        let u = b.encoder.users[k];
        if a.encoder.users.contains(u) {
            let j = choose|j: int| 0 <= j < a.encoder.users.len() && a.encoder.users[j] == u;
            assert(label_owned(a.control.frames, a.encoder.users[j].label));
        } else {
            assert(owns_label(a.control.frames[index], u.label));
        }
    }
    assert forall|i: int| 0 <= i < n && keeps_else(#[trigger] a.control.frames[i]) implies else_end(
        a.control.frames[i],
    ) <= a.control.else_providers.len() by {
        assert(a.frame_wf(i));
    }
    assert forall|l: int| 0 <= l < b.encoder.labels.len() implies (#[trigger] b.encoder.labels[l]) is Pinned
        || label_owned(b.control.frames, LabelRef(l as usize)) by {
        if l < a.encoder.labels.len() {
            assert(b.encoder.labels[l] == a.encoder.labels[l]);
        }
    }
    lemma_restack_wf(a, b, n, None);
}

impl<'a> FuncTranslator<'a> {
    /// Whether the translator accepts a branch of the depth `depth`, taken
    /// after `extra` more operands are popped.
    pub fn accepts_branch(&self, depth: u32, extra: usize) -> (r: bool)
        requires
            self.wf(),
        ensures
            r == self@.branch_ok(depth, extra as nat),
    {
        if !self.reachable {
            return true;
        }
        if depth as usize > self.control.len() {
            return false;
        }
        let len = match self.control.acquire_target(depth) {
            AcquiredTarget::Return => self.len_results as usize,
            AcquiredTarget::Branch(i) => self.control.get(i).len_branch_params_exec() as usize,
        };
        let base = if self.control.len() > 0 {
            self.control.last().block_height_exec()
        } else {
            0
        };
        let h = self.stack.height();
        base <= h && extra <= h - base && len <= h - base - extra
    }

    /// Translates `return`.
    pub fn visit_return(&mut self) -> (r: Result<(), TranslationError>)
        requires
            old(self).wf(),
            old(self)@.operands_ok(old(self)@.len_results as nat),
        ensures
            final(self).translated(old(self), old(self)@.visit_return(), r),
    {
        if !self.reachable {
            return Ok(());
        }
        self.translate_return_wf()
    }

    /// Returns the results of the function in code that can be reached,
    /// and keeps the invariant of the translator.
    pub(crate) fn translate_return_wf(&mut self) -> (r: Result<(), TranslationError>)
        requires
            old(self).wf(),
            old(self)@.reachable,
            old(self)@.operands_ok(old(self)@.len_results as nat),
        ensures
            final(self).translated(old(self), old(self)@.translate_return(), r),
    {
        proof {
            lemma_base_height(self@);
            lemma_translate_return_kept(self@);
        }
        self.translate_return()?;
        proof {
            let a = old(self)@;
            let mid = TranslatorView { reachable: true, ..self@ };
            lemma_step_wf(a, mid);
            crate::translator::lemma_unreachable_wf(mid);
        }
        Ok(())
    }

    /// Translates a branch of the depth `depth` in code that can be
    /// reached.
    pub(crate) fn translate_br(&mut self, depth: u32) -> (r: Result<(), TranslationError>)
        requires
            old(self).wf(),
            old(self)@.reachable,
            old(self)@.branch_ok(depth, 0),
        ensures
            final(self).translated(old(self), old(self)@.br(depth), r),
    {
        match self.control.acquire_target(depth) {
            AcquiredTarget::Return => self.translate_return_wf(),
            AcquiredTarget::Branch(i) => {
                let frame = self.control.get(i);
                self.control.bump_branches(i);
                let ghost a = self@;
                proof {
                    lemma_bump_wf(old(self)@, i as int);
                    lemma_base_height(old(self)@);
                    assert(old(self)@.frame_wf(i as int));
                    assert(a.frame_wf(i as int));
                    lemma_copy_branch_params_kept(a, frame.branch_params(), frame.len_branch_params() as nat);
                }
                self.translate_copy_branch_params(frame.branch_params_exec(), frame.len_branch_params_exec() as usize)?;
                proof {
                    lemma_encode_branch_kept(self@.encoder, frame.branch_destination());
                }
                self.branch(frame.branch_destination_exec())?;
                proof {
                    let b = self@;
                    let dst = frame.branch_destination();
                    assert(a.control.frames[i as int].branch_destination() == dst);
                    assert forall|k: int| 0 <= k < b.encoder.users.len() implies a.encoder.users.contains(
                        #[trigger] b.encoder.users[k],
                    ) || (b.encoder.users[k].label == dst && a.encoder.is_unpinned(dst)) by {
                        if k < a.encoder.users.len() {
                            assert(a.encoder.users[k] == b.encoder.users[k]);
                        }
                    }
                    lemma_branched_wf(a, b, frame.len_branch_params() as int, i as int);
                }
                self.reachable = false;
                proof {
                    crate::translator::lemma_unreachable_wf(TranslatorView { reachable: true, ..self@ });
                }
                Ok(())
            },
        }
    }

    /// Translates `br`.
    pub fn visit_br(&mut self, relative_depth: u32) -> (r: Result<(), TranslationError>)
        requires
            old(self).wf(),
            old(self)@.branch_ok(relative_depth, 0),
        ensures
            final(self).translated(old(self), old(self)@.visit_br(relative_depth), r),
    {
        if !self.reachable {
            return Ok(());
        }
        self.translate_br(relative_depth)
    }

    /// Translates a return under the condition that `condition`, a
    /// register, is not zero.
    fn translate_return_if(&mut self, condition: TypedProvider) -> (r: Result<(), TranslationError>)
        requires
            old(self).parts_wf(),
            old(self)@.len_results <= old(self)@.height(),
        ensures
            final(self).advanced(old(self), old(self)@.return_if(condition), r),
            r is Ok ==> branched(final(self)@, old(self)@, 0, LabelRef(0)) && forall|k: int|
                0 <= k < final(self)@.encoder.users.len() ==> old(self)@.encoder.users.contains(
                    #[trigger] final(self)@.encoder.users[k],
                ),
    {
        let ghost a = self@;
        let skip = self.encoder.new_label();
        let ghost a0 = self@;
        proof {
            lemma_encode_branch_if_kept(self@.encoder, self@.stack, condition, skip, true);
        }
        self.encoder.encode_branch_eqz(&self.stack, condition, skip)?;
        let ghost a1 = self@;
        self.stack.peek_n(self.len_results as usize, &mut self.buffer);
        proof {
            lemma_encode_return_kept(self@.encoder, self@.stack, self.buffer@);
        }
        self.encoder.encode_return(&mut self.stack, &self.buffer)?;
        let ghost a2 = self@;
        proof {
            lemma_pin_kept(self@, skip);
        }
        self.pin(skip)?;
        proof {
            let b = self@;
            assert(a.stack.drop_n(0).providers =~= a.stack.providers);
            assert forall|k: int| 0 <= k < b.encoder.users.len() implies a.encoder.users.contains(
                #[trigger] b.encoder.users[k],
            ) by {
                let u = b.encoder.users[k];
                assert(a2.encoder.users.contains(u));
                let i = choose|i: int| 0 <= i < a1.encoder.users.len() && a1.encoder.users[i] == u;
                if i < a.encoder.users.len() {
                    assert(a1.encoder.users[i] == a0.encoder.users[i]);
                    assert(a.encoder.users[i] == u);
                }
            }
        }
        Ok(())
    }

    /// Whether the providers of `values` are the registers of the span
    /// that starts at `head`.
    fn is_span(values: &Vec<TypedProvider>, head: Register) -> (r: bool)
        ensures
            r == is_span(values@, head),
    {
        let n = values.len();
        if n > 65536 || head.0 as i64 + n as i64 > 32768 {
            return false;
        }
        let mut i: usize = 0;
        while i < n
            invariant
                i <= n,
                n == values.len(),
                head.0 + n <= 32768,
                forall|j: int|
                    0 <= j < i ==> #[trigger] values@[j] == TypedProvider::Register(Register((head.0 + j) as i16)),
            decreases n - i,
        {
            let expected = Register((head.0 as i64 + i as i64) as i16);
            match values[i] {
                TypedProvider::Register(v) if v == expected => {},
                _ => {
                    return false;
                },
            }
            i += 1;
        }
        true
    }

    /// Translates a branch to the frame at the position `index` under the
    /// condition that `condition`, a register, is not zero.
    fn translate_branch_if(&mut self, index: usize, condition: TypedProvider) -> (r: Result<(), TranslationError>)
        requires
            old(self).parts_wf(),
            index < old(self)@.control.frames.len(),
            ({
                let frame = old(self)@.control.frames[index as int];
                &&& frame.len_branch_params() <= old(self)@.height()
                &&& frame.branch_params().head.0 + frame.len_branch_params() <= i16::MAX
                &&& frame.branch_destination().0 < old(self)@.encoder.labels.len()
            }),
        ensures
            final(self).advanced(old(self), old(self)@.branch_if(index as int, condition), r),
            r is Ok ==> branched(
                final(self)@,
                old(self)@.bump_branches(index as int),
                0,
                old(self)@.control.frames[index as int].branch_destination(),
            ),
    {
        let ghost a = self@.bump_branches(index as int);
        let frame = self.control.get(index);
        self.control.bump_branches(index);
        let len = frame.len_branch_params_exec() as usize;
        let label = frame.branch_destination_exec();
        let params = frame.branch_params_exec();
        self.stack.peek_n(len, &mut self.buffer);
        proof {
            assert(a.stack.drop_n(0).providers =~= a.stack.providers);
        }
        if len == 0 || Self::is_span(&self.buffer, params.head) {
            proof {
                lemma_encode_branch_if_kept(self@.encoder, self@.stack, condition, label, false);
            }
            self.encoder.encode_branch_nez(&self.stack, condition, label)?;
            proof {
                let b = self@;
                assert forall|k: int| 0 <= k < b.encoder.users.len() implies a.encoder.users.contains(
                    #[trigger] b.encoder.users[k],
                ) || (b.encoder.users[k].label == label && a.encoder.is_unpinned(label)) by {
                    if k < a.encoder.users.len() {
                        assert(a.encoder.users[k] == b.encoder.users[k]);
                    }
                }
            }
            return Ok(());
        }
        let skip = self.encoder.new_label();
        let ghost a0 = self@;
        proof {
            lemma_encode_branch_if_kept(self@.encoder, self@.stack, condition, skip, true);
        }
        self.encoder.encode_branch_eqz(&self.stack, condition, skip)?;
        let ghost a1 = self@;
        let results = params.iter(len);
        proof {
            lemma_encode_copies_kept(self@.encoder, self@.stack, results, self.buffer@);
        }
        self.encoder.encode_copies(&mut self.stack, results, &self.buffer)?;
        proof {
            lemma_encode_branch_kept(self@.encoder, label);
        }
        self.branch(label)?;
        let ghost a2 = self@;
        proof {
            lemma_pin_kept(self@, skip);
        }
        self.pin(skip)?;
        proof {
            let b = self@;
            assert forall|k: int| 0 <= k < b.encoder.users.len() implies a.encoder.users.contains(
                #[trigger] b.encoder.users[k],
            ) || (b.encoder.users[k].label == label && a.encoder.is_unpinned(label)) by {
                let u = b.encoder.users[k];
                assert(a2.encoder.users.contains(u));
                let i = choose|i: int| 0 <= i < a2.encoder.users.len() && a2.encoder.users[i] == u;
                if i < a1.encoder.users.len() {
                    assert(a2.encoder.users[i] == a1.encoder.users[i]);
                    if i < a.encoder.users.len() {
                        assert(a1.encoder.users[i] == a0.encoder.users[i]);
                        assert(a.encoder.users[i] == u);
                    }
                }
            }
        }
        Ok(())
    }

    /// Translates `br_if`.
    pub fn visit_br_if(&mut self, relative_depth: u32) -> (r: Result<(), TranslationError>)
        requires
            old(self).wf(),
            old(self)@.branch_ok(relative_depth, 1),
        ensures
            final(self).translated(old(self), old(self)@.visit_br_if(relative_depth), r),
    {
        if !self.reachable {
            return Ok(());
        }
        proof {
            lemma_base_height(self@);
        }
        let condition = self.stack.pop();
        proof {
            lemma_step_wf(old(self)@, self@);
        }
        let ghost a = self@;
        match condition {
            TypedProvider::Const(c) => {
                if c.is_true_exec() {
                    self.translate_br(relative_depth)
                } else {
                    Ok(())
                }
            },
            TypedProvider::Register(_) => {
                match self.control.acquire_target(relative_depth) {
                    AcquiredTarget::Return => {
                        self.translate_return_if(condition)?;
                        proof {
                            let b = self@;
                            let n = a.control.frames.len() as int;
                            lemma_base_height(a);
                            assert(a.control.frames.take(n) =~= a.control.frames);
                            assert forall|i: int| 0 <= i < n implies then_results_wait(
                                #[trigger] a.control.frames[i],
                                b.height(),
                            ) && may_be_reached(a.control.frames[i]) by {
                                assert(a.frame_wf(i));
                            }
                            assert forall|k: int| 0 <= k < b.encoder.users.len() implies label_owned(
                                b.control.frames,
                                (#[trigger] b.encoder.users[k]).label,
                            ) by {
                                let u = b.encoder.users[k];
                                let j = choose|j: int| 0 <= j < a.encoder.users.len() && a.encoder.users[j] == u;
                                assert(label_owned(a.control.frames, a.encoder.users[j].label));
                            }
                            assert forall|i: int| 0 <= i < n && keeps_else(#[trigger] a.control.frames[i]) implies else_end(
                                a.control.frames[i],
                            ) <= a.control.else_providers.len() by {
                                assert(a.frame_wf(i));
                            }
                            lemma_restack_wf(a, b, n, None);
                        }
                        Ok(())
                    },
                    AcquiredTarget::Branch(i) => {
                        proof {
                            assert(a.frame_wf(i as int));
                            lemma_base_height(a);
                        }
                        self.translate_branch_if(i, condition)?;
                        proof {
                            lemma_bump_wf(a, i as int);
                            let bumped = a.bump_branches(i as int);
                            assert(bumped.control.frames[i as int].branch_destination()
                                == a.control.frames[i as int].branch_destination());
                            lemma_base_height(bumped);
                            lemma_branched_wf(bumped, self@, 0, i as int);
                        }
                        Ok(())
                    },
                }
            },
        }
    }
}

} // verus!
