//! Translation of the structured control operators: `block`, `loop`, `if`,
//! `else` and `end`.

use vstd::prelude::*;
use crate::control::{
    BlockControlFrame,
    BlockHeight,
    BlockType,
    ControlFrame,
    ControlFrameKind,
    IfControlFrame,
    IfReachability,
    LoopControlFrame,
    UnreachableControlFrame,
};
use crate::branches::lemma_encode_branch_kept;
use crate::copies::lemma_encode_copies_kept;
use crate::encoder::{lemma_resolve_users_none, LabelRef};
use crate::error::{TranslationError, TrapCode};
use crate::instr::Instruction;
use crate::register::{RegSpanIter, Register};
use crate::stack::MAX_REGISTERS;
use crate::translator::{
    else_end,
    frames_ordered,
    keeps_else,
    label_owned,
    lemma_base_height,
    lemma_copy_branch_params_kept,
    lemma_label_owner,
    lemma_pin_kept,
    lemma_restack_wf,
    lemma_step_wf,
    lemma_translate_return_kept,
    may_be_reached,
    owns_label,
    then_results_wait,
    FuncTranslator,
    Translated,
    TranslatorView,
};
use crate::value::TypedProvider;

verus! {

impl TranslatorView {
    /// The state with `frame` as the innermost frame.
    pub open spec fn with_frame(self, frame: ControlFrame) -> TranslatorView {
        TranslatorView { control: self.control.push_frame(frame), ..self }
    }

    /// `unreachable`: a trap, after which nothing can be reached.
    pub open spec fn visit_unreachable(self) -> Translated {
        if !self.reachable {
            Ok(self)
        } else {
            self.trap(TrapCode::UnreachableCodeReached)
        }
    }

    /// `drop`: the topmost operand goes.
    pub open spec fn visit_drop(self) -> Translated {
        if !self.reachable {
            Ok(self)
        } else {
            Ok(self.with_stack(self.stack.drop_n(1)))
        }
    }

    /// `block`: a new frame whose end label the branches to it will target
    /// and whose results go to the temporaries above its parameters. The
    /// block shares the fuel instruction of the code around it. No
    /// instruction is emitted and the operands stay as they are. In
    /// unreachable code only the frame is noted.
    pub open spec fn visit_block(self, block_type: BlockType) -> Translated {
        if !self.reachable {
            Ok(
                self.with_frame(
                    ControlFrame::Unreachable(UnreachableControlFrame { kind: ControlFrameKind::Block, block_type }),
                ),
            )
        } else if self.height() - block_type.len_params > u16::MAX {
            Err(TranslationError::EmulatedValueStackOverflow)
        } else {
            let below = (self.height() - block_type.len_params) as nat;
            let (encoder, end_label) = self.encoder.new_label();
            match self.stack.reserve_dynamic_n(below, block_type.len_results as nat) {
                Err(e) => Err(e),
                Ok((stack, branch_params)) => Ok(
                    (TranslatorView { encoder, stack, ..self }).with_frame(
                        ControlFrame::Block(
                            BlockControlFrame {
                                block_type,
                                end_label,
                                branch_params,
                                stack_height: BlockHeight(below as u16),
                                consume_fuel: self.current_fuel(),
                                len_branches: 0,
                            },
                        ),
                    ),
                ),
            }
        }
    }

    /// `loop`: the parameters move to the temporaries of their positions,
    /// where every branch to the head will leave them; the head label is
    /// pinned here, and the loop charges its own fuel, once per iteration.
    pub open spec fn visit_loop(self, block_type: BlockType) -> Translated {
        if !self.reachable {
            Ok(
                self.with_frame(
                    ControlFrame::Unreachable(UnreachableControlFrame { kind: ControlFrameKind::Loop, block_type }),
                ),
            )
        } else {
            let n = block_type.len_params as nat;
            let below = (self.height() - n) as nat;
            let values = self.stack.peek_n(n as int);
            match self.stack.drop_n(n as int).push_dynamic_n(n) {
                Err(e) => Err(e),
                Ok((stack, branch_params)) => match self.encoder.encode_copies(
                    stack,
                    RegSpanIter { next: branch_params.head, last: Register((branch_params.head.0 + n) as i16) },
                    values,
                ) {
                    Err(e) => Err(e),
                    Ok((encoder, stack)) => if below > u16::MAX {
                        Err(TranslationError::EmulatedValueStackOverflow)
                    } else {
                        let (encoder, head_label) = encoder.new_label();
                        match encoder.pin_label(head_label) {
                            Err(e) => Err(e),
                            Ok(encoder) => match (TranslatorView { encoder, stack, ..self }).push_consume_fuel() {
                                Err(e) => Err(e),
                                Ok((t, consume_fuel)) => Ok(
                                    t.with_frame(
                                        ControlFrame::Loop(
                                            LoopControlFrame {
                                                block_type,
                                                head_label,
                                                branch_params,
                                                stack_height: BlockHeight(below as u16),
                                                consume_fuel,
                                                len_branches: 0,
                                            },
                                        ),
                                    ),
                                ),
                            },
                        }
                    },
                },
            }
        }
    }

    /// `if`: a new frame like that of a block. A constant condition
    /// decides which branch can be reached, and the frame shares the fuel
    /// instruction of the code around it. Else the parameters are kept for
    /// the `else` branch, a branch to the `else` label is emitted for a
    /// condition that is zero, and the `then` branch charges its own fuel.
    pub open spec fn visit_if(self, block_type: BlockType) -> Translated {
        if !self.reachable {
            Ok(
                self.with_frame(
                    ControlFrame::Unreachable(UnreachableControlFrame { kind: ControlFrameKind::If, block_type }),
                ),
            )
        } else if self.height() - 1 - block_type.len_params > u16::MAX {
            Err(TranslationError::EmulatedValueStackOverflow)
        } else {
            let condition = self.stack.top();
            let popped = self.stack.drop_n(1);
            let below = (popped.height() - block_type.len_params) as nat;
            let stack_height = BlockHeight(below as u16);
            let (encoder, end_label) = self.encoder.new_label();
            match popped.reserve_dynamic_n(below, block_type.len_results as nat) {
                Err(e) => Err(e),
                Ok((stack, branch_params)) => match condition {
                    TypedProvider::Const(c) => Ok(
                        (TranslatorView { reachable: c.is_true(), encoder, stack, ..self }).with_frame(
                            ControlFrame::If(
                                IfControlFrame {
                                    block_type,
                                    end_label,
                                    branch_params,
                                    stack_height,
                                    consume_fuel: self.current_fuel(),
                                    reachability: if c.is_true() {
                                        IfReachability::OnlyThen
                                    } else {
                                        IfReachability::OnlyElse
                                    },
                                    visited_else: false,
                                    end_of_then_is_reachable: None,
                                    else_start: 0,
                                    len_branches: 0,
                                },
                            ),
                        ),
                    ),
                    TypedProvider::Register(_) => {
                        let else_start = self.control.else_providers.len() as usize;
                        let control = self.control.push_else_providers(stack.peek_n(block_type.len_params as int));
                        let (encoder, else_label) = encoder.new_label();
                        match encoder.encode_branch_if(stack, condition, else_label, true) {
                            Err(e) => Err(e),
                            Ok(encoder) => match (TranslatorView { encoder, stack, control, ..self }).push_consume_fuel() {
                                Err(e) => Err(e),
                                Ok((t, consume_fuel)) => Ok(
                                    t.with_frame(
                                        ControlFrame::If(
                                            IfControlFrame {
                                                block_type,
                                                end_label,
                                                branch_params,
                                                stack_height,
                                                consume_fuel,
                                                reachability: IfReachability::Both { else_label },
                                                visited_else: false,
                                                end_of_then_is_reachable: None,
                                                else_start,
                                                len_branches: 0,
                                            },
                                        ),
                                    ),
                                ),
                            },
                        }
                    },
                },
            }
        }
    }

    /// The state without the innermost frame.
    pub open spec fn without_frame(self) -> TranslatorView {
        TranslatorView { control: self.control.pop_frame(), ..self }
    }

    /// The state after pinning `label`.
    pub open spec fn pin(self, label: LabelRef) -> Translated {
        match self.encoder.pin_label(label) {
            Ok(encoder) => Ok(TranslatorView { encoder, ..self }),
            Err(e) => Err(e),
        }
    }

    /// The state after pinning `label`, unless it is pinned already.
    pub open spec fn pin_if_unpinned(self, label: LabelRef) -> Translated {
        if self.encoder.is_pinned(label) {
            Ok(self)
        } else {
            self.pin(label)
        }
    }

    /// The state after emitting a branch to `label`.
    pub open spec fn branch(self, label: LabelRef) -> Translated {
        match self.encoder.encode_branch(label) {
            Ok(encoder) => Ok(TranslatorView { encoder, ..self }),
            Err(e) => Err(e),
        }
    }

    /// The state in which the operands from the height `height` on are the
    /// `len` temporaries of their positions.
    pub open spec fn push_results(self, height: nat, len: nat) -> TranslatorView {
        self.with_stack(self.stack.trunc(height as int).push_all(self.stack.dynamics(height as int, len)))
    }

    /// The end of a frame that ends like a block, once the frame is off
    /// the control stack; `end_is_reachable` tells whether the code before
    /// the end can be reached. If branches target the end, the results
    /// that fall through are moved to where the branches leave theirs, and
    /// the operands of the block give way to these registers. A block
    /// without a branch to its end leaves the operand stack as it is. What
    /// follows can be reached if the end is reached by falling through or
    /// by a branch.
    pub open spec fn end_block_like(self, frame: ControlFrame, end_is_reachable: bool) -> Translated {
        let branched = frame.is_branched_to();
        let len = frame.len_branch_params() as nat;
        let copied = if end_is_reachable && branched {
            self.copy_branch_params(frame.branch_params(), len)
        } else {
            Ok(self)
        };
        match copied {
            Err(e) => Err(e),
            Ok(t) => match t.pin(frame.branch_destination()) {
                Err(e) => Err(e),
                Ok(t) => {
                    let t = if branched {
                        t.push_results(frame.block_height(), len)
                    } else {
                        t
                    };
                    Ok(TranslatorView { reachable: end_is_reachable || branched, ..t })
                },
            },
        }
    }

    /// The end of an `if` whose branches both could be reached and whose
    /// `else` has been seen, once the frame is off the control stack.
    pub open spec fn end_if_with_else(self, frame: ControlFrame) -> Translated {
        let f = frame->If_0;
        let end_of_then = match f.end_of_then_is_reachable {
            Some(b) => b,
            None => true,
        };
        let end_of_else = self.reachable;
        let reachable = if !end_of_then && !end_of_else {
            frame.is_branched_to()
        } else {
            true
        };
        let len = f.block_type.len_results as nat;
        let copied = if end_of_else {
            self.copy_branch_params(f.branch_params, len)
        } else {
            Ok(self)
        };
        match copied {
            Err(e) => Err(e),
            Ok(t) => match t.pin(f.end_label) {
                Err(e) => Err(e),
                Ok(t) => {
                    let t = if reachable {
                        t.push_results(frame.block_height(), len)
                    } else {
                        t
                    };
                    Ok(TranslatorView { reachable, ..t })
                },
            },
        }
    }

    /// The end of an `if` whose branches both could be reached and that
    /// has no `else`, once the frame is off the control stack: the missing
    /// branch hands the parameters on as the results.
    pub open spec fn end_if_missing_else(self, frame: ControlFrame) -> Translated {
        let f = frame->If_0;
        let len = f.block_type.len_results as nat;
        let height = frame.block_height();
        let then_done = if self.reachable && len >= 1 {
            match self.copy_branch_params(f.branch_params, len) {
                Err(e) => Err(e),
                Ok(t) => t.branch(f.end_label),
            }
        } else {
            Ok(self)
        };
        match then_done {
            Err(e) => Err(e),
            Ok(t) => match t.pin_if_unpinned(f.else_label()->Some_0) {
                Err(e) => Err(e),
                Ok(t) => {
                    let kept = t.control.else_providers_from(f.else_start as int, f.block_type.len_params as int);
                    let t = TranslatorView { control: t.control.pop_else_providers(f.else_start as int), ..t };
                    let else_done = if len >= 1 {
                        t.with_stack(t.stack.trunc(height as int).push_all(kept)).copy_branch_params(
                            f.branch_params,
                            len,
                        )
                    } else {
                        Ok(t)
                    };
                    match else_done {
                        Err(e) => Err(e),
                        Ok(t) => match t.pin(f.end_label) {
                            Err(e) => Err(e),
                            Ok(t) => Ok(TranslatorView { reachable: true, ..t.push_results(height, len) }),
                        },
                    }
                },
            },
        }
    }

    /// The end of an `if`, once the frame is off the control stack. Where
    /// the condition is a constant that is false and there is no `else`,
    /// the end is reached through the `else` branch that is not written.
    pub open spec fn end_if(self, frame: ControlFrame) -> Translated {
        let f = frame->If_0;
        match f.reachability {
            IfReachability::OnlyThen => self.end_block_like(
                frame,
                match f.end_of_then_is_reachable {
                    Some(b) => b,
                    None => self.reachable,
                },
            ),
            IfReachability::OnlyElse => self.end_block_like(frame, !f.visited_else || self.reachable),
            IfReachability::Both { .. } => if f.visited_else {
                self.end_if_with_else(frame)
            } else {
                self.end_if_missing_else(frame)
            },
        }
    }

    /// The end of `frame`, once the frame is off the control stack. The
    /// end of a loop and the end of a block in unreachable code change
    /// nothing else.
    pub open spec fn end_frame(self, frame: ControlFrame) -> Translated {
        match frame {
            ControlFrame::Block(_) => self.end_block_like(frame, self.reachable),
            ControlFrame::If(_) => self.end_if(frame),
            ControlFrame::Loop(_) | ControlFrame::Unreachable(_) => Ok(self),
        }
    }

    /// Whether the translator accepts `end` in this state: where the end
    /// is reached by falling through, the operands above those that the
    /// block began with are its results, no more and no less; and an `if`
    /// without `else` has as many results as parameters.
    pub open spec fn end_ok(self) -> bool {
        if self.control.frames.len() == 0 {
            self.reachable ==> self.len_results <= self.height()
        } else {
            let frame = self.control.frames.last();
            &&& self.reachable ==> self.height() == frame.block_height() + frame.block_type().len_results
            &&& frame is If && !frame->If_0.visited_else && !(frame->If_0.reachability is OnlyThen)
                ==> frame->If_0.block_type.len_params == frame->If_0.block_type.len_results
        }
    }

    /// `end`: the innermost frame ends, or the function if there is no
    /// frame. Nothing is fused across the end of a block.
    pub open spec fn visit_end(self) -> Translated {
        let ended = if self.control.frames.len() == 0 {
            if self.reachable {
                self.translate_return()
            } else {
                Ok(self)
            }
        } else {
            self.without_frame().end_frame(self.control.frames.last())
        };
        match ended {
            Ok(t) => Ok(TranslatorView { encoder: t.encoder.reset_last_instr(), ..t }),
            Err(e) => Err(e),
        }
    }

    /// Whether the translator accepts `else` in this state: the innermost
    /// frame is that of an `if` whose `else` has not been seen, and where
    /// the end of the `then` branch can be reached, the operands above
    /// those that the `if` began with are its results.
    pub open spec fn else_ok(self) -> bool {
        &&& self.control.frames.len() > 0
        &&& match self.control.frames.last() {
            ControlFrame::If(f) => !f.visited_else && (self.reachable ==> self.height() == f.stack_height.0
                + f.block_type.len_results),
            ControlFrame::Unreachable(f) => f.kind is If,
            _ => false,
        }
    }

    /// `else`: the `then` branch of the innermost `if` ends and its `else`
    /// branch begins. Where both branches can be reached, the results of
    /// the `then` branch move to where branches to the end leave theirs,
    /// a branch to the end is emitted, the `else` label is pinned, and the
    /// operands of the `else` branch are the parameters that were kept.
    /// Where the condition was a constant, only the reachability changes.
    pub open spec fn visit_else(self) -> Translated {
        match self.control.frames.last() {
            ControlFrame::If(f) => {
                let t = self.without_frame();
                let end_of_then = if f.is_then_reachable() {
                    Some(self.reachable)
                } else {
                    f.end_of_then_is_reachable
                };
                let f = IfControlFrame { visited_else: true, end_of_then_is_reachable: end_of_then, ..f };
                match f.reachability {
                    IfReachability::OnlyThen => Ok(
                        (TranslatorView { reachable: false, ..t }).with_frame(ControlFrame::If(f)),
                    ),
                    IfReachability::OnlyElse => Ok(
                        (TranslatorView { reachable: true, ..t }).with_frame(ControlFrame::If(f)),
                    ),
                    IfReachability::Both { else_label } => {
                        let len = f.block_type.len_results as nat;
                        let then_done = if self.reachable {
                            match t.copy_branch_params(f.branch_params, len) {
                                Err(e) => Err(e),
                                Ok(t) => match t.branch(f.end_label) {
                                    Err(e) => Err(e),
                                    Ok(t) => Ok((t, crate::control::bumped(f.len_branches))),
                                },
                            }
                        } else {
                            Ok((t, f.len_branches))
                        };
                        match then_done {
                            Err(e) => Err(e),
                            Ok((t, len_branches)) => match (TranslatorView { reachable: true, ..t }).pin(else_label) {
                                Err(e) => Err(e),
                                Ok(t) => match t.push_consume_fuel() {
                                    Err(e) => Err(e),
                                    Ok((t, fuel)) => {
                                        let kept = t.control.else_providers_from(f.else_start as int, f.block_type.len_params as int);
                                        let control = t.control.pop_else_providers(f.else_start as int);
                                        let stack = t.stack.trunc(f.stack_height.0 as int).push_all(kept);
                                        Ok(
                                            (TranslatorView { control, stack, ..t }).with_frame(
                                                ControlFrame::If(
                                                    IfControlFrame {
                                                        len_branches,
                                                        consume_fuel: if fuel is Some {
                                                            fuel
                                                        } else {
                                                            f.consume_fuel
                                                        },
                                                        ..f
                                                    },
                                                ),
                                            ),
                                        )
                                    },
                                },
                            },
                        }
                    },
                }
            },
            _ => Ok(self),
        }
    }
}

/// Entering a block keeps the invariant of the translator: the frames,
/// labels and kept providers that were there stay as they are, the new
/// frame is in order and may stand on top of the others, and every
/// waiting branch targets a label of a frame.
pub proof fn lemma_push_frame_wf(a: TranslatorView, b: TranslatorView, frame: ControlFrame)
    requires
        a.wf(),
        b.stack.wf(),
        b.encoder.wf(),
        b.control.frames == a.control.frames.push(frame),
        a.control.else_providers.len() <= b.control.else_providers.len(),
        forall|j: int|
            0 <= j < a.control.else_providers.len() ==> #[trigger] b.control.else_providers[j]
                == a.control.else_providers[j],
        b.len_results == a.len_results,
        b.fuel == a.fuel,
        b.func_fuel == a.func_fuel,
        b.stack.len_locals == a.stack.len_locals,
        b.stack.max_height >= a.stack.max_height,
        a.encoder.labels.len() <= b.encoder.labels.len(),
        forall|l: int| 0 <= l < a.encoder.labels.len() ==> #[trigger] b.encoder.labels[l] == a.encoder.labels[l],
        b.encoder.instrs.len() >= a.encoder.instrs.len(),
        b.reachable ==> a.reachable,
        a.reachable ==> a.base_height() <= b.height(),
        !a.reachable ==> b.height() == a.height(),
        b.frame_wf(a.control.frames.len() as int),
        forall|i: int| 0 <= i < a.control.frames.len() ==> frames_ordered(#[trigger] a.control.frames[i], frame),
        forall|k: int|
            0 <= k < b.encoder.users.len() ==> label_owned(b.control.frames, (#[trigger] b.encoder.users[k]).label),
        forall|l: int|
            a.encoder.labels.len() <= l < b.encoder.labels.len() ==> (#[trigger] b.encoder.labels[l]) is Pinned
                || owns_label(frame, LabelRef(l as usize)),
    ensures
        b.wf(),
{
    lemma_base_height(a);
    let n = a.control.frames.len() as int;
    assert forall|l: int| 0 <= l < b.encoder.labels.len() implies (#[trigger] b.encoder.labels[l]) is Pinned
        || label_owned(b.control.frames, LabelRef(l as usize)) by {
        if l < a.encoder.labels.len() {
            assert(b.encoder.labels[l] == a.encoder.labels[l]);
            if !(a.encoder.labels[l] is Pinned) {
                lemma_label_owned_push(a.control.frames, frame, LabelRef(l as usize));
            }
        } else {
            if !(b.encoder.labels[l] is Pinned) {
                assert(owns_label(b.control.frames[n], LabelRef(l as usize)));
            }
        }
    }
    assert forall|i: int| 0 <= i < b.control.frames.len() implies #[trigger] b.frame_wf(i) by {
        if i < n {
            assert(a.frame_wf(i));
            assert(b.control.frames[i] == a.control.frames[i]);
        }
    }
    assert forall|i: int, j: int| 0 <= i < j < b.control.frames.len() implies frames_ordered(
        #[trigger] b.control.frames[i],
        #[trigger] b.control.frames[j],
    ) by {
        assert(b.control.frames[i] == a.control.frames[i]);
        if j < n {
            assert(frames_ordered(a.control.frames[i], a.control.frames[j]));
        }
    }
}

/// A label that a frame of the control stack holds is still held when a
/// frame is pushed.
pub proof fn lemma_label_owned_push(frames: Seq<ControlFrame>, frame: ControlFrame, label: LabelRef)
    requires
        label_owned(frames, label) || owns_label(frame, label),
    ensures
        label_owned(frames.push(frame), label),
{
    if label_owned(frames, label) {
        let i = choose|i: int| 0 <= i < frames.len() && #[trigger] owns_label(frames[i], label);
        assert(owns_label(frames.push(frame)[i], label));
    } else {
        assert(owns_label(frames.push(frame)[frames.len() as int], label));
    }
}

impl<'a> FuncTranslator<'a> {
    /// Translates `unreachable`.
    pub fn visit_unreachable(&mut self) -> (r: Result<(), TranslationError>)
        requires
            old(self).wf(),
        ensures
            final(self).translated(old(self), old(self)@.visit_unreachable(), r),
    {
        if !self.reachable {
            return Ok(());
        }
        self.translate_trap(TrapCode::UnreachableCodeReached)
    }

    /// Translates `nop`: nothing changes.
    pub fn visit_nop(&mut self) -> (r: Result<(), TranslationError>)
        requires
            old(self).wf(),
        ensures
            final(self).translated(old(self), Ok(old(self)@), r),
    {
        Ok(())
    }

    /// Translates `drop`.
    pub fn visit_drop(&mut self) -> (r: Result<(), TranslationError>)
        requires
            old(self).wf(),
            old(self)@.operands_ok(1),
        ensures
            final(self).translated(old(self), old(self)@.visit_drop(), r),
    {
        if !self.reachable {
            return Ok(());
        }
        self.stack.pop();
        proof {
            lemma_step_wf(old(self)@, self@);
        }
        Ok(())
    }

    /// Translates `block`.
    pub fn visit_block(&mut self, block_type: BlockType) -> (r: Result<(), TranslationError>)
        requires
            old(self).wf(),
            old(self)@.operands_ok(block_type.len_params as nat),
        ensures
            final(self).translated(old(self), old(self)@.visit_block(block_type), r),
    {
        proof {
            lemma_base_height(self@);
        }
        if !self.reachable {
            let frame = ControlFrame::Unreachable(
                UnreachableControlFrame { kind: ControlFrameKind::Block, block_type },
            );
            self.control.push_frame(frame);
            proof {
                let a = old(self)@;
                assert forall|k: int| 0 <= k < self@.encoder.users.len() implies label_owned(
                    self@.control.frames,
                    (#[trigger] self@.encoder.users[k]).label,
                ) by {
                    lemma_label_owned_push(a.control.frames, frame, a.encoder.users[k].label);
                }
                lemma_push_frame_wf(a, self@, frame);
            }
            return Ok(());
        }
        let consume_fuel = self.current_fuel();
        let height = self.stack.height();
        let stack_height = BlockHeight::new(height, block_type.len_params)?;
        let end_label = self.encoder.new_label();
        let branch_params = self.stack.reserve_dynamic_n(
            height - block_type.len_params as usize,
            block_type.len_results as usize,
        )?;
        let frame = ControlFrame::Block(
            BlockControlFrame { block_type, end_label, branch_params, stack_height, consume_fuel, len_branches: 0 },
        );
        self.control.push_frame(frame);
        proof {
            let a = old(self)@;
            let n = a.control.frames.len() as int;
            if n > 0 {
                assert(a.frame_wf(n - 1));
            }
            assert forall|i: int| 0 <= i < n implies frames_ordered(#[trigger] a.control.frames[i], frame) by {
                assert(a.frame_wf(i));
                let f = a.control.frames[i];
                assert(!(f is Unreachable));
                assert(f.block_height() <= a.base_height());
                assert(frame.block_height() == a.height() - block_type.len_params);
            }
            assert forall|k: int| 0 <= k < self@.encoder.users.len() implies label_owned(
                self@.control.frames,
                (#[trigger] self@.encoder.users[k]).label,
            ) by {
                lemma_label_owned_push(a.control.frames, frame, a.encoder.users[k].label);
            }
            lemma_push_frame_wf(a, self@, frame);
        }
        Ok(())
    }

    /// Translates `loop`.
    pub fn visit_loop(&mut self, block_type: BlockType) -> (r: Result<(), TranslationError>)
        requires
            old(self).wf(),
            old(self)@.operands_ok(block_type.len_params as nat),
        ensures
            final(self).translated(old(self), old(self)@.visit_loop(block_type), r),
    {
        proof {
            lemma_base_height(self@);
        }
        if !self.reachable {
            let frame = ControlFrame::Unreachable(
                UnreachableControlFrame { kind: ControlFrameKind::Loop, block_type },
            );
            self.control.push_frame(frame);
            proof {
                let a = old(self)@;
                assert forall|k: int| 0 <= k < self@.encoder.users.len() implies label_owned(
                    self@.control.frames,
                    (#[trigger] self@.encoder.users[k]).label,
                ) by {
                    lemma_label_owned_push(a.control.frames, frame, a.encoder.users[k].label);
                }
                lemma_push_frame_wf(a, self@, frame);
            }
            return Ok(());
        }
        let n = block_type.len_params as usize;
        let ghost a = old(self)@;
        self.stack.pop_n(n, &mut self.buffer);
        let branch_params = self.stack.push_dynamic_n(n)?;
        let results = branch_params.iter(n);
        proof {
            lemma_encode_copies_kept(self@.encoder, self@.stack, results, self.buffer@);
        }
        self.encoder.encode_copies(&mut self.stack, results, &self.buffer)?;
        let stack_height = BlockHeight::new(self.stack.height(), block_type.len_params)?;
        let head_label = self.encoder.new_label();
        proof {
            let enc = self@.encoder;
            lemma_resolve_users_none(enc.instrs, enc.users, head_label, enc.instrs.len() as int);
        }
        self.encoder.pin_label(head_label)?;
        let consume_fuel = match self.fuel {
            Some(costs) => Some(self.encoder.push_instr(Instruction::ConsumeFuel { amount: costs.base })?),
            None => None,
        };
        let frame = ControlFrame::Loop(
            LoopControlFrame { block_type, head_label, branch_params, stack_height, consume_fuel, len_branches: 0 },
        );
        self.control.push_frame(frame);
        proof {
            let k = a.control.frames.len() as int;
            assert forall|i: int| 0 <= i < k implies frames_ordered(#[trigger] a.control.frames[i], frame) by {
                assert(a.frame_wf(i));
            }
            assert forall|u: int| 0 <= u < self@.encoder.users.len() implies label_owned(
                self@.control.frames,
                (#[trigger] self@.encoder.users[u]).label,
            ) by {
                assert(self@.encoder.users[u] == a.encoder.users[u]);
                lemma_label_owned_push(a.control.frames, frame, a.encoder.users[u].label);
            }
            lemma_push_frame_wf(a, self@, frame);
        }
        Ok(())
    }

    /// Translates `if`.
    pub fn visit_if(&mut self, block_type: BlockType) -> (r: Result<(), TranslationError>)
        requires
            old(self).wf(),
            old(self)@.operands_ok(1 + block_type.len_params as nat),
        ensures
            final(self).translated(old(self), old(self)@.visit_if(block_type), r),
    {
        proof {
            lemma_base_height(self@);
        }
        let ghost a = old(self)@;
        if !self.reachable {
            let frame = ControlFrame::Unreachable(UnreachableControlFrame { kind: ControlFrameKind::If, block_type });
            self.control.push_frame(frame);
            proof {
                assert forall|k: int| 0 <= k < self@.encoder.users.len() implies label_owned(
                    self@.control.frames,
                    (#[trigger] self@.encoder.users[k]).label,
                ) by {
                    lemma_label_owned_push(a.control.frames, frame, a.encoder.users[k].label);
                }
                lemma_push_frame_wf(a, self@, frame);
            }
            return Ok(());
        }
        let parent_fuel = self.current_fuel();
        proof {
            let k = a.control.frames.len() as int;
            if k > 0 {
                assert(a.frame_wf(k - 1));
            }
        }
        let condition = self.stack.pop();
        let height = self.stack.height();
        let stack_height = BlockHeight::new(height, block_type.len_params)?;
        let end_label = self.encoder.new_label();
        let below = height - block_type.len_params as usize;
        let branch_params = self.stack.reserve_dynamic_n(below, block_type.len_results as usize)?;
        let frame = match condition {
            TypedProvider::Const(c) => {
                let then_reachable = c.is_true_exec();
                self.reachable = then_reachable;
                ControlFrame::If(
                    IfControlFrame {
                        block_type,
                        end_label,
                        branch_params,
                        stack_height,
                        consume_fuel: parent_fuel,
                        reachability: if then_reachable {
                            IfReachability::OnlyThen
                        } else {
                            IfReachability::OnlyElse
                        },
                        visited_else: false,
                        end_of_then_is_reachable: None,
                        else_start: 0,
                        len_branches: 0,
                    },
                )
            },
            TypedProvider::Register(_) => {
                self.stack.peek_n(block_type.len_params as usize, &mut self.buffer);
                let else_start = self.control.push_else_providers(&self.buffer);
                let else_label = self.encoder.new_label();
                self.encoder.encode_branch_eqz(&self.stack, condition, else_label)?;
                let consume_fuel = match self.fuel {
                    Some(costs) => Some(self.encoder.push_instr(Instruction::ConsumeFuel { amount: costs.base })?),
                    None => None,
                };
                ControlFrame::If(
                    IfControlFrame {
                        block_type,
                        end_label,
                        branch_params,
                        stack_height,
                        consume_fuel,
                        reachability: IfReachability::Both { else_label },
                        visited_else: false,
                        end_of_then_is_reachable: None,
                        else_start,
                        len_branches: 0,
                    },
                )
            },
        };
        self.control.push_frame(frame);
        proof {
            let b = self@;
            let k = a.control.frames.len() as int;
            assert forall|i: int| 0 <= i < k implies frames_ordered(#[trigger] a.control.frames[i], frame) by {
                assert(a.frame_wf(i));
            }
            lemma_if_users_owned(a, b, frame, condition);
            if condition is Register {
                let f = frame->If_0;
                let kept = b.stack.peek_n(block_type.len_params as int);
                assert forall|j: int|
                    f.else_start <= j < f.else_start + block_type.len_params implies b.stack.in_place(
                    #[trigger] b.control.else_providers[j],
                    f.stack_height.0 + (j - f.else_start),
                ) by {
                    assert(b.control.else_providers[j] == kept[j - f.else_start]);
                    assert(kept[j - f.else_start] == b.stack.providers[below + (j - f.else_start)]);
                }
            }
            lemma_push_frame_wf(a, b, frame);
        }
        Ok(())
    }
}

/// After an `if`, every waiting branch targets a label of a frame: those
/// that waited before still do, and the branch to the `else` label
/// targets a label of the new frame.
proof fn lemma_if_users_owned(a: TranslatorView, b: TranslatorView, frame: ControlFrame, condition: TypedProvider)
    requires
        a.wf(),
        a.reachable,
        b.control.frames == a.control.frames.push(frame),
        frame is If,
        condition is Const ==> b.encoder.users == a.encoder.users,
        condition is Register ==> frame->If_0.keeps_else_providers() && ({
            let (e1, _) = a.encoder.new_label();
            let (e2, else_label) = e1.new_label();
            &&& frame->If_0.else_label() == Some(else_label)
            &&& exists|stack: crate::stack::ValueStackView, enc: crate::encoder::EncoderView|
                e2.encode_branch_if(stack, condition, else_label, true) == Ok::<
                    crate::encoder::EncoderView,
                    TranslationError,
                >(enc) && b.encoder.users == enc.users
        }),
    ensures
        forall|k: int|
            0 <= k < b.encoder.users.len() ==> label_owned(b.control.frames, (#[trigger] b.encoder.users[k]).label),
{
    assert forall|k: int| 0 <= k < b.encoder.users.len() implies label_owned(
        b.control.frames,
        (#[trigger] b.encoder.users[k]).label,
    ) by {
        if k < a.encoder.users.len() {
            assert(b.encoder.users[k] == a.encoder.users[k]);
            lemma_label_owned_push(a.control.frames, frame, a.encoder.users[k].label);
        } else {
            lemma_label_owned_push(a.control.frames, frame, b.encoder.users[k].label);
        }
    }
}

/// Whether the state `b` is what ending `frame` may make of the state `a`,
/// in which the frame is off the control stack already: the parts of the
/// translator are in order; only labels of the frame have been pinned; the
/// branches that wait have waited before, and none of them for a label of
/// the frame; the providers that the frame kept are dropped; and the
/// operand stack is no lower than where the block began.
pub open spec fn frame_closed(b: TranslatorView, a: TranslatorView, frame: ControlFrame) -> bool {
    &&& b.stack.wf()
    &&& b.encoder.wf()
    &&& b.control.frames == a.control.frames
    &&& b.control.else_providers == if keeps_else(frame) {
        a.control.else_providers.take(frame->If_0.else_start as int)
    } else {
        a.control.else_providers
    }
    &&& b.len_results == a.len_results
    &&& b.fuel == a.fuel
    &&& b.func_fuel == a.func_fuel
    &&& b.stack.len_locals == a.stack.len_locals
    &&& b.stack.max_height >= a.stack.max_height
    &&& b.encoder.labels.len() == a.encoder.labels.len()
    &&& forall|l: int|
        0 <= l < a.encoder.labels.len() ==> #[trigger] b.encoder.labels[l] == a.encoder.labels[l] || (
        a.encoder.labels[l] is Unpinned && owns_label(frame, LabelRef(l as usize)))
    &&& forall|l: int|
        0 <= l < b.encoder.labels.len() && owns_label(frame, LabelRef(l as usize)) ==> (
        #[trigger] b.encoder.labels[l]) is Pinned
    &&& b.encoder.instrs.len() >= a.encoder.instrs.len()
    &&& forall|k: int|
        0 <= k < b.encoder.users.len() ==> a.encoder.users.contains(#[trigger] b.encoder.users[k]) && !owns_label(
            frame,
            b.encoder.users[k].label,
        )
    &&& frame.block_height() <= b.height()
}

/// Ending the innermost frame keeps the invariant of the translator.
pub proof fn lemma_close_frame_wf(a: TranslatorView, b: TranslatorView)
    requires
        a.wf(),
        a.control.frames.len() > 0,
        !(a.control.frames.last() is Unreachable),
        frame_closed(b, a.without_frame(), a.control.frames.last()),
    ensures
        b.wf(),
{
    let frames = a.control.frames;
    let n = frames.len() as int;
    let top = frames.last();
    let below = frames.drop_last();
    assert(below =~= frames.take(n - 1));
    assert(a.frame_wf(n - 1));
    assert forall|i: int| 0 <= i < n - 1 implies may_be_reached(#[trigger] frames[i]) && frames[i].block_height()
        <= b.height() && then_results_wait(frames[i], b.height()) by {
        assert(frames_ordered(frames[i], frames[n - 1]));
    }
    assert forall|l: int| 0 <= l < a.encoder.labels.len() implies #[trigger] b.encoder.labels[l]
        == a.encoder.labels[l] || (a.encoder.labels[l] is Unpinned && !label_owned(
        frames.take(n - 1),
        LabelRef(l as usize),
    )) by {
        lemma_label_owner(a, LabelRef(l as usize));
    }
    assert forall|k: int| 0 <= k < b.encoder.users.len() implies label_owned(
        b.control.frames,
        (#[trigger] b.encoder.users[k]).label,
    ) by {
        let u = b.encoder.users[k];
        assert(a.encoder.users.contains(u));
        let j = choose|j: int| 0 <= j < a.encoder.users.len() && a.encoder.users[j] == u;
        assert(label_owned(frames, a.encoder.users[j].label));
        lemma_label_owner(a, u.label);
    }
    assert forall|i: int| 0 <= i < n - 1 && keeps_else(#[trigger] frames[i]) implies else_end(frames[i])
        <= b.control.else_providers.len() && else_end(frames[i]) <= a.control.else_providers.len() by {
        assert(a.frame_wf(i));
        assert(frames_ordered(frames[i], frames[n - 1]));
    }
    assert forall|i: int, j: int|
        0 <= i < n - 1 && keeps_else(#[trigger] frames[i]) && 0 <= j < else_end(
            frames[i],
        ) implies #[trigger] b.control.else_providers[j] == a.control.else_providers[j] by {
        assert(a.frame_wf(i));
        assert(frames_ordered(frames[i], frames[n - 1]));
    }
    assert forall|l: int| 0 <= l < b.encoder.labels.len() implies (#[trigger] b.encoder.labels[l]) is Pinned
        || label_owned(b.control.frames, LabelRef(l as usize)) by {
        let label = LabelRef(l as usize);
        if !(b.encoder.labels[l] is Pinned) {
            assert(!owns_label(top, label));
            assert(b.encoder.labels[l] == a.encoder.labels[l]);
            let i = choose|i: int| 0 <= i < n && #[trigger] owns_label(frames[i], label);
            assert(i < n - 1);
            assert(owns_label(below[i], label));
        }
    }
    lemma_restack_wf(a, b, n - 1, None);
}

impl<'a> FuncTranslator<'a> {
    /// Ends a frame like a block, once the frame is off the control stack.
    fn translate_end_block_like(&mut self, frame: ControlFrame, end_is_reachable: bool) -> (r: Result<
        (),
        TranslationError,
    >)
        requires
            old(self).parts_wf(),
            frame is Block || (frame is If && !keeps_else(frame)),
            old(self)@.encoder.is_unpinned(frame.branch_destination()),
            frame.branch_params().head == old(self)@.stack.dynamic(frame.block_height() as int),
            old(self)@.len_locals() + frame.block_height() + frame.len_branch_params() <= MAX_REGISTERS,
            old(self)@.len_locals() + frame.block_height() < MAX_REGISTERS,
            frame.block_height() <= old(self)@.height(),
            end_is_reachable && frame.is_branched_to() ==> frame.block_height() + frame.len_branch_params() <= old(
                self,
            )@.height(),
        ensures
            final(self).advanced(old(self), old(self)@.end_block_like(frame, end_is_reachable), r),
            r is Ok ==> frame_closed(final(self)@, old(self)@, frame),
    {
        let branched = frame.is_branched_to_exec();
        let len = frame.len_branch_params_exec() as usize;
        let label = frame.branch_destination_exec();
        if end_is_reachable && branched {
            proof {
                lemma_copy_branch_params_kept(self@, frame.branch_params(), len as nat);
            }
            self.translate_copy_branch_params(frame.branch_params_exec(), len)?;
        }
        proof {
            lemma_pin_kept(self@, label);
        }
        self.pin(label)?;
        if branched {
            self.push_results(frame.block_height_exec(), len);
        }
        self.reachable = end_is_reachable || branched;
        Ok(())
    }

    /// Ends an `if` whose branches both could be reached and whose `else`
    /// has been seen, once the frame is off the control stack.
    fn translate_end_if_with_else(&mut self, frame: ControlFrame) -> (r: Result<(), TranslationError>)
        requires
            old(self).parts_wf(),
            frame is If,
            !keeps_else(frame),
            old(self)@.encoder.is_unpinned(frame.branch_destination()),
            frame.branch_params().head == old(self)@.stack.dynamic(frame.block_height() as int),
            old(self)@.len_locals() + frame.block_height() + frame.len_branch_params() <= MAX_REGISTERS,
            old(self)@.len_locals() + frame.block_height() < MAX_REGISTERS,
            frame.block_height() <= old(self)@.height(),
            old(self)@.reachable ==> frame.block_height() + frame.len_branch_params() <= old(self)@.height(),
        ensures
            final(self).advanced(old(self), old(self)@.end_if_with_else(frame), r),
            r is Ok ==> frame_closed(final(self)@, old(self)@, frame),
    {
        let f = match frame {
            ControlFrame::If(f) => f,
            _ => {
                return Ok(());
            },
        };
        let end_of_then = match f.end_of_then_is_reachable {
            Some(b) => b,
            None => true,
        };
        let end_of_else = self.reachable;
        let reachable = if !end_of_then && !end_of_else {
            frame.is_branched_to_exec()
        } else {
            true
        };
        let len = f.block_type.len_results as usize;
        if end_of_else {
            proof {
                lemma_copy_branch_params_kept(self@, f.branch_params, len as nat);
            }
            self.translate_copy_branch_params(f.branch_params, len)?;
        }
        proof {
            lemma_pin_kept(self@, f.end_label);
        }
        self.pin(f.end_label)?;
        if reachable {
            self.push_results(f.stack_height.0 as usize, len);
        }
        self.reachable = reachable;
        Ok(())
    }

    /// Ends an `if` whose branches both could be reached and that has no
    /// `else`, once the frame is off the control stack.
    fn translate_end_if_missing_else(&mut self, frame: ControlFrame) -> (r: Result<(), TranslationError>)
        requires
            old(self).parts_wf(),
            keeps_else(frame),
            frame->If_0.block_type.len_params == frame->If_0.block_type.len_results,
            old(self)@.encoder.is_unpinned(frame->If_0.end_label),
            old(self)@.encoder.is_unpinned(frame->If_0.else_label()->Some_0),
            frame->If_0.else_label()->Some_0 != frame->If_0.end_label,
            frame.branch_params().head == old(self)@.stack.dynamic(frame.block_height() as int),
            old(self)@.len_locals() + frame.block_height() + frame.len_branch_params() <= MAX_REGISTERS,
            old(self)@.len_locals() + frame.block_height() < MAX_REGISTERS,
            frame.block_height() + frame->If_0.block_type.len_params <= old(self)@.stack.max_height,
            frame.block_height() <= old(self)@.height(),
            old(self)@.reachable ==> frame.block_height() + frame.len_branch_params() <= old(self)@.height(),
            else_end(frame) <= old(self)@.control.else_providers.len(),
            old(self)@.kept_in_place(
                frame->If_0.else_start as int,
                frame->If_0.block_type.len_params as int,
                frame.block_height() as int,
            ),
        ensures
            final(self).advanced(old(self), old(self)@.end_if_missing_else(frame), r),
            r is Ok ==> frame_closed(final(self)@, old(self)@, frame),
    {
        let f = match frame {
            ControlFrame::If(f) => f,
            _ => {
                return Ok(());
            },
        };
        let else_label = match f.reachability {
            IfReachability::Both { else_label } => else_label,
            _ => {
                return Ok(());
            },
        };
        let ghost a = self@;
        let len = f.block_type.len_results as usize;
        let height = f.stack_height.0 as usize;
        if self.reachable && len >= 1 {
            proof {
                lemma_copy_branch_params_kept(self@, f.branch_params, len as nat);
            }
            self.translate_copy_branch_params(f.branch_params, len)?;
            proof {
                lemma_encode_branch_kept(self@.encoder, f.end_label);
            }
            self.branch(f.end_label)?;
        }
        let ghost a1 = self@;
        proof {
            lemma_pin_kept(self@, else_label);
        }
        self.pin(else_label)?;
        let ghost a2 = self@;
        self.control.pop_else_providers(f.else_start, f.block_type.len_params as usize, &mut self.buffer);
        if len >= 1 {
            self.stack.trunc(height);
            proof {
                let kept = self.buffer@;
                assert forall|i: int| 0 <= i < kept.len() implies self@.stack.in_place(
                    #[trigger] kept[i],
                    self@.stack.height() + i,
                ) by {
                    assert(kept[i] == a.control.else_providers[f.else_start + i]);
                    assert(a.stack.in_place(a.control.else_providers[f.else_start + i], height + i));
                }
            }
            self.stack.push_n(&self.buffer);
            proof {
                lemma_copy_branch_params_kept(self@, f.branch_params, len as nat);
            }
            self.translate_copy_branch_params(f.branch_params, len)?;
        }
        let ghost a3 = self@;
        proof {
            lemma_pin_kept(self@, f.end_label);
        }
        self.pin(f.end_label)?;
        self.push_results(height, len);
        self.reachable = true;
        proof {
            let b = self@;
            assert forall|k: int| 0 <= k < b.encoder.users.len() implies a.encoder.users.contains(
                #[trigger] b.encoder.users[k],
            ) && !owns_label(frame, b.encoder.users[k].label) by {
                let u = b.encoder.users[k];
                assert(a3.encoder.users.contains(u));
                assert(a3.encoder.users == a2.encoder.users);
                let j = choose|j: int| 0 <= j < a2.encoder.users.len() && a2.encoder.users[j] == u;
                assert(a2.encoder.users[j].label != else_label);
                assert(a1.encoder.users.contains(a2.encoder.users[j]));
                let i = choose|i: int| 0 <= i < a1.encoder.users.len() && a1.encoder.users[i] == u;
                if i < a.encoder.users.len() && a1.encoder.users[i] == a.encoder.users[i] {
                } else {
                    assert(a1.encoder.users[i].label == f.end_label);
                }
            }
        }
        Ok(())
    }

    /// Ends `frame`, which is off the control stack and is not a frame of
    /// unreachable code.
    fn translate_end_frame(&mut self, frame: ControlFrame, Ghost(a): Ghost<TranslatorView>) -> (r: Result<
        (),
        TranslationError,
    >)
        requires
            old(self).parts_wf(),
            a.wf(),
            a.end_ok(),
            a.control.frames.len() > 0,
            frame == a.control.frames.last(),
            !(frame is Unreachable),
            old(self)@ == a.without_frame(),
        ensures
            final(self).advanced(old(self), old(self)@.end_frame(frame), r),
            r is Ok ==> frame_closed(final(self)@, old(self)@, frame),
    {
        proof {
            let n = a.control.frames.len() as int;
            assert(a.frame_wf(n - 1));
        }
        match frame {
            ControlFrame::Block(_) => {
                let reachable = self.reachable;
                self.translate_end_block_like(frame, reachable)
            },
            ControlFrame::If(f) => {
                match f.reachability {
                    IfReachability::OnlyThen => {
                        let end_is_reachable = match f.end_of_then_is_reachable {
                            Some(b) => b,
                            None => self.reachable,
                        };
                        self.translate_end_block_like(frame, end_is_reachable)
                    },
                    IfReachability::OnlyElse => {
                        let reachable = !f.visited_else || self.reachable;
                        self.translate_end_block_like(frame, reachable)
                    },
                    IfReachability::Both { .. } => {
                        if f.visited_else {
                            self.translate_end_if_with_else(frame)
                        } else {
                            self.translate_end_if_missing_else(frame)
                        }
                    },
                }
            },
            _ => Ok(()),
        }
    }

    /// Whether the translator accepts `end` in this state.
    pub fn accepts_end(&self) -> (r: bool)
        ensures
            r == self@.end_ok(),
    {
        let h = self.stack.height();
        if self.control.is_empty() {
            return !self.reachable || self.len_results as usize <= h;
        }
        let frame = self.control.last();
        let block_type = frame.block_type_exec();
        let base = frame.block_height_exec();
        if self.reachable && (base > h || h - base != block_type.len_results as usize) {
            return false;
        }
        match frame {
            ControlFrame::If(f) => match f.reachability {
                IfReachability::OnlyThen => true,
                _ => f.visited_else || block_type.len_params == block_type.len_results,
            },
            _ => true,
        }
    }

    /// Whether the translator accepts `else` in this state.
    pub fn accepts_else(&self) -> (r: bool)
        ensures
            r == self@.else_ok(),
    {
        if self.control.is_empty() {
            return false;
        }
        let h = self.stack.height();
        match self.control.last() {
            ControlFrame::If(f) => {
                let base = f.stack_height.0 as usize;
                !f.visited_else && (!self.reachable || (base <= h && h - base == f.block_type.len_results as usize))
            },
            ControlFrame::Unreachable(f) => match f.kind {
                ControlFrameKind::If => true,
                _ => false,
            },
            _ => false,
        }
    }

    /// Translates `else`.
    pub fn visit_else(&mut self) -> (r: Result<(), TranslationError>)
        requires
            old(self).wf(),
            old(self)@.else_ok(),
        ensures
            final(self).translated(old(self), old(self)@.visit_else(), r),
    {
        let ghost a = old(self)@;
        let ghost n = a.control.frames.len() as int;
        proof {
            assert(a.frame_wf(n - 1));
            assert(a.control.frames.drop_last() =~= a.control.frames.take(n - 1));
        }
        let f = match self.control.last() {
            ControlFrame::If(f) => f,
            _ => {
                return Ok(());
            },
        };
        self.control.pop_frame();
        let end_of_then = if !matches!(f.reachability, IfReachability::OnlyElse) {
            Some(self.reachable)
        } else {
            f.end_of_then_is_reachable
        };
        let mut frame = IfControlFrame { visited_else: true, end_of_then_is_reachable: end_of_then, ..f };
        match f.reachability {
            IfReachability::OnlyThen => {
                self.reachable = false;
            },
            IfReachability::OnlyElse => {
                self.reachable = true;
            },
            IfReachability::Both { else_label } => {
                let len = f.block_type.len_results as usize;
                if self.reachable {
                    proof {
                        lemma_copy_branch_params_kept(self@, f.branch_params, len as nat);
                    }
                    self.translate_copy_branch_params(f.branch_params, len)?;
                    proof {
                        lemma_encode_branch_kept(self@.encoder, f.end_label);
                    }
                    self.branch(f.end_label)?;
                    frame.len_branches = if f.len_branches < usize::MAX {
                        f.len_branches + 1
                    } else {
                        f.len_branches
                    };
                }
                self.reachable = true;
                let ghost a1 = self@;
                proof {
                    lemma_pin_kept(self@, else_label);
                }
                self.pin(else_label)?;
                let ghost a2 = self@;
                match self.fuel {
                    Some(costs) => {
                        let at = self.encoder.push_instr(Instruction::ConsumeFuel { amount: costs.base })?;
                        frame.consume_fuel = Some(at);
                    },
                    None => {},
                }
                self.control.pop_else_providers(f.else_start, f.block_type.len_params as usize, &mut self.buffer);
                self.stack.trunc(f.stack_height.0 as usize);
                proof {
                    let kept = self.buffer@;
                    assert forall|i: int| 0 <= i < kept.len() implies self@.stack.in_place(
                        #[trigger] kept[i],
                        self@.stack.height() + i,
                    ) by {
                        assert(kept[i] == a.control.else_providers[f.else_start + i]);
                        assert(a.stack.in_place(a.control.else_providers[f.else_start + i], f.stack_height.0 + i));
                    }
                }
                self.stack.push_n(&self.buffer);
                proof {
                    let b = self@;
                    assert forall|k: int| 0 <= k < b.encoder.users.len() implies (#[trigger] b.encoder.users[k]).label
                        == f.end_label || (a.encoder.users.contains(b.encoder.users[k]) && b.encoder.users[k].label
                        != else_label) by {
                        let u = b.encoder.users[k];
                        assert(a2.encoder.users.contains(u));
                        let i = choose|i: int| 0 <= i < a1.encoder.users.len() && a1.encoder.users[i] == u;
                        if i < a.encoder.users.len() && a1.encoder.users[i] == a.encoder.users[i] {
                        } else {
                            assert(a1.encoder.users[i].label == f.end_label);
                        }
                    }
                }
            },
        }
        let frame = ControlFrame::If(frame);
        self.control.push_frame(frame);
        proof {
            lemma_else_wf(a, self@, frame);
        }
        Ok(())
    }

    /// Translates `end`.
    pub fn visit_end(&mut self) -> (r: Result<(), TranslationError>)
        requires
            old(self).wf(),
            old(self)@.end_ok(),
        ensures
            final(self).translated(old(self), old(self)@.visit_end(), r),
    {
        let ghost a = old(self)@;
        if self.control.is_empty() {
            if self.reachable {
                proof {
                    lemma_translate_return_kept(self@);
                }
                self.translate_return()?;
            }
            self.encoder.reset_last_instr();
            proof {
                assert(a.control.frames.take(0) =~= a.control.frames);
                lemma_restack_wf(a, self@, 0, None);
            }
            return Ok(());
        }
        let frame = self.control.pop_frame();
        match frame {
            ControlFrame::Unreachable(_) => {
                self.encoder.reset_last_instr();
                proof {
                    lemma_end_unreachable_wf(a, self@);
                }
            },
            _ => {
                self.translate_end_frame(frame, Ghost(a))?;
                self.encoder.reset_last_instr();
                proof {
                    lemma_close_frame_wf(a, self@);
                }
            },
        }
        Ok(())
    }
}

/// The end of a block in unreachable code keeps the invariant of the
/// translator.
proof fn lemma_end_unreachable_wf(a: TranslatorView, b: TranslatorView)
    requires
        a.wf(),
        a.control.frames.len() > 0,
        a.control.frames.last() is Unreachable,
        b == (TranslatorView { encoder: a.encoder.reset_last_instr(), ..a.without_frame() }),
    ensures
        b.wf(),
{
    let n = a.control.frames.len() as int;
    assert(a.frame_wf(n - 1));
    assert(a.control.frames.drop_last() =~= a.control.frames.take(n - 1));
    assert forall|i: int| 0 <= i < n - 1 implies then_results_wait(#[trigger] a.control.frames[i], b.height())
        && a.control.frames[i].block_height() <= b.height() by {
        assert(a.frame_wf(i));
    }
    assert forall|k: int| 0 <= k < b.encoder.users.len() implies label_owned(
        b.control.frames,
        (#[trigger] b.encoder.users[k]).label,
    ) by {
        lemma_label_owner(a, a.encoder.users[k].label);
    }
    assert forall|i: int| 0 <= i < n - 1 && keeps_else(#[trigger] a.control.frames[i]) implies else_end(
        a.control.frames[i],
    ) <= a.control.else_providers.len() by {
        assert(a.frame_wf(i));
    }
    assert forall|l: int| 0 <= l < b.encoder.labels.len() implies (#[trigger] b.encoder.labels[l]) is Pinned
        || label_owned(b.control.frames, LabelRef(l as usize)) by {
        if !(a.encoder.labels[l] is Pinned) {
            lemma_label_owner(a, LabelRef(l as usize));
        }
    }
    lemma_restack_wf(a, b, n - 1, None);
}

/// An `else` keeps the invariant of the translator: the frame of the `if`
/// gives way to the frame `frame`, which holds the end label only; the
/// `else` label, at most, has been pinned, the providers kept for the
/// `else` branch are dropped, and every branch that waits does so for the
/// end label or has waited before for another label than the `else` label.
proof fn lemma_else_wf(a: TranslatorView, b: TranslatorView, frame: ControlFrame)
    requires
        a.wf(),
        a.else_ok(),
        a.control.frames.last() is If,
        b.stack.wf(),
        b.encoder.wf(),
        b.control.frames == a.control.frames.drop_last().push(frame),
        frame is If,
        frame->If_0.visited_else,
        ({
            let f = a.control.frames.last()->If_0;
            let g = frame->If_0;
            &&& g.block_type == f.block_type
            &&& g.end_label == f.end_label
            &&& g.branch_params == f.branch_params
            &&& g.stack_height == f.stack_height
            &&& g.reachability == f.reachability
            &&& g.consume_fuel matches Some(at) ==> at.0 < b.encoder.instrs.len()
            &&& b.control.else_providers == if f.keeps_else_providers() {
                a.control.else_providers.take(f.else_start as int)
            } else {
                a.control.else_providers
            }
            &&& forall|l: int|
                0 <= l < a.encoder.labels.len() ==> #[trigger] b.encoder.labels[l] == a.encoder.labels[l] || (
                a.encoder.labels[l] is Unpinned && f.else_label() == Some(LabelRef(l as usize)))
            &&& f.else_label() matches Some(l) ==> b.encoder.labels[l.0 as int] is Pinned
            &&& forall|k: int|
                0 <= k < b.encoder.users.len() ==> (#[trigger] b.encoder.users[k]).label == f.end_label || (
                a.encoder.users.contains(b.encoder.users[k]) && Some(b.encoder.users[k].label) != f.else_label())
            &&& f.stack_height.0 <= b.height()
            &&& b.reachable == !(f.reachability is OnlyThen)
            &&& f.reachability is OnlyThen ==> (g.end_of_then_is_reachable == Some(true) ==> f.stack_height.0
                + f.block_type.len_results == b.height())
        }),
        b.len_results == a.len_results,
        b.fuel == a.fuel,
        b.func_fuel == a.func_fuel,
        b.stack.len_locals == a.stack.len_locals,
        b.stack.max_height >= a.stack.max_height,
        b.encoder.labels.len() == a.encoder.labels.len(),
        b.encoder.instrs.len() >= a.encoder.instrs.len(),
    ensures
        b.wf(),
{
    let frames = a.control.frames;
    let n = frames.len() as int;
    let top = frames.last();
    let f = top->If_0;
    let below = frames.drop_last();
    assert(below =~= frames.take(n - 1));
    assert(a.frame_wf(n - 1));
    assert forall|i: int| 0 <= i < n - 1 implies may_be_reached(#[trigger] frames[i]) && frames[i].block_height()
        <= b.height() && then_results_wait(frames[i], b.height()) && frames_ordered(frames[i], frame) by {
        assert(frames_ordered(frames[i], frames[n - 1]));
    }
    assert forall|l: int| 0 <= l < a.encoder.labels.len() implies #[trigger] b.encoder.labels[l]
        == a.encoder.labels[l] || (a.encoder.labels[l] is Unpinned && !label_owned(
        frames.take(n - 1),
        LabelRef(l as usize),
    )) by {
        if b.encoder.labels[l] != a.encoder.labels[l] {
            assert(owns_label(top, LabelRef(l as usize)));
            lemma_label_owner(a, LabelRef(l as usize));
        }
    }
    assert forall|k: int| 0 <= k < b.encoder.users.len() implies label_owned(
        b.control.frames,
        (#[trigger] b.encoder.users[k]).label,
    ) by {
        let u = b.encoder.users[k];
        if u.label == f.end_label {
            assert(owns_label(b.control.frames[n - 1], u.label));
        } else {
            assert(a.encoder.users.contains(u));
            let j = choose|j: int| 0 <= j < a.encoder.users.len() && a.encoder.users[j] == u;
            assert(label_owned(frames, a.encoder.users[j].label));
            lemma_label_owner(a, u.label);
            lemma_label_owned_push(below, frame, u.label);
        }
    }
    assert forall|i: int| 0 <= i < n - 1 && keeps_else(#[trigger] frames[i]) implies else_end(frames[i])
        <= b.control.else_providers.len() && else_end(frames[i]) <= a.control.else_providers.len() by {
        assert(a.frame_wf(i));
        assert(frames_ordered(frames[i], frames[n - 1]));
    }
    assert forall|i: int, j: int|
        0 <= i < n - 1 && keeps_else(#[trigger] frames[i]) && 0 <= j < else_end(
            frames[i],
        ) implies #[trigger] b.control.else_providers[j] == a.control.else_providers[j] by {
        assert(a.frame_wf(i));
        assert(frames_ordered(frames[i], frames[n - 1]));
    }
    assert(b.frame_wf(n - 1)) by {
        assert(b.control.frames[n - 1] == frame);
        assert(b.encoder.labels[f.end_label.0 as int] == a.encoder.labels[f.end_label.0 as int]);
    }
    assert forall|l: int| 0 <= l < b.encoder.labels.len() implies (#[trigger] b.encoder.labels[l]) is Pinned
        || label_owned(b.control.frames, LabelRef(l as usize)) by {
        let label = LabelRef(l as usize);
        if !(b.encoder.labels[l] is Pinned) {
            assert(b.encoder.labels[l] == a.encoder.labels[l]);
            let i = choose|i: int| 0 <= i < n && #[trigger] owns_label(frames[i], label);
            if i < n - 1 {
                assert(owns_label(below[i], label));
                lemma_label_owned_push(below, frame, label);
            } else {
                assert(label == f.end_label);
                assert(owns_label(b.control.frames[n - 1], label));
            }
        }
    }
    lemma_restack_wf(a, b, n - 1, Some(frame));
}

} // verus!
