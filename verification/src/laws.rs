//! What holds of the translator whatever it translates.

use vstd::prelude::*;

use crate::control::{ControlFrame, IfReachability};
use crate::error::TranslationError;
use crate::ops::{BinaryOp, UnaryOp};
use crate::register::Register;
use crate::branches::lemma_encode_branch_kept;
use crate::translator::{else_end, keeps_else, lemma_copy_branch_params_kept, lemma_pin_kept, TranslatorView};
use crate::value::{TypedProvider, TypedValue};

verus! {

/// Where the translator accepts an `end` that is reached by falling
/// through, the operand stack is as high as it was when the block began,
/// its parameters not counted, plus the number of results of the block.
/// The translator accepts no `end` of another height: validated code has
/// none.
pub proof fn lemma_height_before_end(t: TranslatorView)
    requires
        t.wf(),
        t.end_ok(),
        t.reachable,
        t.control.frames.len() > 0,
    ensures
        t.height() == t.control.frames.last().block_height() + t.control.frames.last().block_type().len_results,
{
}

/// After the `end` of a block, whatever its kind, the operand stack is
/// as high as it was when the block began, its parameters not counted,
/// plus the number of results of the block, if what follows can be
/// reached.
pub proof fn lemma_height_after_end(t: TranslatorView)
    requires
        t.wf(),
        t.end_ok(),
        t.control.frames.len() > 0,
        !(t.control.frames.last() is Unreachable),
        t.visit_end() is Ok,
        t.visit_end()->Ok_0.reachable,
    ensures
        t.visit_end()->Ok_0.height() == t.control.frames.last().block_height()
            + t.control.frames.last().block_type().len_results,
{
    let frame = t.control.frames.last();
    let n = t.control.frames.len() as int;
    assert(t.frame_wf(n - 1));
    let popped = t.without_frame();
    match frame {
        ControlFrame::Block(_) => {
            lemma_height_after_block_like(popped, frame, popped.reachable);
        },
        ControlFrame::If(f) => {
            match f.reachability {
                IfReachability::OnlyThen => {
                    let end_is_reachable = match f.end_of_then_is_reachable {
                        Some(b) => b,
                        None => popped.reachable,
                    };
                    lemma_height_after_block_like(popped, frame, end_is_reachable);
                },
                IfReachability::OnlyElse => {
                    lemma_height_after_block_like(popped, frame, !f.visited_else || popped.reachable);
                },
                IfReachability::Both { else_label } => {
                    let len = f.block_type.len_results as nat;
                    if f.visited_else {
                        if popped.reachable {
                            lemma_copy_branch_params_kept(popped, f.branch_params, len);
                            let copied = popped.copy_branch_params(f.branch_params, len)->Ok_0;
                            lemma_pin_kept(copied, f.end_label);
                        } else {
                            lemma_pin_kept(popped, f.end_label);
                        }
                    } else {
                        lemma_height_after_missing_else(popped, frame);
                    }
                },
            }
        },
        _ => {},
    }
}

/// The height of the operand stack after the end of a frame that ends
/// like a block.
proof fn lemma_height_after_block_like(t: TranslatorView, frame: ControlFrame, end_is_reachable: bool)
    requires
        t.stack.wf(),
        t.encoder.wf(),
        t.encoder.is_unpinned(frame.branch_destination()),
        frame.block_height() <= t.height(),
        end_is_reachable ==> t.height() == frame.block_height() + frame.len_branch_params(),
        t.end_block_like(frame, end_is_reachable) is Ok,
        t.end_block_like(frame, end_is_reachable)->Ok_0.reachable,
    ensures
        t.end_block_like(frame, end_is_reachable)->Ok_0.height() == frame.block_height()
            + frame.len_branch_params(),
{
    let len = frame.len_branch_params() as nat;
    if end_is_reachable && frame.is_branched_to() {
        lemma_copy_branch_params_kept(t, frame.branch_params(), len);
        let copied = t.copy_branch_params(frame.branch_params(), len)->Ok_0;
        lemma_pin_kept(copied, frame.branch_destination());
    } else {
        lemma_pin_kept(t, frame.branch_destination());
    }
}

/// The height of the operand stack after the end of an `if` without
/// `else`.
proof fn lemma_height_after_missing_else(t: TranslatorView, frame: ControlFrame)
    requires
        t.stack.wf(),
        t.encoder.wf(),
        keeps_else(frame),
        t.encoder.is_unpinned(frame->If_0.end_label),
        t.encoder.is_unpinned(frame->If_0.else_label()->Some_0),
        frame->If_0.else_label()->Some_0 != frame->If_0.end_label,
        frame.block_height() <= t.height(),
        t.reachable ==> t.height() == frame.block_height() + frame.block_type().len_results,
        frame.block_type().len_params == frame.block_type().len_results,
        else_end(frame) <= t.control.else_providers.len(),
        t.kept_in_place(
            frame->If_0.else_start as int,
            frame->If_0.block_type.len_params as int,
            frame.block_height() as int,
        ),
        t.end_if_missing_else(frame) is Ok,
    ensures
        t.end_if_missing_else(frame)->Ok_0.height() == frame.block_height() + frame.block_type().len_results,
{
    let f = frame->If_0;
    let len = f.block_type.len_results as nat;
    let height = frame.block_height();
    let else_label = f.else_label()->Some_0;
    let t1 = if t.reachable && len >= 1 {
        lemma_copy_branch_params_kept(t, f.branch_params, len);
        let copied = t.copy_branch_params(f.branch_params, len)->Ok_0;
        lemma_encode_branch_kept(copied.encoder, f.end_label);
        copied.branch(f.end_label)->Ok_0
    } else {
        t
    };
    assert(t1.stack.wf() && t1.encoder.wf());
    assert(height <= t1.height());
    lemma_pin_kept(t1, else_label);
    let t2 = t1.pin_if_unpinned(else_label)->Ok_0;
    let kept = t2.control.else_providers_from(f.else_start as int, f.block_type.len_params as int);
    let t3 = TranslatorView { control: t2.control.pop_else_providers(f.else_start as int), ..t2 };
    let t4 = if len >= 1 {
        let restored = t3.with_stack(t3.stack.trunc(height as int).push_all(kept));
        assert(restored.stack.wf()) by {
            assert forall|i: int| 0 <= i < restored.stack.height() implies restored.stack.in_place(
                #[trigger] restored.stack.providers[i],
                i,
            ) by {
                if i < height {
                    assert(t2.stack.in_place(t2.stack.providers[i], i));
                } else {
                    assert(restored.stack.providers[i] == t.control.else_providers[f.else_start + (i - height)]);
                    assert(t.stack.in_place(t.control.else_providers[f.else_start + (i - height)], i));
                }
            }
        }
        lemma_copy_branch_params_kept(restored, f.branch_params, len);
        restored.copy_branch_params(f.branch_params, len)->Ok_0
    } else {
        t3
    };
    assert(height <= t4.height());
    lemma_pin_kept(t4, f.end_label);
}

/// A unary operator on a constant emits no instruction: the constant
/// gives way to the constant that the operator computes for it.
pub proof fn lemma_fold_unary(t: TranslatorView, op: UnaryOp, input: TypedValue, bits: u64)
    requires
        t.reachable,
        t.height() >= 1,
        t.stack.top() == TypedProvider::Const(input),
        op.apply(input.bits) == Ok::<u64, crate::error::TrapCode>(bits),
    ensures
        t.unary(op) == Ok::<TranslatorView, TranslationError>(
            t.with_stack(t.stack.drop_n(1)).push(TypedProvider::Const(TypedValue { ty: op.result_type(), bits })),
        ),
        t.unary(op)->Ok_0.encoder == t.encoder,
{
}

/// A binary operator on two constants emits no instruction: the constants
/// give way to the constant that the operator computes for them.
pub proof fn lemma_fold_binary(t: TranslatorView, op: BinaryOp, lhs: TypedValue, rhs: TypedValue, bits: u64)
    requires
        t.reachable,
        t.height() >= 2,
        t.stack.providers[t.height() - 2] == TypedProvider::Const(lhs),
        t.stack.providers[t.height() - 1] == TypedProvider::Const(rhs),
        op.apply(lhs.bits, rhs.bits) == Ok::<u64, crate::error::TrapCode>(bits),
    ensures
        t.binary(op) == Ok::<TranslatorView, TranslationError>(
            t.with_stack(t.stack.drop_n(2)).push(TypedProvider::Const(TypedValue { ty: op.result_type(), bits })),
        ),
        t.binary(op)->Ok_0.encoder == t.encoder,
{
}

/// A binary operator on two constants for which it traps emits the trap,
/// after which nothing can be reached.
pub proof fn lemma_fold_trap(t: TranslatorView, op: BinaryOp, lhs: TypedValue, rhs: TypedValue)
    requires
        t.reachable,
        t.height() >= 2,
        t.stack.providers[t.height() - 2] == TypedProvider::Const(lhs),
        t.stack.providers[t.height() - 1] == TypedProvider::Const(rhs),
        op.apply(lhs.bits, rhs.bits) is Err,
    ensures
        t.binary(op) == t.with_stack(t.stack.drop_n(2)).trap(op.apply(lhs.bits, rhs.bits)->Err_0),
{
}

/// A `local.get` after a `local.tee` of the same local emits no
/// instruction and pushes the operand that the `local.tee` has left on
/// top of the stack: the register of the local.
pub proof fn lemma_tee_then_get(t: TranslatorView, local_index: u32)
    requires
        t.reachable,
        t.visit_local_tee(local_index) is Ok,
    ensures
        ({
            let tee = t.visit_local_tee(local_index)->Ok_0;
            let local = TypedProvider::Register(Register(local_index as i16));
            &&& tee.stack.top() == local
            &&& tee.reachable ==> tee.visit_local_get(local_index) == Ok::<TranslatorView, TranslationError>(
                tee.push(local),
            )
            &&& tee.reachable ==> tee.visit_local_get(local_index)->Ok_0.encoder == tee.encoder
        }),
{
}

/// A `br_if` on a constant that is true is the `br` of the same depth,
/// once the constant is popped.
pub proof fn lemma_br_if_true(t: TranslatorView, depth: u32, condition: TypedValue)
    requires
        t.reachable,
        t.height() >= 1,
        t.stack.top() == TypedProvider::Const(condition),
        condition.is_true(),
    ensures
        t.visit_br_if(depth) == t.with_stack(t.stack.drop_n(1)).visit_br(depth),
{
}

/// A `br_if` on a constant that is false does nothing but pop the
/// constant.
pub proof fn lemma_br_if_false(t: TranslatorView, depth: u32, condition: TypedValue)
    requires
        t.reachable,
        t.height() >= 1,
        t.stack.top() == TypedProvider::Const(condition),
        !condition.is_true(),
    ensures
        t.visit_br_if(depth) == Ok::<TranslatorView, TranslationError>(t.with_stack(t.stack.drop_n(1))),
{
}

} // verus!
