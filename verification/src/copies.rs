//! Encoding of copies and of register lists.

use vstd::prelude::*;
use crate::encoder::{EncoderView, InstrEncoder};
use crate::error::TranslationError;
use crate::executor::{step, Step};
use crate::const_pool::{interned, lemma_intern_idempotent};
use crate::instr::Instruction;
use crate::regfile::{
    copy_sources, lemma_copy_backward, lemma_copy_forward, register_list, register_list_slots, run_copy, RegisterFile,
};
use crate::register::{copy_overlaps, RegSpan, RegSpanIter, Register};
use crate::stack::{ValueStack, ValueStackView};
use crate::value::TypedProvider;

verus! {

/// The state of an encoder and of the operand stack that it interns
/// constants in, or the error that an encoding step ended with.
pub type Encoded = Result<(EncoderView, ValueStackView), TranslationError>;

/// The number of copies at the start of `values` that copy a register to
/// itself, when the values go to the registers from the index `dst` on.
pub open spec fn noop_prefix(dst: int, values: Seq<TypedProvider>) -> nat
    decreases values.len(),
{
    if values.len() > 0 && values[0] == TypedProvider::Register(Register(dst as i16)) {
        1 + noop_prefix(dst + 1, values.skip(1))
    } else {
        0
    }
}

/// Whether `values` are the registers of a span that starts at `head`.
pub open spec fn is_span(values: Seq<TypedProvider>, head: Register) -> bool {
    &&& head.0 + values.len() <= i16::MAX + 1
    &&& forall|i: int|
        0 <= i < values.len() ==> #[trigger] values[i] == TypedProvider::Register(Register((head.0 + i) as i16))
}

/// The first register of the span that `values` are, if they are the
/// registers of a span.
pub open spec fn as_span(values: Seq<TypedProvider>) -> Option<Register> {
    if values.len() > 0 && values[0] is Register && is_span(values, values[0]->Register_0) {
        Some(values[0]->Register_0)
    } else {
        None
    }
}

impl EncoderView {
    /// Emits what writes `value` to the register `result`: nothing if
    /// `value` is that register; else a copy of a register, of an immediate
    /// if the constant fits in 32 bits, or of an interned constant.
    pub open spec fn encode_copy(self, stack: ValueStackView, result: Register, value: TypedProvider) -> Encoded {
        match value {
            TypedProvider::Register(v) => if v == result {
                Ok((self, stack))
            } else {
                match self.push_instr(Instruction::Copy { result, value: v }) {
                    Ok((enc, _)) => Ok((enc, stack)),
                    Err(e) => Err(e),
                }
            },
            TypedProvider::Const(c) => if c.bits <= u32::MAX {
                match self.push_instr(Instruction::CopyImm32 { result, value: c.bits as u32 }) {
                    Ok((enc, _)) => Ok((enc, stack)),
                    Err(e) => Err(e),
                }
            } else if i32::MIN <= (c.bits as i64) <= i32::MAX {
                match self.push_instr(Instruction::CopyI64Imm32 { result, value: (c.bits as i64) as i32 }) {
                    Ok((enc, _)) => Ok((enc, stack)),
                    Err(e) => Err(e),
                }
            } else {
                match stack.alloc_const(c.bits) {
                    Ok((stack, v)) => match self.push_instr(Instruction::Copy { result, value: v }) {
                        Ok((enc, _)) => Ok((enc, stack)),
                        Err(e) => Err(e),
                    },
                    Err(e) => Err(e),
                }
            },
        }
    }

    /// Appends the register list of `inputs`, after interning those that
    /// are constants: slots of three registers, of which the last holds
    /// what is left, one to three registers.
    pub open spec fn encode_register_list(self, stack: ValueStackView, inputs: Seq<TypedProvider>) -> Encoded
        decreases inputs.len(),
    {
        if inputs.len() == 0 {
            Ok((self, stack))
        } else {
            match stack.provider_register(inputs[0]) {
                Err(e) => Err(e),
                Ok((stack, r0)) => if inputs.len() == 1 {
                    match self.append_instr(Instruction::Register1 { r0 }) {
                        Ok((enc, _)) => Ok((enc, stack)),
                        Err(e) => Err(e),
                    }
                } else {
                    match stack.provider_register(inputs[1]) {
                        Err(e) => Err(e),
                        Ok((stack, r1)) => if inputs.len() == 2 {
                            match self.append_instr(Instruction::Register2 { r0, r1 }) {
                                Ok((enc, _)) => Ok((enc, stack)),
                                Err(e) => Err(e),
                            }
                        } else {
                            match stack.provider_register(inputs[2]) {
                                Err(e) => Err(e),
                                Ok((stack, r2)) => if inputs.len() == 3 {
                                    match self.append_instr(Instruction::Register3 { r0, r1, r2 }) {
                                        Ok((enc, _)) => Ok((enc, stack)),
                                        Err(e) => Err(e),
                                    }
                                } else {
                                    match self.append_instr(Instruction::RegisterList { r0, r1, r2 }) {
                                        Ok((enc, _)) => enc.encode_register_list(stack, inputs.skip(3)),
                                        Err(e) => Err(e),
                                    }
                                },
                            }
                        },
                    }
                },
            }
        }
    }

    /// Emits one instruction that copies two or more values to the
    /// registers from `dst` on, the first of them not to itself: a copy of
    /// two, a copy of a span in the order that is safe, or a copy of many.
    pub open spec fn encode_copy_group(self, stack: ValueStackView, dst: Register, values: Seq<TypedProvider>) -> Encoded {
        let results = RegSpan { head: dst };
        match as_span(values) {
            Some(src) if values.len() > 2 && values.len() <= u16::MAX => {
                let len = values.len() as u16;
                let values = RegSpan { head: src };
                let instr = if copy_overlaps(dst.0 as int, src.0 as int, len as int) {
                    Instruction::CopySpanRev { results, values, len }
                } else {
                    Instruction::CopySpan { results, values, len }
                };
                match self.push_instr(instr) {
                    Ok((enc, _)) => Ok((enc, stack)),
                    Err(e) => Err(e),
                }
            },
            _ => match stack.provider_register(values[0]) {
                Err(e) => Err(e),
                Ok((stack, v0)) => match stack.provider_register(values[1]) {
                    Err(e) => Err(e),
                    Ok((stack, v1)) => if values.len() == 2 {
                        match self.push_instr(Instruction::Copy2 { results, v0, v1 }) {
                            Ok((enc, _)) => Ok((enc, stack)),
                            Err(e) => Err(e),
                        }
                    } else {
                        match self.push_instr(Instruction::CopyMany { results, v0, v1 }) {
                            Ok((enc, _)) => enc.encode_register_list(stack, values.skip(2)),
                            Err(e) => Err(e),
                        }
                    },
                },
            },
        }
    }

    /// Emits what writes `values` to the registers `results`, as if all
    /// were written at once: nothing for the values that are in their
    /// register already at the start of the run, then at most one
    /// instruction for the rest.
    pub open spec fn encode_copies(self, stack: ValueStackView, results: RegSpanIter, values: Seq<TypedProvider>) -> Encoded {
        let k = noop_prefix(results.next.0 as int, values);
        let dst = Register((results.next.0 + k) as i16);
        let rest = values.skip(k as int);
        if rest.len() == 0 {
            Ok((self, stack))
        } else if rest.len() == 1 || (rest.len() == 2 && rest[1] == TypedProvider::Register(
            Register((dst.0 + 1) as i16),
        )) {
            self.encode_copy(stack, dst, rest[0])
        } else {
            self.encode_copy_group(stack, dst, rest)
        }
    }
}

/// The prefix of copies to themselves is no longer than the values.
pub proof fn lemma_noop_prefix(dst: int, values: Seq<TypedProvider>)
    ensures
        noop_prefix(dst, values) <= values.len(),
        forall|i: int|
            0 <= i < noop_prefix(dst, values) ==> #[trigger] values[i] == TypedProvider::Register(
                Register((dst + i) as i16),
            ),
        noop_prefix(dst, values) < values.len() ==> values[noop_prefix(dst, values) as int]
            != TypedProvider::Register(Register((dst + noop_prefix(dst, values)) as i16)),
    decreases values.len(),
{
    if values.len() > 0 && values[0] == TypedProvider::Register(Register(dst as i16)) {
        lemma_noop_prefix(dst + 1, values.skip(1));
        let k = noop_prefix(dst + 1, values.skip(1));
        assert forall|i: int| 0 <= i < k + 1 implies #[trigger] values[i] == TypedProvider::Register(
            Register((dst + i) as i16),
        ) by {
            if i > 0 {
                assert(values.skip(1)[i - 1] == values[i]);
            }
        }
        if k + 1 < values.len() {
            assert(values.skip(1)[k as int] == values[k as int + 1]);
        }
    }
}

/// Whether the frame holds the constants `consts` in the registers with
/// negative indices: the constant with the handle `k` in the register
/// `-1 - k`.
pub open spec fn holds_consts(frame: RegisterFile, consts: Seq<u64>) -> bool {
    forall|k: int| 0 <= k < consts.len() ==> frame.has(-1 - k) && frame.get(-1 - k) == #[trigger] consts[k]
}

/// The word that `provider` stands for when the registers are `frame`.
pub open spec fn provider_value(frame: RegisterFile, provider: TypedProvider) -> u64 {
    match provider {
        TypedProvider::Register(r) => frame.get(r.0 as int),
        TypedProvider::Const(c) => c.bits,
    }
}

/// Whether the frame has every register among `providers`.
pub open spec fn has_providers(frame: RegisterFile, providers: Seq<TypedProvider>) -> bool {
    forall|i: int| 0 <= i < providers.len() ==> (#[trigger] providers[i] matches TypedProvider::Register(r)
        ==> frame.has(r.0 as int))
}

/// Whether the register `r` holds `provider` when the constants of the
/// function are `consts`.
pub open spec fn holds_provider(r: Register, provider: TypedProvider, consts: Seq<u64>) -> bool {
    match provider {
        TypedProvider::Register(x) => r == x,
        TypedProvider::Const(c) => r.0 < 0 && -1 - r.0 < consts.len() && consts[-1 - r.0] == c.bits,
    }
}

/// Whether the pool `later` has grown out of the pool `earlier`.
pub open spec fn extends(later: Seq<u64>, earlier: Seq<u64>) -> bool {
    &&& earlier.len() <= later.len()
    &&& forall|k: int| 0 <= k < earlier.len() ==> #[trigger] later[k] == earlier[k]
}

/// The register that stands for a provider holds it, and interning only
/// adds to the constants.
pub proof fn lemma_provider_register(stack: ValueStackView, provider: TypedProvider)
    requires
        stack.wf(),
    ensures
        stack.provider_register(provider) matches Ok((after, r)) ==> {
            &&& after.wf()
            &&& after.providers == stack.providers
            &&& after.len_locals == stack.len_locals
            &&& after.max_height == stack.max_height
            &&& extends(after.consts, stack.consts)
            &&& holds_provider(r, provider, after.consts)
        },
{
    if let TypedProvider::Const(c) = provider {
        lemma_intern_idempotent(stack.consts, c.bits);
        if let Ok((consts, cref)) = interned(stack.consts, c.bits) {
            assert(stack.alloc_const(c.bits) == Ok::<(ValueStackView, Register), TranslationError>(
                (ValueStackView { consts, ..stack }, cref.register()),
            ));
            let after = ValueStackView { consts, ..stack };
            assert forall|i: int| 0 <= i < after.height() implies after.in_place(#[trigger] after.providers[i], i) by {
                assert(stack.in_place(stack.providers[i], i));
            }
        }
    }
}

/// A register list, once encoded, names the registers that hold its
/// providers; the code before it and the constants so far are kept.
pub proof fn lemma_encode_register_list(enc: EncoderView, stack: ValueStackView, inputs: Seq<TypedProvider>)
    requires
        enc.wf(),
        stack.wf(),
    ensures
        enc.encode_register_list(stack, inputs) matches Ok((enc2, stack2)) ==> {
            &&& stack2.wf()
            &&& enc2.instrs.len() >= enc.instrs.len()
            &&& enc2.instrs.len() <= crate::encoder::MAX_INSTRS
            &&& inputs.len() > 0 ==> enc2.instrs.len() > enc.instrs.len()
            &&& forall|p: int| 0 <= p < enc.instrs.len() ==> #[trigger] enc2.instrs[p] == enc.instrs[p]
            &&& enc2.labels == enc.labels
            &&& enc2.users == enc.users
            &&& enc2.last_instr == enc.last_instr
            &&& stack2.providers == stack.providers
            &&& stack2.len_locals == stack.len_locals
            &&& stack2.max_height == stack.max_height
            &&& extends(stack2.consts, stack.consts)
            &&& register_list(enc2.instrs, enc.instrs.len() as int).len() == inputs.len()
            &&& register_list_slots(enc2.instrs, enc.instrs.len() as int) == enc2.instrs.len() - enc.instrs.len()
            &&& forall|i: int|
                0 <= i < inputs.len() ==> holds_provider(
                    #[trigger] register_list(enc2.instrs, enc.instrs.len() as int)[i],
                    inputs[i],
                    stack2.consts,
                )
        },
    decreases inputs.len(),
{
    if let Ok((enc2, stack2)) = enc.encode_register_list(stack, inputs) {
        let at = enc.instrs.len() as int;
        if inputs.len() > 0 {
            lemma_provider_register(stack, inputs[0]);
            let (s0, r0) = stack.provider_register(inputs[0])->Ok_0;
            if inputs.len() == 1 {
                assert(enc2.instrs[at] == Instruction::Register1 { r0 });
                assert(register_list(enc2.instrs, at) =~= seq![r0]);
            } else {
                lemma_provider_register(s0, inputs[1]);
                let (s1, r1) = s0.provider_register(inputs[1])->Ok_0;
                if inputs.len() == 2 {
                    assert(enc2.instrs[at] == Instruction::Register2 { r0, r1 });
                    assert(register_list(enc2.instrs, at) =~= seq![r0, r1]);
                } else {
                    lemma_provider_register(s1, inputs[2]);
                    let (s2, r2) = s1.provider_register(inputs[2])->Ok_0;
                    if inputs.len() == 3 {
                        assert(enc2.instrs[at] == Instruction::Register3 { r0, r1, r2 });
                        assert(register_list(enc2.instrs, at) =~= seq![r0, r1, r2]);
                    } else {
                        let (enc1, _) = enc.append_instr(Instruction::RegisterList { r0, r1, r2 })->Ok_0;
                        let rest = inputs.skip(3);
                        lemma_encode_register_list(enc1, s2, rest);
                        assert(enc1.instrs[at] == Instruction::RegisterList { r0, r1, r2 });
                        assert(enc2.instrs[at] == enc1.instrs[at]);
                        let tail = register_list(enc2.instrs, at + 1);
                        let all = register_list(enc2.instrs, at);
                        assert(all =~= seq![r0, r1, r2] + tail);
                        assert forall|p: int| 0 <= p < enc.instrs.len() implies #[trigger] enc2.instrs[p]
                            == enc.instrs[p] by {
                            assert(enc1.instrs[p] == enc.instrs[p]);
                        }
                        assert forall|i: int| 0 <= i < inputs.len() implies holds_provider(
                            #[trigger] all[i],
                            inputs[i],
                            stack2.consts,
                        ) by {
                            if i >= 3 {
                                assert(all[i] == tail[i - 3]);
                                assert(rest[i - 3] == inputs[i]);
                                assert(holds_provider(tail[i - 3], rest[i - 3], stack2.consts));
                            }
                        }
                    }
                }
            }
        } else {
            assert(register_list(enc2.instrs, at) =~= Seq::<Register>::empty());
        }
    }
}

/// What one encoded copy does: when `encode_copy` has succeeded,
/// executing what it emitted leaves in the register `dst` the word that
/// `value` stood for, changes no other register of the frame, and goes on
/// after the code emitted.
pub proof fn lemma_encode_copy(
    enc: EncoderView,
    stack: ValueStackView,
    dst: Register,
    value: TypedProvider,
    frame: RegisterFile,
    fuel: Option<u64>,
)
    requires
        enc.wf(),
        stack.wf(),
        dst.0 >= 0,
        frame.has(dst.0 as int),
        enc.encode_copy(stack, dst, value) is Ok,
        holds_consts(frame, enc.encode_copy(stack, dst, value)->Ok_0.1.consts),
        value matches TypedProvider::Register(v) ==> frame.has(v.0 as int),
    ensures
        ({
            let (enc2, stack2) = enc.encode_copy(stack, dst, value)->Ok_0;
            let after = if enc2.instrs.len() > enc.instrs.len() {
                run_copy(enc2.instrs, enc.instrs.len() as int, frame)
            } else {
                frame
            };
            &&& after.get(dst.0 as int) == provider_value(frame, value)
            &&& forall|r: int| frame.has(r) && r != dst.0 ==> #[trigger] after.get(r) == frame.get(r)
            &&& enc2.instrs.len() > enc.instrs.len() ==> step(enc2.instrs, enc.instrs.len() as int, frame, fuel)
                == (Step::Next { cells: after.cells, ip: enc2.instrs.len() as int, fuel })
        }),
{
    let (enc2, stack2) = enc.encode_copy(stack, dst, value)->Ok_0;
    let at = enc.instrs.len() as int;
    match value {
        TypedProvider::Register(v) => {
            if v != dst {
                assert(enc2.instrs[at] == Instruction::Copy { result: dst, value: v });
            }
        },
        TypedProvider::Const(c) => {
            if c.bits <= u32::MAX {
                assert(enc2.instrs[at] == Instruction::CopyImm32 { result: dst, value: c.bits as u32 });
            } else if i32::MIN <= (c.bits as i64) <= i32::MAX {
                let w = c.bits;
                assert((((w as i64) as i32) as i64) as u64 == w) by (bit_vector)
                    requires
                        -2147483648 <= (w as i64) <= 2147483647,
                ;
                assert(enc2.instrs[at] == Instruction::CopyI64Imm32 { result: dst, value: (c.bits as i64) as i32 });
            } else {
                lemma_provider_register(stack, value);
                let (s1, v) = stack.alloc_const(c.bits)->Ok_0;
                assert(enc2.instrs[at] == Instruction::Copy { result: dst, value: v });
                assert(s1.consts[-1 - v.0] == c.bits);
            }
        },
    }
}

/// What one encoded copy of a group does: when `encode_copy_group` has
/// succeeded, executing what it emitted leaves in every register from
/// `dst` on the word that its value stood for before, changes no other
/// register of the frame, and goes on after the code emitted.
pub proof fn lemma_encode_copy_group(
    enc: EncoderView,
    stack: ValueStackView,
    dst: Register,
    values: Seq<TypedProvider>,
    frame: RegisterFile,
    fuel: Option<u64>,
)
    requires
        enc.wf(),
        stack.wf(),
        dst.0 >= 0,
        values.len() >= 2,
        dst.0 + values.len() <= i16::MAX + 1,
        frame.has_span(dst.0 as int, values.len() as int),
        enc.encode_copy_group(stack, dst, values) is Ok,
        holds_consts(frame, enc.encode_copy_group(stack, dst, values)->Ok_0.1.consts),
        has_providers(frame, values),
    ensures
        ({
            let (enc2, stack2) = enc.encode_copy_group(stack, dst, values)->Ok_0;
            let after = run_copy(enc2.instrs, enc.instrs.len() as int, frame);
            &&& forall|r: int|
                dst.0 <= r < dst.0 + values.len() ==> #[trigger] after.get(r) == provider_value(
                    frame,
                    values[r - dst.0],
                )
            &&& forall|r: int|
                frame.has(r) && !(dst.0 <= r < dst.0 + values.len()) ==> #[trigger] after.get(r) == frame.get(r)
            &&& step(enc2.instrs, enc.instrs.len() as int, frame, fuel) == (Step::Next {
                cells: after.cells,
                ip: enc2.instrs.len() as int,
                fuel,
            })
        }),
{
    let (enc2, stack2) = enc.encode_copy_group(stack, dst, values)->Ok_0;
    let at = enc.instrs.len() as int;
    let d = dst.0 as int;
    let n = values.len() as int;
    let span = RegSpan { head: dst };
    let after = run_copy(enc2.instrs, at, frame);
    assert forall|r: int| #![trigger frame.has(r)] d <= r < d + n implies frame.has(r) by {}
    let grouped = match as_span(values) {
        Some(_) if values.len() > 2 && values.len() <= u16::MAX => true,
        _ => false,
    };
    if grouped {
        let src = as_span(values)->Some_0;
        let len = values.len() as u16;
        assert(values[0] == TypedProvider::Register(Register((src.0 + 0) as i16)));
        assert(values[len - 1] == TypedProvider::Register(Register((src.0 + (len - 1)) as i16)));
        assert(frame.has(src.0 + 0));
        assert(frame.has(src.0 + (len - 1)));
        if copy_overlaps(d, src.0 as int, len as int) {
            assert(enc2.instrs[at] == Instruction::CopySpanRev { results: span, values: RegSpan { head: src }, len });
            lemma_copy_backward(frame, d, src.0 as int, len as nat);
        } else {
            assert(enc2.instrs[at] == Instruction::CopySpan { results: span, values: RegSpan { head: src }, len });
            lemma_copy_forward(frame, d, src.0 as int, len as nat);
        }
        assert forall|r: int| d <= r < d + n implies #[trigger] after.get(r) == provider_value(
            frame,
            values[r - d],
        ) by {
            assert(values[r - d] == TypedProvider::Register(Register((src.0 + (r - d)) as i16)));
        }
    } else {
        lemma_provider_register(stack, values[0]);
        let (s0, v0) = stack.provider_register(values[0])->Ok_0;
        lemma_provider_register(s0, values[1]);
        let (s1, v1) = s0.provider_register(values[1])->Ok_0;
        let sources = copy_sources(enc2.instrs, at);
        if values.len() == 2 {
            assert(enc2.instrs[at] == Instruction::Copy2 { results: span, v0, v1 });
            assert(sources =~= seq![v0, v1]);
            assert(stack2 == s1);
        } else {
            let (enc1, _) = enc.push_instr(Instruction::CopyMany { results: span, v0, v1 })->Ok_0;
            lemma_encode_register_list(enc1, s1, values.skip(2));
            assert(enc1.instrs[at] == Instruction::CopyMany { results: span, v0, v1 });
            assert(enc2.instrs[at] == enc1.instrs[at]);
            assert(sources =~= seq![v0, v1] + register_list(enc2.instrs, at + 1));
        }
        assert(sources.len() == values.len());
        assert forall|i: int| 0 <= i < values.len() implies holds_provider(
            #[trigger] sources[i],
            values[i],
            stack2.consts,
        ) by {
            if i >= 2 {
                let tail = register_list(enc2.instrs, at + 1);
                assert(sources[i] == tail[i - 2]);
                assert(values.skip(2)[i - 2] == values[i]);
                assert(holds_provider(tail[i - 2], values.skip(2)[i - 2], stack2.consts));
            }
        }
        assert forall|i: int| 0 <= i < sources.len() implies frame.has((#[trigger] sources[i]).0 as int) by {
            assert(holds_provider(sources[i], values[i], stack2.consts));
            match values[i] {
                TypedProvider::Register(x) => {},
                TypedProvider::Const(c) => {
                    assert(stack2.consts[-1 - sources[i].0] == c.bits);
                },
            }
        }
        let words = frame.gather(sources);
        assert(after == frame.write(d, words));
        assert forall|r: int| d <= r < d + n implies #[trigger] after.get(r) == provider_value(
            frame,
            values[r - d],
        ) by {
            let i = r - d;
            assert(frame.has(r));
            assert(holds_provider(sources[i], values[i], stack2.consts));
            assert(words[i] == frame.get(sources[i].0 as int));
            match values[i] {
                TypedProvider::Register(x) => {},
                TypedProvider::Const(c) => {
                    assert(stack2.consts[-1 - sources[i].0] == c.bits);
                },
            }
        }
    }
}

/// Copies are safe whatever the spans overlap: when `encode_copies` has
/// succeeded, what it emitted is at most one instruction; executing it on
/// a frame that has the registers concerned and holds the constants of
/// the function leaves in every destination register the word that its
/// source stood for before, changes no other register of the frame, and
/// goes on after the code emitted.
pub proof fn lemma_encode_copies(
    enc: EncoderView,
    stack: ValueStackView,
    results: RegSpanIter,
    values: Seq<TypedProvider>,
    frame: RegisterFile,
    fuel: Option<u64>,
)
    requires
        enc.wf(),
        stack.wf(),
        results.wf(),
        results.spec_len() == values.len(),
        results.next.0 >= 0,
        enc.encode_copies(stack, results, values) is Ok,
        holds_consts(frame, enc.encode_copies(stack, results, values)->Ok_0.1.consts),
        frame.has_span(results.next.0 as int, values.len() as int),
        has_providers(frame, values),
    ensures
        ({
            let (enc2, stack2) = enc.encode_copies(stack, results, values)->Ok_0;
            let after = if enc2.instrs.len() > enc.instrs.len() {
                run_copy(enc2.instrs, enc.instrs.len() as int, frame)
            } else {
                frame
            };
            &&& forall|r: int|
                results.next.0 <= r < results.last.0 ==> #[trigger] after.get(r) == provider_value(
                    frame,
                    values[r - results.next.0],
                )
            &&& forall|r: int|
                frame.has(r) && !(results.next.0 <= r < results.last.0) ==> #[trigger] after.get(r) == frame.get(r)
            &&& enc2.instrs.len() > enc.instrs.len() ==> step(enc2.instrs, enc.instrs.len() as int, frame, fuel)
                == (Step::Next { cells: after.cells, ip: enc2.instrs.len() as int, fuel })
        }),
{
    let (enc2, stack2) = enc.encode_copies(stack, results, values)->Ok_0;
    let d0 = results.next.0 as int;
    let n = values.len() as int;
    let at = enc.instrs.len() as int;
    lemma_noop_prefix(d0, values);
    let k = noop_prefix(d0, values) as int;
    let d = d0 + k;
    let dst = Register(d as i16);
    let rest = values.skip(k);
    let after = if enc2.instrs.len() > enc.instrs.len() {
        run_copy(enc2.instrs, at, frame)
    } else {
        frame
    };
    assert forall|r: int| #![trigger frame.has(r)] d0 <= r < d0 + n implies frame.has(r) by {}
    assert forall|i: int| 0 <= i < rest.len() implies (#[trigger] rest[i] matches TypedProvider::Register(x)
        ==> frame.has(x.0 as int)) by {
        assert(rest[i] == values[k + i]);
    }
    if rest.len() == 0 {
        assert forall|r: int| d0 <= r < d0 + n implies #[trigger] after.get(r) == provider_value(
            frame,
            values[r - d0],
        ) by {
            assert(values[r - d0] == TypedProvider::Register(Register((d0 + (r - d0)) as i16)));
        }
    } else if rest.len() == 1 || (rest.len() == 2 && rest[1] == TypedProvider::Register(Register((d + 1) as i16))) {
        assert(rest[0] == values[k]);
        assert(frame.has(d));
        lemma_encode_copy(enc, stack, dst, rest[0], frame, fuel);
        assert forall|r: int| d0 <= r < d0 + n implies #[trigger] after.get(r) == provider_value(
            frame,
            values[r - d0],
        ) by {
            assert(frame.has(r));
            if r == d {
            } else if r < d {
                assert(values[r - d0] == TypedProvider::Register(Register((d0 + (r - d0)) as i16)));
            } else {
                assert(values[r - d0] == rest[1]);
            }
        }
    } else {
        assert(frame.has(d));
        assert(frame.has(d + rest.len() - 1));
        lemma_encode_copy_group(enc, stack, dst, rest, frame, fuel);
        assert(enc2.instrs.len() > enc.instrs.len()) by {
            lemma_encode_copy_group_grows(enc, stack, dst, rest);
        }
        assert forall|r: int| d0 <= r < d0 + n implies #[trigger] after.get(r) == provider_value(
            frame,
            values[r - d0],
        ) by {
            assert(frame.has(r));
            if r < d {
                assert(values[r - d0] == TypedProvider::Register(Register((d0 + (r - d0)) as i16)));
            } else {
                assert(values[r - d0] == rest[r - d]);
            }
        }
    }
}

/// A group of copies always emits an instruction.
pub proof fn lemma_encode_copy_group_grows(
    enc: EncoderView,
    stack: ValueStackView,
    dst: Register,
    values: Seq<TypedProvider>,
)
    requires
        enc.wf(),
        stack.wf(),
        values.len() >= 2,
        enc.encode_copy_group(stack, dst, values) is Ok,
    ensures
        enc.encode_copy_group(stack, dst, values)->Ok_0.0.instrs.len() > enc.instrs.len(),
{
    let grouped = match as_span(values) {
        Some(_) if values.len() > 2 && values.len() <= u16::MAX => true,
        _ => false,
    };
    if !grouped {
        lemma_provider_register(stack, values[0]);
        let (s0, v0) = stack.provider_register(values[0])->Ok_0;
        lemma_provider_register(s0, values[1]);
        let (s1, v1) = s0.provider_register(values[1])->Ok_0;
        if values.len() > 2 {
            let (enc1, _) = enc.push_instr(
                Instruction::CopyMany { results: RegSpan { head: dst }, v0, v1 },
            )->Ok_0;
            lemma_encode_register_list(enc1, s1, values.skip(2));
        }
    }
}

/// Whether the encoder `later` has the labels and the waiting branches
/// of the encoder `earlier`, and no less code.
pub open spec fn code_grows(later: EncoderView, earlier: EncoderView) -> bool {
    &&& later.labels == earlier.labels
    &&& later.users == earlier.users
    &&& later.instrs.len() >= earlier.instrs.len()
}

/// Whether the operand stack `later` is the operand stack `earlier` with,
/// at most, more constants interned.
pub open spec fn stack_kept(later: ValueStackView, earlier: ValueStackView) -> bool {
    &&& later.providers == earlier.providers
    &&& later.len_locals == earlier.len_locals
    &&& later.max_height == earlier.max_height
    &&& extends(later.consts, earlier.consts)
}

/// Whether an encoding step that started from `enc` and `stack` has kept
/// their invariants, the labels, the waiting branches and the operands.
pub open spec fn encoded_in_order(encoded: Encoded, enc: EncoderView, stack: ValueStackView) -> bool {
    encoded matches Ok((enc2, stack2)) ==> {
        &&& enc2.wf()
        &&& stack2.wf()
        &&& code_grows(enc2, enc)
        &&& stack_kept(stack2, stack)
    }
}

/// Encoding a copy keeps the labels, the waiting branches and the operands.
pub proof fn lemma_encode_copy_kept(enc: EncoderView, stack: ValueStackView, result: Register, value: TypedProvider)
    requires
        enc.wf(),
        stack.wf(),
    ensures
        encoded_in_order(enc.encode_copy(stack, result, value), enc, stack),
{
    lemma_provider_register(stack, value);
}

/// Encoding a register list keeps the labels, the waiting branches and
/// the operands.
pub proof fn lemma_encode_register_list_kept(enc: EncoderView, stack: ValueStackView, inputs: Seq<TypedProvider>)
    requires
        enc.wf(),
        stack.wf(),
    ensures
        encoded_in_order(enc.encode_register_list(stack, inputs), enc, stack),
{
    lemma_encode_register_list(enc, stack, inputs);
    if let Ok((enc2, stack2)) = enc.encode_register_list(stack, inputs) {
        lemma_register_list_wf(enc, stack, inputs);
    }
}

/// Encoding a register list keeps the invariant of the encoder.
pub proof fn lemma_register_list_wf(enc: EncoderView, stack: ValueStackView, inputs: Seq<TypedProvider>)
    requires
        enc.wf(),
        stack.wf(),
    ensures
        enc.encode_register_list(stack, inputs) matches Ok((enc2, stack2)) ==> enc2.wf(),
    decreases inputs.len(),
{
    if inputs.len() > 0 {
        lemma_provider_register(stack, inputs[0]);
        if let Ok((s0, r0)) = stack.provider_register(inputs[0]) {
            if inputs.len() > 1 {
                lemma_provider_register(s0, inputs[1]);
                if let Ok((s1, r1)) = s0.provider_register(inputs[1]) {
                    if inputs.len() > 2 {
                        lemma_provider_register(s1, inputs[2]);
                        if let Ok((s2, r2)) = s1.provider_register(inputs[2]) {
                            if inputs.len() > 3 {
                                if let Ok((enc1, _)) = enc.append_instr(Instruction::RegisterList { r0, r1, r2 }) {
                                    lemma_register_list_wf(enc1, s2, inputs.skip(3));
                                }
                            }
                        }
                    }
                }
            }
        }
    }
}

/// Encoding a group of copies keeps the labels, the waiting branches and
/// the operands.
pub proof fn lemma_encode_copy_group_kept(enc: EncoderView, stack: ValueStackView, dst: Register, values: Seq<TypedProvider>)
    requires
        enc.wf(),
        stack.wf(),
        values.len() >= 2,
    ensures
        encoded_in_order(enc.encode_copy_group(stack, dst, values), enc, stack),
{
    let grouped = match as_span(values) {
        Some(_) if values.len() > 2 && values.len() <= u16::MAX => true,
        _ => false,
    };
    if !grouped {
        lemma_provider_register(stack, values[0]);
        if let Ok((s0, v0)) = stack.provider_register(values[0]) {
            lemma_provider_register(s0, values[1]);
            if let Ok((s1, v1)) = s0.provider_register(values[1]) {
                if values.len() > 2 {
                    if let Ok((enc1, _)) = enc.push_instr(
                        Instruction::CopyMany { results: RegSpan { head: dst }, v0, v1 },
                    ) {
                        lemma_encode_register_list_kept(enc1, s1, values.skip(2));
                    }
                }
            }
        }
    }
}

/// Encoding copies keeps the labels, the waiting branches and the
/// operands.
pub proof fn lemma_encode_copies_kept(enc: EncoderView, stack: ValueStackView, results: RegSpanIter, values: Seq<TypedProvider>)
    requires
        enc.wf(),
        stack.wf(),
    ensures
        encoded_in_order(enc.encode_copies(stack, results, values), enc, stack),
{
    lemma_noop_prefix(results.next.0 as int, values);
    let k = noop_prefix(results.next.0 as int, values);
    let dst = Register((results.next.0 + k) as i16);
    let rest = values.skip(k as int);
    if rest.len() == 0 {
    } else if rest.len() == 1 || (rest.len() == 2 && rest[1] == TypedProvider::Register(
        Register((dst.0 + 1) as i16),
    )) {
        lemma_encode_copy_kept(enc, stack, dst, rest[0]);
    } else {
        lemma_encode_copy_group_kept(enc, stack, dst, rest);
    }
}

impl InstrEncoder {
    /// Emits what writes `value` to the register `result`.
    pub fn encode_copy(&mut self, stack: &mut ValueStack, result: Register, value: TypedProvider) -> (r: Result<
        (),
        TranslationError,
    >)
        requires
            old(self).wf(),
            old(stack).wf(),
        ensures
            match old(self)@.encode_copy(old(stack)@, result, value) {
                Ok((enc, st)) => r is Ok && final(self)@ == enc && final(stack)@ == st && final(self).wf()
                    && final(stack).wf(),
                Err(e) => r == Err::<(), TranslationError>(e),
            },
    {
        match value {
            TypedProvider::Register(v) => {
                if v == result {
                    return Ok(());
                }
                self.push_instr(Instruction::Copy { result, value: v })?;
            },
            TypedProvider::Const(c) => {
                let wide: i64 = c.as_i64();
                if c.bits <= u32::MAX as u64 {
                    self.push_instr(Instruction::CopyImm32 { result, value: c.bits as u32 })?;
                } else if -2147483648 <= wide && wide <= 2147483647 {
                    self.push_instr(Instruction::CopyI64Imm32 { result, value: wide as i32 })?;
                } else {
                    let v = stack.alloc_const(c.bits)?;
                    self.push_instr(Instruction::Copy { result, value: v })?;
                }
            },
        }
        Ok(())
    }

    /// Appends the register list of the providers of `inputs` from the
    /// position `start` on.
    pub fn encode_register_list(&mut self, stack: &mut ValueStack, inputs: &Vec<TypedProvider>, start: usize) -> (r:
        Result<(), TranslationError>)
        requires
            old(self).wf(),
            old(stack).wf(),
            start <= inputs.len(),
        ensures
            match old(self)@.encode_register_list(old(stack)@, inputs@.skip(start as int)) {
                Ok((enc, st)) => r is Ok && final(self)@ == enc && final(stack)@ == st && final(self).wf()
                    && final(stack).wf(),
                Err(e) => r == Err::<(), TranslationError>(e),
            },
    {
        let n = inputs.len();
        let mut i: usize = start;
        loop
            invariant
                start <= i <= n,
                n == inputs.len(),
                self.wf(),
                stack.wf(),
                old(self)@.encode_register_list(old(stack)@, inputs@.skip(start as int))
                    == self@.encode_register_list(stack@, inputs@.skip(i as int)),
            decreases n - i,
        {
            let ghost rest = inputs@.skip(i as int);
            if i == n {
                return Ok(());
            }
            assert(rest[0] == inputs@[i as int]);
            let r0 = stack.provider_register(inputs[i])?;
            if n - i == 1 {
                self.append_instr(Instruction::Register1 { r0 })?;
                return Ok(());
            }
            assert(rest[1] == inputs@[i + 1]);
            let r1 = stack.provider_register(inputs[i + 1])?;
            if n - i == 2 {
                self.append_instr(Instruction::Register2 { r0, r1 })?;
                return Ok(());
            }
            assert(rest[2] == inputs@[i + 2]);
            let r2 = stack.provider_register(inputs[i + 2])?;
            if n - i == 3 {
                self.append_instr(Instruction::Register3 { r0, r1, r2 })?;
                return Ok(());
            }
            self.append_instr(Instruction::RegisterList { r0, r1, r2 })?;
            assert(rest.skip(3) =~= inputs@.skip(i + 3));
            i += 3;
        }
    }

    /// Whether the providers of `values` from the position `start` on are
    /// the registers of a span, and the first register of that span.
    pub fn providers_as_span(values: &Vec<TypedProvider>, start: usize) -> (r: Option<Register>)
        requires
            start <= values.len(),
        ensures
            r == as_span(values@.skip(start as int)),
    {
        let n = values.len();
        let ghost rest = values@.skip(start as int);
        if start == n {
            return None;
        }
        assert(rest[0] == values@[start as int]);
        match values[start] {
            TypedProvider::Const(_) => None,
            TypedProvider::Register(head) => {
                if n - start > 65536 || head.0 as i64 + (n - start) as i64 > 32768 {
                    return None;
                }
                let mut i: usize = start + 1;
                while i < n
                    invariant
                        start < i <= n,
                        n == values.len(),
                        rest == values@.skip(start as int),
                        head.0 + (n - start) <= 32768,
                        forall|j: int|
                            0 <= j < i - start ==> #[trigger] rest[j] == TypedProvider::Register(
                                Register((head.0 + j) as i16),
                            ),
                    decreases n - i,
                {
                    assert(rest[i - start] == values@[i as int]);
                    let expected = Register((head.0 as i64 + (i - start) as i64) as i16);
                    match values[i] {
                        TypedProvider::Register(v) if v == expected => {},
                        _ => {
                            return None;
                        },
                    }
                    i += 1;
                }
                Some(head)
            },
        }
    }

    /// Emits what writes the providers `values` to the registers
    /// `results`, as if all were written at once.
    pub fn encode_copies(&mut self, stack: &mut ValueStack, results: RegSpanIter, values: &Vec<TypedProvider>) -> (r:
        Result<(), TranslationError>)
        requires
            old(self).wf(),
            old(stack).wf(),
            results.wf(),
            results.spec_len() == values.len(),
        ensures
            match old(self)@.encode_copies(old(stack)@, results, values@) {
                Ok((enc, st)) => r is Ok && final(self)@ == enc && final(stack)@ == st && final(self).wf()
                    && final(stack).wf(),
                Err(e) => r == Err::<(), TranslationError>(e),
            },
    {
        let n = values.len();
        let mut k: usize = 0;
        assert(values@.skip(0) =~= values@);
        while k < n && values[k] == TypedProvider::Register(Register((results.next.0 as i32 + k as i32) as i16))
            invariant
                k <= n,
                n == values.len(),
                results.wf(),
                results.spec_len() == n,
                noop_prefix(results.next.0 as int, values@) == k + noop_prefix(
                    results.next.0 + k,
                    values@.skip(k as int),
                ),
            decreases n - k,
        {
            assert(values@.skip(k as int)[0] == values@[k as int]);
            assert(values@.skip(k as int).skip(1) =~= values@.skip(k + 1));
            k += 1;
        }
        let ghost rest = values@.skip(k as int);
        proof {
            if k < n {
                assert(rest[0] == values@[k as int]);
            }
            assert(noop_prefix(results.next.0 + k, rest) == 0);
        }
        if k == n {
            return Ok(());
        }
        let dst = Register((results.next.0 as i32 + k as i32) as i16);
        if n - k == 1 {
            return self.encode_copy(stack, dst, values[k]);
        }
        assert(rest[1] == values@[k + 1]);
        if n - k == 2 && values[k + 1] == TypedProvider::Register(Register(dst.0 + 1)) {
            return self.encode_copy(stack, dst, values[k]);
        }
        let span = RegSpan { head: dst };
        match Self::providers_as_span(values, k) {
            Some(src) if n - k > 2 && n - k <= 65535 => {
                let len = (n - k) as u16;
                let instr = if src.0 < dst.0 && (dst.0 as i32) < src.0 as i32 + len as i32 {
                    Instruction::CopySpanRev { results: span, values: RegSpan { head: src }, len }
                } else {
                    Instruction::CopySpan { results: span, values: RegSpan { head: src }, len }
                };
                self.push_instr(instr)?;
                Ok(())
            },
            _ => {
                let v0 = stack.provider_register(values[k])?;
                let v1 = stack.provider_register(values[k + 1])?;
                if n - k == 2 {
                    self.push_instr(Instruction::Copy2 { results: span, v0, v1 })?;
                    Ok(())
                } else {
                    self.push_instr(Instruction::CopyMany { results: span, v0, v1 })?;
                    assert(rest.skip(2) =~= values@.skip(k + 2));
                    self.encode_register_list(stack, values, k + 2)
                }
            },
        }
    }
}

} // verus!
