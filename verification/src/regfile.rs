//! The registers of one call frame as a mathematical value, and what the
//! copy instructions do to them.

use vstd::prelude::*;
use crate::instr::Instruction;
use crate::register::{RegSpan, Register};

verus! {

/// The registers of one call frame: the cells of the register arena from
/// the position `base` on, of which the cell `zero` is register 0. The
/// cells before it hold the constants of the function, those from it on
/// the locals and the temporaries.
pub struct RegisterFile {
    /// The words of the register arena.
    pub cells: Seq<u64>,
    /// The position of the first cell of the frame.
    pub base: int,
    /// The position of register 0 among the cells.
    pub zero: int,
}

impl RegisterFile {
    /// Whether the frame has a register with the index `r`.
    pub open spec fn has(self, r: int) -> bool {
        0 <= self.base <= self.zero + r < self.cells.len()
    }

    /// Whether the frame has the `n` registers from the index `r` on.
    pub open spec fn has_span(self, r: int, n: int) -> bool {
        n <= 0 || (self.has(r) && self.has(r + n - 1))
    }

    /// The word of the register with the index `r`.
    pub open spec fn get(self, r: int) -> u64 {
        self.cells[self.zero + r]
    }

    /// The frame with `value` in the register with the index `r`.
    pub open spec fn set(self, r: int, value: u64) -> RegisterFile {
        RegisterFile { cells: self.cells.update(self.zero + r, value), ..self }
    }

    /// The words of the `n` registers from the index `r` on.
    pub open spec fn span(self, r: int, n: int) -> Seq<u64> {
        self.cells.subrange(self.zero + r, self.zero + r + n)
    }

    /// The words of the registers `registers`.
    pub open spec fn gather(self, registers: Seq<Register>) -> Seq<u64> {
        Seq::new(registers.len(), |i: int| self.get(registers[i].0 as int))
    }

    /// Whether the frame has all of `registers`.
    pub open spec fn has_all(self, registers: Seq<Register>) -> bool {
        forall|i: int| 0 <= i < registers.len() ==> self.has((#[trigger] registers[i]).0 as int)
    }

    /// The frame with the words `values` in the registers from the index
    /// `r` on.
    pub open spec fn write(self, r: int, values: Seq<u64>) -> RegisterFile {
        RegisterFile {
            cells: Seq::new(
                self.cells.len(),
                |c: int|
                    if self.zero + r <= c < self.zero + r + values.len() {
                        values[c - self.zero - r]
                    } else {
                        self.cells[c]
                    },
            ),
            ..self
        }
    }

    /// Copies `n` registers from the index `src` on to those from the index
    /// `dst` on, one after the other, lowest index first.
    pub open spec fn copy_forward(self, dst: int, src: int, n: nat) -> RegisterFile
        decreases n,
    {
        if n == 0 {
            self
        } else {
            self.set(dst, self.get(src)).copy_forward(dst + 1, src + 1, (n - 1) as nat)
        }
    }

    /// Copies `n` registers from the index `src` on to those from the index
    /// `dst` on, one after the other, highest index first.
    pub open spec fn copy_backward(self, dst: int, src: int, n: nat) -> RegisterFile
        decreases n,
    {
        if n == 0 {
            self
        } else {
            self.set(dst + n - 1, self.get(src + n - 1)).copy_backward(dst, src, (n - 1) as nat)
        }
    }
}

/// The registers that the register list starting at the slot `at` names.
pub open spec fn register_list(code: Seq<Instruction>, at: int) -> Seq<Register>
    decreases code.len() - at,
{
    if 0 <= at < code.len() {
        match code[at] {
            Instruction::RegisterList { r0, r1, r2 } => seq![r0, r1, r2] + register_list(code, at + 1),
            Instruction::Register3 { r0, r1, r2 } => seq![r0, r1, r2],
            Instruction::Register2 { r0, r1 } => seq![r0, r1],
            Instruction::Register1 { r0 } => seq![r0],
            _ => Seq::empty(),
        }
    } else {
        Seq::empty()
    }
}

/// The number of slots that the register list starting at the slot `at`
/// takes.
pub open spec fn register_list_slots(code: Seq<Instruction>, at: int) -> nat
    decreases code.len() - at,
{
    if 0 <= at < code.len() {
        match code[at] {
            Instruction::RegisterList { .. } => 1 + register_list_slots(code, at + 1),
            Instruction::Register3 { .. } | Instruction::Register2 { .. } | Instruction::Register1 { .. } => 1,
            _ => 0,
        }
    } else {
        0
    }
}

/// The registers that the copy instruction at the slot `at` reads, in the
/// order of the registers that it writes; empty for any other instruction.
pub open spec fn copy_sources(code: Seq<Instruction>, at: int) -> Seq<Register> {
    match code[at] {
        Instruction::Copy { value, .. } => seq![value],
        Instruction::Copy2 { v0, v1, .. } => seq![v0, v1],
        Instruction::CopySpan { values, len, .. } | Instruction::CopySpanRev { values, len, .. } => Seq::new(
            len as nat,
            |i: int| Register((values.head.0 + i) as i16),
        ),
        Instruction::CopyMany { v0, v1, .. } => seq![v0, v1] + register_list(code, at + 1),
        _ => Seq::empty(),
    }
}

/// The first register that the copy instruction at the slot `at` writes,
/// and how many registers it writes.
pub open spec fn copy_target(code: Seq<Instruction>, at: int) -> (RegSpan, nat) {
    match code[at] {
        Instruction::Copy { result, .. } | Instruction::CopyImm32 { result, .. } | Instruction::CopyI64Imm32 {
            result,
            ..
        } => (RegSpan { head: result }, 1),
        Instruction::Copy2 { results, .. } => (results, 2),
        Instruction::CopySpan { results, len, .. } | Instruction::CopySpanRev { results, len, .. } => (
            results,
            len as nat,
        ),
        Instruction::CopyMany { results, .. } => (results, 2 + register_list(code, at + 1).len()),
        _ => (RegSpan { head: Register(0) }, 0),
    }
}

/// What the copy instruction at the slot `at` makes of the registers
/// `frame`. Any other instruction leaves them as they are.
pub open spec fn run_copy(code: Seq<Instruction>, at: int, frame: RegisterFile) -> RegisterFile {
    match code[at] {
        Instruction::Copy { result, value } => frame.set(result.0 as int, frame.get(value.0 as int)),
        Instruction::CopyImm32 { result, value } => frame.set(result.0 as int, value as u64),
        Instruction::CopyI64Imm32 { result, value } => frame.set(result.0 as int, (value as i64) as u64),
        Instruction::Copy2 { results, .. } | Instruction::CopyMany { results, .. } => frame.write(
            results.head.0 as int,
            frame.gather(copy_sources(code, at)),
        ),
        Instruction::CopySpan { results, values, len } => frame.copy_forward(
            results.head.0 as int,
            values.head.0 as int,
            len as nat,
        ),
        Instruction::CopySpanRev { results, values, len } => frame.copy_backward(
            results.head.0 as int,
            values.head.0 as int,
            len as nat,
        ),
        _ => frame,
    }
}

/// Copying in ascending order moves the source registers to the
/// destination unless the destination starts inside the source: every
/// destination register gets the word that its source register had, and no
/// other register changes.
pub proof fn lemma_copy_forward(frame: RegisterFile, dst: int, src: int, n: nat)
    requires
        !(src < dst < src + n),
        frame.has_span(dst, n as int),
        frame.has_span(src, n as int),
    ensures
        frame.copy_forward(dst, src, n).zero == frame.zero,
        frame.copy_forward(dst, src, n).cells.len() == frame.cells.len(),
        forall|r: int|
            dst <= r < dst + n ==> #[trigger] frame.copy_forward(dst, src, n).get(r) == frame.get(r - dst + src),
        forall|r: int|
            frame.has(r) && !(dst <= r < dst + n) ==> #[trigger] frame.copy_forward(dst, src, n).get(r)
                == frame.get(r),
    decreases n,
{
    if n > 0 {
        let next = frame.set(dst, frame.get(src));
        lemma_copy_forward(next, dst + 1, src + 1, (n - 1) as nat);
        let done = frame.copy_forward(dst, src, n);
        assert(done == next.copy_forward(dst + 1, src + 1, (n - 1) as nat));
        assert forall|r: int| dst <= r < dst + n implies #[trigger] done.get(r) == frame.get(r - dst + src) by {
            if r == dst {
                assert(next.has(r));
                assert(done.get(dst) == next.get(dst));
            } else {
                assert(done.get(r) == next.get(r - (dst + 1) + (src + 1)));
                assert(r - dst + src != dst);
            }
        }
        assert forall|r: int| frame.has(r) && !(dst <= r < dst + n) implies #[trigger] done.get(r) == frame.get(
            r,
        ) by {
            assert(next.has(r));
            assert(done.get(r) == next.get(r));
        }
    }
}

/// Copying in descending order moves the source registers to the
/// destination unless the source starts inside the destination: every
/// destination register gets the word that its source register had, and no
/// other register changes.
pub proof fn lemma_copy_backward(frame: RegisterFile, dst: int, src: int, n: nat)
    requires
        !(dst < src < dst + n),
        frame.has_span(dst, n as int),
        frame.has_span(src, n as int),
    ensures
        frame.copy_backward(dst, src, n).zero == frame.zero,
        frame.copy_backward(dst, src, n).cells.len() == frame.cells.len(),
        forall|r: int|
            dst <= r < dst + n ==> #[trigger] frame.copy_backward(dst, src, n).get(r) == frame.get(r - dst + src),
        forall|r: int|
            frame.has(r) && !(dst <= r < dst + n) ==> #[trigger] frame.copy_backward(dst, src, n).get(r)
                == frame.get(r),
    decreases n,
{
    if n > 0 {
        let next = frame.set(dst + n - 1, frame.get(src + n - 1));
        lemma_copy_backward(next, dst, src, (n - 1) as nat);
        let done = frame.copy_backward(dst, src, n);
        assert(done == next.copy_backward(dst, src, (n - 1) as nat));
        assert forall|r: int| dst <= r < dst + n implies #[trigger] done.get(r) == frame.get(r - dst + src) by {
            if r == dst + n - 1 {
                assert(next.has(r));
                assert(done.get(r) == next.get(r));
            } else {
                assert(done.get(r) == next.get(r - dst + src));
                assert(r - dst + src != dst + n - 1);
            }
        }
        assert forall|r: int| frame.has(r) && !(dst <= r < dst + n) implies #[trigger] done.get(r) == frame.get(
            r,
        ) by {
            assert(next.has(r));
            assert(done.get(r) == next.get(r));
        }
    }
}

} // verus!
