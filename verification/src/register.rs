//! Registers, register spans and 16-bit immediates.

use vstd::prelude::*;
use vstd::std_specs::convert::FromSpecImpl;

verus! {

/// An index into the register file of a function.
///
/// Non-negative indices name the locals and the temporaries of a function,
/// negative indices name the entries of its constant pool: the register with
/// index `-1 - k` holds the constant with handle `k`.
#[derive(Clone, Copy, Debug, PartialEq, Eq, Structural, Hash)]
pub struct Register(pub i16);

impl Register {
    /// The register with the given index.
    pub fn from_i16(index: i16) -> (r: Register)
        ensures
            r == Register(index),
    {
        Register(index)
    }

    /// The index of this register.
    pub fn to_i16(self) -> (r: i16)
        ensures
            r == self.0,
    {
        self.0
    }

    /// Whether this register names an entry of the constant pool.
    pub fn is_const(self) -> (r: bool)
        ensures
            r == (self.0 < 0),
    {
        self.0 < 0
    }

    /// The register that follows this one.
    pub fn next(self) -> (r: Register)
        requires
            self.0 < i16::MAX,
        ensures
            r == Register((self.0 + 1) as i16),
    {
        Register(self.0 + 1)
    }
}

impl From<i16> for Register {
    fn from(index: i16) -> (r: Register) {
        Register(index)
    }
}

impl FromSpecImpl<i16> for Register {
    open spec fn obeys_from_spec() -> bool {
        true
    }

    open spec fn from_spec(index: i16) -> Register {
        Register(index)
    }
}

/// A run of registers with ascending, consecutive indices, known by its
/// first register. Its length is kept by whoever uses it.
#[derive(Clone, Copy, Debug, PartialEq, Eq, Structural, Hash)]
pub struct RegSpan {
    /// The first register of the run.
    pub head: Register,
}

impl RegSpan {
    /// The span that starts at `head`.
    pub fn new(head: Register) -> (r: RegSpan)
        ensures
            r.head == head,
    {
        RegSpan { head }
    }

    /// The first register of the span.
    pub fn head(self) -> (r: Register)
        ensures
            r == self.head,
    {
        self.head
    }

    /// The index of the `n`-th register of the span.
    pub open spec fn at(self, n: int) -> int {
        self.head.0 + n
    }

    /// The first `len` registers of the span.
    pub fn iter_u16(self, len: u16) -> (r: RegSpanIter)
        requires
            self.head.0 + len <= i16::MAX,
        ensures
            r.wf(),
            r.next == self.head,
            r.spec_len() == len,
    {
        let last: i32 = self.head.0 as i32 + len as i32;
        RegSpanIter { next: self.head, last: Register(last as i16) }
    }
}

impl RegSpan {
    /// The first `len` registers of the span, where they are registers.
    pub fn iter(self, len: usize) -> (r: RegSpanIter)
        requires
            self.head.0 + len <= i16::MAX,
        ensures
            r == (RegSpanIter { next: self.head, last: Register((self.head.0 + len) as i16) }),
            r.wf(),
            r.spec_len() == len,
    {
        let last: i64 = self.head.0 as i64 + len as i64;
        RegSpanIter { next: self.head, last: Register(last as i16) }
    }
}

/// The registers of a span of known length: those from `next` up to, but
/// without, `last`.
#[derive(Clone, Copy, Debug, PartialEq, Eq, Structural, Hash)]
pub struct RegSpanIter {
    /// The first register of the run.
    pub next: Register,
    /// The register after the last one of the run.
    pub last: Register,
}

/// Whether copying the `len` registers from index `src` on to those from
/// index `dst` on, one by one in ascending order, overwrites a source
/// register before it has been read.
pub open spec fn copy_overlaps(dst: int, src: int, len: int) -> bool {
    src < dst < src + len
}

impl RegSpanIter {
    /// The bounds are in order.
    pub open spec fn wf(self) -> bool {
        self.next.0 <= self.last.0
    }

    /// The number of registers in the run.
    pub open spec fn spec_len(self) -> int {
        self.last.0 - self.next.0
    }

    /// The number of registers in the run.
    pub fn len(self) -> (r: usize)
        requires
            self.wf(),
        ensures
            r == self.spec_len(),
    {
        (self.last.0 as i32 - self.next.0 as i32) as usize
    }

    /// The number of registers in the run.
    pub fn len_as_u16(self) -> (r: u16)
        requires
            self.wf(),
        ensures
            r == self.spec_len(),
    {
        (self.last.0 as i32 - self.next.0 as i32) as u16
    }

    /// Whether the run holds no register.
    pub fn is_empty(self) -> (r: bool)
        requires
            self.wf(),
        ensures
            r == (self.spec_len() == 0),
    {
        self.next.0 == self.last.0
    }

    /// The span that the run starts.
    pub fn span(self) -> (r: RegSpan)
        ensures
            r.head == self.next,
    {
        RegSpan { head: self.next }
    }

    /// The `n`-th register of the run.
    pub fn get(self, n: usize) -> (r: Register)
        requires
            self.wf(),
            n < self.spec_len(),
        ensures
            r.0 == self.next.0 + n,
    {
        Register((self.next.0 as i32 + n as i32) as i16)
    }

    /// Whether copying `values` to `results` register by register, in
    /// ascending order, overwrites a value before it has been copied.
    pub fn has_overlapping_copies(results: RegSpanIter, values: RegSpanIter) -> (r: bool)
        requires
            results.wf(),
            values.wf(),
            results.spec_len() == values.spec_len(),
        ensures
            r == copy_overlaps(results.next.0 as int, values.next.0 as int, results.spec_len()),
    {
        let len = results.len();
        if len <= 1 {
            return false;
        }
        let first_value = values.next.0;
        let first_result = results.next.0;
        if first_value >= first_result {
            return false;
        }
        let last_value = values.last.0 - 1;
        last_value >= first_result
    }
}

/// A constant that fits in 16 bits. How the bits are read, as a signed or
/// as an unsigned number, is up to the instruction that holds them.
#[derive(Clone, Copy, Debug, PartialEq, Eq, Structural, Hash)]
pub struct Const16(pub i16);

impl Const16 {
    /// The constant for a signed 32-bit number, if it fits.
    pub fn from_i32(value: i32) -> (r: Option<Const16>)
        ensures
            r == if i16::MIN <= value <= i16::MAX {
                Some(Const16(value as i16))
            } else {
                None
            },
    {
        if -32768 <= value && value <= 32767 {
            Some(Const16(value as i16))
        } else {
            None
        }
    }

    /// The constant for a signed 64-bit number, if it fits.
    pub fn from_i64(value: i64) -> (r: Option<Const16>)
        ensures
            r == if i16::MIN <= value <= i16::MAX {
                Some(Const16(value as i16))
            } else {
                None
            },
    {
        if -32768 <= value && value <= 32767 {
            Some(Const16(value as i16))
        } else {
            None
        }
    }

    /// The constant for an unsigned 32-bit number, if it fits.
    pub fn from_u32(value: u32) -> (r: Option<Const16>)
        ensures
            r == if value <= u16::MAX {
                Some(Const16((value as u16) as i16))
            } else {
                None
            },
    {
        if value <= 65535 {
            let low: u16 = value as u16;
            Some(Const16(#[verifier::truncate] (low as i16)))
        } else {
            None
        }
    }

    /// The constant for an unsigned 64-bit number, if it fits.
    pub fn from_u64(value: u64) -> (r: Option<Const16>)
        ensures
            r == if value <= u16::MAX {
                Some(Const16((value as u16) as i16))
            } else {
                None
            },
    {
        if value <= 65535 {
            let low: u16 = value as u16;
            Some(Const16(#[verifier::truncate] (low as i16)))
        } else {
            None
        }
    }

    /// The word of the constant read as a signed 32-bit number.
    pub open spec fn i32_word(self) -> u64 {
        ((self.0 as i32) as u32) as u64
    }

    /// The word of the constant read as an unsigned number.
    pub open spec fn unsigned_word(self) -> u64 {
        (self.0 as u16) as u64
    }

    /// The word of the constant read as a signed 64-bit number.
    pub open spec fn i64_word(self) -> u64 {
        (self.0 as i64) as u64
    }

    /// Computes [`Self::i32_word`].
    pub fn to_i32_word(self) -> (r: u64)
        ensures
            r == self.i32_word(),
    {
        let wide: i32 = self.0 as i32;
        (#[verifier::truncate] (wide as u32)) as u64
    }

    /// Computes [`Self::unsigned_word`].
    pub fn to_unsigned_word(self) -> (r: u64)
        ensures
            r == self.unsigned_word(),
    {
        (#[verifier::truncate] (self.0 as u16)) as u64
    }

    /// Computes [`Self::i64_word`].
    pub fn to_i64_word(self) -> (r: u64)
        ensures
            r == self.i64_word(),
    {
        let wide: i64 = self.0 as i64;
        #[verifier::truncate] (wide as u64)
    }
}

} // verus!
