//! The operand stack of the translator: the providers of the operands that
//! the translated code has on its stack at the current point.
//!
//! Every position of the stack owns one temporary register: the position
//! `p` owns the register `len_locals + p`. A provider on the stack is a
//! constant, the register of a local, or the temporary of its own position.

use vstd::prelude::*;
use crate::const_pool::{interned, ConstPool, MAX_CONSTS};
use crate::error::TranslationError;
use crate::register::{RegSpan, Register};
use crate::value::TypedProvider;

verus! {

/// The most registers that the locals and the temporaries of a function
/// can take: one less than there are indices that are not negative, so
/// that the end of every span of registers has an index too.
pub const MAX_REGISTERS: usize = 32767;

/// The operand stack as a mathematical value.
pub struct ValueStackView {
    /// The providers, from the bottom of the stack to its top.
    pub providers: Seq<TypedProvider>,
    /// The number of locals of the function, parameters included.
    pub len_locals: nat,
    /// The greatest height that the stack has had.
    pub max_height: nat,
    /// The constants that instructions refer to by register.
    pub consts: Seq<u64>,
}

impl ValueStackView {
    /// The number of providers on the stack.
    pub open spec fn height(self) -> nat {
        self.providers.len()
    }

    /// The temporary register that the position `pos` owns.
    pub open spec fn dynamic(self, pos: int) -> Register {
        Register((self.len_locals + pos) as i16)
    }

    /// Whether `register` is the register of a local.
    pub open spec fn is_local(self, register: Register) -> bool {
        0 <= register.0 < self.len_locals
    }

    /// Whether `provider` may stand at the position `pos`.
    pub open spec fn in_place(self, provider: TypedProvider, pos: int) -> bool {
        match provider {
            TypedProvider::Const(_) => true,
            TypedProvider::Register(r) => self.is_local(r) || (r == self.dynamic(pos) && self.len_locals
                + pos < MAX_REGISTERS),
        }
    }

    /// The invariant of the stack.
    pub open spec fn wf(self) -> bool {
        &&& self.len_locals <= MAX_REGISTERS
        &&& self.height() <= self.max_height
        &&& forall|i: int| 0 <= i < self.height() ==> self.in_place(#[trigger] self.providers[i], i)
        &&& self.consts.no_duplicates()
        &&& self.consts.len() <= MAX_CONSTS
    }

    /// The stack with `provider` on top.
    pub open spec fn push(self, provider: TypedProvider) -> ValueStackView {
        ValueStackView {
            providers: self.providers.push(provider),
            max_height: if self.height() + 1 > self.max_height {
                self.height() + 1
            } else {
                self.max_height
            },
            ..self
        }
    }

    /// The stack with the providers of `more` on top, the last topmost.
    pub open spec fn push_all(self, more: Seq<TypedProvider>) -> ValueStackView {
        ValueStackView {
            providers: self.providers + more,
            max_height: if self.height() + more.len() > self.max_height {
                self.height() + more.len()
            } else {
                self.max_height
            },
            ..self
        }
    }

    /// Whether the `n` positions above the top own registers, and the first
    /// of them does even if `n` is zero.
    pub open spec fn can_alloc(self, n: nat) -> bool {
        &&& self.len_locals + self.height() + n <= MAX_REGISTERS
        &&& self.len_locals + self.height() < MAX_REGISTERS
    }

    /// The temporaries of the `n` positions from `pos` on.
    pub open spec fn dynamics(self, pos: int, n: nat) -> Seq<TypedProvider> {
        Seq::new(n, |i: int| TypedProvider::Register(self.dynamic(pos + i)))
    }

    /// Pushes the temporary of the next position.
    pub open spec fn push_dynamic(self) -> Result<(ValueStackView, Register), TranslationError> {
        if self.can_alloc(1) {
            let r = self.dynamic(self.height() as int);
            Ok((self.push(TypedProvider::Register(r)), r))
        } else {
            Err(TranslationError::AllocatedTooManyRegisters)
        }
    }

    /// Pushes the temporaries of the next `n` positions.
    pub open spec fn push_dynamic_n(self, n: nat) -> Result<(ValueStackView, RegSpan), TranslationError> {
        if self.can_alloc(n) {
            Ok(
                (
                    self.push_all(self.dynamics(self.height() as int, n)),
                    RegSpan { head: self.dynamic(self.height() as int) },
                ),
            )
        } else {
            Err(TranslationError::AllocatedTooManyRegisters)
        }
    }

    /// Reserves the temporaries of the next `n` positions without pushing
    /// them.
    pub open spec fn peek_dynamic_n(self, n: nat) -> Result<(ValueStackView, RegSpan), TranslationError> {
        if self.can_alloc(n) {
            Ok(
                (
                    ValueStackView {
                        max_height: if self.height() + n > self.max_height {
                            self.height() + n
                        } else {
                            self.max_height
                        },
                        ..self
                    },
                    RegSpan { head: self.dynamic(self.height() as int) },
                ),
            )
        } else {
            Err(TranslationError::AllocatedTooManyRegisters)
        }
    }

    /// Reserves the temporaries of the `n` positions from `base` on, a
    /// position of the stack or the next one, without changing the stack.
    pub open spec fn reserve_dynamic_n(self, base: nat, n: nat) -> Result<(ValueStackView, RegSpan), TranslationError> {
        if self.len_locals + base + n <= MAX_REGISTERS && self.len_locals + base < MAX_REGISTERS {
            Ok(
                (
                    ValueStackView {
                        max_height: if base + n > self.max_height {
                            base + n
                        } else {
                            self.max_height
                        },
                        ..self
                    },
                    RegSpan { head: self.dynamic(base as int) },
                ),
            )
        } else {
            Err(TranslationError::AllocatedTooManyRegisters)
        }
    }

    /// The provider on top of the stack.
    pub open spec fn top(self) -> TypedProvider {
        self.providers[self.height() - 1]
    }

    /// The stack cut down to the height `height`.
    pub open spec fn trunc(self, height: int) -> ValueStackView {
        ValueStackView { providers: self.providers.subrange(0, height), ..self }
    }

    /// The stack without its `n` topmost providers.
    pub open spec fn drop_n(self, n: int) -> ValueStackView {
        self.trunc(self.height() - n)
    }

    /// The `n` topmost providers, the topmost last.
    pub open spec fn peek_n(self, n: int) -> Seq<TypedProvider> {
        self.providers.subrange(self.height() - n, self.height() as int)
    }

    /// Interns a constant and names the register that holds it.
    pub open spec fn alloc_const(self, value: u64) -> Result<(ValueStackView, Register), TranslationError> {
        match interned(self.consts, value) {
            Ok((consts, cref)) => Ok((ValueStackView { consts, ..self }, cref.register())),
            Err(e) => Err(e),
        }
    }

    /// The register that holds `provider`, after interning it if it is a
    /// constant.
    pub open spec fn provider_register(self, provider: TypedProvider) -> Result<
        (ValueStackView, Register),
        TranslationError,
    > {
        match provider {
            TypedProvider::Register(r) => Ok((self, r)),
            TypedProvider::Const(v) => self.alloc_const(v.bits),
        }
    }

    /// Replaces the provider at `pos` by the temporary of that position.
    pub open spec fn preserve_at(self, pos: int) -> Result<(ValueStackView, Register), TranslationError> {
        if self.len_locals + pos < MAX_REGISTERS {
            Ok(
                (
                    ValueStackView {
                        providers: self.providers.update(pos, TypedProvider::Register(self.dynamic(pos))),
                        ..self
                    },
                    self.dynamic(pos),
                ),
            )
        } else {
            Err(TranslationError::AllocatedTooManyRegisters)
        }
    }
}

/// The operand stack of the translator.
#[derive(Debug)]
pub struct ValueStack {
    providers: Vec<TypedProvider>,
    len_locals: usize,
    max_height: usize,
    consts: ConstPool,
}

impl View for ValueStack {
    type V = ValueStackView;

    closed spec fn view(&self) -> ValueStackView {
        ValueStackView {
            providers: self.providers@,
            len_locals: self.len_locals as nat,
            max_height: self.max_height as nat,
            consts: self.consts@,
        }
    }
}

impl ValueStack {
    /// The invariant of the stack.
    pub open spec fn wf(&self) -> bool {
        self@.wf()
    }

    /// The empty stack of a function with `len_locals` locals, parameters
    /// included. Fails if the locals outnumber the registers.
    pub fn new(len_locals: usize) -> (r: Result<ValueStack, TranslationError>)
        ensures
            len_locals > MAX_REGISTERS ==> r == Err::<ValueStack, TranslationError>(
                TranslationError::AllocatedTooManyRegisters,
            ),
            len_locals <= MAX_REGISTERS ==> r is Ok && r->Ok_0.wf() && r->Ok_0@ == (ValueStackView {
                providers: Seq::empty(),
                len_locals: len_locals as nat,
                max_height: 0,
                consts: Seq::empty(),
            }),
    {
        if len_locals > MAX_REGISTERS {
            return Err(TranslationError::AllocatedTooManyRegisters);
        }
        Ok(ValueStack { providers: Vec::new(), len_locals, max_height: 0, consts: ConstPool::new() })
    }

    /// The number of providers on the stack.
    pub fn height(&self) -> (r: usize)
        ensures
            r == self@.height(),
    {
        self.providers.len()
    }

    /// The number of locals of the function.
    pub fn len_locals(&self) -> (r: usize)
        ensures
            r == self@.len_locals,
    {
        self.len_locals
    }

    /// The greatest height that the stack has had.
    pub fn max_height(&self) -> (r: usize)
        ensures
            r == self@.max_height,
    {
        self.max_height
    }

    /// The constants that registers refer to.
    pub fn consts(&self) -> (r: &ConstPool)
        ensures
            r@ == self@.consts,
    {
        &self.consts
    }

    /// Whether `register` is the register of a local.
    pub fn is_local(&self, register: Register) -> (r: bool)
        ensures
            r == self@.is_local(register),
    {
        0 <= register.0 && (register.0 as usize) < self.len_locals
    }

    /// The provider at the position `pos`, counted from the bottom.
    pub fn get(&self, pos: usize) -> (r: TypedProvider)
        requires
            pos < self@.height(),
        ensures
            r == self@.providers[pos as int],
    {
        self.providers[pos]
    }

    fn bump_max_height(&mut self, height: usize)
        ensures
            final(self).providers == old(self).providers,
            final(self).len_locals == old(self).len_locals,
            final(self).consts == old(self).consts,
            final(self).max_height == if height > old(self).max_height {
                height
            } else {
                old(self).max_height
            },
    {
        if height > self.max_height {
            self.max_height = height;
        }
    }

    /// Pushes a provider that may stand at the next position.
    pub fn push_provider(&mut self, provider: TypedProvider)
        requires
            old(self).wf(),
            old(self)@.in_place(provider, old(self)@.height() as int),
        ensures
            final(self).wf(),
            final(self)@ == old(self)@.push(provider),
    {
        self.providers.push(provider);
        let h = self.providers.len();
        self.bump_max_height(h);
    }

    /// Pushes the register of the local with the index `local_index`.
    pub fn push_local(&mut self, local_index: u32)
        requires
            old(self).wf(),
            local_index < old(self)@.len_locals,
        ensures
            final(self).wf(),
            final(self)@ == old(self)@.push(TypedProvider::Register(Register(local_index as i16))),
    {
        self.push_provider(TypedProvider::Register(Register(local_index as i16)));
    }

    /// Pushes a register that may stand at the next position.
    pub fn push_register(&mut self, register: Register)
        requires
            old(self).wf(),
            old(self)@.in_place(TypedProvider::Register(register), old(self)@.height() as int),
        ensures
            final(self).wf(),
            final(self)@ == old(self)@.push(TypedProvider::Register(register)),
    {
        self.push_provider(TypedProvider::Register(register));
    }

    /// Pushes a constant.
    pub fn push_const(&mut self, value: crate::value::TypedValue)
        requires
            old(self).wf(),
        ensures
            final(self).wf(),
            final(self)@ == old(self)@.push(TypedProvider::Const(value)),
    {
        self.push_provider(TypedProvider::Const(value));
    }

    /// Whether the `n` positions above the top own registers.
    pub fn can_alloc(&self, n: usize) -> (r: bool)
        requires
            self.wf(),
        ensures
            r == self@.can_alloc(n as nat),
    {
        let h = self.providers.len();
        h < MAX_REGISTERS && n <= MAX_REGISTERS && self.len_locals + h < MAX_REGISTERS && self.len_locals
            + h + n <= MAX_REGISTERS
    }

    /// Pushes the temporary of the next position and returns it.
    pub fn push_dynamic(&mut self) -> (r: Result<Register, TranslationError>)
        requires
            old(self).wf(),
        ensures
            match old(self)@.push_dynamic() {
                Ok((stack, register)) => r == Ok::<Register, TranslationError>(register) && final(self)@
                    == stack && final(self).wf(),
                Err(e) => r == Err::<Register, TranslationError>(e),
            },
    {
        if !self.can_alloc(1) {
            return Err(TranslationError::AllocatedTooManyRegisters);
        }
        let register = Register((self.len_locals + self.providers.len()) as i16);
        self.push_provider(TypedProvider::Register(register));
        Ok(register)
    }

    /// Pushes the temporaries of the next `n` positions and returns their
    /// span.
    pub fn push_dynamic_n(&mut self, n: usize) -> (r: Result<RegSpan, TranslationError>)
        requires
            old(self).wf(),
        ensures
            match old(self)@.push_dynamic_n(n as nat) {
                Ok((stack, span)) => r == Ok::<RegSpan, TranslationError>(span) && final(self)@ == stack
                    && final(self).wf(),
                Err(e) => r == Err::<RegSpan, TranslationError>(e),
            },
    {
        if !self.can_alloc(n) {
            return Err(TranslationError::AllocatedTooManyRegisters);
        }
        let h = self.providers.len();
        let head = Register((self.len_locals + h) as i16);
        let mut i: usize = 0;
        while i < n
            invariant
                i <= n,
                self.wf(),
                old(self).wf(),
                old(self)@.can_alloc(n as nat),
                h == old(self)@.height(),
                self@ == old(self)@.push_all(old(self)@.dynamics(h as int, i as nat)),
            decreases n - i,
        {
            let register = Register((self.len_locals + h + i) as i16);
            proof {
                assert(self@.height() == h + i);
                assert(register == self@.dynamic(h + i));
            }
            self.push_provider(TypedProvider::Register(register));
            proof {
                let v = old(self)@;
                assert(v.dynamics(h as int, (i + 1) as nat) =~= v.dynamics(h as int, i as nat).push(
                    TypedProvider::Register(register),
                ));
                assert(self@.providers =~= v.providers + v.dynamics(h as int, (i + 1) as nat));
            }
            i += 1;
        }
        Ok(RegSpan { head })
    }

    /// Reserves the temporaries of the next `n` positions, without pushing
    /// them, and returns their span.
    pub fn peek_dynamic_n(&mut self, n: usize) -> (r: Result<RegSpan, TranslationError>)
        requires
            old(self).wf(),
        ensures
            match old(self)@.peek_dynamic_n(n as nat) {
                Ok((stack, span)) => r == Ok::<RegSpan, TranslationError>(span) && final(self)@ == stack
                    && final(self).wf(),
                Err(e) => r == Err::<RegSpan, TranslationError>(e),
            },
    {
        if !self.can_alloc(n) {
            return Err(TranslationError::AllocatedTooManyRegisters);
        }
        let h = self.providers.len();
        let head = Register((self.len_locals + h) as i16);
        self.bump_max_height(h + n);
        Ok(RegSpan { head })
    }

    /// Reserves the temporaries of the `n` positions from `base` on,
    /// without changing the stack, and returns their span.
    pub fn reserve_dynamic_n(&mut self, base: usize, n: usize) -> (r: Result<RegSpan, TranslationError>)
        requires
            old(self).wf(),
            base <= old(self)@.height(),
        ensures
            match old(self)@.reserve_dynamic_n(base as nat, n as nat) {
                Ok((stack, span)) => r == Ok::<RegSpan, TranslationError>(span) && final(self)@ == stack
                    && final(self).wf(),
                Err(e) => r == Err::<RegSpan, TranslationError>(e),
            },
    {
        if base >= MAX_REGISTERS || n > MAX_REGISTERS || self.len_locals + base >= MAX_REGISTERS
            || self.len_locals + base + n > MAX_REGISTERS {
            return Err(TranslationError::AllocatedTooManyRegisters);
        }
        let head = Register((self.len_locals + base) as i16);
        self.bump_max_height(base + n);
        Ok(RegSpan { head })
    }

    /// Pushes the providers of `more`, each of which may stand at the
    /// position that it gets.
    pub fn push_n(&mut self, more: &Vec<TypedProvider>)
        requires
            old(self).wf(),
            forall|i: int| 0 <= i < more@.len() ==> old(self)@.in_place(#[trigger] more@[i], old(self)@.height() + i),
        ensures
            final(self).wf(),
            final(self)@ == old(self)@.push_all(more@),
    {
        let n = more.len();
        let ghost h = self@.height();
        let mut i: usize = 0;
        assert(self@.providers =~= old(self)@.providers + more@.take(0));
        while i < n
            invariant
                i <= n,
                n == more.len(),
                self.wf(),
                old(self).wf(),
                h == old(self)@.height(),
                forall|j: int| 0 <= j < more@.len() ==> old(self)@.in_place(#[trigger] more@[j], h + j),
                self@ == old(self)@.push_all(more@.take(i as int)),
            decreases n - i,
        {
            assert(old(self)@.in_place(more@[i as int], h + i));
            self.push_provider(more[i]);
            proof {
                assert(more@.take(i + 1) =~= more@.take(i as int).push(more@[i as int]));
                assert(self@.providers =~= old(self)@.providers + more@.take(i + 1));
            }
            i += 1;
        }
        assert(more@.take(n as int) =~= more@);
    }

    /// Pops the provider on top of the stack.
    pub fn pop(&mut self) -> (r: TypedProvider)
        requires
            old(self).wf(),
            old(self)@.height() >= 1,
        ensures
            final(self).wf(),
            r == old(self)@.top(),
            final(self)@ == old(self)@.drop_n(1),
    {
        let r = self.providers.pop();
        r.unwrap()
    }

    /// The provider on top of the stack.
    pub fn top_provider(&self) -> (r: TypedProvider)
        requires
            self@.height() >= 1,
        ensures
            r == self@.top(),
    {
        self.providers[self.providers.len() - 1]
    }

    /// The two topmost providers; the topmost comes second.
    pub fn top2(&self) -> (r: (TypedProvider, TypedProvider))
        requires
            self@.height() >= 2,
        ensures
            r.0 == self@.providers[self@.height() - 2],
            r.1 == self@.providers[self@.height() - 1],
    {
        let h = self.providers.len();
        (self.providers[h - 2], self.providers[h - 1])
    }

    /// The three topmost providers; the topmost comes third.
    pub fn top3(&self) -> (r: (TypedProvider, TypedProvider, TypedProvider))
        requires
            self@.height() >= 3,
        ensures
            r.0 == self@.providers[self@.height() - 3],
            r.1 == self@.providers[self@.height() - 2],
            r.2 == self@.providers[self@.height() - 1],
    {
        let h = self.providers.len();
        (self.providers[h - 3], self.providers[h - 2], self.providers[h - 1])
    }

    /// Pops the two topmost providers; the topmost comes second.
    pub fn pop2(&mut self) -> (r: (TypedProvider, TypedProvider))
        requires
            old(self).wf(),
            old(self)@.height() >= 2,
        ensures
            final(self).wf(),
            r.0 == old(self)@.providers[old(self)@.height() - 2],
            r.1 == old(self)@.providers[old(self)@.height() - 1],
            final(self)@ == old(self)@.drop_n(2),
    {
        let b = self.pop();
        let a = self.pop();
        assert(self@.providers =~= old(self)@.drop_n(2).providers);
        (a, b)
    }

    /// Pops the three topmost providers; the topmost comes third.
    pub fn pop3(&mut self) -> (r: (TypedProvider, TypedProvider, TypedProvider))
        requires
            old(self).wf(),
            old(self)@.height() >= 3,
        ensures
            final(self).wf(),
            r.0 == old(self)@.providers[old(self)@.height() - 3],
            r.1 == old(self)@.providers[old(self)@.height() - 2],
            r.2 == old(self)@.providers[old(self)@.height() - 1],
            final(self)@ == old(self)@.drop_n(3),
    {
        let c = self.pop();
        let b = self.pop();
        let a = self.pop();
        assert(self@.providers =~= old(self)@.drop_n(3).providers);
        (a, b, c)
    }

    /// Copies the `n` topmost providers to `out`, the topmost last.
    pub fn peek_n(&self, n: usize, out: &mut Vec<TypedProvider>)
        requires
            self@.height() >= n,
        ensures
            final(out)@ == self@.peek_n(n as int),
    {
        out.clear();
        let h = self.providers.len();
        let mut i: usize = h - n;
        while i < h
            invariant
                h == self.providers.len(),
                n <= h,
                h - n <= i <= h,
                out@ == self.providers@.subrange(h - n, i as int),
            decreases h - i,
        {
            out.push(self.providers[i]);
            assert(out@ =~= self.providers@.subrange(h - n, i + 1));
            i += 1;
        }
    }

    /// Moves the `n` topmost providers to `out`, the topmost last.
    pub fn pop_n(&mut self, n: usize, out: &mut Vec<TypedProvider>)
        requires
            old(self).wf(),
            old(self)@.height() >= n,
        ensures
            final(self).wf(),
            final(out)@ == old(self)@.peek_n(n as int),
            final(self)@ == old(self)@.drop_n(n as int),
    {
        self.peek_n(n, out);
        let h = self.providers.len();
        self.providers.truncate(h - n);
    }

    /// Cuts the stack down to the height `height`.
    pub fn trunc(&mut self, height: usize)
        requires
            old(self).wf(),
            height <= old(self)@.height(),
        ensures
            final(self).wf(),
            final(self)@ == old(self)@.trunc(height as int),
    {
        self.providers.truncate(height);
    }

    /// Interns the constant `value` and returns the register that holds it
    /// at run time.
    pub fn alloc_const(&mut self, value: u64) -> (r: Result<Register, TranslationError>)
        requires
            old(self).wf(),
        ensures
            match old(self)@.alloc_const(value) {
                Ok((stack, register)) => r == Ok::<Register, TranslationError>(register) && final(self)@
                    == stack && final(self).wf(),
                Err(e) => r == Err::<Register, TranslationError>(e),
            },
    {
        match self.consts.intern(value) {
            Ok(cref) => Ok(cref.to_register()),
            Err(e) => Err(e),
        }
    }

    /// The register that holds `provider`, after interning it if it is a
    /// constant.
    pub fn provider_register(&mut self, provider: TypedProvider) -> (r: Result<Register, TranslationError>)
        requires
            old(self).wf(),
        ensures
            match old(self)@.provider_register(provider) {
                Ok((stack, register)) => r == Ok::<Register, TranslationError>(register) && final(self)@
                    == stack && final(self).wf(),
                Err(e) => r == Err::<Register, TranslationError>(e),
            },
    {
        match provider {
            TypedProvider::Register(register) => Ok(register),
            TypedProvider::Const(value) => self.alloc_const(value.bits),
        }
    }

    /// Replaces the provider at the position `pos` by the temporary that
    /// the position owns, and returns that temporary.
    pub fn preserve_at(&mut self, pos: usize) -> (r: Result<Register, TranslationError>)
        requires
            old(self).wf(),
            pos < old(self)@.height(),
        ensures
            match old(self)@.preserve_at(pos as int) {
                Ok((stack, register)) => r == Ok::<Register, TranslationError>(register) && final(self)@
                    == stack && final(self).wf(),
                Err(e) => r == Err::<Register, TranslationError>(e),
            },
    {
        if pos >= MAX_REGISTERS || self.len_locals + pos >= MAX_REGISTERS {
            return Err(TranslationError::AllocatedTooManyRegisters);
        }
        let register = Register((self.len_locals + pos) as i16);
        self.providers[pos] = TypedProvider::Register(register);
        Ok(register)
    }

    /// Hands out the constants when the function is complete.
    pub fn into_consts(self) -> (r: ConstPool)
        ensures
            r@ == self@.consts,
            self.wf() ==> r.wf(),
    {
        self.consts
    }
}

} // verus!
