//! The constant pool: a store of 64-bit constants in which every value
//! occurs once, each known by a small handle.

use vstd::prelude::*;
use crate::error::TranslationError;
use crate::register::Register;

verus! {

/// The handle of a constant in a [`ConstPool`]: its position in the pool.
#[derive(Clone, Copy, Debug, PartialEq, Eq, Structural, Hash)]
pub struct ConstRef(pub u16);

/// The most constants that a pool can hold: as many as there are negative
/// register indices.
pub const MAX_CONSTS: usize = 32768;

impl ConstRef {
    /// The register that holds the constant at run time.
    pub open spec fn register(self) -> Register {
        Register((-1 - self.0) as i16)
    }

    /// Computes [`Self::register`].
    pub fn to_register(self) -> (r: Register)
        requires
            self.0 < MAX_CONSTS,
        ensures
            r == self.register(),
    {
        Register((-1 - self.0 as i32) as i16)
    }

    /// The handle of the constant that a register with a negative index
    /// holds.
    pub fn from_register(register: Register) -> (r: ConstRef)
        requires
            register.0 < 0,
        ensures
            r.register() == register,
            r.0 == -1 - register.0,
    {
        ConstRef((-1 - register.0 as i32) as u16)
    }
}

/// What interning `value` makes of the pool `pool`: the pool afterwards and
/// the handle of the value, or the error if the pool is full.
pub open spec fn interned(pool: Seq<u64>, value: u64) -> Result<(Seq<u64>, ConstRef), TranslationError> {
    if pool.contains(value) {
        Ok((pool, ConstRef(pool.index_of(value) as u16)))
    } else if pool.len() >= MAX_CONSTS {
        Err(TranslationError::TooManyFuncLocalConstValues)
    } else {
        Ok((pool.push(value), ConstRef(pool.len() as u16)))
    }
}

/// A pool of constants without duplicates.
#[derive(Debug)]
pub struct ConstPool {
    values: Vec<u64>,
}

impl View for ConstPool {
    type V = Seq<u64>;

    closed spec fn view(&self) -> Seq<u64> {
        self.values@
    }
}

impl ConstPool {
    /// No value occurs twice, and every handle fits a register index.
    pub open spec fn wf(&self) -> bool {
        &&& self@.no_duplicates()
        &&& self@.len() <= MAX_CONSTS
    }

    /// The empty pool.
    pub fn new() -> (r: ConstPool)
        ensures
            r.wf(),
            r@ == Seq::<u64>::empty(),
    {
        ConstPool { values: Vec::new() }
    }

    /// The number of constants in the pool.
    pub fn len(&self) -> (r: usize)
        ensures
            r == self@.len(),
    {
        self.values.len()
    }

    /// Interns `value`: returns the handle that the pool has for it, after
    /// adding it to the pool if it is new.
    pub fn intern(&mut self, value: u64) -> (r: Result<ConstRef, TranslationError>)
        requires
            old(self).wf(),
        ensures
            final(self).wf(),
            match interned(old(self)@, value) {
                Ok((pool, cref)) => r == Ok::<ConstRef, TranslationError>(cref) && final(self)@ == pool,
                Err(e) => r == Err::<ConstRef, TranslationError>(e) && final(self)@ == old(self)@,
            },
            r matches Ok(cref) ==> cref.0 < final(self)@.len() && final(self)@[cref.0 as int] == value,
    {
        let n = self.values.len();
        let mut i: usize = 0;
        while i < n
            invariant
                n == self.values.len(),
                i <= n,
                self.values == old(self).values,
                old(self).wf(),
                forall|j: int| 0 <= j < i ==> self.values@[j] != value,
            decreases n - i,
        {
            if self.values[i] == value {
                proof {
                    let s = self.values@;
                    assert(s.contains(value));
                    let k = s.index_of(value);
                    assert(s[k] == value && s[i as int] == value);
                }
                return Ok(ConstRef(i as u16));
            }
            i += 1;
        }
        assert(!self.values@.contains(value));
        if n >= MAX_CONSTS {
            return Err(TranslationError::TooManyFuncLocalConstValues);
        }
        self.values.push(value);
        proof {
            let s = old(self).values@;
            let t = self.values@;
            assert forall|a: int, b: int| 0 <= a < t.len() && 0 <= b < t.len() && a != b implies t[a] != t[b] by {
                if a < s.len() && b < s.len() {
                    assert(s[a] != s[b]);
                } else if a < s.len() {
                    assert(s[a] != value);
                } else {
                    assert(s[b] != value);
                }
            }
        }
        Ok(ConstRef(n as u16))
    }

    /// The constant with the handle `cref`, if the pool has one.
    pub fn resolve(&self, cref: ConstRef) -> (r: Option<u64>)
        ensures
            r == if cref.0 < self@.len() {
                Some(self@[cref.0 as int])
            } else {
                None
            },
    {
        let index = cref.0 as usize;
        if index < self.values.len() {
            Some(self.values[index])
        } else {
            None
        }
    }

    /// Hands out the constants of the pool, in the order of their handles.
    pub fn into_values(self) -> (r: Vec<u64>)
        ensures
            r@ == self@,
    {
        self.values
    }

    /// The constants of the pool, in the order of their handles.
    pub fn values(&self) -> (r: &Vec<u64>)
        ensures
            r@ == self@,
    {
        &self.values
    }
}

/// Interning gives the same handle however often it is repeated: once a
/// value has been interned, interning it again returns the handle that it
/// got and leaves the pool as it is.
pub proof fn lemma_intern_idempotent(pool: Seq<u64>, value: u64)
    requires
        pool.no_duplicates(),
        pool.len() <= MAX_CONSTS,
    ensures
        interned(pool, value) matches Ok((after, cref)) ==> {
            &&& after.no_duplicates()
            &&& after.len() <= MAX_CONSTS
            &&& cref.0 < after.len()
            &&& after[cref.0 as int] == value
            &&& interned(after, value) == Ok::<(Seq<u64>, ConstRef), TranslationError>((after, cref))
        },
{
    if let Ok((after, cref)) = interned(pool, value) {
        if pool.contains(value) {
            let k = pool.index_of(value);
            assert(pool[k] == value);
        } else {
            assert(after[pool.len() as int] == value);
            assert(after.contains(value));
            let k = after.index_of(value);
            assert(after[k] == value);
            assert forall|a: int, b: int| 0 <= a < after.len() && 0 <= b < after.len() && a != b implies after[a] != after[b] by {
                if a < pool.len() && b < pool.len() {
                    assert(pool[a] != pool[b]);
                } else if a < pool.len() {
                    assert(pool.contains(pool[a]));
                } else {
                    assert(pool.contains(pool[b]));
                }
            }
            assert(k == pool.len());
        }
    }
}

/// Interning two different values gives two different handles.
pub proof fn lemma_intern_injective(pool: Seq<u64>, v: u64, w: u64)
    requires
        pool.no_duplicates(),
        pool.len() <= MAX_CONSTS,
        v != w,
    ensures
        match interned(pool, v) {
            Ok((p1, c1)) => match interned(p1, w) {
                Ok((p2, c2)) => c1 != c2,
                Err(_) => true,
            },
            Err(_) => true,
        },
{
    lemma_intern_idempotent(pool, v);
    if let Ok((p1, c1)) = interned(pool, v) {
        lemma_intern_idempotent(p1, w);
        if let Ok((p2, c2)) = interned(p1, w) {
            if p1.contains(w) {
                let k = p1.index_of(w);
                assert(p1[k] == w);
            }
        }
    }
}

} // verus!
