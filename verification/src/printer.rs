//! Human-readable names for the parts of an instruction.

use vstd::prelude::*;
use vstd::std_specs::convert::FromSpecImpl;
use vstd::string::StringExecFns;
use crate::const_pool::ConstRef;
use crate::engine::EngineInner;
use crate::instr::Instr;
use crate::register::{RegSpanIter, Register};

verus! {

/// The decimal digit, or the hexadecimal digit in upper case, for a number
/// below 16.
pub open spec fn digit(d: nat) -> char {
    if d < 10 {
        ('0' as u8 + d) as char
    } else {
        ('A' as u8 + (d - 10)) as char
    }
}

/// The decimal digits of `n`, without leading zeros.
pub open spec fn decimal_digits(n: nat) -> Seq<char>
    decreases n,
{
    if n < 10 {
        seq![digit(n)]
    } else {
        decimal_digits(n / 10).push(digit(n % 10))
    }
}

/// The hexadecimal digits of `n` in upper case, without leading zeros.
pub open spec fn hexadecimal_digits(n: nat) -> Seq<char>
    decreases n,
{
    if n < 16 {
        seq![digit(n)]
    } else {
        hexadecimal_digits(n / 16).push(digit(n % 16))
    }
}

/// The decimal digits of `value`, as the formatting of the standard
/// library writes an unsigned integer.
#[verifier::external_body]
fn decimal(value: u64) -> (r: String)
    ensures
        r@ == decimal_digits(value as nat),
{
    format!("{}", value)
}

/// The hexadecimal digits of `value` in upper case, as the formatting of
/// the standard library writes an unsigned integer with `{:X}`.
#[verifier::external_body]
fn hexadecimal(value: u64) -> (r: String)
    ensures
        r@ == hexadecimal_digits(value as nat),
{
    format!("{:X}", value)
}

/// The text of a signed number: its decimal digits, after a minus sign
/// if it is negative.
pub open spec fn signed_text(value: int) -> Seq<char> {
    if value < 0 {
        seq!['-'] + decimal_digits((-value) as nat)
    } else {
        decimal_digits(value as nat)
    }
}

/// The name of the register with the index `index`: `v` and the index.
pub open spec fn register_text(index: int) -> Seq<char> {
    seq!['v'] + signed_text(index)
}

/// The name of the constant `value`: `0x` and its hexadecimal digits.
pub open spec fn const_text(value: u64) -> Seq<char> {
    seq!['0', 'x'] + hexadecimal_digits(value as nat)
}

/// The names of the registers with the indices from `next` up to, but
/// without, `last`, each but the first after a comma and a space.
pub open spec fn registers_text(next: int, last: int) -> Seq<char>
    decreases last - next,
{
    if next >= last {
        Seq::empty()
    } else if next + 1 == last {
        register_text(next)
    } else {
        register_text(next) + seq![',', ' '] + registers_text(next + 1, last)
    }
}

/// Shows a register in a way that can be read.
#[derive(Debug)]
pub struct DisplayExecRegister {
    reg: Register,
}

impl From<Register> for DisplayExecRegister {
    fn from(reg: Register) -> (r: DisplayExecRegister) {
        DisplayExecRegister { reg }
    }
}

impl FromSpecImpl<Register> for DisplayExecRegister {
    open spec fn obeys_from_spec() -> bool {
        true
    }

    closed spec fn from_spec(reg: Register) -> DisplayExecRegister {
        DisplayExecRegister { reg }
    }
}

impl DisplayExecRegister {
    /// The register that is shown.
    pub closed spec fn register(&self) -> Register {
        self.reg
    }

    /// Shows the register with the index `index`.
    pub fn from_index(index: usize) -> (r: DisplayExecRegister)
        requires
            index <= i16::MAX,
        ensures
            r.register() == Register(index as i16),
    {
        DisplayExecRegister { reg: Register(index as i16) }
    }

    /// The text that shows the register: `v` and its index.
    pub fn to_string(&self) -> (r: String)
        ensures
            r@ == register_text(self.register().0 as int),
    {
        proof {
            reveal_strlit("v");
            reveal_strlit("v-");
        }
        let index = self.reg.0;
        if index >= 0 {
            let text = String::from_str("v").concat(decimal(index as u64).as_str());
            assert(text@ =~= register_text(index as int));
            text
        } else {
            let text = String::from_str("v-").concat(decimal((-(index as i32)) as u64).as_str());
            assert(text@ =~= register_text(index as int));
            text
        }
    }
}

/// Shows a constant of the engine in a way that can be read.
#[derive(Debug)]
pub struct DisplayConstRef<'engine> {
    engine: &'engine EngineInner,
    cref: ConstRef,
}

impl<'engine> DisplayConstRef<'engine> {
    /// The engine whose constant is shown.
    pub closed spec fn engine(&self) -> &EngineInner {
        self.engine
    }

    /// The handle of the constant that is shown.
    pub closed spec fn cref(&self) -> ConstRef {
        self.cref
    }

    /// Shows the constant of `engine` with the handle `cref`.
    pub fn new(engine: &'engine EngineInner, cref: ConstRef) -> (r: Self)
        ensures
            r.engine() == engine,
            r.cref() == cref,
    {
        Self { engine, cref }
    }

    /// Whether `engine` holds a constant with the handle `cref`.
    pub open spec fn resolves(engine: &EngineInner, cref: ConstRef) -> bool {
        cref.0 < engine.const_pool()@.len()
    }

    /// The text that shows the constant of `engine` with the handle `cref`:
    /// `0x` and the hexadecimal digits of its word.
    pub open spec fn text(engine: &EngineInner, cref: ConstRef) -> Seq<char>
        recommends
            Self::resolves(engine, cref),
    {
        const_text(engine.const_pool()@[cref.0 as int])
    }

    /// The text that shows the constant. A handle that the engine does not
    /// hold is not shown.
    pub fn to_string(&self) -> (r: String)
        requires
            Self::resolves(self.engine(), self.cref()),
        ensures
            r@ == Self::text(self.engine(), self.cref()),
    {
        proof {
            reveal_strlit("0x");
        }
        let value = self.engine.resolve_const(self.cref).unwrap();
        let text = String::from_str("0x").concat(hexadecimal(value).as_str());
        assert(text@ =~= const_text(value));
        text
    }
}

/// Shows an operand of an instruction, a register or a constant, in a way
/// that can be read.
#[derive(Debug)]
pub struct DisplayExecProvider<'engine> {
    engine: &'engine EngineInner,
    provider: Register,
}

impl<'engine> DisplayExecProvider<'engine> {
    /// The engine whose constants the operand may name.
    pub closed spec fn engine(&self) -> &EngineInner {
        self.engine
    }

    /// The operand that is shown.
    pub closed spec fn provider(&self) -> Register {
        self.provider
    }

    /// Shows the operand `provider` of an instruction of `engine`: a
    /// register, or with a negative index a constant.
    pub fn new(engine: &'engine EngineInner, provider: Register) -> (r: Self)
        ensures
            r.engine() == engine,
            r.provider() == provider,
    {
        Self { engine, provider }
    }

    /// The handle of the constant that the operand names, where its index
    /// is negative.
    pub open spec fn cref(&self) -> ConstRef {
        ConstRef((-1 - self.provider().0) as u16)
    }

    /// The text that shows the operand: that of the register, or, with a
    /// negative index, what [`DisplayConstRef`] shows for the constant.
    pub fn to_string(&self) -> (r: String)
        requires
            self.provider().0 < 0 ==> DisplayConstRef::resolves(self.engine(), self.cref()),
        ensures
            r@ == if self.provider().0 >= 0 {
                register_text(self.provider().0 as int)
            } else {
                DisplayConstRef::text(self.engine(), self.cref())
            },
    {
        if self.provider.0 >= 0 {
            DisplayExecRegister::from(self.provider).to_string()
        } else {
            DisplayConstRef::new(self.engine, ConstRef::from_register(self.provider)).to_string()
        }
    }
}

/// Shows the target of a branch in a way that can be read.
pub struct DisplayTarget {
    target: Instr,
}

impl From<Instr> for DisplayTarget {
    fn from(target: Instr) -> (r: DisplayTarget) {
        DisplayTarget { target }
    }
}

impl FromSpecImpl<Instr> for DisplayTarget {
    open spec fn obeys_from_spec() -> bool {
        true
    }

    closed spec fn from_spec(target: Instr) -> DisplayTarget {
        DisplayTarget { target }
    }
}

impl DisplayTarget {
    /// The target that is shown.
    pub closed spec fn target(&self) -> Instr {
        self.target
    }

    /// The text that shows the target: `#` and the position.
    pub fn to_string(&self) -> (r: String)
        ensures
            r@ == seq!['#'] + decimal_digits(self.target().0 as nat),
    {
        proof {
            reveal_strlit("#");
        }
        let text = String::from_str("#").concat(decimal(self.target.0 as u64).as_str());
        assert(text@ =~= seq!['#'] + decimal_digits(self.target.0 as nat));
        text
    }
}

/// Shows a global variable in a way that can be read.
pub struct DisplayGlobal {
    global: u32,
}

impl From<u32> for DisplayGlobal {
    fn from(global: u32) -> (r: DisplayGlobal) {
        DisplayGlobal { global }
    }
}

impl FromSpecImpl<u32> for DisplayGlobal {
    open spec fn obeys_from_spec() -> bool {
        true
    }

    closed spec fn from_spec(global: u32) -> DisplayGlobal {
        DisplayGlobal { global }
    }
}

impl DisplayGlobal {
    /// The index of the global variable that is shown.
    pub closed spec fn global(&self) -> u32 {
        self.global
    }

    /// The text that shows the global variable: `global(`, its index and
    /// `)`.
    pub fn to_string(&self) -> (r: String)
        ensures
            r@ == "global("@ + decimal_digits(self.global() as nat) + ")"@,
    {
        String::from_str("global(").concat(decimal(self.global as u64).as_str()).concat(")")
    }
}

/// Shows a run of registers in a way that can be read.
pub struct DisplayExecRegisterSlice {
    slice: RegSpanIter,
}

impl From<RegSpanIter> for DisplayExecRegisterSlice {
    fn from(slice: RegSpanIter) -> (r: DisplayExecRegisterSlice) {
        DisplayExecRegisterSlice { slice }
    }
}

impl FromSpecImpl<RegSpanIter> for DisplayExecRegisterSlice {
    open spec fn obeys_from_spec() -> bool {
        true
    }

    closed spec fn from_spec(slice: RegSpanIter) -> DisplayExecRegisterSlice {
        DisplayExecRegisterSlice { slice }
    }
}

impl DisplayExecRegisterSlice {
    /// The run of registers that is shown.
    pub closed spec fn slice(&self) -> RegSpanIter {
        self.slice
    }

    /// The text that shows the registers: their names between brackets,
    /// with a comma and a space between two of them.
    pub fn to_string(&self) -> (r: String)
        ensures
            r@ == "["@ + registers_text(self.slice().next.0 as int, self.slice().last.0 as int) + "]"@,
    {
        let mut text = String::from_str("[");
        let mut index: i32 = self.slice.next.0 as i32;
        let last: i32 = self.slice.last.0 as i32;
        let ghost next = self.slice.next.0 as int;
        if index < last {
            while index < last
                invariant
                    next <= index < last || (index == last && next < last),
                    i16::MIN <= index <= i16::MAX,
                    i16::MIN <= last <= i16::MAX,
                    index < last ==> "["@ + registers_text(next, last as int) == text@ + registers_text(
                        index as int,
                        last as int,
                    ),
                    index == last ==> "["@ + registers_text(next, last as int) == text@,
                decreases last - index,
            {
                let ghost before = text@;
                proof {
                    reveal_strlit(", ");
                }
                let name = DisplayExecRegister::from(Register(index as i16)).to_string();
                text.append(name.as_str());
                if index + 1 < last {
                    text.append(", ");
                    assert(text@ =~= before + register_text(index as int) + seq![',', ' ']);
                    assert(before + (register_text(index as int) + seq![',', ' '] + registers_text(
                        index + 1,
                        last as int,
                    )) =~= text@ + registers_text(index + 1, last as int));
                } else {
                    assert(before + register_text(index as int) =~= text@);
                }
                index += 1;
            }
        } else {
            assert("["@ + registers_text(next, last as int) =~= text@);
        }
        text.concat("]")
    }
}

} // verus!
