//! The code of translated functions.

use vstd::prelude::*;
use crate::instr::Instruction;

verus! {

/// The code of one function.
#[derive(Debug)]
pub struct CompiledFunc {
    /// The number of parameters: the first registers of the function.
    pub len_params: usize,
    /// The number of registers that the locals and the temporaries of the
    /// function take, parameters included.
    pub len_registers: usize,
    /// The instructions of the function.
    pub instrs: Vec<Instruction>,
    /// The constants of the function: the one at the position `k` is held
    /// by the register `-1 - k`.
    pub consts: Vec<u64>,
}

/// The code of one function as a mathematical value.
pub struct CompiledFuncView {
    /// The number of parameters.
    pub len_params: nat,
    /// The number of registers that are not constants.
    pub len_registers: nat,
    /// The instructions.
    pub instrs: Seq<Instruction>,
    /// The constants.
    pub consts: Seq<u64>,
}

impl View for CompiledFunc {
    type V = CompiledFuncView;

    open spec fn view(&self) -> CompiledFuncView {
        CompiledFuncView {
            len_params: self.len_params as nat,
            len_registers: self.len_registers as nat,
            instrs: self.instrs@,
            consts: self.consts@,
        }
    }
}

/// The code of the functions of a module, each known by a handle: its
/// position in the map.
#[derive(Debug)]
pub struct CodeMap {
    funcs: Vec<CompiledFunc>,
}

impl View for CodeMap {
    type V = Seq<CompiledFuncView>;

    closed spec fn view(&self) -> Seq<CompiledFuncView> {
        Seq::new(self.funcs@.len(), |i: int| self.funcs@[i]@)
    }
}

impl CodeMap {
    /// The empty code map.
    pub fn new() -> (r: CodeMap)
        ensures
            r@.len() == 0,
    {
        CodeMap { funcs: Vec::new() }
    }

    /// The number of functions.
    pub fn len(&self) -> (r: usize)
        ensures
            r == self@.len(),
    {
        self.funcs.len()
    }

    /// Adds the code of a function and returns its handle.
    pub fn alloc_func(&mut self, func: CompiledFunc) -> (r: usize)
        ensures
            r == old(self)@.len(),
            final(self)@ == old(self)@.push(func@),
    {
        let n = self.funcs.len();
        self.funcs.push(func);
        assert(self@ =~= old(self)@.push(func@));
        n
    }

    /// The code of the function with the handle `func`, if there is one.
    pub fn get(&self, func: u32) -> (r: Option<&CompiledFunc>)
        ensures
            r is Some == (func < self@.len()),
            r matches Some(code) ==> code@ == self@[func as int],
    {
        if (func as usize) < self.funcs.len() {
            Some(&self.funcs[func as usize])
        } else {
            None
        }
    }
}

} // verus!
