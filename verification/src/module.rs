//! What the translator knows of the module around the function.

use vstd::prelude::*;
use crate::value::ValueType;

verus! {

/// The type of a function: how many parameters it takes and how many
/// results it returns.
#[derive(Clone, Copy, Debug, PartialEq, Eq, Structural, Hash)]
pub struct FuncType {
    /// The number of parameters.
    pub len_params: u32,
    /// The number of results.
    pub len_results: u32,
}

/// A function of the module.
#[derive(Clone, Copy, Debug, PartialEq, Eq, Structural, Hash)]
pub struct FuncDecl {
    /// The index of the type of the function.
    pub func_type: u32,
    /// The handle of the code of the function, if the module defines it;
    /// `None` for an imported function.
    pub compiled: Option<u32>,
}

/// How a global variable is initialised.
#[derive(Clone, Copy, Debug, PartialEq, Eq, Structural, Hash)]
pub enum GlobalInit {
    /// By a constant with this word.
    Const(u64),
    /// By the reference to the function with this index.
    FuncRef(u32),
    /// By something that is only known when the module is instantiated:
    /// the global is imported, or initialised from another global.
    Unknown,
}

/// A global variable of the module.
#[derive(Clone, Copy, Debug, PartialEq, Eq, Structural, Hash)]
pub struct GlobalDecl {
    /// The type of the value.
    pub content: ValueType,
    /// Whether the variable can be written.
    pub mutable: bool,
    /// How the variable is initialised.
    pub init: GlobalInit,
}

/// The parts of a module that the code of its functions refers to.
#[derive(Debug)]
pub struct ModuleResources {
    /// The function types of the module.
    pub func_types: Vec<FuncType>,
    /// The functions of the module, imported ones first.
    pub funcs: Vec<FuncDecl>,
    /// The global variables of the module, imported ones first.
    pub globals: Vec<GlobalDecl>,
}

impl ModuleResources {
    /// Every function has a type of the module.
    pub open spec fn wf(&self) -> bool {
        forall|i: int| 0 <= i < self.funcs@.len() ==> (#[trigger] self.funcs@[i]).func_type < self.func_types@.len()
    }

    /// A module without functions and globals.
    pub fn new() -> (r: ModuleResources)
        ensures
            r.wf(),
            r.func_types@.len() == 0,
            r.funcs@.len() == 0,
            r.globals@.len() == 0,
    {
        ModuleResources { func_types: Vec::new(), funcs: Vec::new(), globals: Vec::new() }
    }

    /// Adds a function type and returns its index.
    pub fn push_func_type(&mut self, func_type: FuncType) -> (r: usize)
        requires
            old(self).wf(),
        ensures
            final(self).wf(),
            r == old(self).func_types@.len(),
            final(self).func_types@ == old(self).func_types@.push(func_type),
            final(self).funcs@ == old(self).funcs@,
            final(self).globals@ == old(self).globals@,
    {
        let n = self.func_types.len();
        self.func_types.push(func_type);
        n
    }

    /// Adds a function of the type with the index `func_type`, and returns
    /// the index of the function.
    pub fn push_func(&mut self, func_type: u32, compiled: Option<u32>) -> (r: usize)
        requires
            old(self).wf(),
            func_type < old(self).func_types@.len(),
        ensures
            final(self).wf(),
            r == old(self).funcs@.len(),
            final(self).funcs@ == old(self).funcs@.push(FuncDecl { func_type, compiled }),
            final(self).func_types@ == old(self).func_types@,
            final(self).globals@ == old(self).globals@,
    {
        let n = self.funcs.len();
        self.funcs.push(FuncDecl { func_type, compiled });
        n
    }

    /// Adds a global variable and returns its index.
    pub fn push_global(&mut self, global: GlobalDecl) -> (r: usize)
        requires
            old(self).wf(),
        ensures
            final(self).wf(),
            r == old(self).globals@.len(),
            final(self).globals@ == old(self).globals@.push(global),
            final(self).func_types@ == old(self).func_types@,
            final(self).funcs@ == old(self).funcs@,
    {
        let n = self.globals.len();
        self.globals.push(global);
        n
    }

    /// The type of the function with the index `func`.
    pub open spec fn type_of_func(&self, func: int) -> FuncType {
        self.func_types@[self.funcs@[func].func_type as int]
    }

    /// The type of the function with the index `func`.
    pub fn func_type_of(&self, func: u32) -> (r: FuncType)
        requires
            self.wf(),
            func < self.funcs@.len(),
        ensures
            r == self.type_of_func(func as int),
    {
        self.func_types[self.funcs[func as usize].func_type as usize]
    }

    /// The function type with the index `index`.
    pub fn func_type_at(&self, index: u32) -> (r: FuncType)
        requires
            index < self.func_types@.len(),
        ensures
            r == self.func_types@[index as int],
    {
        self.func_types[index as usize]
    }

    /// The handle of the code of the function with the index `func`, if
    /// the module defines the function.
    pub fn get_compiled_func(&self, func: u32) -> (r: Option<u32>)
        requires
            func < self.funcs@.len(),
        ensures
            r == self.funcs@[func as int].compiled,
    {
        self.funcs[func as usize].compiled
    }

    /// The global variable with the index `global`.
    pub fn get_global(&self, global: u32) -> (r: GlobalDecl)
        requires
            global < self.globals@.len(),
        ensures
            r == self.globals@[global as int],
    {
        self.globals[global as usize]
    }
}

} // verus!
