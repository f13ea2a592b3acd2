//! Trap codes and translation errors.

use vstd::prelude::*;

verus! {

/// The reason for which execution of WebAssembly code stopped abnormally.
#[derive(Clone, Copy, Debug, PartialEq, Eq, Structural, Hash)]
pub enum TrapCode {
    /// An `unreachable` instruction was executed.
    UnreachableCodeReached,
    /// A linear memory was accessed out of its bounds.
    MemoryOutOfBounds,
    /// A table was accessed out of its bounds.
    TableOutOfBounds,
    /// An indirect call went through a null table entry.
    IndirectCallToNull,
    /// An integer was divided by zero.
    IntegerDivisionByZero,
    /// The result of an integer operation cannot be represented.
    IntegerOverflow,
    /// A floating-point number cannot be converted to an integer.
    BadConversionToInteger,
    /// The call stack or the register file is exhausted.
    StackOverflow,
    /// An indirect call found a function of another signature.
    BadSignature,
    /// The fuel of the execution is used up.
    OutOfFuel,
    /// A memory or a table refused to grow.
    GrowthOperationLimited,
}

/// The reason for which a function could not be translated.
#[derive(Clone, Copy, Debug, PartialEq, Eq, Structural, Hash)]
pub enum TranslationError {
    /// The function needs more registers than a register index can name.
    AllocatedTooManyRegisters,
    /// The function uses more constants than a register index can name.
    TooManyFuncLocalConstValues,
    /// The function needs more instructions than an instruction index can name.
    TooManyInstructions,
    /// A branch spans more instructions than its offset can hold.
    BranchOffsetOutOfBounds,
    /// The fuel of one basic block exceeds what its instruction can hold.
    BlockFuelOutOfBounds,
    /// The operand stack is higher than a stack height can hold.
    EmulatedValueStackOverflow,
}

} // verus!
