use vstd::prelude::*;

verus! {

/// Why an instruction was refused. None of these leaves a buffer changed.
#[derive(Debug, Clone, Copy, PartialEq, Eq, Structural)]
pub enum CounterError {
    /// The instruction buffer is empty.
    MissingInstructionData,
    /// The leading byte names no instruction.
    UnknownInstruction,
    /// The payload of a known instruction has the wrong length.
    MalformedInstructionData,
    /// Fewer account handles than the instruction needs.
    MissingAccount,
    /// The counter account is not owned by this program.
    IncorrectOwner,
    /// The account buffer does not hold exactly eight bytes.
    MalformedAccountData,
    /// The count is already at its largest value.
    ArithmeticOverflow,
}

} // verus!
