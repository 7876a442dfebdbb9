use vstd::prelude::*;

verus! {

/// A fatal condition raised by the interpreter. None of these is ever
/// recovered from: the host reports the error and terminates with a
/// non-zero status.
#[derive(Clone, Copy, Debug, PartialEq, Eq, Structural)]
pub enum VmError {
    /// The fetched word names an operator outside 0..13.
    UnknownOpcode { number: u32 },
    /// An access or abandonment named an identifier with no live array.
    DeadArray { id: u32 },
    /// The program array, identifier 0, may never be abandoned.
    AbandonZero,
    /// An indexed access lay at or beyond the array's length. A fetch
    /// with the program counter at or beyond the program's length is
    /// reported the same way, with identifier 0.
    OutOfRange { id: u32, offset: u32 },
    /// Division with a zero divisor.
    DivisionByZero,
    /// Output of a register value above 255.
    OutputTooLarge { value: u32 },
    /// The standard streams failed underneath a byte read or write.
    IoFailed,
    /// Every 32-bit identifier is either live or pooled, so no fresh one
    /// can be minted.
    ArenaExhausted,
}

} // verus!
