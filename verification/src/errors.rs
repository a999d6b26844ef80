use vstd::prelude::*;

verus! {

/// An opcode that matches no documented encoding.
/// Keeps the offending 16-bit word for diagnostics.
#[derive(Debug, Clone, Copy, PartialEq, Eq, Structural)]
pub struct DecodeError {
    pub code: u16,
}

/// A call-stack violation: a push past the fixed depth of 16, or a pop from
/// an empty stack. Surfaced to the caller, never silently wrapped.
#[derive(Debug, Clone, Copy, PartialEq, Eq, Structural)]
pub enum StackError {
    Overflow,
    Underflow,
}

/// A program image that does not fit between the load address and the end of
/// the 4096-byte memory.
#[derive(Debug, Clone, Copy, PartialEq, Eq, Structural)]
pub struct LoadError {
    pub rom_len: usize,
}

/// A per-cycle fault. All faults bubble to the driving loop, which is the
/// sole decision point for halting versus continuing.
#[derive(Debug, Clone, Copy, PartialEq, Eq, Structural)]
pub enum Fault {
    /// The fetched opcode matches no documented encoding.
    Decode(DecodeError),
    /// A call-stack overflow or underflow.
    Stack(StackError),
    /// The index register or the program counter addressed a byte outside
    /// the 4096-byte memory; carries the offending address.
    Bounds(usize),
}

/// Outcome of executing one instruction.
#[derive(Debug, Clone, Copy, PartialEq, Eq, Structural)]
pub enum ExecStatus {
    /// The engine is ready for the next fetch.
    Ready,
    /// A key-wait instruction saw no pressed key; the program counter was
    /// not advanced and the caller should re-invoke after refreshing the
    /// keypad snapshot.
    AwaitingKey,
}

} // verus!
