//! The ways in which a run can fail. Every fault is terminal: the run loop
//! stops at the first one and hands it to its caller.

use vstd::prelude::*;

verus! {

/// An unrecoverable validation or bounds failure.
#[derive(Clone, Copy, Debug, PartialEq, Eq, Structural)]
pub enum Fault {
    /// The instruction pointer addresses no instruction of the program.
    IspOverflow,
    /// The operand list is shorter than the opcode requires.
    MissingOperand,
    /// An operand that has to name a register names none.
    InvalidRegister,
    /// The syscall selector names no syscall.
    InvalidSyscall,
}

} // verus!
