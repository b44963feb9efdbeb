//! The instruction set: registers, syscalls, opcodes and instructions, together
//! with the fallible decoding of raw operand values into the closed
//! enumerations.
//!
//! Register identifiers are the high sentinel values `0xff..=0xfc`, which keeps
//! them apart from the syscall selectors and from small immediates.

use vstd::prelude::*;
use vstd::std_specs::convert::TryFromSpecImpl;

verus! {

/// The name of one of the four general-purpose registers.
#[derive(Clone, Copy, Debug, PartialEq, Eq, Structural)]
pub enum Register {
    Eax,
    Ebx,
    Ecx,
    Edx,
}

impl Register {
    /// The raw operand value that names this register.
    pub open spec fn spec_id(self) -> usize {
        match self {
            Register::Eax => 0xff,
            Register::Ebx => 0xfe,
            Register::Ecx => 0xfd,
            Register::Edx => 0xfc,
        }
    }

    /// The register that a raw operand value names, if it names one.
    pub open spec fn decode(raw: usize) -> Option<Register> {
        if raw == 0xff {
            Some(Register::Eax)
        } else if raw == 0xfe {
            Some(Register::Ebx)
        } else if raw == 0xfd {
            Some(Register::Ecx)
        } else if raw == 0xfc {
            Some(Register::Edx)
        } else {
            None
        }
    }

    /// The raw operand value that names this register.
    #[verifier::when_used_as_spec(spec_id)]
    pub fn id(self) -> (raw: usize)
        ensures
            raw == self.spec_id(),
            Register::decode(raw) == Some(self),
    {
        match self {
            Register::Eax => 0xff,
            Register::Ebx => 0xfe,
            Register::Ecx => 0xfd,
            Register::Edx => 0xfc,
        }
    }
}

impl TryFrom<usize> for Register {
    type Error = ();

    /// Decodes a raw operand value; any value outside the four identifiers is
    /// rejected.
    fn try_from(value: usize) -> (decoded: Result<Register, ()>)
        ensures
            decoded == match Register::decode(value) {
                Some(register) => Ok::<Register, ()>(register),
                None => Err(()),
            },
    {
        if value == 0xff {
            Ok(Register::Eax)
        } else if value == 0xfe {
            Ok(Register::Ebx)
        } else if value == 0xfd {
            Ok(Register::Ecx)
        } else if value == 0xfc {
            Ok(Register::Edx)
        } else {
            Err(())
        }
    }
}

impl TryFromSpecImpl<usize> for Register {
    open spec fn obeys_try_from_spec() -> bool {
        true
    }

    open spec fn try_from_spec(value: usize) -> Result<Register, ()> {
        match Register::decode(value) {
            Some(register) => Ok(register),
            None => Err(()),
        }
    }
}

/// The name of a system operation that the machine can invoke.
#[derive(Clone, Copy, Debug, PartialEq, Eq, Structural)]
pub enum Syscall {
    /// Halts the machine with an exit code.
    Exit,
}

impl Syscall {
    /// The selector value that names this syscall.
    pub open spec fn spec_id(self) -> usize {
        match self {
            Syscall::Exit => 0,
        }
    }

    /// The syscall that a selector value names, if it names one.
    pub open spec fn decode(raw: usize) -> Option<Syscall> {
        if raw == 0 {
            Some(Syscall::Exit)
        } else {
            None
        }
    }

    /// The selector value that names this syscall.
    #[verifier::when_used_as_spec(spec_id)]
    pub fn id(self) -> (raw: usize)
        ensures
            raw == self.spec_id(),
            Syscall::decode(raw) == Some(self),
            Register::decode(raw) is None,
    {
        match self {
            Syscall::Exit => 0,
        }
    }
}

impl TryFrom<usize> for Syscall {
    type Error = ();

    /// Decodes a selector value; any value that names no syscall is rejected.
    fn try_from(value: usize) -> (decoded: Result<Syscall, ()>)
        ensures
            decoded == match Syscall::decode(value) {
                Some(syscall) => Ok::<Syscall, ()>(syscall),
                None => Err(()),
            },
    {
        if value == 0 {
            Ok(Syscall::Exit)
        } else {
            Err(())
        }
    }
}

impl TryFromSpecImpl<usize> for Syscall {
    open spec fn obeys_try_from_spec() -> bool {
        true
    }

    open spec fn try_from_spec(value: usize) -> Result<Syscall, ()> {
        match Syscall::decode(value) {
            Some(syscall) => Ok(syscall),
            None => Err(()),
        }
    }
}

/// The operation that an instruction performs.
#[derive(Clone, Copy, Debug, PartialEq, Eq, Structural)]
pub enum Opcode {
    /// Copies a value into a register.
    Move,
    /// Accumulates into the accumulator register.
    Add,
    /// Invokes the syscall that the accumulator selects.
    Syscall,
}

/// One unit of a program: an opcode and its raw, not yet validated operands.
#[derive(Debug, PartialEq, Eq)]
pub struct Instruction {
    pub opcode: Opcode,
    pub args: Vec<usize>,
}

/// An instruction as a mathematical value.
pub struct InstructionView {
    pub opcode: Opcode,
    pub args: Seq<usize>,
}

impl View for Instruction {
    type V = InstructionView;

    open spec fn view(&self) -> InstructionView {
        InstructionView { opcode: self.opcode, args: self.args@ }
    }
}

impl DeepView for Instruction {
    type V = InstructionView;

    open spec fn deep_view(&self) -> InstructionView {
        self@
    }
}

} // verus!
