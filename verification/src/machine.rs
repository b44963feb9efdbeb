//! The machine as a mathematical value, and what one instruction, one step and
//! a whole run do to it. The executable engine is verified against these
//! definitions.
//!
//! The syscall selector is read from the accumulator, EAX, and the exit code
//! from EBX; the instruction's own operands play no part in a syscall.

use vstd::prelude::*;
use crate::fault::Fault;
use crate::isa::{InstructionView, Opcode, Register, Syscall};

verus! {

/// The number of values a register can hold: two to the native width.
pub open spec fn word_modulus() -> int {
    usize::MAX + 1
}

/// Addition on registers: the sum modulo two to the native width.
pub open spec fn wrapping_sum(a: usize, b: usize) -> usize {
    ((a + b) % word_modulus()) as usize
}

/// The low eight bits of a register value. An exit code is eight bits wide, so
/// the exit syscall narrows EBX on purpose: what lies above them is dropped.
pub open spec fn low_byte(value: usize) -> u8 {
    (value % 256) as u8
}

/// Program, register file and control state.
pub struct Machine {
    pub program: Seq<InstructionView>,
    pub isp: nat,
    pub running: bool,
    pub exit_code: u8,
    pub eax: usize,
    pub ebx: usize,
    pub ecx: usize,
    pub edx: usize,
}

impl Machine {
    /// The machine as it is before a run: every register and the instruction
    /// pointer zero, the running flag set.
    pub open spec fn boot(program: Seq<InstructionView>) -> Machine {
        Machine {
            program,
            isp: 0,
            running: true,
            exit_code: 0,
            eax: 0,
            ebx: 0,
            ecx: 0,
            edx: 0,
        }
    }

    /// The value that a register holds.
    pub open spec fn register(self, register: Register) -> usize {
        match register {
            Register::Eax => self.eax,
            Register::Ebx => self.ebx,
            Register::Ecx => self.ecx,
            Register::Edx => self.edx,
        }
    }

    /// The machine with one register overwritten.
    pub open spec fn with_register(self, register: Register, value: usize) -> Machine {
        match register {
            Register::Eax => Machine { eax: value, ..self },
            Register::Ebx => Machine { ebx: value, ..self },
            Register::Ecx => Machine { ecx: value, ..self },
            Register::Edx => Machine { edx: value, ..self },
        }
    }

    /// What a source operand stands for: the current value of the register it
    /// names if it names one, else the operand itself as an immediate.
    pub open spec fn operand_value(self, raw: usize) -> usize {
        match Register::decode(raw) {
            Some(source) => self.register(source),
            None => raw,
        }
    }

    /// The instruction under the instruction pointer, if there is one.
    pub open spec fn fetch(self) -> Option<InstructionView> {
        if self.isp < self.program.len() {
            Some(self.program[self.isp as int])
        } else {
            None
        }
    }

    /// The effect of one instruction on the machine, the instruction pointer
    /// left alone.
    ///
    /// - `Move` needs two operands and checks for them before it looks at
    ///   either. The first has to name the destination register. The second is
    ///   read as [`Machine::operand_value`] says: whether it decodes as a
    ///   register, not the shape of the instruction, decides between a copy
    ///   from that register and an immediate.
    /// - `Add` needs one operand, always an immediate, and adds it to EAX with
    ///   wraparound. There is no form with a destination.
    /// - `Syscall` takes the selector from EAX, and `Exit` the exit code from
    ///   EBX, narrowed to eight bits. It is the only way to halt.
    ///
    /// Operands beyond those that an opcode needs are ignored.
    pub open spec fn apply(self, instruction: InstructionView) -> Result<Machine, Fault> {
        match instruction.opcode {
            Opcode::Move => {
                if instruction.args.len() < 2 {
                    Err(Fault::MissingOperand)
                } else {
                    match Register::decode(instruction.args[0]) {
                        None => Err(Fault::InvalidRegister),
                        Some(destination) => Ok(
                            self.with_register(
                                destination,
                                self.operand_value(instruction.args[1]),
                            ),
                        ),
                    }
                }
            },
            Opcode::Add => {
                if instruction.args.len() < 1 {
                    Err(Fault::MissingOperand)
                } else {
                    Ok(Machine { eax: wrapping_sum(self.eax, instruction.args[0]), ..self })
                }
            },
            Opcode::Syscall => {
                match Syscall::decode(self.eax) {
                    None => Err(Fault::InvalidSyscall),
                    Some(Syscall::Exit) => Ok(
                        Machine { exit_code: low_byte(self.ebx), running: false, ..self },
                    ),
                }
            },
        }
    }

    /// Fetches the instruction under the instruction pointer and applies it.
    pub open spec fn execute(self) -> Result<Machine, Fault> {
        match self.fetch() {
            None => Err(Fault::IspOverflow),
            Some(instruction) => self.apply(instruction),
        }
    }

    /// The machine with the instruction pointer moved to the next instruction.
    pub open spec fn advance(self) -> Machine {
        Machine { isp: self.isp + 1, ..self }
    }

    /// One step: execute, then advance.
    pub open spec fn step(self) -> Result<Machine, Fault> {
        match self.execute() {
            Ok(next) => Ok(next.advance()),
            Err(fault) => Err(fault),
        }
    }

    /// `count` steps in a row, whatever the running flag says; the first fault
    /// ends them.
    pub open spec fn step_n(self, count: nat) -> Result<Machine, Fault>
        decreases count,
    {
        if count == 0 {
            Ok(self)
        } else {
            match self.step() {
                Ok(next) => next.step_n((count - 1) as nat),
                Err(fault) => Err(fault),
            }
        }
    }

    /// The run loop: steps while the running flag is set. Gives the halted
    /// machine, or the first fault.
    pub open spec fn run(self) -> Result<Machine, Fault>
        decreases self.program.len() - self.isp,
    {
        if !self.running {
            Ok(self)
        } else {
            match self.step() {
                Ok(next) => next.run(),
                Err(fault) => Err(fault),
            }
        }
    }

    /// Where the run loop leaves the machine: halted, or still in front of the
    /// instruction that faulted.
    pub open spec fn settle(self) -> Machine
        decreases self.program.len() - self.isp,
    {
        if !self.running {
            self
        } else {
            match self.step() {
                Ok(next) => next.settle(),
                Err(_) => self,
            }
        }
    }

    /// What a run hands to its caller: the exit code of the halted machine, or
    /// the first fault.
    pub open spec fn outcome(self) -> Result<u8, Fault> {
        match self.run() {
            Ok(halted) => Ok(halted.exit_code),
            Err(fault) => Err(fault),
        }
    }
}

} // verus!
