//! The execution engine: it owns the program, the register file and the
//! instruction pointer, and drives the fetch-decode-execute loop.

use vstd::prelude::*;
use crate::fault::Fault;
use crate::isa::{Instruction, Opcode, Register, Syscall};
use crate::machine::{low_byte, word_modulus, wrapping_sum, Machine};

verus! {

/// One machine instance. Each run uses an instance of its own.
#[derive(Debug)]
pub struct Cpu {
    isp: usize,
    program: Vec<Instruction>,
    running: bool,
    exit_code: u8,
    eax: usize,
    ebx: usize,
    ecx: usize,
    edx: usize,
}

impl View for Cpu {
    type V = Machine;

    closed spec fn view(&self) -> Machine {
        Machine {
            program: self.program.deep_view(),
            isp: self.isp as nat,
            running: self.running,
            exit_code: self.exit_code,
            eax: self.eax,
            ebx: self.ebx,
            ecx: self.ecx,
            edx: self.edx,
        }
    }
}

impl Default for Cpu {
    /// A machine without a program, every register zero, the running flag
    /// clear.
    fn default() -> (cpu: Cpu)
        ensures
            cpu@ == (Machine { running: false, ..Machine::boot(Seq::empty()) }),
    {
        let cpu = Cpu {
            isp: 0,
            program: Vec::new(),
            running: false,
            exit_code: 0,
            eax: 0,
            ebx: 0,
            ecx: 0,
            edx: 0,
        };
        assert(cpu.program.deep_view() =~= Seq::empty());
        cpu
    }
}

/// The native addition that wraps is the sum modulo two to the native width.
proof fn lemma_wrapping_sum(a: usize, b: usize)
    ensures
        vstd::wrapping::usize_specs::wrapping_add(a, b) == wrapping_sum(a, b),
{
    let modulus = word_modulus();
    if a + b > usize::MAX {
        vstd::arithmetic::div_mod::lemma_fundamental_div_mod_converse(
            a + b,
            modulus,
            1,
            a + b - modulus,
        );
    } else {
        vstd::arithmetic::div_mod::lemma_small_mod((a + b) as nat, modulus as nat);
    }
}

/// Keeping the low eight bits is taking the value modulo 256.
proof fn lemma_low_byte(value: usize)
    ensures
        value as u8 == low_byte(value),
{
    assert(value as u8 == value % 256) by (bit_vector);
}

impl Cpu {
    /// A machine ready to run `program`: every register and the instruction
    /// pointer zero, the running flag set.
    pub fn new(program: Vec<Instruction>) -> (cpu: Cpu)
        ensures
            cpu@ == Machine::boot(program.deep_view()),
    {
        Cpu { isp: 0, program, running: true, exit_code: 0, eax: 0, ebx: 0, ecx: 0, edx: 0 }
    }

    /// The index of the instruction that is fetched next.
    pub fn isp(&self) -> (isp: usize)
        ensures
            isp == self@.isp,
    {
        self.isp
    }

    /// Whether the machine is still running, that is, has not executed an exit
    /// syscall.
    pub fn is_running(&self) -> (running: bool)
        ensures
            running == self@.running,
    {
        self.running
    }

    /// The exit code; it means something only once the machine has halted.
    pub fn exit_code(&self) -> (code: u8)
        ensures
            code == self@.exit_code,
    {
        self.exit_code
    }

    /// Executes the instruction under the instruction pointer. The pointer
    /// itself is left alone: see [`Cpu::increment_isp`].
    ///
    /// A fault leaves the machine as it was.
    pub fn execute(&mut self) -> (result: Result<(), Fault>)
        ensures
            match old(self)@.execute() {
                Ok(next) => result == Ok::<(), Fault>(()) && final(self)@ == next,
                Err(fault) => result == Err::<(), Fault>(fault) && final(self)@ == old(self)@,
            },
    {
        if self.isp >= self.program.len() {
            return Err(Fault::IspOverflow);
        }
        let instruction = &self.program[self.isp];
        assert(self@.fetch() == Some(instruction@));
        match instruction.opcode {
            Opcode::Move => {
                if instruction.args.len() < 2 {
                    return Err(Fault::MissingOperand);
                }
                let raw_register = instruction.args[0];
                let raw_value = instruction.args[1];
                let register = match Register::try_from(raw_register) {
                    Ok(register) => register,
                    Err(_) => {
                        return Err(Fault::InvalidRegister);
                    },
                };
                let value = match Register::try_from(raw_value) {
                    Ok(source) => *self.get_register(source),
                    Err(_) => raw_value,
                };
                self.set_register(register, value);
            },
            Opcode::Add => {
                if instruction.args.len() < 1 {
                    return Err(Fault::MissingOperand);
                }
                let value = instruction.args[0];
                proof {
                    lemma_wrapping_sum(self.eax, value);
                }
                self.eax = self.eax.wrapping_add(value);
            },
            Opcode::Syscall => {
                let syscall = match Syscall::try_from(self.eax) {
                    Ok(syscall) => syscall,
                    Err(_) => {
                        return Err(Fault::InvalidSyscall);
                    },
                };
                match syscall {
                    Syscall::Exit => {
                        proof {
                            lemma_low_byte(self.ebx);
                        }
                        self.exit_code = #[verifier::truncate]
                        (self.ebx as u8);
                        self.running = false;
                    },
                }
            },
        }
        Ok(())
    }

    /// The value that a register holds.
    pub fn get_register(&self, register: Register) -> (value: &usize)
        ensures
            *value == self@.register(register),
    {
        match register {
            Register::Eax => &self.eax,
            Register::Ebx => &self.ebx,
            Register::Ecx => &self.ecx,
            Register::Edx => &self.edx,
        }
    }

    /// Overwrites one register; nothing else changes.
    pub fn set_register(&mut self, register: Register, value: usize)
        ensures
            final(self)@ == old(self)@.with_register(register, value),
    {
        match register {
            Register::Eax => self.eax = value,
            Register::Ebx => self.ebx = value,
            Register::Ecx => self.ecx = value,
            Register::Edx => self.edx = value,
        };
    }

    /// Moves the instruction pointer to the next instruction.
    pub fn increment_isp(&mut self)
        requires
            old(self)@.isp < usize::MAX,
        ensures
            final(self)@ == old(self)@.advance(),
    {
        self.isp += 1;
    }

    /// One step of the machine: executes the instruction under the instruction
    /// pointer and advances the pointer, whatever the opcode was.
    ///
    /// A fault leaves the machine as it was.
    pub fn step(&mut self) -> (result: Result<(), Fault>)
        ensures
            match old(self)@.step() {
                Ok(next) => result == Ok::<(), Fault>(()) && final(self)@ == next,
                Err(fault) => result == Err::<(), Fault>(fault) && final(self)@ == old(self)@,
            },
    {
        match self.execute() {
            Ok(()) => {
                assert(self.isp < self.program.len());
                self.increment_isp();
                Ok(())
            },
            Err(fault) => Err(fault),
        }
    }

    /// Steps while the running flag is set. Returns the exit code once the
    /// machine has halted, or the first fault.
    ///
    /// After a fault the machine is left in front of the instruction that
    /// faulted.
    pub fn run(&mut self) -> (result: Result<u8, Fault>)
        ensures
            result == old(self)@.outcome(),
            final(self)@ == old(self)@.settle(),
    {
        while self.running
            invariant
                self@.run() == old(self)@.run(),
                self@.settle() == old(self)@.settle(),
            decreases self@.program.len() - self@.isp,
        {
            match self.step() {
                Ok(()) => {},
                Err(fault) => {
                    return Err(fault);
                },
            }
        }
        Ok(self.exit_code)
    }
}

} // verus!
