//! A minimal register-based virtual machine.
//!
//! A fixed program of instructions is interpreted against four general-purpose
//! registers by a fetch-decode-execute loop that stops on an explicit exit
//! syscall. Every executable function is verified against a mathematical model
//! of the machine, [`machine::Machine`].

pub mod cpu;
pub mod fault;
pub mod isa;
pub mod machine;
pub mod theorems;
