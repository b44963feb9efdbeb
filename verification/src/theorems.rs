//! What holds of every machine: the behaviour of each opcode, of the faults,
//! and of whole runs, stated over the model that the engine is verified
//! against.

use vstd::prelude::*;
use vstd::arithmetic::div_mod::lemma_add_mod_noop_right;
use crate::fault::Fault;
use crate::isa::{InstructionView, Opcode, Register, Syscall};
use crate::machine::{low_byte, word_modulus, wrapping_sum, Machine};

verus! {

/// `instruction` is a move into `destination` whose source operand is `source`.
/// Operands after the second are allowed and ignored.
pub open spec fn is_move(instruction: InstructionView, destination: Register, source: usize) -> bool {
    &&& instruction.opcode == Opcode::Move
    &&& instruction.args.len() >= 2
    &&& instruction.args[0] == destination.id()
    &&& instruction.args[1] == source
}

/// `instruction` adds `amount` to the accumulator. Operands after the first are
/// allowed and ignored.
pub open spec fn is_add(instruction: InstructionView, amount: usize) -> bool {
    &&& instruction.opcode == Opcode::Add
    &&& instruction.args.len() >= 1
    &&& instruction.args[0] == amount
}

/// The `count` instructions of `program` from index `from` on are additions
/// with an operand.
pub open spec fn is_add_block(program: Seq<InstructionView>, from: nat, count: nat) -> bool {
    &&& from + count <= program.len()
    &&& forall|i: int|
        from <= i < from + count ==> (#[trigger] program[i]).opcode == Opcode::Add
            && program[i].args.len() >= 1
}

/// The sum, as a natural number, of the amounts that the `count` additions
/// from index `from` on add.
pub open spec fn add_block_total(program: Seq<InstructionView>, from: nat, count: nat) -> nat
    decreases count,
{
    if count == 0 {
        0
    } else {
        program[from as int].args[0] as nat + add_block_total(
            program,
            from + 1,
            (count - 1) as nat,
        )
    }
}

/// Decoding inverts encoding: the identifier of a register names that
/// register, the selector of a syscall that syscall, and no value names both a
/// register and a syscall.
pub proof fn identifiers_decode(register: Register, syscall: Syscall, raw: usize)
    ensures
        Register::decode(register.id()) == Some(register),
        Syscall::decode(syscall.id()) == Some(syscall),
        Register::decode(raw) matches Some(named) ==> named.id() == raw,
        Syscall::decode(raw) matches Some(named) ==> named.id() == raw,
        !(Register::decode(raw) is Some && Syscall::decode(raw) is Some),
{
}

/// A move whose source operand is the identifier of a register gives the
/// destination the value that this register holds at that moment, not the
/// identifier itself.
pub proof fn move_copies_named_register(machine: Machine, destination: Register, source: Register)
    requires
        machine.fetch() matches Some(instruction) && is_move(
            instruction,
            destination,
            source.id(),
        ),
    ensures
        machine.execute() == Ok::<Machine, Fault>(
            machine.with_register(destination, machine.register(source)),
        ),
        machine.execute().unwrap().register(destination) == machine.register(source),
{
}

/// A move whose source operand names no register gives the destination the
/// operand itself.
pub proof fn move_loads_immediate(machine: Machine, destination: Register, immediate: usize)
    requires
        machine.fetch() matches Some(instruction) && is_move(instruction, destination, immediate),
        Register::decode(immediate) is None,
    ensures
        machine.execute() == Ok::<Machine, Fault>(machine.with_register(destination, immediate)),
        machine.execute().unwrap().register(destination) == immediate,
{
}

/// A move changes the destination register and nothing else.
pub proof fn move_leaves_the_rest(
    machine: Machine,
    destination: Register,
    source: usize,
    other: Register,
)
    requires
        machine.fetch() matches Some(instruction) && is_move(instruction, destination, source),
        other != destination,
    ensures
        machine.execute() matches Ok(next) && next.register(other) == machine.register(other)
            && next.isp == machine.isp && next.running == machine.running && next.exit_code
            == machine.exit_code && next.program == machine.program,
{
}

/// The modulus of register arithmetic is two to the native width.
pub proof fn word_modulus_is_two_to_the_width()
    ensures
        word_modulus() == vstd::arithmetic::power2::pow2(usize::BITS as nat),
{
    vstd::arithmetic::power2::lemma2_to64();
}

/// An addition never faults for the size of the sum: the accumulator holds the
/// sum modulo two to the native width, and nothing else changes.
pub proof fn add_wraps(machine: Machine, amount: usize)
    requires
        machine.fetch() matches Some(instruction) && is_add(instruction, amount),
    ensures
        machine.execute() == Ok::<Machine, Fault>(
            Machine { eax: wrapping_sum(machine.eax, amount), ..machine },
        ),
        machine.eax + amount <= usize::MAX ==> wrapping_sum(machine.eax, amount) == machine.eax
            + amount,
        machine.eax + amount > usize::MAX ==> wrapping_sum(machine.eax, amount) == machine.eax
            + amount - word_modulus(),
{
    let sum = machine.eax + amount;
    if sum > usize::MAX {
        vstd::arithmetic::div_mod::lemma_fundamental_div_mod_converse(
            sum,
            word_modulus(),
            1,
            sum - word_modulus(),
        );
    } else {
        vstd::arithmetic::div_mod::lemma_small_mod(sum as nat, word_modulus() as nat);
    }
}

/// Additions in a row accumulate modulo two to the native width: after `count`
/// of them the accumulator holds the old value plus all the amounts, reduced
/// once, however often the sum wrapped on the way. Only the accumulator and the
/// instruction pointer change.
pub proof fn repeated_add_wraps(machine: Machine, count: nat)
    requires
        is_add_block(machine.program, machine.isp, count),
    ensures
        machine.step_n(count) == Ok::<Machine, Fault>(
            Machine {
                eax: ((machine.eax + add_block_total(machine.program, machine.isp, count))
                    % word_modulus()) as usize,
                isp: machine.isp + count,
                ..machine
            },
        ),
    decreases count,
{
    let modulus = word_modulus();
    if count == 0 {
        vstd::arithmetic::div_mod::lemma_small_mod(machine.eax as nat, modulus as nat);
    } else {
        let instruction = machine.program[machine.isp as int];
        let amount = instruction.args[0];
        let next = machine.step().unwrap();
        let rest = add_block_total(machine.program, machine.isp + 1, (count - 1) as nat);
        assert(machine.fetch() == Some(instruction));
        assert(next == Machine {
            eax: wrapping_sum(machine.eax, amount),
            isp: machine.isp + 1,
            ..machine
        });
        repeated_add_wraps(next, (count - 1) as nat);
        assert(((machine.eax + amount) % modulus + rest) % modulus == (machine.eax + amount + rest)
            % modulus) by {
            lemma_add_mod_noop_right(rest as int, machine.eax + amount, modulus);
        }
    }
}

/// A move with fewer than two operands faults for the missing operand,
/// whatever its one operand is; an addition without an operand does too. In a
/// running machine the fault is what the run returns.
pub proof fn short_operand_list_faults(machine: Machine)
    requires
        machine.fetch() matches Some(instruction) && (instruction.opcode == Opcode::Move
            && instruction.args.len() < 2 || instruction.opcode == Opcode::Add
            && instruction.args.len() < 1),
    ensures
        machine.execute() == Err::<Machine, Fault>(Fault::MissingOperand),
        machine.step() == Err::<Machine, Fault>(Fault::MissingOperand),
        machine.running ==> machine.outcome() == Err::<u8, Fault>(Fault::MissingOperand),
{
}

/// A move with both operands whose first names no register faults for the
/// register.
pub proof fn unknown_destination_faults(machine: Machine)
    requires
        machine.fetch() matches Some(instruction) && instruction.opcode == Opcode::Move
            && instruction.args.len() >= 2 && Register::decode(instruction.args[0]) is None,
    ensures
        machine.execute() == Err::<Machine, Fault>(Fault::InvalidRegister),
        machine.step() == Err::<Machine, Fault>(Fault::InvalidRegister),
        machine.running ==> machine.outcome() == Err::<u8, Fault>(Fault::InvalidRegister),
{
}

/// A syscall while the accumulator holds anything but the selector of the exit
/// syscall faults for the selector, whatever operands the instruction has.
pub proof fn unknown_selector_faults(machine: Machine)
    requires
        machine.fetch() matches Some(instruction) && instruction.opcode == Opcode::Syscall,
        machine.eax != Syscall::Exit.id(),
    ensures
        machine.execute() == Err::<Machine, Fault>(Fault::InvalidSyscall),
        machine.step() == Err::<Machine, Fault>(Fault::InvalidSyscall),
        machine.running ==> machine.outcome() == Err::<u8, Fault>(Fault::InvalidSyscall),
{
}

/// The exit syscall halts the machine with the low eight bits of EBX as its
/// exit code; the registers stay as they are.
pub proof fn exit_halts(machine: Machine)
    requires
        machine.fetch() matches Some(instruction) && instruction.opcode == Opcode::Syscall,
        machine.eax == Syscall::Exit.id(),
    ensures
        machine.execute() == Ok::<Machine, Fault>(
            Machine { running: false, exit_code: low_byte(machine.ebx), ..machine },
        ),
        machine.running ==> machine.outcome() == Ok::<u8, Fault>(low_byte(machine.ebx)),
{
    if machine.running {
        let halted = machine.step().unwrap();
        assert(halted.run() == Ok::<Machine, Fault>(halted));
    }
}

/// A machine whose instruction pointer addresses no instruction faults on the
/// fetch; a running machine with an empty program does so at once.
pub proof fn fetch_past_the_end_faults(machine: Machine)
    requires
        machine.isp >= machine.program.len(),
    ensures
        machine.execute() == Err::<Machine, Fault>(Fault::IspOverflow),
        machine.step() == Err::<Machine, Fault>(Fault::IspOverflow),
        machine.running ==> machine.outcome() == Err::<u8, Fault>(Fault::IspOverflow),
        machine.running ==> machine.settle() == machine,
{
}

/// A program without instructions faults on the first fetch.
pub proof fn empty_program_faults()
    ensures
        Machine::boot(Seq::empty()).outcome() == Err::<u8, Fault>(Fault::IspOverflow),
{
    fetch_past_the_end_faults(Machine::boot(Seq::empty()));
}

/// No step changes the program, and a step that succeeds moves the
/// instruction pointer by one. Only the exit syscall clears the running flag
/// or writes the exit code, and nothing sets the flag again.
pub proof fn step_frame(machine: Machine)
    requires
        machine.step() is Ok,
    ensures
        ({
            let next = machine.step().unwrap();
            let instruction = machine.program[machine.isp as int];
            &&& machine.isp < machine.program.len()
            &&& next.program == machine.program
            &&& next.isp == machine.isp + 1
            &&& next.running ==> machine.running
            &&& instruction.opcode != Opcode::Syscall ==> next.running == machine.running
                && next.exit_code == machine.exit_code
            &&& instruction.opcode == Opcode::Syscall ==> !next.running && next.exit_code
                == low_byte(machine.ebx)
        }),
{
}

/// A run goes on from wherever its steps have taken it: if `count` steps from
/// `start` succeed and leave the machine running, the run from `start` ends as
/// the run from there does.
pub proof fn run_resumes(start: Machine, count: nat)
    requires
        start.step_n(count) matches Ok(reached) && reached.running,
    ensures
        start.run() == start.step_n(count).unwrap().run(),
        start.outcome() == start.step_n(count).unwrap().outcome(),
        start.settle() == start.step_n(count).unwrap().settle(),
    decreases count,
{
    if count > 0 {
        if !start.running {
            step_n_keeps_halted(start, count);
        }
        run_resumes(start.step().unwrap(), (count - 1) as nat);
    }
}

/// A halted machine stays halted through any number of steps.
pub proof fn step_n_keeps_halted(machine: Machine, count: nat)
    requires
        machine.step_n(count) is Ok,
        !machine.running,
    ensures
        !machine.step_n(count).unwrap().running,
    decreases count,
{
    if count > 0 {
        step_frame(machine);
        step_n_keeps_halted(machine.step().unwrap(), (count - 1) as nat);
    }
}

/// A run that comes to the end of its program without having halted faults on
/// the next fetch: if `count` steps from `start` succeed, leave the machine
/// running and the instruction pointer behind the last instruction, the run
/// from `start` returns `IspOverflow`.
pub proof fn running_off_the_end_faults(start: Machine, count: nat)
    requires
        start.step_n(count) matches Ok(reached) && reached.running && reached.isp
            >= reached.program.len(),
    ensures
        start.outcome() == Err::<u8, Fault>(Fault::IspOverflow),
{
    run_resumes(start, count);
    fetch_past_the_end_faults(start.step_n(count).unwrap());
}

/// A running machine in front of its last instruction, where that instruction
/// is no syscall: the run returns the instruction's own fault if it has one,
/// and `IspOverflow` after executing it if it has none.
pub proof fn last_instruction_without_exit(machine: Machine)
    requires
        machine.running,
        machine.isp + 1 == machine.program.len(),
        machine.program[machine.isp as int].opcode != Opcode::Syscall,
    ensures
        machine.outcome() == match machine.execute() {
            Ok(_) => Err::<u8, Fault>(Fault::IspOverflow),
            Err(fault) => Err(fault),
        },
{
    if machine.step() is Ok {
        step_frame(machine);
        fetch_past_the_end_faults(machine.step().unwrap());
    }
}

/// A running machine in front of the three instructions `Move EBX, code`,
/// `Move EAX, selector of exit` and `Syscall` halts with the low eight bits of
/// what `code` stands for: of `code` itself where it names no register, so
/// `code` modulo 256.
pub proof fn exit_sequence_returns_code(machine: Machine, code: usize)
    requires
        machine.running,
        machine.isp + 3 <= machine.program.len(),
        is_move(machine.program[machine.isp as int], Register::Ebx, code),
        is_move(machine.program[machine.isp as int + 1], Register::Eax, Syscall::Exit.id()),
        machine.program[machine.isp as int + 2].opcode == Opcode::Syscall,
    ensures
        machine.outcome() == Ok::<u8, Fault>(low_byte(machine.operand_value(code))),
        Register::decode(code) is None ==> machine.outcome() == Ok::<u8, Fault>(
            (code % 256) as u8,
        ),
{
    let loaded = machine.step().unwrap();
    assert(loaded == Machine {
        ebx: machine.operand_value(code),
        isp: machine.isp + 1,
        ..machine
    });
    let selected = loaded.step().unwrap();
    assert(selected == Machine { eax: Syscall::Exit.id(), isp: machine.isp + 2, ..loaded });
    assert(machine.run() == loaded.run());
    assert(loaded.run() == selected.run());
    exit_halts(selected);
}

/// Every program that ends in `Move EBX, code`, `Move EAX, selector of exit`,
/// `Syscall` returns `code` modulo 256, provided that the instructions before
/// them run through, without a fault and without halting, and that `code`
/// names no register. `count` is the number of instructions before the three.
pub proof fn program_ending_in_exit_returns_code(
    program: Seq<InstructionView>,
    count: nat,
    code: usize,
)
    requires
        program.len() == count + 3,
        is_move(program[count as int], Register::Ebx, code),
        is_move(program[count as int + 1], Register::Eax, Syscall::Exit.id()),
        program[count as int + 2].opcode == Opcode::Syscall,
        Register::decode(code) is None,
        Machine::boot(program).step_n(count) matches Ok(reached) && reached.running,
    ensures
        Machine::boot(program).outcome() == Ok::<u8, Fault>((code % 256) as u8),
{
    let start = Machine::boot(program);
    let reached = start.step_n(count).unwrap();
    step_n_frame(start, count);
    run_resumes(start, count);
    exit_sequence_returns_code(reached, code);
}

/// Steps that succeed keep the program and move the instruction pointer by
/// their number.
pub proof fn step_n_frame(machine: Machine, count: nat)
    requires
        machine.step_n(count) is Ok,
    ensures
        machine.step_n(count).unwrap().program == machine.program,
        machine.step_n(count).unwrap().isp == machine.isp + count,
    decreases count,
{
    if count > 0 {
        step_frame(machine);
        step_n_frame(machine.step().unwrap(), (count - 1) as nat);
    }
}

/// How a run ends. Either it returns an exit code: then the machine has come
/// to rest halted, and, if it was running at the start, the instruction before
/// the instruction pointer is the exit syscall that halted it, with the low
/// eight bits of EBX as the exit code. Or it returns a fault: then the machine
/// has come to rest running, in front of the instruction that faults.
pub proof fn run_halts_or_faults(machine: Machine)
    ensures
        machine.settle().program == machine.program,
        match machine.run() {
            Ok(halted) => {
                &&& halted == machine.settle()
                &&& !halted.running
                &&& machine.running ==> {
                    &&& 0 < halted.isp <= halted.program.len()
                    &&& halted.program[halted.isp - 1].opcode == Opcode::Syscall
                    &&& halted.eax == Syscall::Exit.id()
                    &&& halted.exit_code == low_byte(halted.ebx)
                }
            },
            Err(fault) => {
                &&& machine.settle().running
                &&& machine.settle().step() == Err::<Machine, Fault>(fault)
            },
        },
    decreases machine.program.len() - machine.isp,
{
    if machine.running && machine.step() is Ok {
        let next = machine.step().unwrap();
        step_frame(machine);
        run_halts_or_faults(next);
        if !next.running {
            assert(next.run() == Ok::<Machine, Fault>(next));
        }
    }
}

} // verus!
