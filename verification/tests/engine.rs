use register_vm::cpu::Cpu;
use register_vm::fault::Fault;
use register_vm::isa::{Instruction, Opcode, Register, Syscall};

fn mov(destination: usize, source: usize) -> Instruction {
    Instruction { opcode: Opcode::Move, args: vec![destination, source] }
}

fn add(amount: usize) -> Instruction {
    Instruction { opcode: Opcode::Add, args: vec![amount] }
}

fn syscall() -> Instruction {
    Instruction { opcode: Opcode::Syscall, args: vec![] }
}

fn registers(cpu: &Cpu) -> [usize; 4] {
    [
        *cpu.get_register(Register::Eax),
        *cpu.get_register(Register::Ebx),
        *cpu.get_register(Register::Ecx),
        *cpu.get_register(Register::Edx),
    ]
}

#[test]
fn new_machine_is_zeroed_and_running() {
    let cpu = Cpu::new(vec![syscall()]);
    assert_eq!(registers(&cpu), [0, 0, 0, 0]);
    assert_eq!(cpu.isp(), 0);
    assert!(cpu.is_running());
    assert_eq!(cpu.exit_code(), 0);
}

#[test]
fn default_machine_is_halted_with_no_program() {
    let mut cpu = Cpu::default();
    assert_eq!(registers(&cpu), [0, 0, 0, 0]);
    assert_eq!(cpu.isp(), 0);
    assert!(!cpu.is_running());
    assert_eq!(cpu.exit_code(), 0);
    assert_eq!(cpu.run(), Ok(0));
    assert_eq!(cpu.isp(), 0);
    assert_eq!(cpu.execute(), Err(Fault::IspOverflow));
}

#[test]
fn reference_program_exits_with_69() {
    let mut cpu = Cpu::new(vec![
        mov(Register::Ebx.id(), 34),
        mov(Register::Eax.id(), Register::Ebx.id()),
        add(35),
        mov(Register::Ebx.id(), Register::Eax.id()),
        mov(Register::Eax.id(), Syscall::Exit.id()),
        syscall(),
    ]);
    assert_eq!(cpu.run(), Ok(69));
    assert_eq!(cpu.exit_code(), 69);
    assert!(!cpu.is_running());
    assert_eq!(cpu.isp(), 6);
    assert_eq!(registers(&cpu), [0, 69, 0, 0]);
}

#[test]
fn minimal_program_exits_with_the_code_in_ebx() {
    let mut cpu = Cpu::new(vec![mov(Register::Ebx.id(), 42), syscall()]);
    assert_eq!(cpu.run(), Ok(42));
}

#[test]
fn selector_given_as_operand_is_not_read() {
    let mut cpu = Cpu::new(vec![
        mov(Register::Eax.id(), 42),
        Instruction { opcode: Opcode::Syscall, args: vec![Syscall::Exit.id()] },
    ]);
    assert_eq!(cpu.run(), Err(Fault::InvalidSyscall));
    assert!(cpu.is_running());
    assert_eq!(cpu.isp(), 1);
    assert_eq!(*cpu.get_register(Register::Eax), 42);
}

#[test]
fn syscall_operands_are_ignored() {
    let mut cpu = Cpu::new(vec![
        mov(Register::Ebx.id(), 7),
        Instruction { opcode: Opcode::Syscall, args: vec![5, 6] },
    ]);
    assert_eq!(cpu.run(), Ok(7));
}

#[test]
fn exit_sequence_returns_code_modulo_256() {
    for (code, expected) in [
        (0_usize, 0_u8),
        (1, 1),
        (69, 69),
        (251, 251),
        (256, 0),
        (257, 1),
        (300, 44),
        (0x1234, 0x34),
        (usize::MAX, 255),
    ] {
        let mut cpu = Cpu::new(vec![
            mov(Register::Ebx.id(), code),
            mov(Register::Eax.id(), Syscall::Exit.id()),
            syscall(),
        ]);
        assert_eq!(cpu.run(), Ok(expected));
        assert_eq!(*cpu.get_register(Register::Ebx), code);
    }
}

#[test]
fn exit_sequence_after_a_prefix_returns_code() {
    let mut cpu = Cpu::new(vec![
        mov(Register::Ecx.id(), 9),
        add(1000),
        mov(Register::Edx.id(), Register::Eax.id()),
        mov(Register::Ebx.id(), 513),
        mov(Register::Eax.id(), Syscall::Exit.id()),
        syscall(),
    ]);
    assert_eq!(cpu.run(), Ok(1));
    assert_eq!(registers(&cpu), [0, 513, 9, 1000]);
}

#[test]
fn exit_code_operand_that_names_a_register_is_read_from_it() {
    let mut cpu = Cpu::new(vec![
        mov(Register::Ecx.id(), 7),
        mov(Register::Ebx.id(), Register::Ecx.id()),
        mov(Register::Eax.id(), Syscall::Exit.id()),
        syscall(),
    ]);
    assert_eq!(cpu.run(), Ok(7));
}

#[test]
fn move_reads_the_register_that_the_source_names() {
    let mut cpu = Cpu::new(vec![mov(Register::Eax.id(), Register::Ebx.id())]);
    cpu.set_register(Register::Ebx, 34);
    assert_eq!(cpu.execute(), Ok(()));
    assert_eq!(*cpu.get_register(Register::Eax), 34);
    assert_ne!(*cpu.get_register(Register::Eax), Register::Ebx.id());
    assert_eq!(*cpu.get_register(Register::Ebx), 34);
}

#[test]
fn move_reads_the_current_value_of_the_source() {
    let mut cpu = Cpu::new(vec![
        mov(Register::Ebx.id(), 1),
        mov(Register::Ecx.id(), Register::Ebx.id()),
        mov(Register::Ebx.id(), 2),
        mov(Register::Edx.id(), Register::Ebx.id()),
    ]);
    for _ in 0..4 {
        assert_eq!(cpu.step(), Ok(()));
    }
    assert_eq!(registers(&cpu), [0, 2, 1, 2]);
}

#[test]
fn move_of_a_register_into_itself_keeps_it() {
    let mut cpu = Cpu::new(vec![mov(Register::Edx.id(), Register::Edx.id())]);
    cpu.set_register(Register::Edx, 12);
    assert_eq!(cpu.execute(), Ok(()));
    assert_eq!(registers(&cpu), [0, 0, 0, 12]);
}

#[test]
fn move_loads_an_immediate_that_names_no_register() {
    for immediate in [0_usize, 1, 3, 0xfb, 0x100, usize::MAX] {
        let mut cpu = Cpu::new(vec![mov(Register::Ecx.id(), immediate)]);
        cpu.set_register(Register::Ecx, 77);
        assert_eq!(cpu.execute(), Ok(()));
        assert_eq!(registers(&cpu), [0, 0, immediate, 0]);
    }
}

#[test]
fn move_overwrites_each_destination() {
    for (index, register) in
        [Register::Eax, Register::Ebx, Register::Ecx, Register::Edx].into_iter().enumerate()
    {
        let mut cpu = Cpu::new(vec![mov(register.id(), 5)]);
        assert_eq!(cpu.execute(), Ok(()));
        let mut expected = [0_usize; 4];
        expected[index] = 5;
        assert_eq!(registers(&cpu), expected);
    }
}

#[test]
fn move_ignores_operands_after_the_second() {
    let mut cpu =
        Cpu::new(vec![Instruction { opcode: Opcode::Move, args: vec![0xfe, 3, 0xff, 9] }]);
    assert_eq!(cpu.execute(), Ok(()));
    assert_eq!(registers(&cpu), [0, 3, 0, 0]);
}

#[test]
fn add_accumulates_into_eax() {
    let mut cpu = Cpu::new(vec![add(35)]);
    cpu.set_register(Register::Eax, 34);
    assert_eq!(cpu.execute(), Ok(()));
    assert_eq!(registers(&cpu), [69, 0, 0, 0]);
}

#[test]
fn add_takes_its_operand_as_an_immediate_even_if_it_names_a_register() {
    let mut cpu = Cpu::new(vec![add(Register::Ebx.id())]);
    cpu.set_register(Register::Ebx, 1);
    assert_eq!(cpu.execute(), Ok(()));
    assert_eq!(*cpu.get_register(Register::Eax), 0xfe);
}

#[test]
fn add_wraps_at_the_native_width() {
    let mut cpu = Cpu::new(vec![add(usize::MAX), add(2)]);
    assert_eq!(cpu.step(), Ok(()));
    assert_eq!(*cpu.get_register(Register::Eax), usize::MAX);
    assert_eq!(cpu.step(), Ok(()));
    assert_eq!(*cpu.get_register(Register::Eax), 1);
}

#[test]
fn repeated_large_adds_wrap_without_a_fault() {
    let large = usize::MAX / 2 + 1;
    let mut cpu = Cpu::new(vec![add(large), add(large), add(large), add(large), add(5)]);
    for _ in 0..5 {
        assert_eq!(cpu.step(), Ok(()));
    }
    assert_eq!(*cpu.get_register(Register::Eax), 5);
    assert_eq!(cpu.isp(), 5);
    assert!(cpu.is_running());
}

#[test]
fn add_ignores_operands_after_the_first() {
    let mut cpu = Cpu::new(vec![Instruction { opcode: Opcode::Add, args: vec![4, 100] }]);
    assert_eq!(cpu.execute(), Ok(()));
    assert_eq!(*cpu.get_register(Register::Eax), 4);
}

#[test]
fn empty_program_faults_on_the_first_fetch() {
    let mut cpu = Cpu::new(vec![]);
    assert_eq!(cpu.run(), Err(Fault::IspOverflow));
    assert_eq!(cpu.isp(), 0);
    assert!(cpu.is_running());
}

#[test]
fn empty_program_faults_on_execute_and_step() {
    let mut cpu = Cpu::new(vec![]);
    assert_eq!(cpu.execute(), Err(Fault::IspOverflow));
    assert_eq!(cpu.step(), Err(Fault::IspOverflow));
    assert_eq!(cpu.isp(), 0);
}

#[test]
fn program_without_exit_runs_off_its_end() {
    let mut cpu = Cpu::new(vec![mov(Register::Eax.id(), 1)]);
    assert_eq!(cpu.run(), Err(Fault::IspOverflow));
    assert_eq!(cpu.isp(), 1);
    assert_eq!(*cpu.get_register(Register::Eax), 1);
    assert!(cpu.is_running());
}

#[test]
fn longer_program_without_exit_executes_every_instruction_first() {
    let mut cpu = Cpu::new(vec![mov(Register::Ebx.id(), 3), add(4), add(5)]);
    assert_eq!(cpu.run(), Err(Fault::IspOverflow));
    assert_eq!(cpu.isp(), 3);
    assert_eq!(registers(&cpu), [9, 3, 0, 0]);
}

#[test]
fn move_without_operands_is_missing_an_operand() {
    let mut cpu = Cpu::new(vec![Instruction { opcode: Opcode::Move, args: vec![] }]);
    assert_eq!(cpu.run(), Err(Fault::MissingOperand));
}

#[test]
fn move_with_one_operand_is_missing_an_operand() {
    let mut cpu =
        Cpu::new(vec![Instruction { opcode: Opcode::Move, args: vec![Register::Eax.id()] }]);
    assert_eq!(cpu.run(), Err(Fault::MissingOperand));
}

#[test]
fn move_with_one_operand_that_names_no_register_is_missing_an_operand() {
    let mut cpu = Cpu::new(vec![Instruction { opcode: Opcode::Move, args: vec![7] }]);
    assert_eq!(cpu.run(), Err(Fault::MissingOperand));
}

#[test]
fn add_without_operand_is_missing_an_operand() {
    let mut cpu = Cpu::new(vec![Instruction { opcode: Opcode::Add, args: vec![] }]);
    assert_eq!(cpu.run(), Err(Fault::MissingOperand));
}

#[test]
fn move_into_an_unknown_register_is_invalid() {
    for raw in [0_usize, 3, 0xfb, 0x100, usize::MAX] {
        let mut cpu = Cpu::new(vec![mov(raw, 1)]);
        assert_eq!(cpu.run(), Err(Fault::InvalidRegister));
        assert_eq!(registers(&cpu), [0, 0, 0, 0]);
    }
}

#[test]
fn syscall_with_unknown_selector_is_invalid() {
    for selector in [1_usize, 2, 42, 0xff, usize::MAX] {
        let mut cpu = Cpu::new(vec![mov(Register::Eax.id(), selector), syscall()]);
        cpu.set_register(Register::Eax, 1);
        assert_eq!(cpu.step(), Ok(()));
        assert_eq!(cpu.run(), Err(Fault::InvalidSyscall));
        assert!(cpu.is_running());
        assert_eq!(cpu.exit_code(), 0);
    }
}

#[test]
fn run_stops_at_the_first_fault() {
    let mut cpu = Cpu::new(vec![
        mov(Register::Ebx.id(), 5),
        mov(3, 1),
        mov(Register::Ecx.id(), 6),
        syscall(),
    ]);
    assert_eq!(cpu.run(), Err(Fault::InvalidRegister));
    assert_eq!(cpu.isp(), 1);
    assert_eq!(registers(&cpu), [0, 5, 0, 0]);
}

#[test]
fn fault_leaves_the_machine_as_it_was() {
    let mut cpu = Cpu::new(vec![Instruction { opcode: Opcode::Move, args: vec![0xff] }]);
    cpu.set_register(Register::Eax, 1);
    cpu.set_register(Register::Ebx, 2);
    cpu.set_register(Register::Ecx, 3);
    cpu.set_register(Register::Edx, 4);
    assert_eq!(cpu.step(), Err(Fault::MissingOperand));
    assert_eq!(registers(&cpu), [1, 2, 3, 4]);
    assert_eq!(cpu.isp(), 0);
    assert!(cpu.is_running());
    assert_eq!(cpu.exit_code(), 0);
}

#[test]
fn exit_truncates_ebx_to_eight_bits() {
    let mut cpu = Cpu::new(vec![syscall()]);
    cpu.set_register(Register::Ebx, 0x1ff);
    assert_eq!(cpu.execute(), Ok(()));
    assert_eq!(cpu.exit_code(), 0xff);
    assert!(!cpu.is_running());
    assert_eq!(registers(&cpu), [0, 0x1ff, 0, 0]);
}

#[test]
fn exit_stops_the_run_before_later_instructions() {
    let mut cpu = Cpu::new(vec![mov(Register::Ebx.id(), 3), syscall(), mov(9, 9), add(1)]);
    assert_eq!(cpu.run(), Ok(3));
    assert_eq!(cpu.isp(), 2);
    assert_eq!(registers(&cpu), [0, 3, 0, 0]);
}

#[test]
fn run_on_a_halted_machine_returns_its_exit_code_again() {
    let mut cpu = Cpu::new(vec![mov(Register::Ebx.id(), 8), syscall()]);
    assert_eq!(cpu.run(), Ok(8));
    assert_eq!(cpu.run(), Ok(8));
    assert_eq!(cpu.isp(), 2);
}

#[test]
fn execute_leaves_the_instruction_pointer_alone() {
    let mut cpu = Cpu::new(vec![add(1), add(10)]);
    assert_eq!(cpu.execute(), Ok(()));
    assert_eq!(cpu.isp(), 0);
    assert_eq!(cpu.execute(), Ok(()));
    assert_eq!(cpu.isp(), 0);
    assert_eq!(*cpu.get_register(Register::Eax), 2);
}

#[test]
fn increment_isp_moves_to_the_next_instruction() {
    let mut cpu = Cpu::new(vec![add(1), add(10)]);
    cpu.increment_isp();
    assert_eq!(cpu.isp(), 1);
    assert_eq!(cpu.execute(), Ok(()));
    assert_eq!(*cpu.get_register(Register::Eax), 10);
    assert_eq!(registers(&cpu), [10, 0, 0, 0]);
}

#[test]
fn step_executes_and_advances() {
    let mut cpu = Cpu::new(vec![add(1), add(10)]);
    assert_eq!(cpu.step(), Ok(()));
    assert_eq!(cpu.isp(), 1);
    assert_eq!(cpu.step(), Ok(()));
    assert_eq!(cpu.isp(), 2);
    assert_eq!(*cpu.get_register(Register::Eax), 11);
    assert_eq!(cpu.step(), Err(Fault::IspOverflow));
    assert_eq!(cpu.isp(), 2);
}

#[test]
fn step_advances_past_the_exit_syscall() {
    let mut cpu = Cpu::new(vec![syscall()]);
    assert_eq!(cpu.step(), Ok(()));
    assert_eq!(cpu.isp(), 1);
    assert!(!cpu.is_running());
}

#[test]
fn set_register_changes_one_register_only() {
    let mut cpu = Cpu::new(vec![]);
    cpu.set_register(Register::Ecx, 11);
    assert_eq!(registers(&cpu), [0, 0, 11, 0]);
    cpu.set_register(Register::Eax, 22);
    assert_eq!(registers(&cpu), [22, 0, 11, 0]);
    cpu.set_register(Register::Edx, 33);
    cpu.set_register(Register::Ebx, 44);
    assert_eq!(registers(&cpu), [22, 44, 11, 33]);
    cpu.set_register(Register::Ecx, 0);
    assert_eq!(registers(&cpu), [22, 44, 0, 33]);
    assert_eq!(cpu.isp(), 0);
    assert!(cpu.is_running());
}

#[test]
fn machines_do_not_share_state() {
    let mut first = Cpu::new(vec![mov(Register::Ebx.id(), 1), syscall()]);
    let mut second = Cpu::new(vec![mov(Register::Ebx.id(), 2), syscall()]);
    assert_eq!(first.run(), Ok(1));
    assert_eq!(second.run(), Ok(2));
    assert_eq!(first.exit_code(), 1);
}
