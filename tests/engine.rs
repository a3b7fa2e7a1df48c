use cpu::decode::{decode, instruction, Instruction};
use cpu::linear::CPU2;
use cpu::machine::CPU3;
use cpu::model::{Fault, State};
use cpu::single::CPU1;

fn machine_with(program: &[u8], at: usize) -> CPU3 {
    let mut m = CPU3::new(4096, 16);
    m.load(at, program);
    m
}

#[test]
fn decode_splits_fields() {
    let f = decode(0x8AB4);
    assert_eq!(f.class, 0x8);
    assert_eq!(f.x, 0xA);
    assert_eq!(f.y, 0xB);
    assert_eq!(f.sub, 0x4);
    assert_eq!(f.addr12, 0xAB4);
    assert_eq!(f.imm8, 0xB4);
}

#[test]
fn instruction_table() {
    assert_eq!(instruction(0x0000), Instruction::Halt);
    assert_eq!(instruction(0x00EE), Instruction::Return);
    assert_eq!(instruction(0x2ABC), Instruction::Call { addr: 0xABC });
    assert_eq!(instruction(0x8014), Instruction::Add { x: 0, y: 1 });
    assert_eq!(instruction(0x8F34), Instruction::Add { x: 0xF, y: 3 });
    assert_eq!(instruction(0x1234), Instruction::Unknown);
    assert_eq!(instruction(0x8015), Instruction::Unknown);
    assert_eq!(instruction(0x00E0), Instruction::Unknown);
}

#[test]
fn add_with_carry_overflow() {
    let mut m = CPU3::new(16, 4);
    m.set_register(2, 250);
    m.set_register(3, 10);
    m.add_xy(2, 3);
    assert_eq!(m.register(2), 4);
    assert_eq!(m.register(15), 1);
    assert_eq!(m.register(3), 10);
}

#[test]
fn add_without_carry() {
    let mut m = CPU3::new(16, 4);
    m.set_register(15, 1);
    m.set_register(2, 5);
    m.set_register(3, 10);
    m.add_xy(2, 3);
    assert_eq!(m.register(2), 15);
    assert_eq!(m.register(15), 0);
}

#[test]
fn add_into_flag_register_keeps_flag() {
    let mut m = CPU3::new(16, 4);
    m.set_register(15, 200);
    m.set_register(1, 100);
    m.add_xy(15, 1);
    assert_eq!(m.register(15), 1);
}

#[test]
fn add_both_orders_same_sum() {
    let mut a = CPU3::new(16, 4);
    a.set_register(4, 200);
    a.set_register(7, 100);
    let mut b = CPU3::new(16, 4);
    b.set_register(4, 200);
    b.set_register(7, 100);
    a.add_xy(4, 7);
    b.add_xy(7, 4);
    assert_eq!(a.register(4), 44);
    assert_eq!(b.register(7), 44);
    assert_eq!(a.register(15), b.register(15));
    // then the swapped ADD: the flag follows the last one
    a.add_xy(7, 4);
    assert_eq!(a.register(4), 44);
    assert_eq!(a.register(7), 144);
    assert_eq!(a.register(15), 0);
}

#[test]
fn scenario_two_adds_then_halt() {
    let mut m = machine_with(&[0x80, 0x14, 0x80, 0x14, 0x00, 0x00], 0);
    m.set_register(0, 5);
    m.set_register(1, 10);
    assert_eq!(m.run(100), Ok(State::Halted));
    assert_eq!(m.register(0), 25);
    assert_eq!(m.pc(), 6);
}

#[test]
fn scenario_subroutine_called_twice() {
    let mut m = machine_with(&[0x21, 0x00, 0x21, 0x00, 0x00, 0x00], 0);
    m.load(0x100, &[0x80, 0x14, 0x80, 0x14, 0x00, 0xEE]);
    m.set_register(0, 5);
    m.set_register(1, 10);
    assert_eq!(m.run(100), Ok(State::Halted));
    assert_eq!(m.register(0), 45);
    assert_eq!(m.stack_depth(), 0);
}

#[test]
fn unknown_opcode_changes_nothing() {
    let mut m = machine_with(&[0x21, 0x00], 0);
    m.load(0x100, &[0x12, 0x34]);
    m.set_register(0, 5);
    m.set_register(1, 10);
    assert_eq!(m.step(), Ok(State::Running));
    let regs = m.registers();
    assert_eq!(m.step(), Err(Fault::UnknownOpcode { opcode: 0x1234, pc: 0x100 }));
    assert_eq!(m.registers(), regs);
    assert_eq!(m.pc(), 0x102);
    assert_eq!(m.stack_depth(), 1);
    assert_eq!(m.return_address(0), 2);
    assert_eq!(m.byte(0x100), 0x12);
    assert_eq!(m.byte(0x101), 0x34);
}

#[test]
fn nested_calls_then_returns_restore_pc() {
    let mut m = CPU3::new(4096, 16);
    m.set_pc(0x222);
    for i in 0..16u16 {
        assert_eq!(m.call(0x100 + 2 * i), Ok(()));
    }
    assert_eq!(m.stack_depth(), 16);
    assert_eq!(m.pc(), 0x11E);
    for _ in 0..16 {
        assert_eq!(m.ret(), Ok(()));
    }
    assert_eq!(m.pc(), 0x222);
    assert_eq!(m.stack_depth(), 0);
}

#[test]
fn call_beyond_capacity_overflows() {
    let mut m = CPU3::new(4096, 16);
    for i in 0..16u16 {
        assert_eq!(m.call(0x200 + i), Ok(()));
    }
    let pc = m.pc();
    assert_eq!(m.call(0x300), Err(Fault::StackOverflow));
    assert_eq!(m.stack_depth(), 16);
    assert_eq!(m.stack_capacity(), 16);
    assert_eq!(m.pc(), pc);
}

#[test]
fn self_call_overflows_in_run() {
    let mut m = machine_with(&[0x20, 0x00], 0);
    assert_eq!(m.run(1000), Err(Fault::StackOverflow));
    assert_eq!(m.stack_depth(), 16);
    assert_eq!(m.pc(), 2);
}

#[test]
fn return_on_empty_stack_underflows() {
    let mut m = CPU3::new(4096, 16);
    m.set_pc(0x40);
    assert_eq!(m.ret(), Err(Fault::StackUnderflow));
    assert_eq!(m.pc(), 0x40);
    m.load(0x40, &[0x00, 0xEE]);
    assert_eq!(m.step(), Err(Fault::StackUnderflow));
    assert_eq!(m.pc(), 0x42);
}

#[test]
fn fetch_past_end_faults() {
    let mut m = CPU3::new(5, 2);
    m.load(0, &[0x80, 0x14, 0x80, 0x14, 0x80]);
    assert_eq!(m.run(10), Err(Fault::OutOfBoundsFetch { pc: 4 }));
    assert_eq!(m.pc(), 4);
    assert_eq!(m.read_opcode(), Err(Fault::OutOfBoundsFetch { pc: 4 }));
}

#[test]
fn read_opcode_is_big_endian() {
    let m = machine_with(&[0x12, 0x34], 0);
    assert_eq!(m.read_opcode(), Ok(0x1234));
}

#[test]
fn step_budget_exhausted_is_running() {
    let mut m = machine_with(&[0x20, 0x00], 0);
    assert_eq!(m.run(5), Ok(State::Running));
    assert_eq!(m.stack_depth(), 5);
}

#[test]
fn zero_capacity_stack_overflows_at_once() {
    let mut m = CPU3::new(16, 0);
    m.load(0, &[0x21, 0x00]);
    assert_eq!(m.step(), Err(Fault::StackOverflow));
    assert_eq!(m.pc(), 2);
    assert_eq!(m.call(4), Err(Fault::StackOverflow));
    assert_eq!(m.memory_size(), 16);
    assert_eq!(m.stack_capacity(), 0);
}

#[test]
fn linear_machine_accumulates() {
    let mut m = CPU2::new();
    m.set_register(0, 5);
    m.set_register(1, 10);
    m.set_register(2, 10);
    m.set_register(3, 10);
    m.load(0, &[0x80, 0x14, 0x80, 0x24, 0x80, 0x34]);
    assert_eq!(m.run(100), Ok(State::Halted));
    assert_eq!(m.register(0), 35);
    assert_eq!(m.pc(), 8);
}

#[test]
fn linear_machine_rejects_call() {
    let mut m = CPU2::new();
    m.load(0, &[0x80, 0x14, 0x21, 0x00]);
    m.set_register(1, 3);
    assert_eq!(m.run(100), Err(Fault::UnknownOpcode { opcode: 0x2100, pc: 2 }));
    assert_eq!(m.register(0), 3);
    assert_eq!(m.pc(), 4);
}

#[test]
fn linear_machine_step_and_fetch() {
    let mut m = CPU2::new();
    m.load(4094, &[0x80, 0x14]);
    m.set_register(0, 1);
    m.set_register(1, 255);
    assert_eq!(m.read_opcode(), Ok(0x0000));
    assert_eq!(m.step(), Ok(State::Halted));
    m.add_xy(0, 1);
    assert_eq!(m.register(0), 0);
    assert_eq!(m.register(15), 1);
}

#[test]
fn linear_machine_runs_off_the_end() {
    let mut m = CPU2::new();
    let adds: Vec<u8> = [0x80u8, 0x14].repeat(2048);
    m.load(0, &adds);
    m.set_register(1, 1);
    assert_eq!(m.run(5000), Err(Fault::OutOfBoundsFetch { pc: 4096 }));
    assert_eq!(m.register(0), 0);
}

#[test]
fn single_operation_add() {
    let mut c = CPU1 { current_operation: 0x8014, registers: [5, 10] };
    assert_eq!(c.read_opcode(), 0x8014);
    assert!(c.run());
    assert_eq!(c.registers[0], 15);
}

#[test]
fn single_operation_wraps_and_rejects() {
    let mut c = CPU1 { current_operation: 0x8104, registers: [0xFFFF, 2] };
    assert!(c.run());
    assert_eq!(c.registers, [0xFFFF, 1]);
    c.current_operation = 0x8024;
    assert!(!c.run());
    c.current_operation = 0x0000;
    assert!(!c.run());
    assert_eq!(c.registers, [0xFFFF, 1]);
    c.add_xy(1, 1);
    assert_eq!(c.registers, [0xFFFF, 2]);
}

#[test]
fn return_first_on_fresh_machine() {
    let mut m = machine_with(&[0x00, 0xEE], 0);
    assert_eq!(m.run(100), Err(Fault::StackUnderflow));
    assert_eq!(m.pc(), 2);
    assert_eq!(m.stack_depth(), 0);
    assert_eq!(m.registers(), [0u8; 16]);
}

#[test]
fn linear_machine_start_address_and_memory() {
    let mut m = CPU2::new();
    m.load(0x200, &[0x80, 0x14, 0x12, 0x34]);
    m.set_register(1, 7);
    m.set_pc(0x200);
    assert_eq!(m.run(10), Err(Fault::UnknownOpcode { opcode: 0x1234, pc: 0x202 }));
    assert_eq!(m.register(0), 7);
    assert_eq!(m.pc(), 0x204);
    assert_eq!(m.byte(0x202), 0x12);
    assert_eq!(m.byte(0x203), 0x34);
    m.set_pc(4095);
    assert_eq!(m.step(), Err(Fault::OutOfBoundsFetch { pc: 4095 }));
    assert_eq!(m.pc(), 4095);
}
