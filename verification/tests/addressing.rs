use nesnes::arch::cpu::CPU;
use nesnes::arch::memory::{CPUMemory, PPURegister};
use nesnes::arch::op::AddressingMode;
use nesnes::arch::register::Register;
use nesnes::arch::{Fault, Opeland};

fn cpu(program: &[u8]) -> CPU {
    CPU {
        register: Register::default(),
        memory: CPUMemory::new(program.to_vec(), PPURegister::default()),
    }
}

#[test]
fn fetch_takes_the_byte_and_moves_on() {
    let mut c = cpu(&[0x11, 0x22]);
    assert_eq!(c.fetch(), Ok(0x11));
    assert_eq!(c.register.pc, 1);
    assert_eq!(c.fetch(), Ok(0x22));
    assert_eq!(c.register.pc, 2);
    assert_eq!(c.fetch(), Err(Fault::BadAddress));
    assert_eq!(c.register.pc, 3);
}

#[test]
fn fetch_above_program_memory_is_refused() {
    let mut c = cpu(&[0x11, 0x22]);
    c.register.pc = 0x8000;
    assert_eq!(c.fetch(), Err(Fault::BadAddress));
    assert_eq!(c.register.pc, 0x8001);
    c.register.pc = 0xFFFF;
    assert_eq!(c.fetch(), Err(Fault::BadAddress));
    assert_eq!(c.register.pc, 0x0000);
}

#[test]
fn fetch_word_is_little_endian() {
    let mut c = cpu(&[0x34, 0x12, 0xFF]);
    assert_eq!(c.fetch_word(), Ok(0x1234));
    assert_eq!(c.register.pc, 2);
    assert_eq!(c.fetch_word(), Err(Fault::BadAddress));
    assert_eq!(c.register.pc, 4);
}

#[test]
fn modes_without_bytes() {
    let mut c = cpu(&[0x11]);
    assert_eq!(c.get_opeland(&AddressingMode::Implied), Ok(Opeland::Absent));
    assert_eq!(c.get_opeland(&AddressingMode::Accumulator), Ok(Opeland::Accumulator));
    assert_eq!(c.register.pc, 0);
}

#[test]
fn immediate() {
    let mut c = cpu(&[0x42]);
    assert_eq!(c.get_opeland(&AddressingMode::Immediate), Ok(Opeland::Value(0x42)));
    assert_eq!(c.register.pc, 1);
    assert_eq!(c.get_opeland(&AddressingMode::Immediate), Err(Fault::BadAddress));
}

#[test]
fn zero_page() {
    let mut c = cpu(&[0x80, 0xFF, 0xFE]);
    c.register.x = 2;
    c.register.y = 3;
    assert_eq!(c.get_opeland(&AddressingMode::ZeroPage), Ok(Opeland::Address(0x0080)));
    assert_eq!(c.get_opeland(&AddressingMode::ZeroPageX), Ok(Opeland::Address(0x0001)));
    assert_eq!(c.get_opeland(&AddressingMode::ZeroPageY), Ok(Opeland::Address(0x0001)));
    assert_eq!(c.register.pc, 3);
}

#[test]
fn zero_page_with_index_in_range() {
    let mut c = cpu(&[0x10, 0x10]);
    c.register.x = 0x20;
    c.register.y = 0xEF;
    assert_eq!(c.get_opeland(&AddressingMode::ZeroPageX), Ok(Opeland::Address(0x0030)));
    assert_eq!(c.get_opeland(&AddressingMode::ZeroPageY), Ok(Opeland::Address(0x00FF)));
}

#[test]
fn relative_forwards_and_backwards() {
    let mut program = vec![0u8; 0x20];
    program[0x10] = 0x05;
    program[0x11] = 0xFE;
    program[0x12] = 0x7F;
    program[0x13] = 0x80;
    let mut c = cpu(&program);
    c.register.pc = 0x10;
    assert_eq!(c.get_opeland(&AddressingMode::Relative), Ok(Opeland::Address(0x0016)));
    assert_eq!(c.get_opeland(&AddressingMode::Relative), Ok(Opeland::Address(0x0010)));
    assert_eq!(c.get_opeland(&AddressingMode::Relative), Ok(Opeland::Address(0x0092)));
    assert_eq!(c.get_opeland(&AddressingMode::Relative), Ok(Opeland::Address(0xFF94)));
    assert_eq!(c.register.pc, 0x14);
}

#[test]
fn relative_wraps_below_zero() {
    let mut c = cpu(&[0xFE]);
    assert_eq!(c.get_opeland(&AddressingMode::Relative), Ok(Opeland::Address(0xFFFF)));
}

#[test]
fn absolute() {
    let mut c = cpu(&[0x34, 0x12, 0x34, 0x12, 0xFF, 0xFF]);
    c.register.x = 0x10;
    c.register.y = 0xFF;
    assert_eq!(c.get_opeland(&AddressingMode::Absolute), Ok(Opeland::Address(0x1234)));
    assert_eq!(c.get_opeland(&AddressingMode::AbsoluteX), Ok(Opeland::Address(0x1244)));
    assert_eq!(c.get_opeland(&AddressingMode::AbsoluteY), Ok(Opeland::Address(0x00FE)));
    assert_eq!(c.register.pc, 6);
}

#[test]
fn indirect() {
    let mut c = cpu(&[0x20, 0x00]);
    c.memory.wram[0x20] = 0x78;
    c.memory.wram[0x21] = 0x56;
    assert_eq!(c.get_opeland(&AddressingMode::Indirect), Ok(Opeland::Address(0x5678)));
    assert_eq!(c.register.pc, 2);
}

#[test]
fn indirect_through_an_address_that_cannot_be_read() {
    let mut c = cpu(&[0x00, 0x40, 0xFF, 0xFF]);
    assert_eq!(c.get_opeland(&AddressingMode::Indirect), Err(Fault::BadAddress));
    assert_eq!(c.register.pc, 2);
    assert_eq!(c.get_opeland(&AddressingMode::Indirect), Err(Fault::BadAddress));
}

#[test]
fn indirect_x() {
    let mut c = cpu(&[0x20, 0xFE]);
    c.register.x = 4;
    c.memory.wram[0x24] = 0xCD;
    c.memory.wram[0x25] = 0xAB;
    c.memory.wram[0x02] = 0x11;
    c.memory.wram[0x03] = 0x22;
    assert_eq!(c.get_opeland(&AddressingMode::IndirectX), Ok(Opeland::Address(0xABCD)));
    assert_eq!(c.get_opeland(&AddressingMode::IndirectX), Ok(Opeland::Address(0x2211)));
}

#[test]
fn indirect_x_pointer_at_the_end_of_the_page() {
    let mut c = cpu(&[0xFF]);
    c.register.x = 0;
    c.memory.wram[0xFF] = 0x34;
    c.memory.wram[0x100] = 0x12;
    assert_eq!(c.get_opeland(&AddressingMode::IndirectX), Ok(Opeland::Address(0x1234)));
}

#[test]
fn indirect_y_reads_the_low_byte_first() {
    let mut c = cpu(&[0x20, 0x40, 0x30]);
    c.register.y = 0x01;
    c.memory.wram[0x20] = 0x34;
    c.memory.wram[0x21] = 0x12;
    c.memory.wram[0x40] = 0xFF;
    c.memory.wram[0x41] = 0xFF;
    c.memory.wram[0x30] = 0xF0;
    c.memory.wram[0x31] = 0x20;
    assert_eq!(c.get_opeland(&AddressingMode::IndirectY), Ok(Opeland::Address(0x1235)));
    assert_eq!(c.register.pc, 1);
    assert_eq!(c.get_opeland(&AddressingMode::IndirectY), Ok(Opeland::Address(0x0000)));
    c.register.y = 0x20;
    assert_eq!(c.get_opeland(&AddressingMode::IndirectY), Ok(Opeland::Address(0x2110)));
    assert_eq!(c.register.pc, 3);
}

#[test]
fn indirect_x_and_indirect_y_agree_without_an_index() {
    let mut c = cpu(&[0x50, 0x50]);
    c.memory.wram[0x50] = 0xCD;
    c.memory.wram[0x51] = 0xAB;
    assert_eq!(c.indirect_x(), Ok(Opeland::Address(0xABCD)));
    assert_eq!(c.indirect_y(), Ok(Opeland::Address(0xABCD)));
}

#[test]
fn mode_functions_one_by_one() {
    let mut c = cpu(&[0x10, 0x00, 0x20, 0x05, 0x30, 0x00, 0x07]);
    c.memory.wram[0x30] = 0x01;
    c.memory.wram[0x31] = 0x02;
    assert_eq!(c.zero_page(0xF8), Ok(Opeland::Address(0x0008)));
    assert_eq!(c.absolute(0x01), Ok(Opeland::Address(0x2001)));
    assert_eq!(c.relative(), Ok(Opeland::Address(0x0009)));
    assert_eq!(c.indirect(), Ok(Opeland::Address(0x0201)));
    assert_eq!(c.immediate(), Ok(Opeland::Value(0x07)));
    assert_eq!(c.register.pc, 7);
}

#[test]
fn read_pair_reads_two_neighbours() {
    let mut c = cpu(&[0xAA, 0xBB]);
    assert_eq!(c.read_pair(0x8000), Ok((0xAA, 0xBB)));
    assert_eq!(c.read_pair(0x8001), Err(Fault::BadAddress));
    assert_eq!(c.read_pair(0xFFFF), Err(Fault::BadAddress));
    c.memory.wram[0x7FF] = 1;
    c.memory.wram[0x000] = 2;
    assert_eq!(c.read_pair(0x07FF), Ok((1, 2)));
}

#[test]
fn value_of_an_operand() {
    let mut c = cpu(&[0x99]);
    c.memory.wram[0x10] = 0x77;
    assert_eq!(c.value_of(Opeland::Value(0x12)), Ok(0x12));
    assert_eq!(c.value_of(Opeland::Address(0x0010)), Ok(0x77));
    assert_eq!(c.value_of(Opeland::Address(0x8000)), Ok(0x99));
    assert_eq!(c.value_of(Opeland::Address(0x4000)), Err(Fault::BadAddress));
    assert_eq!(c.value_of(Opeland::Accumulator), Err(Fault::BadOperand));
    assert_eq!(c.value_of(Opeland::Absent), Err(Fault::BadOperand));
}

#[test]
fn stack_push_and_pop() {
    let mut c = cpu(&[]);
    c.register.sp = 0xFD;
    c.stack_push(0x12);
    assert_eq!(c.memory.wram[0x1FD], 0x12);
    assert_eq!(c.register.sp, 0xFC);
    c.stack_push(0x34);
    assert_eq!(c.memory.wram[0x1FC], 0x34);
    assert_eq!(c.register.sp, 0xFB);
    assert_eq!(c.stack_pop(), 0x34);
    assert_eq!(c.stack_pop(), 0x12);
    assert_eq!(c.register.sp, 0xFD);
}

#[test]
fn stack_pointer_wraps() {
    let mut c = cpu(&[]);
    assert_eq!(c.register.sp, 0x00);
    c.stack_push(0xAB);
    assert_eq!(c.memory.wram[0x100], 0xAB);
    assert_eq!(c.register.sp, 0xFF);
    assert_eq!(c.stack_pop(), 0xAB);
    assert_eq!(c.register.sp, 0x00);
    c.register.sp = 0xFF;
    c.memory.wram[0x100] = 0xCD;
    assert_eq!(c.stack_pop(), 0xCD);
    assert_eq!(c.register.sp, 0x00);
}
