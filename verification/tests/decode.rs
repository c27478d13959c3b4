use nesnes::arch::op::{create, AddressingMode, OPCode, Operation};
use nesnes::arch::Fault;

fn entry(byte: u8) -> (OPCode, AddressingMode, u32) {
    let o = Operation::new(byte).unwrap();
    (o.op, o.mode, o.cycle)
}

#[test]
fn table_entries() {
    assert_eq!(entry(0x69), (OPCode::ADC, AddressingMode::Immediate, 2));
    assert_eq!(entry(0x71), (OPCode::ADC, AddressingMode::IndirectY, 5));
    assert_eq!(entry(0x21), (OPCode::AND, AddressingMode::IndirectX, 6));
    assert_eq!(entry(0x0A), (OPCode::ASL, AddressingMode::Accumulator, 2));
    assert_eq!(entry(0x1E), (OPCode::ASL, AddressingMode::AbsoluteX, 7));
    assert_eq!(entry(0xC9), (OPCode::CMP, AddressingMode::Immediate, 2));
    assert_eq!(entry(0xE0), (OPCode::CPX, AddressingMode::Immediate, 2));
    assert_eq!(entry(0xCC), (OPCode::CPY, AddressingMode::Absolute, 4));
    assert_eq!(entry(0xCA), (OPCode::DEX, AddressingMode::Implied, 2));
    assert_eq!(entry(0x88), (OPCode::DEY, AddressingMode::Implied, 2));
    assert_eq!(entry(0xE6), (OPCode::INC, AddressingMode::ZeroPage, 5));
    assert_eq!(entry(0xE8), (OPCode::INX, AddressingMode::Implied, 2));
    assert_eq!(entry(0x01), (OPCode::ORA, AddressingMode::IndirectX, 6));
    assert_eq!(entry(0xE9), (OPCode::SBC, AddressingMode::Immediate, 2));
    assert_eq!(entry(0xF0), (OPCode::BEQ, AddressingMode::Relative, 2));
    assert_eq!(entry(0x4C), (OPCode::JMP, AddressingMode::Absolute, 3));
    assert_eq!(entry(0x6C), (OPCode::JMP, AddressingMode::Indirect, 5));
    assert_eq!(entry(0x20), (OPCode::JSR, AddressingMode::Absolute, 6));
    assert_eq!(entry(0x60), (OPCode::RTS, AddressingMode::Implied, 6));
    assert_eq!(entry(0xA5), (OPCode::LDA, AddressingMode::ZeroPage, 3));
    assert_eq!(entry(0xA9), (OPCode::LDA, AddressingMode::Immediate, 2));
    assert_eq!(entry(0xB6), (OPCode::LDX, AddressingMode::ZeroPageY, 4));
    assert_eq!(entry(0xBC), (OPCode::LDY, AddressingMode::AbsoluteX, 4));
    assert_eq!(entry(0x8D), (OPCode::STA, AddressingMode::Absolute, 4));
    assert_eq!(entry(0x91), (OPCode::STA, AddressingMode::IndirectY, 6));
    assert_eq!(entry(0x96), (OPCode::STX, AddressingMode::ZeroPageY, 4));
    assert_eq!(entry(0x9A), (OPCode::TXS, AddressingMode::Implied, 2));
    assert_eq!(entry(0x98), (OPCode::TYA, AddressingMode::Implied, 2));
    assert_eq!(entry(0x00), (OPCode::BRK, AddressingMode::Implied, 7));
    assert_eq!(entry(0xEA), (OPCode::NOP, AddressingMode::Implied, 2));
    assert_eq!(entry(0x78), (OPCode::SEI, AddressingMode::Implied, 2));
}

#[test]
fn bytes_without_an_entry_are_refused() {
    for byte in [0x02u8, 0x03, 0x40, 0x48, 0x68, 0x84, 0x8A, 0xAA, 0xA8, 0xBA, 0xC8, 0xFF] {
        assert_eq!(Operation::new(byte), Err(Fault::UnknownOpcode));
    }
}

#[test]
fn the_table_has_109_entries_of_two_to_seven_cycles() {
    let mut known = 0;
    for byte in 0..=255u8 {
        match Operation::new(byte) {
            Ok(o) => {
                known += 1;
                assert!(2 <= o.cycle && o.cycle <= 7);
            }
            Err(e) => assert_eq!(e, Fault::UnknownOpcode),
        }
    }
    assert_eq!(known, 109);
}

#[test]
fn branches_and_only_branches_are_relative() {
    let branches = [
        OPCode::BCC,
        OPCode::BCS,
        OPCode::BEQ,
        OPCode::BNE,
        OPCode::BVC,
        OPCode::BVS,
        OPCode::BPL,
        OPCode::BMI,
    ];
    let mut seen = 0;
    for byte in 0..=255u8 {
        if let Ok(o) = Operation::new(byte) {
            let relative = o.mode == AddressingMode::Relative;
            assert_eq!(relative, branches.contains(&o.op));
            if relative {
                seen += 1;
            }
        }
    }
    assert_eq!(seen, 8);
}

#[test]
fn create_keeps_its_parts() {
    let o = create(OPCode::LDA, AddressingMode::Immediate, 2);
    assert_eq!(o.op, OPCode::LDA);
    assert_eq!(o.mode, AddressingMode::Immediate);
    assert_eq!(o.cycle, 2);
    assert_eq!(Ok(o), Operation::new(0xA9));
}

#[test]
fn the_low_bits_of_an_opcode_name_its_mode() {
    for byte in 0..=255u8 {
        if let Ok(o) = Operation::new(byte) {
            match byte % 0x20 {
                0x01 => assert_eq!(o.mode, AddressingMode::IndirectX),
                0x11 => assert_eq!(o.mode, AddressingMode::IndirectY),
                0x04 | 0x05 | 0x06 => assert_eq!(o.mode, AddressingMode::ZeroPage),
                0x09 => assert_eq!(o.mode, AddressingMode::Immediate),
                0x0D => assert_eq!(o.mode, AddressingMode::Absolute),
                0x10 => assert_eq!(o.mode, AddressingMode::Relative),
                0x15 => assert_eq!(o.mode, AddressingMode::ZeroPageX),
                0x19 => assert_eq!(o.mode, AddressingMode::AbsoluteY),
                0x1D => assert_eq!(o.mode, AddressingMode::AbsoluteX),
                _ => (),
            }
        }
    }
    for byte in [0x01u8, 0x21, 0x61, 0x81, 0xA1, 0xC1, 0xE1] {
        assert_eq!(entry(byte).1, AddressingMode::IndirectX);
        assert_eq!(entry(byte).2, 6);
    }
}

#[test]
fn cells_of_page_zero_cost_three_cycles() {
    for byte in [0x05u8, 0x25, 0x65, 0x85, 0x86, 0xA4, 0xA5, 0xA6, 0xC4, 0xC5, 0xE4, 0xE5] {
        assert_eq!(entry(byte).1, AddressingMode::ZeroPage);
        assert_eq!(entry(byte).2, 3);
    }
    assert_eq!(entry(0x06).2, 5);
    assert_eq!(entry(0xE6).2, 5);
}
