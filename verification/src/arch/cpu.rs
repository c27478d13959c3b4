//! The processor: fetching, operand resolution for each addressing mode,
//! the stack, and the execution of one whole instruction.

use crate::arch::memory::{lemma_program_read, lemma_ram_access, Bus, CPUMemory};
use crate::arch::op::{decode, lemma_call_return, AddressingMode, OPCode, Operation};
use crate::arch::register::Register;
use crate::arch::{Fault, Opeland};
use vstd::prelude::*;

verus! {

/// The value of `v` in 16 bits.
pub open spec fn wrap16(v: int) -> u16 {
    (v % 0x1_0000) as u16
}

/// The value of `v` in 8 bits.
pub open spec fn wrap8(v: int) -> u8 {
    (v % 0x100) as u8
}

/// The byte `b` read as a signed distance: from 128 on it counts backwards.
pub open spec fn displacement(b: u8) -> int {
    if b < 0x80 {
        b as int
    } else {
        b as int - 0x100
    }
}

/// The processor and what it reaches through the bus, as plain values.
#[verifier::ext_equal]
pub struct Machine {
    pub reg: Register,
    pub bus: Bus,
}

impl Machine {
    /// Each store on the bus has its full size.
    pub open spec fn wf(self) -> bool {
        self.bus.wf()
    }

    /// The machine after a bus read at `addr`, and the byte read.
    pub open spec fn read(self, addr: int) -> (Machine, Result<u8, Fault>) {
        (Machine { bus: self.bus.read(addr).0, ..self }, self.bus.read(addr).1)
    }

    /// The machine after a bus write of `value` at `addr`, and whether the
    /// write is taken.
    pub open spec fn write(self, addr: int, value: u8) -> (Machine, Result<(), Fault>) {
        (Machine { bus: self.bus.write(addr, value).0, ..self }, self.bus.write(addr, value).1)
    }

    /// The machine after the byte at the program counter is taken, and that
    /// byte. The program counter moves on whether or not the read succeeds.
    pub open spec fn fetch(self) -> (Machine, Result<u8, Fault>) {
        (
            Machine {
                reg: Register { pc: wrap16(self.reg.pc + 1), ..self.reg },
                bus: self.bus.read(0x8000 + self.reg.pc).0,
            },
            self.bus.read(0x8000 + self.reg.pc).1,
        )
    }

    /// The machine after two bytes are taken at the program counter, and the
    /// 16-bit value they form, the low byte first.
    pub open spec fn fetch_word(self) -> (Machine, Result<u16, Fault>) {
        let first = self.fetch();
        match first.1 {
            Err(e) => (first.0, Err(e)),
            Ok(low) => {
                let second = first.0.fetch();
                match second.1 {
                    Err(e) => (second.0, Err(e)),
                    Ok(high) => (second.0, Ok((high as int * 0x100 + low as int) as u16)),
                }
            },
        }
    }

    /// The machine after the bytes at `addr` and `addr + 1` are read, in that
    /// order, and the two bytes.
    pub open spec fn read_pair(self, addr: int) -> (Machine, Result<(u8, u8), Fault>) {
        let first = self.read(addr);
        match first.1 {
            Err(e) => (first.0, Err(e)),
            Ok(one) => {
                let second = first.0.read(addr + 1);
                match second.1 {
                    Err(e) => (second.0, Err(e)),
                    Ok(two) => (second.0, Ok((one, two))),
                }
            },
        }
    }

    /// The machine after `data` is pushed: the byte goes to the stack window
    /// at the stack pointer, which then moves one slot down.
    pub open spec fn push(self, data: u8) -> Machine {
        Machine {
            reg: Register { sp: wrap8(self.reg.sp + 0xFF), ..self.reg },
            bus: Bus { wram: self.bus.wram.update(0x100 + self.reg.sp, data), ..self.bus },
        }
    }

    /// The machine after a byte is popped, and that byte: the stack pointer
    /// moves one slot up and the byte is read from the stack window there.
    pub open spec fn pop(self) -> (Machine, u8) {
        (
            Machine { reg: Register { sp: wrap8(self.reg.sp + 1), ..self.reg }, ..self },
            self.bus.wram[0x100 + wrap8(self.reg.sp + 1)],
        )
    }

    /// Operand in page zero: the next byte plus `index`, within the page.
    pub open spec fn zero_page(self, index: u8) -> (Machine, Result<Opeland, Fault>) {
        let f = self.fetch();
        match f.1 {
            Err(e) => (f.0, Err(e)),
            Ok(b) => (f.0, Ok(Opeland::Address(wrap8(b + index) as u16))),
        }
    }

    /// Relative operand: the next byte is a signed distance, added to the
    /// program counter as it stands behind that byte; the sum wraps at 16
    /// bits.
    pub open spec fn relative(self) -> (Machine, Result<Opeland, Fault>) {
        let f = self.fetch();
        match f.1 {
            Err(e) => (f.0, Err(e)),
            Ok(b) => (f.0, Ok(Opeland::Address(wrap16(f.0.reg.pc + displacement(b))))),
        }
    }

    /// Absolute operand: the next two bytes, low byte first, plus `index`;
    /// the sum wraps at 16 bits.
    pub open spec fn absolute(self, index: u8) -> (Machine, Result<Opeland, Fault>) {
        let f = self.fetch_word();
        match f.1 {
            Err(e) => (f.0, Err(e)),
            Ok(w) => (f.0, Ok(Opeland::Address(wrap16(w + index)))),
        }
    }

    /// Indirect operand: the next two bytes point at the address, which is
    /// stored low byte first.
    pub open spec fn indirect(self) -> (Machine, Result<Opeland, Fault>) {
        let f = self.fetch_word();
        match f.1 {
            Err(e) => (f.0, Err(e)),
            Ok(w) => {
                let p = f.0.read_pair(w as int);
                match p.1 {
                    Err(e) => (p.0, Err(e)),
                    Ok(pair) => (
                        p.0,
                        Ok(Opeland::Address((pair.1 as int * 0x100 + pair.0 as int) as u16)),
                    ),
                }
            },
        }
    }

    /// Indirect operand indexed by X: the next byte plus X, within page zero,
    /// points at the address, which is stored low byte first.
    pub open spec fn indirect_x(self) -> (Machine, Result<Opeland, Fault>) {
        let f = self.fetch();
        match f.1 {
            Err(e) => (f.0, Err(e)),
            Ok(b) => {
                let p = f.0.read_pair(wrap8(b + self.reg.x) as int);
                match p.1 {
                    Err(e) => (p.0, Err(e)),
                    Ok(pair) => (
                        p.0,
                        Ok(Opeland::Address((pair.1 as int * 0x100 + pair.0 as int) as u16)),
                    ),
                }
            },
        }
    }

    /// Indirect operand indexed by Y: the next byte points, in page zero, at
    /// a base address, which is stored low byte first; Y is added to it and
    /// the sum wraps at 16 bits.
    pub open spec fn indirect_y(self) -> (Machine, Result<Opeland, Fault>) {
        let f = self.fetch();
        match f.1 {
            Err(e) => (f.0, Err(e)),
            Ok(b) => {
                let p = f.0.read_pair(b as int);
                match p.1 {
                    Err(e) => (p.0, Err(e)),
                    Ok(pair) => (
                        p.0,
                        Ok(
                            Opeland::Address(
                                wrap16(pair.1 as int * 0x100 + pair.0 as int + self.reg.y),
                            ),
                        ),
                    ),
                }
            },
        }
    }

    /// Immediate operand: the next byte is the value.
    pub open spec fn immediate(self) -> (Machine, Result<Opeland, Fault>) {
        let f = self.fetch();
        match f.1 {
            Err(e) => (f.0, Err(e)),
            Ok(b) => (f.0, Ok(Opeland::Value(b))),
        }
    }

    /// The machine after the operand of an instruction with addressing mode
    /// `mode` is resolved, and the operand.
    #[verifier::opaque]
    pub open spec fn operand(self, mode: AddressingMode) -> (Machine, Result<Opeland, Fault>) {
        match mode {
            AddressingMode::Implied => (self, Ok(Opeland::Absent)),
            AddressingMode::Accumulator => (self, Ok(Opeland::Accumulator)),
            AddressingMode::ZeroPage => self.zero_page(0),
            AddressingMode::ZeroPageX => self.zero_page(self.reg.x),
            AddressingMode::ZeroPageY => self.zero_page(self.reg.y),
            AddressingMode::Relative => self.relative(),
            AddressingMode::Absolute => self.absolute(0),
            AddressingMode::AbsoluteX => self.absolute(self.reg.x),
            AddressingMode::AbsoluteY => self.absolute(self.reg.y),
            AddressingMode::Indirect => self.indirect(),
            AddressingMode::IndirectX => self.indirect_x(),
            AddressingMode::IndirectY => self.indirect_y(),
            AddressingMode::Immediate => self.immediate(),
        }
    }

    /// The machine after the value that `opeland` stands for is found, and
    /// that value: an immediate is the value, an address is read through the
    /// bus, and the other shapes stand for no value.
    pub open spec fn value_of(self, opeland: Opeland) -> (Machine, Result<u8, Fault>) {
        match opeland {
            Opeland::Value(v) => (self, Ok(v)),
            Opeland::Address(a) => self.read(a as int),
            _ => (self, Err(Fault::BadOperand)),
        }
    }
}

/// The families of operations: the members of one family take their operand
/// in the same shape and are carried out by the same rule.
#[derive(Clone, Copy, Debug, PartialEq, Eq, Structural)]
pub enum Family {
    /// Sets or clears a flag; no operand.
    Flag,
    /// Arithmetic on the accumulator; a value.
    Arithmetic,
    /// Comparison of a register; a value.
    Compare,
    /// Step of a cell or register by one; an address or no operand.
    Step,
    /// Bitwise combination with the accumulator; a value.
    Logic,
    /// Load of a register; a value.
    Load,
    /// Store of a register; an address.
    Store,
    /// Jump or call; an address.
    Jump,
    /// Return; no operand.
    Return,
    /// Copy between registers; no operand.
    Copy,
    /// Conditional branch; an address.
    Branch,
    /// Shifts, rotations, bit test, stack transfers, software interrupt and
    /// the empty operation: not modelled.
    Unmodelled,
}

/// The family that `op` belongs to.
pub open spec fn family(op: OPCode) -> Family {
    match op {
        OPCode::CLC | OPCode::SEC | OPCode::CLI | OPCode::SEI | OPCode::CLD | OPCode::SED
        | OPCode::CLV => Family::Flag,
        OPCode::ADC | OPCode::SBC => Family::Arithmetic,
        OPCode::CMP | OPCode::CPX | OPCode::CPY => Family::Compare,
        OPCode::INC | OPCode::DEC | OPCode::DEX | OPCode::INX | OPCode::INY | OPCode::DEY => {
            Family::Step
        },
        OPCode::AND | OPCode::ORA | OPCode::EOR => Family::Logic,
        OPCode::LDA | OPCode::LDX | OPCode::LDY => Family::Load,
        OPCode::STA | OPCode::STX | OPCode::STY => Family::Store,
        OPCode::JMP | OPCode::JSR => Family::Jump,
        OPCode::RTS | OPCode::RTI => Family::Return,
        OPCode::TAX | OPCode::TAY | OPCode::TSX | OPCode::TXA | OPCode::TXS | OPCode::TYA => {
            Family::Copy
        },
        OPCode::BCC | OPCode::BCS | OPCode::BEQ | OPCode::BMI | OPCode::BNE | OPCode::BPL
        | OPCode::BVC | OPCode::BVS => Family::Branch,
        OPCode::ASL | OPCode::LSR | OPCode::ROL | OPCode::ROR | OPCode::BIT | OPCode::BRK
        | OPCode::NOP | OPCode::PHA | OPCode::PLA | OPCode::PHP | OPCode::PLP => {
            Family::Unmodelled
        },
    }
}

impl Machine {
    /// The machine after operation `op` is carried out on the resolved
    /// operand `opeland`, and whether it could be.
    ///
    /// An operand whose shape the family cannot take is refused, and so is
    /// an operation that is not modelled. Where the family works on a value
    /// and the operand is an address, the value is read through the bus
    /// first.
    #[verifier::opaque]
    pub open spec fn dispatch(self, op: OPCode, opeland: Opeland) -> (Machine, Result<(), Fault>) {
        match family(op) {
            Family::Flag => match opeland {
                Opeland::Absent => self.flag_op(op),
                _ => (self, Err(Fault::BadOperand)),
            },
            Family::Arithmetic => {
                let r = self.value_of(opeland);
                match r.1 {
                    Err(e) => (r.0, Err(e)),
                    Ok(value) => r.0.acc_op(op, value),
                }
            },
            Family::Compare => {
                let r = self.value_of(opeland);
                match r.1 {
                    Err(e) => (r.0, Err(e)),
                    Ok(value) => r.0.compare_op(op, value),
                }
            },
            Family::Step => self.register_acc_op(op, opeland),
            Family::Logic => {
                let r = self.value_of(opeland);
                match r.1 {
                    Err(e) => (r.0, Err(e)),
                    Ok(value) => r.0.logic_op(op, value),
                }
            },
            Family::Load => self.load_op(op, opeland),
            Family::Store => match opeland {
                Opeland::Address(addr) => self.store_op(op, addr as int),
                _ => (self, Err(Fault::BadOperand)),
            },
            Family::Jump => match opeland {
                Opeland::Address(addr) => self.jump_op(op, addr),
                _ => (self, Err(Fault::BadOperand)),
            },
            Family::Return => match opeland {
                Opeland::Absent => self.rt_op(op),
                _ => (self, Err(Fault::BadOperand)),
            },
            Family::Copy => match opeland {
                Opeland::Absent => self.copy_op(op),
                _ => (self, Err(Fault::BadOperand)),
            },
            Family::Branch => match opeland {
                Opeland::Address(addr) => self.branch_op(op, addr),
                _ => (self, Err(Fault::BadOperand)),
            },
            Family::Unmodelled => (self, Err(Fault::Unimplemented)),
        }
    }

    /// The machine after the instruction `opcode`, whose opcode byte has
    /// been taken already, is carried out: its operand is resolved, then the
    /// operation is applied to it.
    pub open spec fn execute(self, opcode: Operation) -> (Machine, Result<(), Fault>) {
        let r = self.operand(opcode.mode);
        match r.1 {
            Err(e) => (r.0, Err(e)),
            Ok(opeland) => r.0.dispatch(opcode.op, opeland),
        }
    }

    /// The machine after one whole instruction, and the cycles it is charged:
    /// the opcode byte is taken at the program counter and looked up in the
    /// instruction table, and the instruction found is carried out.
    pub open spec fn step(self) -> (Machine, Result<u32, Fault>) {
        let f = self.fetch();
        match f.1 {
            Err(e) => (f.0, Err(e)),
            Ok(byte) => match decode(byte) {
                None => (f.0, Err(Fault::UnknownOpcode)),
                Some(opcode) => {
                    let r = f.0.execute(opcode);
                    match r.1 {
                        Err(e) => (r.0, Err(e)),
                        Ok(_) => (r.0, Ok(opcode.cycle)),
                    }
                },
            },
        }
    }
}

/// Program memory holds the bytes `bytes` from offset `at` on.
pub open spec fn program_holds(m: Machine, at: int, bytes: Seq<u8>) -> bool {
    &&& 0 <= at
    &&& at + bytes.len() <= 0x8000
    &&& at + bytes.len() <= m.bus.prg.len()
    &&& forall|i: int| 0 <= i < bytes.len() ==> m.bus.prg[at + i] == #[trigger] bytes[i]
}

/// A fetch changes nothing but the program counter, which moves one byte on.
/// It hands out the byte of program memory at the program counter, and fails
/// where program memory holds none.
pub proof fn lemma_fetch(m: Machine)
    ensures
        m.fetch().0 == m.with_pc(wrap16(m.reg.pc + 1)),
        m.reg.pc < 0x8000 && m.reg.pc < m.bus.prg.len() ==> m.fetch().1 == Ok::<u8, Fault>(
            m.bus.prg[m.reg.pc as int],
        ),
        !(m.reg.pc < 0x8000 && m.reg.pc < m.bus.prg.len()) ==> m.fetch().1 == Err::<u8, Fault>(
            Fault::BadAddress,
        ),
{
    lemma_program_read(m.bus, 0x8000 + m.reg.pc);
}

/// The operand of an instruction whose bytes stand in program memory, for
/// the modes that take it from those bytes alone: the byte behind the opcode
/// for the immediate mode; that byte plus an index, within page zero, for the
/// page-zero modes; the signed distance from behind that byte for the
/// relative mode; and the address formed by the two bytes behind the opcode,
/// plus an index and within 16 bits, for the absolute modes.
pub proof fn lemma_operand(m: Machine, first: u8, second: u8)
    ensures
        program_holds(m, m.reg.pc as int, seq![first]) ==> {
            &&& m.operand(AddressingMode::Immediate) == (
                m.with_pc((m.reg.pc + 1) as u16),
                Ok::<Opeland, Fault>(Opeland::Value(first)),
            )
            &&& m.operand(AddressingMode::Relative) == (
                m.with_pc((m.reg.pc + 1) as u16),
                Ok::<Opeland, Fault>(
                    Opeland::Address(wrap16(m.reg.pc + 1 + displacement(first))),
                ),
            )
            &&& m.operand(AddressingMode::ZeroPage) == (
                m.with_pc((m.reg.pc + 1) as u16),
                Ok::<Opeland, Fault>(Opeland::Address(first as u16)),
            )
            &&& m.operand(AddressingMode::ZeroPageX) == (
                m.with_pc((m.reg.pc + 1) as u16),
                Ok::<Opeland, Fault>(Opeland::Address(((first + m.reg.x) % 0x100) as u16)),
            )
            &&& m.operand(AddressingMode::ZeroPageY) == (
                m.with_pc((m.reg.pc + 1) as u16),
                Ok::<Opeland, Fault>(Opeland::Address(((first + m.reg.y) % 0x100) as u16)),
            )
        },
        program_holds(m, m.reg.pc as int, seq![first, second]) ==> {
            &&& m.operand(AddressingMode::Absolute) == (
                m.with_pc((m.reg.pc + 2) as u16),
                Ok::<Opeland, Fault>(
                    Opeland::Address((second as int * 0x100 + first as int) as u16),
                ),
            )
            &&& m.operand(AddressingMode::AbsoluteX) == (
                m.with_pc((m.reg.pc + 2) as u16),
                Ok::<Opeland, Fault>(
                    Opeland::Address(
                        ((second as int * 0x100 + first as int + m.reg.x) % 0x1_0000) as u16,
                    ),
                ),
            )
            &&& m.operand(AddressingMode::AbsoluteY) == (
                m.with_pc((m.reg.pc + 2) as u16),
                Ok::<Opeland, Fault>(
                    Opeland::Address(
                        ((second as int * 0x100 + first as int + m.reg.y) % 0x1_0000) as u16,
                    ),
                ),
            )
        },
        m.operand(AddressingMode::Implied) == (m, Ok::<Opeland, Fault>(Opeland::Absent)),
        m.operand(AddressingMode::Accumulator) == (m, Ok::<Opeland, Fault>(Opeland::Accumulator)),
{
    reveal(Machine::operand);
    lemma_fetch(m);
    if program_holds(m, m.reg.pc as int, seq![first]) {
        let bytes = seq![first];
        assert(m.bus.prg[m.reg.pc + 0] == bytes[0]);
    }
    if program_holds(m, m.reg.pc as int, seq![first, second]) {
        let bytes = seq![first, second];
        assert(m.bus.prg[m.reg.pc + 0] == bytes[0]);
        assert(m.bus.prg[m.reg.pc + 1] == bytes[1]);
        lemma_fetch(m.fetch().0);
    }
}

/// Two neighbouring cells of work memory are read without any change to the
/// machine.
pub proof fn lemma_read_pair(m: Machine, addr: int)
    requires
        0 <= addr < 0x1FFF,
    ensures
        m.read_pair(addr) == (
            m,
            Ok::<(u8, u8), Fault>(
                (m.bus.wram[addr % 0x0800], m.bus.wram[(addr + 1) % 0x0800]),
            ),
        ),
{
    lemma_ram_access(m.bus, addr, 0);
    lemma_ram_access(m.bus, addr + 1, 0);
    assert(m.read(addr).0 =~= m);
}

/// The operand of an instruction whose bytes stand in program memory, for
/// the modes that go through a pointer. Every pointer holds the low byte of
/// its address first.
///
/// The pointer of the two indexed modes lies in page zero, so its two cells
/// are read without any change to the machine. The pointer of the plain
/// indirect mode may lie anywhere: its two cells are read through the bus at
/// the pointer and at the address behind it, with whatever those reads
/// change, and a read that fails is the failure of the operand. Where that
/// pointer lies in work memory the two cells are cells of work memory.
pub proof fn lemma_operand_indirect(m: Machine, first: u8, second: u8)
    ensures
        program_holds(m, m.reg.pc as int, seq![first]) ==> {
            let px = (first + m.reg.x) % 0x100;
            &&& m.operand(AddressingMode::IndirectX) == (
                m.with_pc((m.reg.pc + 1) as u16),
                Ok::<Opeland, Fault>(
                    Opeland::Address((m.bus.wram[px + 1] as int * 0x100 + m.bus.wram[px]) as u16),
                ),
            )
            &&& m.operand(AddressingMode::IndirectY) == (
                m.with_pc((m.reg.pc + 1) as u16),
                Ok::<Opeland, Fault>(
                    Opeland::Address(
                        ((m.bus.wram[first + 1] as int * 0x100 + m.bus.wram[first as int]
                            + m.reg.y) % 0x1_0000) as u16,
                    ),
                ),
            )
        },
        program_holds(m, m.reg.pc as int, seq![first, second]) ==> {
            let pointer = second as int * 0x100 + first as int;
            let cells = m.with_pc((m.reg.pc + 2) as u16).read_pair(pointer);
            &&& m.operand(AddressingMode::Indirect).0 == cells.0
            &&& m.operand(AddressingMode::Indirect).1 == match cells.1 {
                Ok(pair) => Ok::<Opeland, Fault>(
                    Opeland::Address((pair.1 as int * 0x100 + pair.0 as int) as u16),
                ),
                Err(e) => Err(e),
            }
        },
        program_holds(m, m.reg.pc as int, seq![first, second]) && second < 0x1F ==> {
            let pointer = second as int * 0x100 + first as int;
            m.operand(AddressingMode::Indirect) == (
                m.with_pc((m.reg.pc + 2) as u16),
                Ok::<Opeland, Fault>(
                    Opeland::Address(
                        (m.bus.wram[(pointer + 1) % 0x0800] as int * 0x100 + m.bus.wram[pointer
                            % 0x0800]) as u16,
                    ),
                ),
            )
        },
{
    reveal(Machine::operand);
    lemma_fetch(m);
    let m1 = m.with_pc((m.reg.pc + 1) as u16);
    if program_holds(m, m.reg.pc as int, seq![first]) {
        let bytes = seq![first];
        assert(m.bus.prg[m.reg.pc + 0] == bytes[0]);
        lemma_read_pair(m1, (first + m.reg.x) % 0x100);
        lemma_read_pair(m1, first as int);
    }
    if program_holds(m, m.reg.pc as int, seq![first, second]) {
        let bytes = seq![first, second];
        assert(m.bus.prg[m.reg.pc + 0] == bytes[0]);
        assert(m.bus.prg[m.reg.pc + 1] == bytes[1]);
        lemma_fetch(m1);
        if second < 0x1F {
            lemma_read_pair(
                m.with_pc((m.reg.pc + 2) as u16),
                second as int * 0x100 + first as int,
            );
        }
    }
}

/// What the read of two neighbouring cells comes to, wherever they lie: the
/// first cell is read, then the second on the machine that the first read
/// left, and the first read that fails is the failure of the pair. Where
/// both cells lie in loaded program memory, the machine does not change.
pub proof fn lemma_read_pair_anywhere(m: Machine, addr: int)
    ensures
        m.read(addr).1 matches Err(e) ==> m.read_pair(addr) == (
            m.read(addr).0,
            Err::<(u8, u8), Fault>(e),
        ),
        m.read(addr).1 matches Ok(one) ==> {
            &&& m.read_pair(addr).0 == m.read(addr).0.read(addr + 1).0
            &&& m.read_pair(addr).1 == match m.read(addr).0.read(addr + 1).1 {
                Ok(two) => Ok::<(u8, u8), Fault>((one, two)),
                Err(e) => Err(e),
            }
        },
        0x8000 <= addr && addr + 1 < 0x1_0000 && addr + 1 - 0x8000 < m.bus.prg.len()
            ==> m.read_pair(addr) == (
            m,
            Ok::<(u8, u8), Fault>((m.bus.prg[addr - 0x8000], m.bus.prg[addr + 1 - 0x8000])),
        ),
{
    if 0x8000 <= addr {
        lemma_program_read(m.bus, addr);
        lemma_program_read(m.bus, addr + 1);
        assert(m.read(addr).0 =~= m);
    }
}

/// What a step comes to, where the opcode byte stands in program memory and
/// has an entry in the instruction table: the instruction is carried out on
/// the machine as it is behind the opcode byte, and its cycles are charged.
pub proof fn lemma_step(m: Machine, byte: u8)
    requires
        program_holds(m, m.reg.pc as int, seq![byte]),
        decode(byte) is Some,
    ensures
        m.step().0 == m.with_pc((m.reg.pc + 1) as u16).execute(decode(byte)->0).0,
        m.step().1 == match m.with_pc((m.reg.pc + 1) as u16).execute(decode(byte)->0).1 {
            Ok(_) => Ok::<u32, Fault>(decode(byte)->0.cycle),
            Err(e) => Err(e),
        },
{
    let bytes = seq![byte];
    assert(m.bus.prg[m.reg.pc + 0] == bytes[0]);
    lemma_fetch(m);
}

/// Load immediate, as a whole instruction: the accumulator receives the
/// byte behind the opcode, zero and negative describe it, the program
/// counter stands behind the instruction, and two cycles are charged.
pub proof fn lemma_load_immediate(m: Machine, value: u8)
    requires
        program_holds(m, m.reg.pc as int, seq![0xA9u8, value]),
    ensures
        m.step() == (
            Machine {
                reg: Register {
                    a: value,
                    pc: (m.reg.pc + 2) as u16,
                    p: m.reg.p.with_nz(value),
                    ..m.reg
                },
                ..m
            },
            Ok::<u32, Fault>(2),
        ),
{
    let bytes = seq![0xA9u8, value];
    let m1 = m.with_pc((m.reg.pc + 1) as u16);
    assert(program_holds(m, m.reg.pc as int, seq![0xA9u8])) by {
        assert(m.bus.prg[m.reg.pc + 0] == bytes[0]);
    }
    assert(program_holds(m1, m1.reg.pc as int, seq![value])) by {
        assert(m.bus.prg[m.reg.pc + 1] == bytes[1]);
    }
    lemma_step(m, 0xA9);
    lemma_operand(m1, value, 0);
    reveal(Machine::dispatch);
}

/// Store absolute into work memory, as a whole instruction: the cell behind
/// the address receives the accumulator, no register but the program counter
/// and no flag changes, and four cycles are charged.
pub proof fn lemma_store_absolute(m: Machine, low: u8, high: u8)
    requires
        program_holds(m, m.reg.pc as int, seq![0x8Du8, low, high]),
        high < 0x20,
    ensures
        m.step() == (
            Machine {
                reg: Register { pc: (m.reg.pc + 3) as u16, ..m.reg },
                bus: Bus {
                    wram: m.bus.wram.update((high as int * 0x100 + low as int) % 0x0800, m.reg.a),
                    ..m.bus
                },
            },
            Ok::<u32, Fault>(4),
        ),
{
    let bytes = seq![0x8Du8, low, high];
    let m1 = m.with_pc((m.reg.pc + 1) as u16);
    assert(program_holds(m, m.reg.pc as int, seq![0x8Du8])) by {
        assert(m.bus.prg[m.reg.pc + 0] == bytes[0]);
    }
    assert(program_holds(m1, m1.reg.pc as int, seq![low, high])) by {
        assert(m.bus.prg[m.reg.pc + 1] == bytes[1]);
        assert(m.bus.prg[m.reg.pc + 2] == bytes[2]);
    }
    lemma_step(m, 0x8D);
    lemma_operand(m1, low, high);
    reveal(Machine::dispatch);
    lemma_ram_access(m.bus, high as int * 0x100 + low as int, m.reg.a);
}

/// Branch-if-equal, as a whole instruction: with the zero flag clear the
/// program counter stands behind the instruction; with the zero flag set it
/// stands there plus the signed distance. Nothing else changes either way.
pub proof fn lemma_branch_if_equal(m: Machine, distance: u8)
    requires
        program_holds(m, m.reg.pc as int, seq![0xF0u8, distance]),
    ensures
        m.step().1 == Ok::<u32, Fault>(2),
        !m.reg.p.z ==> m.step().0 == m.with_pc((m.reg.pc + 2) as u16),
        m.reg.p.z ==> m.step().0 == m.with_pc(wrap16(m.reg.pc + 2 + displacement(distance))),
{
    let bytes = seq![0xF0u8, distance];
    let m1 = m.with_pc((m.reg.pc + 1) as u16);
    assert(program_holds(m, m.reg.pc as int, seq![0xF0u8])) by {
        assert(m.bus.prg[m.reg.pc + 0] == bytes[0]);
    }
    assert(program_holds(m1, m1.reg.pc as int, seq![distance])) by {
        assert(m.bus.prg[m.reg.pc + 1] == bytes[1]);
    }
    lemma_step(m, 0xF0);
    lemma_operand(m1, distance, 0);
    reveal(Machine::dispatch);
}

/// A call and the return from it, as whole instructions: where the call
/// stands at the program counter and a return stands at its target, two
/// steps lead to the instruction behind the call, with every other register
/// and every flag as it was.
pub proof fn lemma_subroutine_round_trip(m: Machine, low: u8, high: u8)
    requires
        m.wf(),
        program_holds(m, m.reg.pc as int, seq![0x20u8, low, high]),
        high >= 0x80,
        program_holds(m, high as int * 0x100 + low as int - 0x8000, seq![0x60u8]),
    ensures
        m.step().1 == Ok::<u32, Fault>(6),
        m.step().0.reg.pc == high as int * 0x100 + low as int - 0x8000,
        m.step().0.step().1 == Ok::<u32, Fault>(6),
        m.step().0.step().0.reg == (Register { pc: (m.reg.pc + 3) as u16, ..m.reg }),
{
    let bytes = seq![0x20u8, low, high];
    let target = (high as int * 0x100 + low as int) as u16;
    let m1 = m.with_pc((m.reg.pc + 1) as u16);
    let m3 = m.with_pc((m.reg.pc + 3) as u16);
    assert(program_holds(m, m.reg.pc as int, seq![0x20u8])) by {
        assert(m.bus.prg[m.reg.pc + 0] == bytes[0]);
    }
    assert(program_holds(m1, m1.reg.pc as int, seq![low, high])) by {
        assert(m.bus.prg[m.reg.pc + 1] == bytes[1]);
        assert(m.bus.prg[m.reg.pc + 2] == bytes[2]);
    }
    lemma_step(m, 0x20);
    lemma_operand(m1, low, high);
    lemma_call_return(m3, target);
    let called = m3.jump_op(OPCode::JSR, target).0;
    assert(m.step() == (called, Ok::<u32, Fault>(6))) by {
        reveal(Machine::dispatch);
    }
    assert(called.bus.prg == m.bus.prg);
    let c1 = called.with_pc((called.reg.pc + 1) as u16);
    assert(program_holds(called, called.reg.pc as int, seq![0x60u8])) by {
        let back = seq![0x60u8];
        assert(m.bus.prg[target - 0x8000 + 0] == back[0]);
    }
    lemma_step(called, 0x60);
    lemma_operand(c1, 0, 0);
    assert(c1.rt_op(OPCode::RTS).1 == called.rt_op(OPCode::RTS).1);
    assert(c1.rt_op(OPCode::RTS).0.reg == called.rt_op(OPCode::RTS).0.reg);
    assert(called.step().0 == c1.rt_op(OPCode::RTS).0 && called.step().1 == Ok::<u32, Fault>(6))
        by {
        reveal(Machine::dispatch);
    }
}

/// The processor with the bus it drives.
pub struct CPU {
    pub register: Register,
    pub memory: CPUMemory,
}

impl View for CPU {
    type V = Machine;

    open spec fn view(&self) -> Machine {
        Machine { reg: self.register, bus: self.memory@ }
    }
}

impl CPU {
    /// Takes the byte at the program counter and moves the counter on.
    pub fn fetch(&mut self) -> (r: Result<u8, Fault>)
        ensures
            final(self)@ == old(self)@.fetch().0,
            r == old(self)@.fetch().1,
    {
        let addr: usize = 0x8000usize + self.register.pc as usize;
        self.register.pc_increment();
        self.memory.read(addr)
    }

    /// Takes two bytes at the program counter, the low byte first.
    pub fn fetch_word(&mut self) -> (r: Result<u16, Fault>)
        ensures
            final(self)@ == old(self)@.fetch_word().0,
            r == old(self)@.fetch_word().1,
    {
        let low = match self.fetch() {
            Ok(b) => b,
            Err(e) => {
                return Err(e);
            },
        };
        let high = match self.fetch() {
            Ok(b) => b,
            Err(e) => {
                return Err(e);
            },
        };
        Ok(high as u16 * 0x100 + low as u16)
    }

    /// Reads the bytes at `addr` and `addr + 1`, in that order.
    pub fn read_pair(&mut self, addr: usize) -> (r: Result<(u8, u8), Fault>)
        requires
            addr < usize::MAX,
        ensures
            final(self)@ == old(self)@.read_pair(addr as int).0,
            r == old(self)@.read_pair(addr as int).1,
    {
        let one = match self.memory.read(addr) {
            Ok(b) => b,
            Err(e) => {
                return Err(e);
            },
        };
        let two = match self.memory.read(addr + 1) {
            Ok(b) => b,
            Err(e) => {
                return Err(e);
            },
        };
        Ok((one, two))
    }

    /// Pushes `data` on the stack.
    pub fn stack_push(&mut self, data: u8)
        ensures
            final(self)@ == old(self)@.push(data),
    {
        let addr: usize = 0x100usize + self.register.sp as usize;
        proof {
            lemma_ram_access(self.memory@, addr as int, data);
        }
        let _ = self.memory.write(data, addr);
        self.register.sp_decrement();
    }

    /// Pops a byte off the stack.
    pub fn stack_pop(&mut self) -> (data: u8)
        ensures
            final(self)@ == old(self)@.pop().0,
            data == old(self)@.pop().1,
    {
        self.register.sp_increment();
        let addr: usize = 0x100usize + self.register.sp as usize;
        self.memory.wram[addr]
    }

    /// Operand in page zero: the next byte plus `index`, within the page.
    pub fn zero_page(&mut self, index: u8) -> (r: Result<Opeland, Fault>)
        ensures
            final(self)@ == old(self)@.zero_page(index).0,
            r == old(self)@.zero_page(index).1,
    {
        match self.fetch() {
            Ok(addr) => Ok(Opeland::Address(addr.wrapping_add(index) as u16)),
            Err(e) => Err(e),
        }
    }

    /// Relative operand: the target of a branch.
    pub fn relative(&mut self) -> (r: Result<Opeland, Fault>)
        ensures
            final(self)@ == old(self)@.relative().0,
            r == old(self)@.relative().1,
    {
        match self.fetch() {
            Ok(addr0) => {
                let addr1 = self.register.pc;
                let addr = if addr0 < 0x80 {
                    addr1.wrapping_add(addr0 as u16)
                } else {
                    addr1.wrapping_add(addr0 as u16).wrapping_sub(0x100)
                };
                Ok(Opeland::Address(addr))
            },
            Err(e) => Err(e),
        }
    }

    /// Absolute operand: the next two bytes plus `index`.
    pub fn absolute(&mut self, index: u8) -> (r: Result<Opeland, Fault>)
        ensures
            final(self)@ == old(self)@.absolute(index).0,
            r == old(self)@.absolute(index).1,
    {
        match self.fetch_word() {
            Ok(addr) => Ok(Opeland::Address(addr.wrapping_add(index as u16))),
            Err(e) => Err(e),
        }
    }

    /// Indirect operand: the next two bytes point at the address.
    pub fn indirect(&mut self) -> (r: Result<Opeland, Fault>)
        ensures
            final(self)@ == old(self)@.indirect().0,
            r == old(self)@.indirect().1,
    {
        let pointer = match self.fetch_word() {
            Ok(w) => w,
            Err(e) => {
                return Err(e);
            },
        };
        match self.read_pair(pointer as usize) {
            Ok((addr_low, addr_high)) => Ok(
                Opeland::Address(addr_high as u16 * 0x100 + addr_low as u16),
            ),
            Err(e) => Err(e),
        }
    }

    /// Indirect operand indexed by X.
    pub fn indirect_x(&mut self) -> (r: Result<Opeland, Fault>)
        ensures
            final(self)@ == old(self)@.indirect_x().0,
            r == old(self)@.indirect_x().1,
    {
        let x = self.register.x;
        let base = match self.fetch() {
            Ok(b) => b,
            Err(e) => {
                return Err(e);
            },
        };
        let pre_addr = base.wrapping_add(x);
        match self.read_pair(pre_addr as usize) {
            Ok((addr_low, addr_high)) => Ok(
                Opeland::Address(addr_high as u16 * 0x100 + addr_low as u16),
            ),
            Err(e) => Err(e),
        }
    }

    /// Indirect operand indexed by Y.
    pub fn indirect_y(&mut self) -> (r: Result<Opeland, Fault>)
        ensures
            final(self)@ == old(self)@.indirect_y().0,
            r == old(self)@.indirect_y().1,
    {
        let y = self.register.y;
        let pre_addr = match self.fetch() {
            Ok(b) => b,
            Err(e) => {
                return Err(e);
            },
        };
        match self.read_pair(pre_addr as usize) {
            Ok((addr_low, addr_high)) => {
                let base: u16 = addr_high as u16 * 0x100 + addr_low as u16;
                Ok(Opeland::Address(base.wrapping_add(y as u16)))
            },
            Err(e) => Err(e),
        }
    }

    /// Immediate operand: the next byte is the value.
    pub fn immediate(&mut self) -> (r: Result<Opeland, Fault>)
        ensures
            final(self)@ == old(self)@.immediate().0,
            r == old(self)@.immediate().1,
    {
        match self.fetch() {
            Ok(value) => Ok(Opeland::Value(value)),
            Err(e) => Err(e),
        }
    }

    /// Resolves the operand of an instruction with addressing mode `mode`,
    /// taking from program memory the bytes that the mode asks for.
    pub fn get_opeland(&mut self, mode: &AddressingMode) -> (r: Result<Opeland, Fault>)
        ensures
            final(self)@ == old(self)@.operand(*mode).0,
            r == old(self)@.operand(*mode).1,
    {
        proof {
            reveal(Machine::operand);
        }
        match mode {
            AddressingMode::Implied => Ok(Opeland::Absent),
            AddressingMode::Accumulator => Ok(Opeland::Accumulator),
            AddressingMode::ZeroPage => self.zero_page(0),
            AddressingMode::ZeroPageX => {
                let x = self.register.x;
                self.zero_page(x)
            },
            AddressingMode::ZeroPageY => {
                let y = self.register.y;
                self.zero_page(y)
            },
            AddressingMode::Relative => self.relative(),
            AddressingMode::Absolute => self.absolute(0),
            AddressingMode::AbsoluteX => {
                let x = self.register.x;
                self.absolute(x)
            },
            AddressingMode::AbsoluteY => {
                let y = self.register.y;
                self.absolute(y)
            },
            AddressingMode::Indirect => self.indirect(),
            AddressingMode::IndirectX => self.indirect_x(),
            AddressingMode::IndirectY => self.indirect_y(),
            AddressingMode::Immediate => self.immediate(),
        }
    }

    /// Finds the value that `opeland` stands for, reading through the bus
    /// where it is an address.
    pub fn value_of(&mut self, opeland: Opeland) -> (r: Result<u8, Fault>)
        ensures
            final(self)@ == old(self)@.value_of(opeland).0,
            r == old(self)@.value_of(opeland).1,
    {
        match opeland {
            Opeland::Value(val) => Ok(val),
            Opeland::Address(adr) => self.memory.read(adr as usize),
            _ => Err(Fault::BadOperand),
        }
    }
    /// Carries out operation `op` on the resolved operand `opeland`.
    pub fn dispatch(&mut self, op: &OPCode, opeland: Opeland) -> (r: Result<(), Fault>)
        ensures
            final(self)@ == old(self)@.dispatch(*op, opeland).0,
            r == old(self)@.dispatch(*op, opeland).1,
    {
        proof {
            reveal(Machine::dispatch);
        }
        match op {
            OPCode::CLC | OPCode::SEC | OPCode::CLI | OPCode::SEI | OPCode::CLD | OPCode::SED
            | OPCode::CLV => match opeland {
                Opeland::Absent => self.flag_op(op),
                _ => Err(Fault::BadOperand),
            },
            OPCode::ADC | OPCode::SBC => {
                match self.value_of(opeland) {
                    Ok(value) => self.acc_op(op, value),
                    Err(e) => Err(e),
                }
            },
            OPCode::CMP | OPCode::CPX | OPCode::CPY => {
                match self.value_of(opeland) {
                    Ok(value) => self.compare_op(op, value),
                    Err(e) => Err(e),
                }
            },
            OPCode::INC | OPCode::DEC | OPCode::DEX | OPCode::INX | OPCode::INY | OPCode::DEY => {
                self.register_acc_op(op, opeland)
            },
            OPCode::AND | OPCode::ORA | OPCode::EOR => {
                match self.value_of(opeland) {
                    Ok(value) => self.logic_op(op, value),
                    Err(e) => Err(e),
                }
            },
            OPCode::LDA | OPCode::LDX | OPCode::LDY => self.load_op(op, opeland),
            OPCode::STA | OPCode::STX | OPCode::STY => match opeland {
                Opeland::Address(adr) => self.store_op(op, usize::from(adr)),
                _ => Err(Fault::BadOperand),
            },
            OPCode::JMP | OPCode::JSR => match opeland {
                Opeland::Address(adr) => self.jump_op(op, adr),
                _ => Err(Fault::BadOperand),
            },
            OPCode::RTS | OPCode::RTI => match opeland {
                Opeland::Absent => self.rt_op(op),
                _ => Err(Fault::BadOperand),
            },
            OPCode::TAX | OPCode::TAY | OPCode::TSX | OPCode::TXA | OPCode::TXS | OPCode::TYA => {
                match opeland {
                    Opeland::Absent => self.copy_op(op),
                    _ => Err(Fault::BadOperand),
                }
            },
            OPCode::BCC | OPCode::BCS | OPCode::BEQ | OPCode::BMI | OPCode::BNE | OPCode::BPL
            | OPCode::BVC | OPCode::BVS => match opeland {
                Opeland::Address(adr) => self.branch_op(op, adr),
                _ => Err(Fault::BadOperand),
            },
            OPCode::ASL | OPCode::LSR | OPCode::ROL | OPCode::ROR | OPCode::BIT | OPCode::BRK
            | OPCode::NOP | OPCode::PHA | OPCode::PLA | OPCode::PHP | OPCode::PLP => Err(
                Fault::Unimplemented,
            ),
        }
    }

    /// Carries out the instruction `opcode`, whose opcode byte has been taken
    /// already: resolves its operand and applies the operation to it.
    pub fn exec(&mut self, opcode: &Operation) -> (r: Result<(), Fault>)
        ensures
            final(self)@ == old(self)@.execute(*opcode).0,
            r == old(self)@.execute(*opcode).1,
    {
        match self.get_opeland(&opcode.mode) {
            Ok(opeland) => self.dispatch(&opcode.op, opeland),
            Err(e) => Err(e),
        }
    }

    /// Performs exactly one instruction and returns the number of cycles it
    /// is charged.
    pub fn step(&mut self) -> (r: Result<u32, Fault>)
        ensures
            final(self)@ == old(self)@.step().0,
            r == old(self)@.step().1,
    {
        let byte = match self.fetch() {
            Ok(b) => b,
            Err(e) => {
                return Err(e);
            },
        };
        let opcode = match Operation::new(byte) {
            Ok(o) => o,
            Err(e) => {
                return Err(e);
            },
        };
        match self.exec(&opcode) {
            Ok(_) => Ok(opcode.cycle),
            Err(e) => Err(e),
        }
    }
}

} // verus!
