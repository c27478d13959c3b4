//! The console: the processor, its address bus, the sound unit's registers
//! and the video chip, with the frame step that keeps them in time.

pub mod apu;
pub mod cpu;
pub mod interrupt;
pub mod keeps;
pub mod memory;
pub mod op;
pub mod ppu;
pub mod register;

use crate::arch::cpu::{Machine, CPU};
use crate::arch::memory::{Bus, CPUMemory, PPURegister};
use crate::arch::op::lemma_decode_cycles;
use crate::arch::ppu::{registers_after, ScanlineEvent, Video, LINE_CYCLES, PPU};
use crate::arch::register::Register;
use crate::parser::FormatError;
use crate::PATTERN_LENGTH;
use vstd::prelude::*;

verus! {

/// A condition that stops the machine. None of them is ever recovered from.
#[derive(Clone, Copy, Debug, PartialEq, Eq, Structural)]
pub enum Fault {
    /// The byte fetched as an opcode selects no operation.
    UnknownOpcode,
    /// The address lies outside every mapped range, or the location behind it
    /// cannot be accessed in the direction asked for.
    BadAddress,
    /// The operand's shape cannot belong to the operation.
    BadOperand,
    /// The operation, or the access, is deliberately left unmodelled.
    Unimplemented,
}

/// Where the result of an operation is stored.
#[allow(non_camel_case_types)]
#[derive(Clone, Copy, Debug, PartialEq, Eq, Structural)]
pub enum WriteAddr {
    Memory(usize),
    /// The result is kept nowhere.
    Discard,
    a,
    x,
    y,
    pc,
    sp,
    p,
}

/// What an addressing mode resolves to.
#[derive(Clone, Copy, Debug, PartialEq, Eq, Structural)]
pub enum Opeland {
    Address(u16),
    Value(u8),
    Accumulator,
    /// The mode names no operand.
    Absent,
}

/// Eight-bit arithmetic that never traps: a sum that leaves the range gives 0,
/// a difference that leaves it gives the largest value.
pub trait Accumulate: Sized {
    /// The value `calc_add` returns.
    spec fn add_model(self, rhs: Self) -> Self;

    /// The value `calc_sub` returns.
    spec fn sub_model(self, rhs: Self) -> Self;

    fn calc_add(&self, rhs: Self) -> (out: Self)
        ensures
            out == self.add_model(rhs),
    ;

    fn calc_sub(&self, rhs: Self) -> (out: Self)
        ensures
            out == self.sub_model(rhs),
    ;
}

impl Accumulate for u8 {
    open spec fn add_model(self, rhs: u8) -> u8 {
        if self + rhs <= 255 {
            (self + rhs) as u8
        } else {
            0
        }
    }

    open spec fn sub_model(self, rhs: u8) -> u8 {
        if self >= rhs {
            (self - rhs) as u8
        } else {
            255
        }
    }

    fn calc_add(&self, rhs: u8) -> (out: u8) {
        match self.checked_add(rhs) {
            Some(v) => v,
            None => 0,
        }
    }

    fn calc_sub(&self, rhs: u8) -> (out: u8) {
        match self.checked_sub(rhs) {
            Some(v) => v,
            None => 255,
        }
    }
}

/// Adding one wraps around the top of the range and subtracting one around
/// the bottom: both are the step modulo 256.
pub proof fn lemma_step_wraps(v: u8)
    ensures
        v.add_model(1) == (v + 1) % 256,
        v.sub_model(1) == (v + 255) % 256,
        (255u8).add_model(1) == 0,
        (0u8).sub_model(1) == 255,
{
}

/// The whole machine as plain values: the processor with its bus, and the
/// video chip's timing and picture.
#[verifier::ext_equal]
pub struct System {
    pub machine: Machine,
    pub video: Video,
}

impl System {
    /// The machine at power-on with program memory `rom` and pattern data
    /// `chr`.
    pub open spec fn initial(rom: Seq<u8>, chr: Seq<u8>) -> System {
        System {
            machine: Machine { reg: Register::initial(), bus: Bus::initial(rom) },
            video: Video::initial(chr),
        }
    }

    /// The video chip is well formed and stands within a scanline.
    pub open spec fn wf(self) -> bool {
        &&& self.video.wf()
        &&& self.video.cycle < LINE_CYCLES
    }

    /// The machine after one frame step, and what the video chip tells.
    ///
    /// The processor performs one instruction; if that fails, the video chip
    /// stays as it is. Otherwise the video chip is advanced by three times
    /// the cycles of the instruction, and where vertical blank begins the
    /// processor takes a non-maskable interrupt.
    pub open spec fn frame(self) -> (System, Result<ScanlineEvent, Fault>) {
        let s = self.machine.step();
        match s.1 {
            Err(e) => (System { machine: s.0, ..self }, Err(e)),
            Ok(cycles) => {
                let clock = (3 * cycles) as u32;
                let event = self.video.event(clock);
                let after = Machine {
                    bus: Bus { video: registers_after(s.0.bus.video, event), ..s.0.bus },
                    ..s.0
                };
                (
                    System {
                        machine: if event == ScanlineEvent::VBlank {
                            after.nmi()
                        } else {
                            after
                        },
                        video: self.video.run(clock, s.0.bus.video.vram),
                    },
                    Ok(event),
                )
            },
        }
    }
}

/// An instruction that is performed is charged between two and seven cycles.
pub proof fn lemma_step_cycles(m: Machine)
    ensures
        m.step().1 matches Ok(cycles) ==> 2 <= cycles <= 7,
{
    if let Ok(byte) = m.fetch().1 {
        lemma_decode_cycles(byte);
    }
}

/// A frame step keeps the machine well formed.
pub proof fn lemma_frame_keeps_wf(s: System)
    requires
        s.wf(),
    ensures
        s.frame().0.wf(),
{
    lemma_step_cycles(s.machine);
}

/// The console: the processor with its bus, and the video chip.
pub struct Arch {
    pub cpu: CPU,
    pub ppu: PPU,
}

impl View for Arch {
    type V = System;

    open spec fn view(&self) -> System {
        System { machine: self.cpu@, video: self.ppu@ }
    }
}

impl Arch {
    /// A console at power-on with program memory `rom` and pattern data
    /// `chr`. Pattern data that is no whole number of tiles, or more than
    /// the pattern table holds, is refused.
    pub fn new(rom: Vec<u8>, chr: Vec<u8>) -> (r: Result<Arch, FormatError>)
        ensures
            match r {
                Ok(arch) => {
                    &&& chr@.len() % 16 == 0
                    &&& chr@.len() <= 16 * PATTERN_LENGTH
                    &&& arch@ == System::initial(rom@, chr@)
                    &&& arch@.wf()
                },
                Err(e) => {
                    &&& e == FormatError::PatternSize
                    &&& !(chr@.len() % 16 == 0 && chr@.len() <= 16 * PATTERN_LENGTH)
                },
            },
    {
        let ppu_reg = PPURegister::default();
        let cpu_reg = Register::default();
        let memory = CPUMemory::new(rom, ppu_reg);
        let cpu = CPU { register: cpu_reg, memory };
        match PPU::new(chr) {
            Ok(ppu) => Ok(Arch { cpu, ppu }),
            Err(e) => Err(e),
        }
    }

    /// Performs one instruction and advances the video chip by three times
    /// its cycles. The caller hands the picture out when told to flush.
    pub fn frame(&mut self) -> (r: Result<ScanlineEvent, Fault>)
        requires
            old(self)@.wf(),
        ensures
            final(self)@ == old(self)@.frame().0,
            r == old(self)@.frame().1,
            final(self)@.wf(),
    {
        proof {
            lemma_step_cycles(self.cpu@);
            lemma_frame_keeps_wf(self@);
        }
        let cycle = match self.cpu.step() {
            Ok(c) => c,
            Err(e) => {
                return Err(e);
            },
        };
        let event = self.ppu.run(3 * cycle, &mut self.cpu.memory.iop);
        match event {
            ScanlineEvent::VBlank => self.cpu.nmi(),
            _ => (),
        }
        Ok(event)
    }
}

} // verus!
