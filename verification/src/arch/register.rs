//! The registers and status flags of the processor.

use vstd::prelude::*;

verus! {

/// The status flags, each on its own.
#[derive(Clone, Copy, Debug, PartialEq, Eq, Structural)]
pub struct State {
    /// Negative.
    pub n: bool,
    /// Signed overflow.
    pub v: bool,
    /// Break.
    pub b: bool,
    /// Interrupt disable.
    pub i: bool,
    /// Zero.
    pub z: bool,
    /// Carry.
    pub c: bool,
}

impl State {
    /// The flags after a reset: break and interrupt-disable set, the rest clear.
    pub open spec fn initial() -> State {
        State { n: false, v: false, b: true, i: true, z: false, c: false }
    }

    /// These flags with zero and negative taken from `value`; bit 7 is the sign.
    pub open spec fn with_nz(self, value: u8) -> State {
        State { n: value >= 0x80, z: value == 0, ..self }
    }
}

impl Default for State {
    fn default() -> (s: State)
        ensures
            s == State::initial(),
    {
        State { n: false, v: false, b: true, i: true, z: false, c: false }
    }
}

/// The processor's registers.
#[derive(Clone, Copy, Debug, PartialEq, Eq, Structural)]
pub struct Register {
    /// Accumulator.
    pub a: u8,
    /// Index X.
    pub x: u8,
    /// Index Y.
    pub y: u8,
    /// Program counter, as an offset into program memory.
    pub pc: u16,
    /// Stack pointer, an index into the 256-byte stack window.
    pub sp: u8,
    /// Status flags.
    pub p: State,
}

impl Register {
    /// The registers at power-on: all zero, the flags as after a reset.
    pub open spec fn initial() -> Register {
        Register { a: 0, x: 0, y: 0, pc: 0, sp: 0, p: State::initial() }
    }

    /// Moves the program counter one byte on; it wraps at 16 bits.
    pub fn pc_increment(&mut self)
        ensures
            *final(self) == (Register { pc: ((old(self).pc + 1) % 0x1_0000) as u16, ..*old(self) }),
    {
        self.pc = self.pc.wrapping_add(1);
    }

    /// Moves the stack pointer one slot up; it wraps at 8 bits.
    pub fn sp_increment(&mut self)
        ensures
            *final(self) == (Register { sp: ((old(self).sp + 1) % 0x100) as u8, ..*old(self) }),
    {
        self.sp = self.sp.wrapping_add(1);
    }

    /// Moves the stack pointer one slot down; it wraps at 8 bits.
    pub fn sp_decrement(&mut self)
        ensures
            *final(self) == (Register { sp: ((old(self).sp + 255) % 0x100) as u8, ..*old(self) }),
    {
        self.sp = self.sp.wrapping_sub(1);
    }

    /// Puts the flags back to their state after a reset.
    pub fn soft_reset(&mut self)
        ensures
            *final(self) == (Register { p: State::initial(), ..*old(self) }),
    {
        self.p = State::default();
    }

    /// Entry of a non-maskable interrupt: interrupt-disable is set and break
    /// cleared; no other flag and no register changes.
    pub fn nmi(&mut self)
        ensures
            *final(self) == (Register {
                p: State { i: true, b: false, ..old(self).p },
                ..*old(self)
            }),
    {
        self.p.i = true;
        self.p.b = false;
    }

    /// A hard reset sets interrupt-disable and changes nothing else.
    pub fn hard_reset(&mut self)
        ensures
            *final(self) == (Register { p: State { i: true, ..old(self).p }, ..*old(self) }),
    {
        self.p.i = true;
    }

    /// Entry of a maskable interrupt: interrupt-disable is set and break is
    /// inverted; no other flag and no register changes.
    pub fn irq(&mut self)
        ensures
            *final(self) == (Register {
                p: State { i: true, b: !old(self).p.b, ..old(self).p },
                ..*old(self)
            }),
    {
        let brk = !self.p.b;
        self.p.i = true;
        self.p.b = brk;
    }
}

impl Default for Register {
    fn default() -> (r: Register)
        ensures
            r == Register::initial(),
    {
        Register { a: 0x00, x: 0x00, y: 0x00, pc: 0x0000, sp: 0x00, p: State::default() }
    }
}

} // verus!
