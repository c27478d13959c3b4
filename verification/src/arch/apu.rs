//! The sound unit, as far as the processor sees it: the registers of its
//! channels.

use crate::arch::Fault;
use vstd::prelude::*;

verus! {

/// The registers of one pulse channel, as last written.
#[derive(Clone, Copy, Debug, PartialEq, Eq, Structural)]
pub struct Pulse {
    /// Bits 7 and 6 of the first control byte, left in place.
    pub duty: u8,
    pub envelope_loop: bool,
    pub is_disable_envelope: bool,
    /// Bits 3 to 0 of the first control byte.
    pub volume: u8,
    pub is_enable_sweep: bool,
    /// Bits 6 to 4 of the second control byte, left in place.
    pub period: u8,
    pub negate: bool,
    /// Bits 2 to 0 of the second control byte.
    pub shift: u8,
    pub timer_low: u8,
    pub length_counter: u8,
    pub timer_high: u8,
}

impl Pulse {
    /// A channel nothing has been written to.
    pub open spec fn initial() -> Pulse {
        Pulse {
            duty: 0,
            envelope_loop: false,
            is_disable_envelope: false,
            volume: 0,
            is_enable_sweep: false,
            period: 0,
            negate: false,
            shift: 0,
            timer_low: 0,
            length_counter: 0,
            timer_high: 0,
        }
    }

    /// The channel after `value` is stored in its first control register.
    pub open spec fn with_ctrl0(self, value: u8) -> Pulse {
        Pulse {
            duty: value & 0b1100_0000,
            envelope_loop: (value & 0b0010_0000) != 0,
            is_disable_envelope: (value & 0b0001_0000) != 0,
            volume: value & 0b0000_1111,
            ..self
        }
    }

    /// The channel after `value` is stored in its second control register.
    pub open spec fn with_ctrl1(self, value: u8) -> Pulse {
        Pulse {
            is_enable_sweep: (value & 0b1000_0000) != 0,
            period: value & 0b0111_0000,
            negate: (value & 0b0000_1000) != 0,
            shift: value & 0b0000_0111,
            ..self
        }
    }

    /// Stores the first control byte: duty, envelope flags and volume.
    pub fn update_ctrl0(&mut self, value: u8)
        ensures
            *final(self) == old(self).with_ctrl0(value),
    {
        self.duty = value & 0b1100_0000;
        self.envelope_loop = (value & 0b0010_0000) != 0;
        self.is_disable_envelope = (value & 0b0001_0000) != 0;
        self.volume = value & 0b0000_1111;
    }

    /// Stores the second control byte: the sweep unit's fields.
    pub fn update_ctrl1(&mut self, value: u8)
        ensures
            *final(self) == old(self).with_ctrl1(value),
    {
        self.is_enable_sweep = (value & 0b1000_0000) != 0;
        self.period = value & 0b0111_0000;
        self.negate = (value & 0b0000_1000) != 0;
        self.shift = value & 0b0000_0111;
    }
}

impl Default for Pulse {
    fn default() -> (p: Pulse)
        ensures
            p == Pulse::initial(),
    {
        Pulse {
            duty: 0u8,
            envelope_loop: false,
            is_disable_envelope: false,
            volume: 0,
            is_enable_sweep: false,
            period: 0,
            negate: false,
            shift: 0,
            timer_low: 0,
            length_counter: 0,
            timer_high: 0,
        }
    }
}

/// The registers of the sample channel, as last written.
#[derive(Clone, Copy, Debug, PartialEq, Eq, Structural)]
pub struct DMC {
    pub is_irq: bool,
    pub is_loop: bool,
    /// Bits 3 to 0 of the control byte.
    pub frequency: u8,
    /// Bits 6 to 0 of the byte written.
    pub load_counter: u8,
    pub sample_address: u8,
    pub sample_length: u8,
}

impl DMC {
    /// A channel nothing has been written to.
    pub open spec fn initial() -> DMC {
        DMC {
            is_irq: false,
            is_loop: false,
            frequency: 0,
            load_counter: 0,
            sample_address: 0,
            sample_length: 0,
        }
    }

    /// The channel after `value` is stored in its control register.
    pub open spec fn with_ctrl(self, value: u8) -> DMC {
        DMC {
            is_irq: (value & 0b1000_0000) != 0,
            is_loop: (value & 0b0100_0000) != 0,
            frequency: value & 0b0000_1111,
            ..self
        }
    }
}

impl Default for DMC {
    fn default() -> (d: DMC)
        ensures
            d == DMC::initial(),
    {
        DMC {
            is_irq: false,
            is_loop: false,
            frequency: 0,
            load_counter: 0,
            sample_address: 0,
            sample_length: 0,
        }
    }
}

/// The sound unit: nothing but the state of its registers.
#[derive(Clone, Copy, Debug, PartialEq, Eq, Structural)]
pub struct APU {
    pub pulse1: Pulse,
    pub pulse2: Pulse,
    pub dmc: DMC,
}

impl APU {
    /// A sound unit nothing has been written to.
    pub open spec fn initial() -> APU {
        APU { pulse1: Pulse::initial(), pulse2: Pulse::initial(), dmc: DMC::initial() }
    }

    /// The sound unit after `value` is written to bus address `addr`, and
    /// whether the write is taken. A refused write leaves the unit as it was.
    pub open spec fn store(self, addr: int, value: u8) -> (APU, Result<(), Fault>) {
        if addr == 0x4000 {
            (APU { pulse1: self.pulse1.with_ctrl0(value), ..self }, Ok(()))
        } else if addr == 0x4001 {
            (APU { pulse1: self.pulse1.with_ctrl1(value), ..self }, Ok(()))
        } else if addr == 0x4002 {
            (APU { pulse1: Pulse { timer_low: value, ..self.pulse1 }, ..self }, Ok(()))
        } else if addr == 0x4004 {
            (APU { pulse2: self.pulse2.with_ctrl0(value), ..self }, Ok(()))
        } else if addr == 0x4005 {
            (APU { pulse2: self.pulse2.with_ctrl1(value), ..self }, Ok(()))
        } else if addr == 0x4006 {
            (APU { pulse2: Pulse { timer_low: value, ..self.pulse2 }, ..self }, Ok(()))
        } else if addr == 0x4009 {
            (self, Ok(()))
        } else if addr == 0x4010 {
            (APU { dmc: self.dmc.with_ctrl(value), ..self }, Ok(()))
        } else if addr == 0x4011 {
            (APU { dmc: DMC { load_counter: value & 0b0111_1111, ..self.dmc }, ..self }, Ok(()))
        } else if addr == 0x4012 {
            (APU { dmc: DMC { sample_address: value, ..self.dmc }, ..self }, Ok(()))
        } else if addr == 0x4013 {
            (APU { dmc: DMC { sample_length: value, ..self.dmc }, ..self }, Ok(()))
        } else if addr == 0x4003 || addr == 0x4007 || addr == 0x4008 || addr == 0x4014 || addr
            == 0x4015 || addr == 0x4017 {
            (self, Err(Fault::Unimplemented))
        } else {
            (self, Err(Fault::BadAddress))
        }
    }

    /// Stores `value` in the register at bus address `addr`. Registers that
    /// are not modelled refuse the write as unimplemented; an address that
    /// belongs to no register of the unit is refused as a bad address.
    pub fn write(&mut self, addr: usize, value: u8) -> (r: Result<(), Fault>)
        ensures
            (*final(self), r) == old(self).store(addr as int, value),
    {
        match addr {
            0x4000 => self.pulse1.update_ctrl0(value),
            0x4001 => self.pulse1.update_ctrl1(value),
            0x4002 => self.pulse1.timer_low = value,
            0x4004 => self.pulse2.update_ctrl0(value),
            0x4005 => self.pulse2.update_ctrl1(value),
            0x4006 => self.pulse2.timer_low = value,
            0x4009 => (),
            0x4010 => {
                self.dmc.is_irq = (value & 0b1000_0000) != 0;
                self.dmc.is_loop = (value & 0b0100_0000) != 0;
                self.dmc.frequency = value & 0b0000_1111;
            },
            0x4011 => self.dmc.load_counter = value & 0b0111_1111,
            0x4012 => self.dmc.sample_address = value,
            0x4013 => self.dmc.sample_length = value,
            0x4003 | 0x4007 | 0x4008 | 0x4014 | 0x4015 | 0x4017 => {
                return Err(Fault::Unimplemented);
            },
            _ => {
                return Err(Fault::BadAddress);
            },
        }
        Ok(())
    }
}

impl Default for APU {
    fn default() -> (a: APU)
        ensures
            a == APU::initial(),
    {
        APU { pulse1: Pulse::default(), pulse2: Pulse::default(), dmc: DMC::default() }
    }
}

/// The fields of a control byte are its bits: put back together they give
/// the byte again, and each number field stays within its bits.
pub proof fn lemma_control_fields(p: Pulse, d: DMC, value: u8)
    ensures
        ({
            let c = p.with_ctrl0(value);
            &&& c.duty | (if c.envelope_loop {
                0x20u8
            } else {
                0u8
            }) | (if c.is_disable_envelope {
                0x10u8
            } else {
                0u8
            }) | c.volume == value
            &&& c.volume <= 0x0F
        }),
        ({
            let c = p.with_ctrl1(value);
            &&& (if c.is_enable_sweep {
                0x80u8
            } else {
                0u8
            }) | c.period | (if c.negate {
                0x08u8
            } else {
                0u8
            }) | c.shift == value
            &&& c.shift <= 0x07
        }),
        d.with_ctrl(value).frequency <= 0x0F,
{
    assert((value & 0b1100_0000) | (if (value & 0b0010_0000) != 0 {
        0x20u8
    } else {
        0u8
    }) | (if (value & 0b0001_0000) != 0 {
        0x10u8
    } else {
        0u8
    }) | (value & 0b0000_1111) == value && (value & 0b0000_1111) <= 0x0F && (if (value
        & 0b1000_0000) != 0 {
        0x80u8
    } else {
        0u8
    }) | (value & 0b0111_0000) | (if (value & 0b0000_1000) != 0 {
        0x08u8
    } else {
        0u8
    }) | (value & 0b0000_0111) == value && (value & 0b0000_0111) <= 0x07) by (bit_vector);
}

/// A write that the sound unit refuses leaves it as it was, and the unit
/// takes no write outside its block.
pub proof fn lemma_store_refused(a: APU, addr: int, value: u8)
    ensures
        a.store(addr, value).1 is Err ==> a.store(addr, value).0 == a,
        !(0x4000 <= addr <= 0x4017) ==> a.store(addr, value).1 == Err::<(), Fault>(
            Fault::BadAddress,
        ),
{
}

} // verus!
