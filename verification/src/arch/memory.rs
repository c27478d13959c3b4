//! The address bus of the processor, the video chip's registers behind it,
//! and video memory with its mirrors.

use crate::arch::apu::APU;
use crate::arch::Fault;
use vstd::prelude::*;

verus! {

/// Which half of a two-byte register the next write supplies.
#[derive(Clone, Copy, Debug, PartialEq, Eq, Structural)]
pub enum BitFlag {
    Low,
    High,
}

impl BitFlag {
    /// The other half.
    pub open spec fn flipped(self) -> BitFlag {
        match self {
            BitFlag::Low => BitFlag::High,
            BitFlag::High => BitFlag::Low,
        }
    }

    /// The other half.
    pub fn not(self) -> (r: BitFlag)
        ensures
            r == self.flipped(),
    {
        match self {
            BitFlag::Low => BitFlag::High,
            BitFlag::High => BitFlag::Low,
        }
    }
}

/// The cell of video memory that stands behind address `addr`, for an
/// address below 0x4000. Every address has one cell, and the cell of a cell
/// is that cell itself.
///
/// The pattern tables stand for themselves. From 0x2000 up to 0x3F00 the
/// first 0x0800 bytes, the first pair of name tables, show again every
/// 0x0800 bytes. From 0x3F00 on the 0x20 bytes of the palettes show again
/// every 0x20 bytes, and within them the first entry of each sprite palette
/// is the first entry of the background palette at the same place.
pub open spec fn mirror(addr: int) -> int {
    if addr < 0x2000 {
        addr
    } else if addr < 0x3F00 {
        0x2000 + (addr - 0x2000) % 0x0800
    } else {
        palette_cell(0x3F00 + (addr - 0x3F00) % 0x20)
    }
}

/// The cell of a palette entry from 0x3F00 up to 0x3F20: the first entry of
/// each sprite palette falls on the first entry of the background palette at
/// the same place, and every other entry stands for itself.
pub open spec fn palette_cell(addr: int) -> int {
    if addr == 0x3F10 || addr == 0x3F14 || addr == 0x3F18 || addr == 0x3F1C {
        addr - 0x10
    } else {
        addr
    }
}

/// What a read of video memory at `addr` gives.
pub open spec fn vram_read(vram: Seq<u8>, addr: int) -> Result<u8, Fault> {
    if 0 <= addr < 0x4000 {
        Ok(vram[mirror(addr)])
    } else {
        Err(Fault::BadAddress)
    }
}

/// Video memory after a write of `value` at `addr`, and whether the write is
/// taken. Above the memory, and within 16 bits, a write is dropped.
pub open spec fn vram_write(vram: Seq<u8>, addr: int, value: u8) -> (Seq<u8>, Result<(), Fault>) {
    if 0 <= addr < 0x4000 {
        (vram.update(mirror(addr), value), Ok(()))
    } else if 0x4000 <= addr <= 0xFFFF {
        (vram, Ok(()))
    } else {
        (vram, Err(Fault::BadAddress))
    }
}

/// The video chip's own memory: pattern tables, name tables and palettes.
pub struct PPUMemory(pub [u8; 0x4000]);

impl View for PPUMemory {
    type V = Seq<u8>;

    open spec fn view(&self) -> Seq<u8> {
        self.0@
    }
}

impl PPUMemory {
    /// The cell index that `addr` stands for.
    fn resolve(addr: usize) -> (cell: usize)
        requires
            addr < 0x4000,
        ensures
            cell == mirror(addr as int),
            cell < 0x4000,
    {
        if addr < 0x2000 {
            addr
        } else if addr < 0x3F00 {
            0x2000 + (addr - 0x2000) % 0x0800
        } else {
            let entry: usize = 0x3F00 + (addr - 0x3F00) % 0x20;
            if entry == 0x3F10 || entry == 0x3F14 || entry == 0x3F18 || entry == 0x3F1C {
                entry - 0x10
            } else {
                entry
            }
        }
    }

    /// The byte in the cell behind `addr`, for an address within the memory.
    pub fn cell(&self, addr: usize) -> (b: u8)
        requires
            addr < 0x4000,
        ensures
            b == self@[mirror(addr as int)],
    {
        let cell = Self::resolve(addr);
        self.0[cell]
    }

    /// Reads the cell behind `addr`; an address above the memory is refused.
    pub fn read(&self, addr: usize) -> (r: Result<u8, Fault>)
        ensures
            r == vram_read(self@, addr as int),
    {
        if addr < 0x4000 {
            Ok(self.cell(addr))
        } else {
            Err(Fault::BadAddress)
        }
    }

    /// Writes the cell behind `addr`. Above the memory a write within 16 bits
    /// is dropped and any other is refused.
    pub fn write(&mut self, addr: usize, value: u8) -> (r: Result<(), Fault>)
        ensures
            final(self)@ == vram_write(old(self)@, addr as int, value).0,
            r == vram_write(old(self)@, addr as int, value).1,
    {
        if addr < 0x4000 {
            let cell = Self::resolve(addr);
            self.0[cell] = value;
            Ok(())
        } else if addr <= 0xFFFF {
            Ok(())
        } else {
            Err(Fault::BadAddress)
        }
    }
}

impl Default for PPUMemory {
    fn default() -> (m: PPUMemory)
        ensures
            m@ == Seq::new(0x4000, |i: int| 0u8),
    {
        PPUMemory([0x00u8; 0x4000])
    }
}

/// The video chip as the processor sees it: its registers, the two write
/// toggles, and its memory, all as plain values.
#[verifier::ext_equal]
pub struct VideoRegs {
    pub ctrl: u8,
    pub mask: u8,
    pub status: u8,
    pub oam_addr: u8,
    pub oam_toggle: BitFlag,
    pub oam_data: u8,
    pub scroll: u8,
    /// The address that the data register reads and writes.
    pub addr: u16,
    /// The half of `addr` that the next write to the address register sets.
    pub addr_toggle: BitFlag,
    pub vram: Seq<u8>,
}

impl VideoRegs {
    /// The state at power-on.
    pub open spec fn initial() -> VideoRegs {
        VideoRegs {
            ctrl: 0b0100_0000,
            mask: 0,
            status: 0,
            oam_addr: 0,
            oam_toggle: BitFlag::High,
            oam_data: 0,
            scroll: 0,
            addr: 0,
            addr_toggle: BitFlag::High,
            vram: Seq::new(0x4000, |i: int| 0u8),
        }
    }

    /// Video memory has its full size.
    pub open spec fn wf(self) -> bool {
        self.vram.len() == 0x4000
    }

    /// By how much a read of the data register moves the address on: by 1
    /// where bit 1 of the control register is set, and by 32 where it is not.
    pub open spec fn read_stride(self) -> int {
        if self.ctrl & 0x02 != 0 {
            1
        } else {
            32
        }
    }

    /// By how much a write of the data register moves the address on: by 32
    /// where bit 1 of the control register is set, and by 1 where it is not.
    pub open spec fn write_stride(self) -> int {
        if self.ctrl & 0x02 != 0 {
            32
        } else {
            1
        }
    }

    /// The state with the vertical-blank flag raised.
    pub open spec fn with_vblank(self) -> VideoRegs {
        VideoRegs { status: self.status | 0x80, ..self }
    }

    /// The state after register `reg` (0 to 7) is read, and the byte read.
    ///
    /// The status register hands out its value, then drops the vertical-blank
    /// flag and puts the address toggle back to the high half. The data
    /// register hands out the cell behind the address as it stood before the
    /// read and moves the address on, within 16 bits, also where the address
    /// lies above video memory and the read fails. The sprite data register
    /// hands out its value. The other registers cannot be read.
    pub open spec fn read(self, reg: int) -> (VideoRegs, Result<u8, Fault>) {
        if reg == 2 {
            (
                VideoRegs {
                    status: self.status & 0b0111_1111,
                    addr_toggle: BitFlag::High,
                    ..self
                },
                Ok(self.status),
            )
        } else if reg == 4 {
            (self, Ok(self.oam_data))
        } else if reg == 7 {
            (
                VideoRegs { addr: ((self.addr + self.read_stride()) % 0x1_0000) as u16, ..self },
                vram_read(self.vram, self.addr as int),
            )
        } else {
            (self, Err(Fault::BadAddress))
        }
    }

    /// The state after `value` is written to register `reg` (0 to 7), and
    /// whether the write is taken.
    ///
    /// A write to the address register sets the half that the toggle names,
    /// the high half first, and flips the toggle: the high byte replaces the
    /// whole address, the low byte its low half. A write to the data register
    /// stores into the cell behind the address and moves the address on,
    /// within 16 bits. A write to the sprite address register flips its own
    /// toggle, and one to the sprite data register moves the sprite address
    /// on, within 8 bits. The status register cannot be written.
    pub open spec fn write(self, reg: int, value: u8) -> (VideoRegs, Result<(), Fault>) {
        if reg == 0 {
            (VideoRegs { ctrl: value, ..self }, Ok(()))
        } else if reg == 1 {
            (VideoRegs { mask: value, ..self }, Ok(()))
        } else if reg == 3 {
            (VideoRegs { oam_toggle: self.oam_toggle.flipped(), oam_addr: value, ..self }, Ok(()))
        } else if reg == 4 {
            (
                VideoRegs {
                    oam_data: value,
                    oam_addr: ((self.oam_addr + 1) % 0x100) as u8,
                    ..self
                },
                Ok(()),
            )
        } else if reg == 5 {
            (VideoRegs { scroll: value, ..self }, Ok(()))
        } else if reg == 6 {
            (
                VideoRegs {
                    addr: match self.addr_toggle {
                        BitFlag::High => (value as int * 0x100) as u16,
                        BitFlag::Low => ((self.addr as int / 0x100) * 0x100 + value as int) as u16,
                    },
                    addr_toggle: self.addr_toggle.flipped(),
                    ..self
                },
                Ok(()),
            )
        } else if reg == 7 {
            (
                VideoRegs {
                    vram: vram_write(self.vram, self.addr as int, value).0,
                    addr: ((self.addr + self.write_stride()) % 0x1_0000) as u16,
                    ..self
                },
                Ok(()),
            )
        } else {
            (self, Err(Fault::BadAddress))
        }
    }
}

/// The video chip's registers, with its memory behind the data register.
pub struct PPURegister {
    /// Control register, written at 0x2000. Bit 1 selects the address step.
    pub ppuctrl: u8,
    /// Mask register, written at 0x2001.
    pub ppumask: u8,
    /// Status register, read at 0x2002. Bit 7 is the vertical-blank flag.
    pub ppustatus: u8,
    /// Sprite memory address, written at 0x2003.
    pub oamaddr: u8,
    pub oamaddr_bit_flag: BitFlag,
    /// Sprite memory data, read and written at 0x2004.
    pub oamdata: u8,
    /// Scroll register, written at 0x2005.
    pub ppuscroll: u8,
    /// Video memory address, written at 0x2006 one half at a time.
    pub ppuaddr: u16,
    pub ppuaddr_bit_flag: BitFlag,
    /// Video memory, read and written at 0x2007.
    pub ppudata: PPUMemory,
}

impl View for PPURegister {
    type V = VideoRegs;

    open spec fn view(&self) -> VideoRegs {
        VideoRegs {
            ctrl: self.ppuctrl,
            mask: self.ppumask,
            status: self.ppustatus,
            oam_addr: self.oamaddr,
            oam_toggle: self.oamaddr_bit_flag,
            oam_data: self.oamdata,
            scroll: self.ppuscroll,
            addr: self.ppuaddr,
            addr_toggle: self.ppuaddr_bit_flag,
            vram: self.ppudata@,
        }
    }
}

impl PPURegister {
    /// Raises the vertical-blank flag.
    pub fn set_vblank(&mut self)
        ensures
            final(self)@ == old(self)@.with_vblank(),
    {
        let reg = self.ppustatus;
        self.ppustatus = reg | 0x80;
    }

    /// Reads register `reg` (0 to 7), with the side effects of the read.
    pub fn read(&mut self, reg: usize) -> (r: Result<u8, Fault>)
        ensures
            final(self)@ == old(self)@.read(reg as int).0,
            r == old(self)@.read(reg as int).1,
    {
        match reg {
            2 => {
                let reg = self.ppustatus;
                self.ppustatus = reg & 0b0111_1111;
                self.ppuaddr_bit_flag = BitFlag::High;
                Ok(reg)
            },
            4 => Ok(self.oamdata),
            7 => {
                let counter: u16 = if 0 != (self.ppuctrl & 0x02) {
                    1
                } else {
                    32
                };
                let addr = self.ppuaddr;
                self.ppuaddr = addr.wrapping_add(counter);
                self.ppudata.read(addr as usize)
            },
            _ => Err(Fault::BadAddress),
        }
    }

    /// Writes `value` to register `reg` (0 to 7), with the side effects of
    /// the write.
    pub fn write(&mut self, reg: usize, value: u8) -> (r: Result<(), Fault>)
        ensures
            final(self)@ == old(self)@.write(reg as int, value).0,
            r == old(self)@.write(reg as int, value).1,
    {
        match reg {
            0 => self.ppuctrl = value,
            1 => self.ppumask = value,
            3 => {
                self.oamaddr_bit_flag = self.oamaddr_bit_flag.not();
                self.oamaddr = value;
            },
            4 => {
                self.oamdata = value;
                self.oamaddr = self.oamaddr.wrapping_add(1);
            },
            5 => self.ppuscroll = value,
            6 => {
                let pre_adr = self.ppuaddr;
                let value: u16 = match self.ppuaddr_bit_flag {
                    BitFlag::Low => (pre_adr / 0x100) * 0x100 + value as u16,
                    BitFlag::High => value as u16 * 0x100,
                };
                self.ppuaddr = value;
                self.ppuaddr_bit_flag = self.ppuaddr_bit_flag.not();
            },
            7 => {
                let addr = self.ppuaddr;
                let _ = self.ppudata.write(addr as usize, value);
                let counter: u16 = if 0 != (self.ppuctrl & 0x02) {
                    32
                } else {
                    1
                };
                self.ppuaddr = addr.wrapping_add(counter);
            },
            _ => {
                return Err(Fault::BadAddress);
            },
        }
        Ok(())
    }
}

impl Default for PPURegister {
    fn default() -> (r: PPURegister)
        ensures
            r@ == VideoRegs::initial(),
    {
        PPURegister {
            ppuctrl: 0b0100_0000,
            ppumask: 0x00,
            ppustatus: 0x00,
            oamaddr: 0x00,
            oamaddr_bit_flag: BitFlag::High,
            oamdata: 0x00,
            ppuscroll: 0x00,
            ppuaddr: 0x00,
            ppuaddr_bit_flag: BitFlag::High,
            ppudata: PPUMemory::default(),
        }
    }
}

/// Everything the processor reaches through its address bus, as plain values.
#[verifier::ext_equal]
pub struct Bus {
    /// Work memory, 2 KB.
    pub wram: Seq<u8>,
    pub video: VideoRegs,
    pub apu: APU,
    /// The two controller ports.
    pub pad: Seq<u8>,
    /// Program memory, as loaded.
    pub prg: Seq<u8>,
}

impl Bus {
    /// The bus at power-on, with program memory `prg`.
    pub open spec fn initial(prg: Seq<u8>) -> Bus {
        Bus {
            wram: Seq::new(0x0800, |i: int| 0u8),
            video: VideoRegs::initial(),
            apu: APU::initial(),
            pad: Seq::new(2, |i: int| 0u8),
            prg,
        }
    }

    /// Each store has its full size.
    pub open spec fn wf(self) -> bool {
        &&& self.wram.len() == 0x0800
        &&& self.pad.len() == 2
        &&& self.video.wf()
    }

    /// The bus after a read at `addr`, and the byte read.
    ///
    /// Work memory answers below 0x2000, every 0x0800 bytes the same; the
    /// video registers answer from there to 0x4000, every 8 bytes the same;
    /// program memory answers from 0x8000 to 0xFFFF, as far as it was loaded.
    /// The sound and controller block cannot be read, the expansion area is
    /// not modelled, and nothing lies above 16 bits.
    #[verifier::opaque]
    pub open spec fn read(self, addr: int) -> (Bus, Result<u8, Fault>) {
        if 0 <= addr < 0x2000 {
            (self, Ok(self.wram[addr % 0x0800]))
        } else if 0x2000 <= addr < 0x4000 {
            (Bus { video: self.video.read(addr % 8).0, ..self }, self.video.read(addr % 8).1)
        } else if 0x4020 <= addr < 0x8000 {
            (self, Err(Fault::Unimplemented))
        } else if 0x8000 <= addr < 0x1_0000 && addr - 0x8000 < self.prg.len() {
            (self, Ok(self.prg[addr - 0x8000]))
        } else {
            (self, Err(Fault::BadAddress))
        }
    }

    /// The bus after a write of `value` at `addr`, and whether the write is
    /// taken.
    ///
    /// Work memory and the video registers are found as for a read. From
    /// 0x4000 the sound unit takes the write, but for the two controller
    /// ports at 0x4016 and 0x4017, where the second port is not modelled, and
    /// for the eight addresses that follow, which drop it. The expansion area
    /// drops the write too. Program memory cannot be written, and nothing
    /// lies above 16 bits.
    #[verifier::opaque]
    pub open spec fn write(self, addr: int, value: u8) -> (Bus, Result<(), Fault>) {
        if 0 <= addr < 0x2000 {
            (Bus { wram: self.wram.update(addr % 0x0800, value), ..self }, Ok(()))
        } else if 0x2000 <= addr < 0x4000 {
            (
                Bus { video: self.video.write(addr % 8, value).0, ..self },
                self.video.write(addr % 8, value).1,
            )
        } else if 0x4000 <= addr <= 0x4015 {
            (Bus { apu: self.apu.store(addr, value).0, ..self }, self.apu.store(addr, value).1)
        } else if addr == 0x4016 {
            (Bus { pad: self.pad.update(0, value), ..self }, Ok(()))
        } else if addr == 0x4017 {
            (self, Err(Fault::Unimplemented))
        } else if 0x4018 <= addr < 0x8000 {
            (self, Ok(()))
        } else if 0x8000 <= addr < 0x1_0000 {
            (self, Err(Fault::Unimplemented))
        } else {
            (self, Err(Fault::BadAddress))
        }
    }
}

/// The memory map of the processor: work memory, the video chip's registers,
/// the sound unit, the controller ports and program memory.
pub struct CPUMemory {
    /// Work memory, 2 KB.
    pub wram: [u8; 0x0800],
    /// The video chip's registers.
    pub iop: PPURegister,
    /// The sound unit.
    pub apu: APU,
    /// The controller ports.
    pub pad: [u8; 0x0002],
    /// Program memory.
    pub prg: Vec<u8>,
}

impl View for CPUMemory {
    type V = Bus;

    open spec fn view(&self) -> Bus {
        Bus { wram: self.wram@, video: self.iop@, apu: self.apu, pad: self.pad@, prg: self.prg@ }
    }
}

impl CPUMemory {
    /// A memory map at power-on around program memory `rom` and the video
    /// registers `prg`.
    pub fn new(rom: Vec<u8>, prg: PPURegister) -> (m: CPUMemory)
        ensures
            m@ == (Bus { video: prg@, ..Bus::initial(rom@) }),
    {
        CPUMemory {
            wram: [0x00u8; 0x0800],
            iop: prg,
            apu: APU::default(),
            pad: [0x00u8; 0x0002],
            prg: rom,
        }
    }

    /// Reads the byte at `addr`, with the side effects that the video
    /// registers attach to a read.
    pub fn read(&mut self, addr: usize) -> (r: Result<u8, Fault>)
        ensures
            final(self)@ == old(self)@.read(addr as int).0,
            r == old(self)@.read(addr as int).1,
    {
        proof {
            reveal(Bus::read);
        }
        if addr < 0x2000usize {
            Ok(self.wram[addr % 0x0800])
        } else if addr < 0x4000usize {
            self.iop.read(addr % 8)
        } else if addr < 0x4020usize {
            Err(Fault::BadAddress)
        } else if addr < 0x8000usize {
            Err(Fault::Unimplemented)
        } else if addr < 0x10000usize {
            let addr = addr - 0x8000usize;
            if addr < self.prg.len() {
                Ok(self.prg[addr])
            } else {
                Err(Fault::BadAddress)
            }
        } else {
            Err(Fault::BadAddress)
        }
    }

    /// Writes `value` at `addr`, with the side effects that the video
    /// registers attach to a write.
    pub fn write(&mut self, value: u8, addr: usize) -> (r: Result<(), Fault>)
        ensures
            final(self)@ == old(self)@.write(addr as int, value).0,
            r == old(self)@.write(addr as int, value).1,
    {
        proof {
            reveal(Bus::write);
        }
        if addr < 0x2000usize {
            self.wram[addr % 0x0800] = value;
            Ok(())
        } else if addr < 0x4000usize {
            self.iop.write(addr % 8, value)
        } else if addr < 0x4020usize {
            match addr {
                0x4000..=0x4015 => self.apu.write(addr, value),
                0x4016 => {
                    self.pad[0] = value;
                    Ok(())
                },
                0x4017 => Err(Fault::Unimplemented),
                _ => Ok(()),
            }
        } else if addr < 0x8000usize {
            Ok(())
        } else if addr < 0x10000usize {
            Err(Fault::Unimplemented)
        } else {
            Err(Fault::BadAddress)
        }
    }
}

/// The mirror of an address below 0x4000 is a cell of video memory.
pub proof fn lemma_mirror_in_range(addr: int)
    requires
        0 <= addr < 0x4000,
    ensures
        0 <= mirror(addr) < 0x4000,
{
}

/// The mirror is settled after one step: the cell of an address is its own
/// cell, so an address and each of its mirrors stand for one cell.
pub proof fn lemma_mirror_idempotent(addr: int)
    requires
        0 <= addr < 0x4000,
    ensures
        mirror(mirror(addr)) == mirror(addr),
{
}

/// The aliases of video memory: from 0x2000 up to 0x3F00 an address and the
/// address 0x0800 above it stand for one cell, from 0x3F00 on an address and
/// the address 0x20 above it do, and the first colour of each sprite palette
/// is the first colour of the background palette at the same place.
pub proof fn lemma_mirror_aliases(addr: int)
    ensures
        0 <= addr < 0x2000 ==> mirror(addr) == addr,
        0x2000 <= addr < 0x2800 ==> mirror(addr) == addr,
        0x2000 <= addr && addr + 0x0800 < 0x3F00 ==> mirror(addr + 0x0800) == mirror(addr),
        0x3F00 <= addr && addr + 0x20 < 0x4000 ==> mirror(addr + 0x20) == mirror(addr),
        0x3000 <= addr < 0x3F00 ==> mirror(addr) == mirror(addr - 0x1000),
        mirror(0x3F10) == mirror(0x3F00),
        mirror(0x3F14) == mirror(0x3F04),
        mirror(0x3F18) == mirror(0x3F08),
        mirror(0x3F1C) == mirror(0x3F0C),
        mirror(0x3800) == 0x2000,
        mirror(0x3EFF) == 0x26FF,
        mirror(0x3F30) == 0x3F00,
        mirror(0x3FFF) == 0x3F1F,
{
}

/// A byte written to video memory is read back under every address that
/// stands for the same cell, and no other cell changes.
pub proof fn lemma_vram_write_read(vram: Seq<u8>, a: int, b: int, value: u8)
    requires
        vram.len() == 0x4000,
        0 <= a < 0x4000,
        0 <= b < 0x4000,
    ensures
        vram_write(vram, a, value).0.len() == 0x4000,
        mirror(a) == mirror(b) ==> vram_read(vram_write(vram, a, value).0, b) == Ok::<u8, Fault>(
            value,
        ),
        mirror(a) != mirror(b) ==> vram_read(vram_write(vram, a, value).0, b) == vram_read(
            vram,
            b,
        ),
{
}

/// Reading the status register hands out the status as it stood, leaves the
/// vertical-blank flag down and the other bits alone, and puts the address
/// toggle back to the high half. Raising the flag sets bit 7 and no other.
pub proof fn lemma_status_read(regs: VideoRegs)
    ensures
        regs.read(2).1 == Ok::<u8, Fault>(regs.status),
        regs.read(2).0.status & 0x80 == 0,
        regs.read(2).0.status & 0x7F == regs.status & 0x7F,
        regs.read(2).0.addr_toggle == BitFlag::High,
        regs.with_vblank().status & 0x80 == 0x80,
        regs.with_vblank().status & 0x7F == regs.status & 0x7F,
        regs.with_vblank().read(2).0.status == regs.read(2).0.status,
{
    let s = regs.status;
    assert((s & 0x7F) & 0x80 == 0 && (s & 0x7F) & 0x7F == s & 0x7F && (s | 0x80) & 0x80 == 0x80
        && (s | 0x80) & 0x7F == s & 0x7F) by (bit_vector);
}

/// Two writes to the address register, starting at the high half, leave the
/// address `high * 256 + low` and the toggle at the high half again. The data
/// register then reads and writes the cell behind that address, and a third
/// write to the address register starts a new address with its high half.
pub proof fn lemma_address_latch(regs: VideoRegs, high: u8, low: u8, value: u8)
    requires
        regs.addr_toggle == BitFlag::High,
    ensures
        ({
            let set = regs.write(6, high).0.write(6, low).0;
            let target = high as int * 0x100 + low as int;
            &&& set.addr == target
            &&& set.addr_toggle == BitFlag::High
            &&& set.vram == regs.vram
            &&& set.read(7).1 == vram_read(regs.vram, target)
            &&& set.write(7, value).0.vram == vram_write(regs.vram, target, value).0
            &&& set.write(6, value).0.addr == value as int * 0x100
            &&& set.write(6, value).0.addr_toggle == BitFlag::Low
        }),
{
}

/// Below 0x2000 the bus reaches work memory and nothing else: a read hands
/// out the cell and changes nothing, and a write changes the cell only.
pub proof fn lemma_ram_access(bus: Bus, addr: int, value: u8)
    requires
        0 <= addr < 0x2000,
    ensures
        bus.read(addr) == (bus, Ok::<u8, Fault>(bus.wram[addr % 0x0800])),
        bus.write(addr, value) == (
            Bus { wram: bus.wram.update(addr % 0x0800, value), ..bus },
            Ok::<(), Fault>(()),
        ),
{
    reveal(Bus::read);
    reveal(Bus::write);
}

/// Work memory shows under each of its four images: a byte written at one
/// address below 0x2000 is read back at every address there that differs from
/// it by a multiple of 0x0800, and the other cells keep their bytes.
pub proof fn lemma_ram_mirror(bus: Bus, a: int, b: int, value: u8)
    requires
        bus.wf(),
        0 <= a < 0x2000,
        0 <= b < 0x2000,
    ensures
        bus.write(a, value).1 == Ok::<(), Fault>(()),
        bus.write(a, value).0.wf(),
        a % 0x0800 == b % 0x0800 ==> bus.write(a, value).0.read(b).1 == Ok::<u8, Fault>(value),
        a % 0x0800 != b % 0x0800 ==> bus.write(a, value).0.read(b).1 == bus.read(b).1,
{
    lemma_ram_access(bus, a, value);
    lemma_ram_access(bus, b, value);
    lemma_ram_access(bus.write(a, value).0, b, value);
}

/// From 0x8000 on the bus reaches program memory: a read changes nothing and
/// hands out the byte at the address less 0x8000, as far as program memory
/// was loaded. Program memory of 0x8000 bytes or more answers every address
/// up to 0xFFFF.
pub proof fn lemma_program_read(bus: Bus, addr: int)
    requires
        0x8000 <= addr,
    ensures
        bus.read(addr).0 == bus,
        addr < 0x1_0000 && addr - 0x8000 < bus.prg.len() ==> bus.read(addr).1 == Ok::<u8, Fault>(
            bus.prg[addr - 0x8000],
        ),
        !(addr < 0x1_0000 && addr - 0x8000 < bus.prg.len()) ==> bus.read(addr).1 == Err::<
            u8,
            Fault,
        >(Fault::BadAddress),
        bus.prg.len() >= 0x8000 && addr < 0x1_0000 ==> bus.read(addr).1 is Ok,
{
    reveal(Bus::read);
}

/// The video registers answer under every address from 0x2000 up to 0x4000
/// whose last three bits name them.
pub proof fn lemma_video_registers(bus: Bus, addr: int, value: u8)
    requires
        0x2000 <= addr < 0x4000,
    ensures
        bus.read(addr) == (Bus { video: bus.video.read(addr % 8).0, ..bus }, bus.video.read(
            addr % 8,
        ).1),
        bus.write(addr, value) == (
            Bus { video: bus.video.write(addr % 8, value).0, ..bus },
            bus.video.write(addr % 8, value).1,
        ),
        bus.read(addr) == bus.read(0x2000 + addr % 8),
        bus.write(addr, value) == bus.write(0x2000 + addr % 8, value),
{
    reveal(Bus::read);
    reveal(Bus::write);
}

/// A read or a write never changes the size of a store.
pub proof fn lemma_bus_keeps_wf(bus: Bus, addr: int, value: u8)
    requires
        bus.wf(),
    ensures
        bus.read(addr).0.wf(),
        bus.write(addr, value).0.wf(),
{
    reveal(Bus::read);
    reveal(Bus::write);
    if 0 <= bus.video.addr < 0x4000 {
        lemma_mirror_in_range(bus.video.addr as int);
    }
}

/// The view of a memory map is well formed: its stores have their sizes by
/// their types.
pub proof fn lemma_view_wf(memory: CPUMemory)
    ensures
        memory@.wf(),
{
}

} // verus!
