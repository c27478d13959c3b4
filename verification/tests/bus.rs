use nesnes::arch::apu::{Pulse, APU, DMC};
use nesnes::arch::memory::{BitFlag, CPUMemory, PPUMemory, PPURegister};
use nesnes::arch::Fault;

fn memory(rom: Vec<u8>) -> CPUMemory {
    CPUMemory::new(rom, PPURegister::default())
}

#[test]
fn work_memory_is_mirrored_upwards() {
    let mut m = memory(vec![]);
    assert_eq!(m.write(0xAB, 0x0010), Ok(()));
    assert_eq!(m.read(0x0810), Ok(0xAB));
    assert_eq!(m.read(0x1010), Ok(0xAB));
    assert_eq!(m.read(0x1810), Ok(0xAB));
    assert_eq!(m.read(0x0011), Ok(0x00));
}

#[test]
fn work_memory_is_mirrored_downwards() {
    let mut m = memory(vec![]);
    assert_eq!(m.write(0xCD, 0x0810), Ok(()));
    assert_eq!(m.read(0x0010), Ok(0xCD));
    assert_eq!(m.wram[0x0010], 0xCD);
    assert_eq!(m.write(0xEF, 0x1FFF), Ok(()));
    assert_eq!(m.read(0x07FF), Ok(0xEF));
}

#[test]
fn program_memory_is_read_from_0x8000() {
    let mut m = memory(vec![0x11, 0x22, 0x33]);
    assert_eq!(m.read(0x8000), Ok(0x11));
    assert_eq!(m.read(0x8002), Ok(0x33));
    assert_eq!(m.read(0x8003), Err(Fault::BadAddress));
    assert_eq!(m.read(0xFFFF), Err(Fault::BadAddress));
}

#[test]
fn program_memory_reaches_to_the_top_of_the_address_space() {
    let mut rom = vec![0u8; 0x8000];
    rom[0x7FFF] = 0x5A;
    let mut m = memory(rom);
    assert_eq!(m.read(0xFFFF), Ok(0x5A));
    assert_eq!(m.read(0x1_0000), Err(Fault::BadAddress));
}

#[test]
fn program_memory_cannot_be_written() {
    let mut m = memory(vec![0x11]);
    assert_eq!(m.write(0x99, 0x8000), Err(Fault::Unimplemented));
    assert_eq!(m.read(0x8000), Ok(0x11));
}

#[test]
fn addresses_above_16_bits_are_refused() {
    let mut m = memory(vec![]);
    assert_eq!(m.read(0x1_0000), Err(Fault::BadAddress));
    assert_eq!(m.write(0x00, 0x1_0000), Err(Fault::BadAddress));
    assert_eq!(m.read(usize::max_value()), Err(Fault::BadAddress));
}

#[test]
fn expansion_area_drops_writes_and_refuses_reads() {
    let mut m = memory(vec![]);
    assert_eq!(m.write(0x12, 0x4020), Ok(()));
    assert_eq!(m.write(0x12, 0x5000), Ok(()));
    assert_eq!(m.write(0x12, 0x7FFF), Ok(()));
    assert_eq!(m.read(0x4020), Err(Fault::Unimplemented));
    assert_eq!(m.read(0x6000), Err(Fault::Unimplemented));
    assert_eq!(m.read(0x7FFF), Err(Fault::Unimplemented));
}

#[test]
fn sound_block_cannot_be_read() {
    let mut m = memory(vec![]);
    assert_eq!(m.read(0x4000), Err(Fault::BadAddress));
    assert_eq!(m.read(0x4016), Err(Fault::BadAddress));
    assert_eq!(m.read(0x401F), Err(Fault::BadAddress));
}

#[test]
fn controller_ports() {
    let mut m = memory(vec![]);
    assert_eq!(m.write(0x01, 0x4016), Ok(()));
    assert_eq!(m.pad, [0x01, 0x00]);
    assert_eq!(m.write(0x01, 0x4017), Err(Fault::Unimplemented));
    assert_eq!(m.pad, [0x01, 0x00]);
    assert_eq!(m.write(0x01, 0x4018), Ok(()));
    assert_eq!(m.write(0x01, 0x401F), Ok(()));
    assert_eq!(m.pad, [0x01, 0x00]);
}

#[test]
fn sound_registers_through_the_bus() {
    let mut m = memory(vec![]);
    assert_eq!(m.write(0xBF, 0x4000), Ok(()));
    assert_eq!(m.apu.pulse1.duty, 0x80);
    assert_eq!(m.apu.pulse1.envelope_loop, true);
    assert_eq!(m.apu.pulse1.is_disable_envelope, true);
    assert_eq!(m.apu.pulse1.volume, 0x0F);
    assert_eq!(m.apu.pulse2, Pulse::default());
    assert_eq!(m.write(0x00, 0x4003), Err(Fault::Unimplemented));
    assert_eq!(m.write(0x00, 0x400A), Err(Fault::BadAddress));
    assert_eq!(m.write(0x00, 0x4015), Err(Fault::Unimplemented));
}

#[test]
fn pulse_control_bytes_are_taken_apart() {
    let mut p = Pulse::default();
    p.update_ctrl0(0b0110_1010);
    assert_eq!(p.duty, 0b0100_0000);
    assert_eq!(p.envelope_loop, true);
    assert_eq!(p.is_disable_envelope, false);
    assert_eq!(p.volume, 0b1010);
    p.update_ctrl1(0b1011_1101);
    assert_eq!(p.is_enable_sweep, true);
    assert_eq!(p.period, 0b0011_0000);
    assert_eq!(p.negate, true);
    assert_eq!(p.shift, 0b101);
    assert_eq!(p.duty, 0b0100_0000);
    assert_eq!(p.timer_low, 0);
}

#[test]
fn sound_unit_register_map() {
    let mut a = APU::default();
    assert_eq!(a.write(0x4001, 0x88), Ok(()));
    assert_eq!(a.pulse1.is_enable_sweep, true);
    assert_eq!(a.pulse1.negate, true);
    assert_eq!(a.write(0x4002, 0x55), Ok(()));
    assert_eq!(a.pulse1.timer_low, 0x55);
    assert_eq!(a.write(0x4004, 0xC3), Ok(()));
    assert_eq!(a.pulse2.duty, 0xC0);
    assert_eq!(a.pulse2.volume, 0x03);
    assert_eq!(a.write(0x4005, 0x07), Ok(()));
    assert_eq!(a.pulse2.shift, 0x07);
    assert_eq!(a.write(0x4006, 0x66), Ok(()));
    assert_eq!(a.pulse2.timer_low, 0x66);
    let before = a;
    assert_eq!(a.write(0x4009, 0xFF), Ok(()));
    assert_eq!(a, before);
    assert_eq!(a.write(0x4010, 0xCF), Ok(()));
    assert_eq!(a.dmc.is_irq, true);
    assert_eq!(a.dmc.is_loop, true);
    assert_eq!(a.dmc.frequency, 0x0F);
    assert_eq!(a.write(0x4011, 0xFF), Ok(()));
    assert_eq!(a.dmc.load_counter, 0x7F);
    assert_eq!(a.write(0x4012, 0x12), Ok(()));
    assert_eq!(a.dmc.sample_address, 0x12);
    assert_eq!(a.write(0x4013, 0x13), Ok(()));
    assert_eq!(a.dmc.sample_length, 0x13);
}

#[test]
fn sound_unit_refusals() {
    let mut a = APU::default();
    for addr in [0x4003usize, 0x4007, 0x4008, 0x4014, 0x4015, 0x4017] {
        assert_eq!(a.write(addr, 1), Err(Fault::Unimplemented));
    }
    for addr in [0x400Ausize, 0x400F, 0x4016, 0x4018, 0x3FFF, 0, 0x8000] {
        assert_eq!(a.write(addr, 1), Err(Fault::BadAddress));
    }
    assert_eq!(a, APU::default());
    assert_eq!(a.dmc, DMC::default());
}

#[test]
fn address_register_takes_high_then_low() {
    let mut m = memory(vec![]);
    assert_eq!(m.iop.ppuaddr_bit_flag, BitFlag::High);
    assert_eq!(m.write(0x21, 0x2006), Ok(()));
    assert_eq!(m.iop.ppuaddr, 0x2100);
    assert_eq!(m.iop.ppuaddr_bit_flag, BitFlag::Low);
    assert_eq!(m.write(0x08, 0x2006), Ok(()));
    assert_eq!(m.iop.ppuaddr, 0x2108);
    assert_eq!(m.iop.ppuaddr_bit_flag, BitFlag::High);
    assert_eq!(m.write(0x77, 0x2007), Ok(()));
    assert_eq!(m.iop.ppudata.0[0x2108], 0x77);
    assert_eq!(m.iop.ppudata.read(0x2108), Ok(0x77));
}

#[test]
fn data_register_reads_at_the_address_set() {
    let mut m = memory(vec![]);
    assert_eq!(m.iop.ppudata.write(0x2108, 0x3C), Ok(()));
    assert_eq!(m.write(0x21, 0x2006), Ok(()));
    assert_eq!(m.write(0x08, 0x2006), Ok(()));
    assert_eq!(m.read(0x2007), Ok(0x3C));
}

#[test]
fn third_address_write_starts_with_the_high_half_again() {
    let mut m = memory(vec![]);
    assert_eq!(m.write(0x21, 0x2006), Ok(()));
    assert_eq!(m.write(0x08, 0x2006), Ok(()));
    assert_eq!(m.write(0x3F, 0x2006), Ok(()));
    assert_eq!(m.iop.ppuaddr, 0x3F00);
    assert_eq!(m.iop.ppuaddr_bit_flag, BitFlag::Low);
    assert_eq!(m.write(0x10, 0x2006), Ok(()));
    assert_eq!(m.iop.ppuaddr, 0x3F10);
}

#[test]
fn low_address_write_keeps_the_high_half() {
    let mut regs = PPURegister::default();
    regs.ppuaddr = 0x2155;
    regs.ppuaddr_bit_flag = BitFlag::Low;
    assert_eq!(regs.write(6, 0x08), Ok(()));
    assert_eq!(regs.ppuaddr, 0x2108);
}

#[test]
fn data_register_moves_the_address_on() {
    let mut regs = PPURegister::default();
    assert_eq!(regs.ppuctrl, 0b0100_0000);
    regs.ppuaddr = 0x2000;
    assert_eq!(regs.write(7, 0x01), Ok(()));
    assert_eq!(regs.ppuaddr, 0x2001);
    assert_eq!(regs.read(7), Ok(0x00));
    assert_eq!(regs.ppuaddr, 0x2021);
    assert_eq!(regs.write(0, 0x02), Ok(()));
    regs.ppuaddr = 0x2000;
    assert_eq!(regs.write(7, 0x02), Ok(()));
    assert_eq!(regs.ppuaddr, 0x2020);
    regs.ppuaddr = 0x2000;
    assert_eq!(regs.read(7), Ok(0x02));
    assert_eq!(regs.ppuaddr, 0x2001);
}

#[test]
fn data_register_address_wraps_at_16_bits() {
    let mut regs = PPURegister::default();
    regs.ppuaddr = 0xFFFF;
    assert_eq!(regs.write(7, 0x01), Ok(()));
    assert_eq!(regs.ppuaddr, 0x0000);
    regs.ppuaddr = 0xFFF0;
    assert_eq!(regs.read(7), Err(Fault::BadAddress));
    assert_eq!(regs.ppuaddr, 0x0010);
}

#[test]
fn status_read_clears_vblank_and_resets_the_toggle() {
    let mut m = memory(vec![]);
    m.iop.ppustatus = 0x60;
    m.iop.set_vblank();
    assert_eq!(m.iop.ppustatus, 0xE0);
    assert_eq!(m.write(0x21, 0x2006), Ok(()));
    assert_eq!(m.iop.ppuaddr_bit_flag, BitFlag::Low);
    assert_eq!(m.read(0x2002), Ok(0xE0));
    assert_eq!(m.iop.ppustatus, 0x60);
    assert_eq!(m.iop.ppuaddr_bit_flag, BitFlag::High);
    assert_eq!(m.read(0x2002), Ok(0x60));
}

#[test]
fn video_registers_are_mirrored_every_eight_bytes() {
    let mut m = memory(vec![]);
    assert_eq!(m.write(0x81, 0x2008), Ok(()));
    assert_eq!(m.iop.ppuctrl, 0x81);
    assert_eq!(m.write(0x1E, 0x3FF9), Ok(()));
    assert_eq!(m.iop.ppumask, 0x1E);
    assert_eq!(m.write(0x44, 0x2005), Ok(()));
    assert_eq!(m.iop.ppuscroll, 0x44);
    m.iop.ppustatus = 0x80;
    assert_eq!(m.read(0x3FFA), Ok(0x80));
    assert_eq!(m.iop.ppustatus, 0x00);
}

#[test]
fn sprite_memory_registers() {
    let mut m = memory(vec![]);
    assert_eq!(m.iop.oamaddr_bit_flag, BitFlag::High);
    assert_eq!(m.write(0xFF, 0x2003), Ok(()));
    assert_eq!(m.iop.oamaddr, 0xFF);
    assert_eq!(m.iop.oamaddr_bit_flag, BitFlag::Low);
    assert_eq!(m.write(0x5A, 0x2004), Ok(()));
    assert_eq!(m.iop.oamdata, 0x5A);
    assert_eq!(m.iop.oamaddr, 0x00);
    assert_eq!(m.read(0x2004), Ok(0x5A));
    assert_eq!(m.iop.ppuaddr_bit_flag, BitFlag::High);
}

#[test]
fn video_registers_of_one_direction() {
    let mut m = memory(vec![]);
    for addr in [0x2000usize, 0x2001, 0x2003, 0x2005, 0x2006] {
        assert_eq!(m.read(addr), Err(Fault::BadAddress));
    }
    assert_eq!(m.write(0x00, 0x2002), Err(Fault::BadAddress));
    let mut regs = PPURegister::default();
    assert_eq!(regs.read(8), Err(Fault::BadAddress));
    assert_eq!(regs.write(8, 0), Err(Fault::BadAddress));
}

#[test]
fn video_memory_mirrors() {
    let mut v = PPUMemory::default();
    assert_eq!(v.write(0x2800, 0x11), Ok(()));
    assert_eq!(v.read(0x2000), Ok(0x11));
    assert_eq!(v.write(0x2FFF, 0x12), Ok(()));
    assert_eq!(v.read(0x27FF), Ok(0x12));
    assert_eq!(v.write(0x3000, 0x13), Ok(()));
    assert_eq!(v.read(0x2000), Ok(0x13));
    assert_eq!(v.write(0x3EFF, 0x14), Ok(()));
    assert_eq!(v.read(0x2EFF), Ok(0x14));
    assert_eq!(v.read(0x36FF), Ok(0x14));
    assert_eq!(v.read(0x26FF), Ok(0x14));
    assert_eq!(v.0[0x26FF], 0x14);
    assert_eq!(v.0[0x2EFF], 0x00);
    assert_eq!(v.write(0x1FFF, 0x15), Ok(()));
    assert_eq!(v.0[0x1FFF], 0x15);
}

#[test]
fn a_mirror_of_a_mirror_is_the_same_cell() {
    let mut v = PPUMemory::default();
    assert_eq!(v.write(0x3800, 0x2A), Ok(()));
    assert_eq!(v.read(0x2800), Ok(0x2A));
    assert_eq!(v.read(0x3000), Ok(0x2A));
    assert_eq!(v.read(0x2000), Ok(0x2A));
    assert_eq!(v.0[0x2000], 0x2A);
    assert_eq!(v.write(0x3F30, 0x2B), Ok(()));
    assert_eq!(v.read(0x3F10), Ok(0x2B));
    assert_eq!(v.read(0x3F00), Ok(0x2B));
    assert_eq!(v.read(0x3FF0), Ok(0x2B));
    assert_eq!(v.0[0x3F00], 0x2B);
    assert_eq!(v.write(0x2000, 0x2C), Ok(()));
    for addr in [0x2000usize, 0x2800, 0x3000, 0x3800] {
        assert_eq!(v.read(addr), Ok(0x2C));
    }
    assert_eq!(v.read(0x2001), Ok(0x00));
}

#[test]
fn every_address_reads_what_was_written_to_its_cell() {
    let mut v = PPUMemory::default();
    for addr in 0..0x4000usize {
        let value = (addr % 253) as u8 + 1;
        assert_eq!(v.write(addr, value), Ok(()));
        assert_eq!(v.read(addr), Ok(value));
    }
    for addr in 0x2000..0x3700usize {
        assert_eq!(v.read(addr), v.read(addr + 0x0800));
    }
    for addr in 0x3F00..0x3FE0usize {
        assert_eq!(v.read(addr), v.read(addr + 0x20));
    }
    for addr in 0..0x2000usize {
        assert_eq!(v.read(addr), Ok(v.0[addr]));
    }
    assert!(v.0[0x2800..0x3F00].iter().all(|b| *b == 0));
    assert!(v.0[0x3F20..].iter().all(|b| *b == 0));
    assert_eq!(v.0[0x3F10], 0);
    assert_eq!(v.0[0x3F14], 0);
    assert_eq!(v.0[0x3F18], 0);
    assert_eq!(v.0[0x3F1C], 0);
}

#[test]
fn palette_mirrors() {
    let mut v = PPUMemory::default();
    assert_eq!(v.write(0x3F10, 0x21), Ok(()));
    assert_eq!(v.read(0x3F00), Ok(0x21));
    assert_eq!(v.write(0x3F04, 0x22), Ok(()));
    assert_eq!(v.read(0x3F14), Ok(0x22));
    assert_eq!(v.write(0x3F18, 0x23), Ok(()));
    assert_eq!(v.read(0x3F08), Ok(0x23));
    assert_eq!(v.write(0x3F1C, 0x24), Ok(()));
    assert_eq!(v.read(0x3F0C), Ok(0x24));
    assert_eq!(v.write(0x3F11, 0x25), Ok(()));
    assert_eq!(v.0[0x3F11], 0x25);
    assert_eq!(v.write(0x3F21, 0x26), Ok(()));
    assert_eq!(v.read(0x3F01), Ok(0x26));
    assert_eq!(v.write(0x3FFF, 0x27), Ok(()));
    assert_eq!(v.read(0x3FFF), Ok(0x27));
    assert_eq!(v.read(0x3FDF), Ok(0x27));
    assert_eq!(v.read(0x3F1F), Ok(0x27));
    assert_eq!(v.0[0x3F1F], 0x27);
    assert_eq!(v.0[0x3FDF], 0x00);
}

#[test]
fn video_memory_ends_at_0x4000() {
    let mut v = PPUMemory::default();
    assert_eq!(v.read(0x3FFF), Ok(0x00));
    assert_eq!(v.read(0x4000), Err(Fault::BadAddress));
    assert_eq!(v.write(0x4000, 0xFF), Ok(()));
    assert_eq!(v.write(0xFFFF, 0xFF), Ok(()));
    assert_eq!(v.write(0x1_0000, 0xFF), Err(Fault::BadAddress));
    assert!(v.0.iter().all(|b| *b == 0));
    assert_eq!(v.cell(0x2800), 0);
}

#[test]
fn toggle_flips() {
    assert_eq!(BitFlag::Low.not(), BitFlag::High);
    assert_eq!(BitFlag::High.not(), BitFlag::Low);
}

#[test]
fn power_on_state_of_the_video_registers() {
    let regs = PPURegister::default();
    assert_eq!(regs.ppuctrl, 0b0100_0000);
    assert_eq!(regs.ppumask, 0);
    assert_eq!(regs.ppustatus, 0);
    assert_eq!(regs.oamaddr, 0);
    assert_eq!(regs.oamdata, 0);
    assert_eq!(regs.ppuscroll, 0);
    assert_eq!(regs.ppuaddr, 0);
    assert_eq!(regs.oamaddr_bit_flag, BitFlag::High);
    assert_eq!(regs.ppuaddr_bit_flag, BitFlag::High);
}

#[test]
fn control_fields_give_the_byte_back() {
    for value in 0..=255u8 {
        let mut p = Pulse::default();
        p.update_ctrl0(value);
        let again =
            p.duty | (p.envelope_loop as u8) << 5 | (p.is_disable_envelope as u8) << 4 | p.volume;
        assert_eq!(again, value);
        p.update_ctrl1(value);
        let again = (p.is_enable_sweep as u8) << 7 | p.period | (p.negate as u8) << 3 | p.shift;
        assert_eq!(again, value);
    }
}
