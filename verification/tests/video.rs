use nesnes::arch::memory::PPURegister;
use nesnes::arch::ppu::{parse_sprite, ScanlineEvent, COLOR_PALETTES, PPU};
use nesnes::arch::Fault;
use nesnes::parser::FormatError;

fn pattern_data() -> Vec<u8> {
    let mut chr = vec![0u8; 48];
    chr[16] = 0b1000_0001;
    chr[24] = 0b1100_0000;
    chr[17] = 0b0000_1111;
    chr[25] = 0b0011_0011;
    chr[47] = 0b0000_0001;
    chr
}

#[test]
fn tiles_are_decoded_from_two_bit_planes() {
    let pattern = parse_sprite(&pattern_data());
    assert_eq!(&pattern[1][0..8], &[3, 2, 0, 0, 0, 0, 0, 1]);
    assert_eq!(&pattern[1][8..16], &[0, 0, 2, 2, 1, 1, 3, 3]);
    assert_eq!(&pattern[1][16..64], &[0u8; 48][..]);
    assert_eq!(pattern[0], [0u8; 64]);
    assert_eq!(pattern[2][63], 2);
    assert_eq!(&pattern[2][0..63], &[0u8; 63][..]);
    assert_eq!(pattern[3], [0u8; 64]);
    assert_eq!(pattern[511], [0u8; 64]);
}

#[test]
fn every_pixel_is_a_colour_index() {
    let chr = vec![0xFFu8; 0x2000];
    let pattern = parse_sprite(&chr);
    for tile in pattern.iter() {
        assert_eq!(*tile, [3u8; 64]);
    }
    let mut chr = vec![0u8; 0x2000];
    for (i, b) in chr.iter_mut().enumerate() {
        *b = (i * 7 + 3) as u8;
    }
    let pattern = parse_sprite(&chr);
    for (t, tile) in pattern.iter().enumerate() {
        for (p, pixel) in tile.iter().enumerate() {
            let low = chr[16 * t + p / 8] >> (7 - p % 8) & 1;
            let high = chr[16 * t + 8 + p / 8] >> (7 - p % 8) & 1;
            assert_eq!(*pixel, low + 2 * high);
        }
    }
}

#[test]
fn pattern_data_of_a_wrong_size_is_refused() {
    assert_eq!(PPU::new(vec![0u8; 15]).err(), Some(FormatError::PatternSize));
    assert_eq!(PPU::new(vec![0u8; 17]).err(), Some(FormatError::PatternSize));
    assert_eq!(PPU::new(vec![0u8; 0x2010]).err(), Some(FormatError::PatternSize));
    assert!(PPU::new(vec![0u8; 0x2000]).is_ok());
    assert!(PPU::new(vec![]).is_ok());
}

#[test]
fn power_on_state_of_the_video_chip() {
    let ppu = PPU::new(pattern_data()).unwrap();
    assert_eq!(ppu.cycle(), 0);
    assert_eq!(ppu.line(), 0);
    assert_eq!(ppu.display().len(), 184_320);
    assert!(ppu.display().iter().all(|b| *b == 0));
    assert_eq!(ppu.sprite_flush(), parse_sprite(&pattern_data()));
}

#[test]
fn cycles_add_up_to_a_scanline() {
    let mut ppu = PPU::new(vec![]).unwrap();
    let mut regs = PPURegister::default();
    assert_eq!(ppu.run(340, &mut regs), ScanlineEvent::Idle);
    assert_eq!((ppu.cycle(), ppu.line()), (340, 0));
    assert_eq!(ppu.run(1, &mut regs), ScanlineEvent::Drawn);
    assert_eq!((ppu.cycle(), ppu.line()), (0, 1));
    assert_eq!(ppu.run(21, &mut regs), ScanlineEvent::Idle);
    assert_eq!((ppu.cycle(), ppu.line()), (21, 1));
    assert_eq!(ppu.run(330, &mut regs), ScanlineEvent::Idle);
    assert_eq!((ppu.cycle(), ppu.line()), (10, 2));
    assert_eq!(ppu.run(0, &mut regs), ScanlineEvent::Idle);
    assert_eq!((ppu.cycle(), ppu.line()), (10, 2));
}

#[test]
fn one_scanline_is_taken_off_at_a_time() {
    let mut ppu = PPU::new(vec![]).unwrap();
    let mut regs = PPURegister::default();
    assert_eq!(ppu.run(1000, &mut regs), ScanlineEvent::Drawn);
    assert_eq!((ppu.cycle(), ppu.line()), (659, 1));
    assert_eq!(ppu.run(0, &mut regs), ScanlineEvent::Idle);
    assert_eq!((ppu.cycle(), ppu.line()), (318, 2));
}

#[test]
fn events_of_a_whole_frame() {
    let mut ppu = PPU::new(vec![]).unwrap();
    let mut regs = PPURegister::default();
    for line in 0..=262u32 {
        assert_eq!(ppu.line(), line);
        let status = regs.ppustatus;
        let event = ppu.run(341, &mut regs);
        let expected = if line < 240 && line % 8 == 0 {
            ScanlineEvent::Drawn
        } else if line == 240 {
            ScanlineEvent::Flush
        } else if line == 241 {
            ScanlineEvent::VBlank
        } else if line == 262 {
            ScanlineEvent::Wrap
        } else {
            ScanlineEvent::Idle
        };
        assert_eq!(event, expected);
        assert_eq!(ppu.cycle(), 0);
        if line == 241 {
            assert_eq!(regs.ppustatus, 0x80);
        } else {
            assert_eq!(regs.ppustatus, status);
        }
    }
    assert_eq!(ppu.line(), 0);
}

#[test]
fn vertical_blank_keeps_the_other_status_bits() {
    let mut ppu = PPU::new(vec![]).unwrap();
    let mut regs = PPURegister::default();
    for _ in 0..241 {
        ppu.run(341, &mut regs);
    }
    regs.ppustatus = 0x41;
    assert_eq!(ppu.line(), 241);
    assert_eq!(ppu.run(341, &mut regs), ScanlineEvent::VBlank);
    assert_eq!(regs.ppustatus, 0xC1);
    assert_eq!(ppu.line(), 242);
}

#[test]
fn a_band_is_drawn_from_name_table_and_pattern_table() {
    let mut ppu = PPU::new(pattern_data()).unwrap();
    let mut regs = PPURegister::default();
    assert_eq!(regs.ppudata.write(0x2000, 1), Ok(()));
    assert_eq!(regs.ppudata.write(0x201F, 2), Ok(()));
    assert_eq!(regs.ppudata.write(0x2020, 1), Ok(()));
    assert_eq!(ppu.run(341, &mut regs), ScanlineEvent::Drawn);
    let d = ppu.display();
    assert_eq!(&d[0..3], &COLOR_PALETTES[3]);
    assert_eq!(&d[0..3], &[48, 0, 136]);
    assert_eq!(&d[3..6], &[8, 16, 144]);
    assert_eq!(&d[6..9], &[84, 84, 84]);
    assert_eq!(&d[21..24], &[0, 30, 116]);
    assert_eq!(&d[24..27], &[84, 84, 84]);
    assert_eq!(&d[768..771], &[84, 84, 84]);
    assert_eq!(&d[768 + 6..768 + 9], &[8, 16, 144]);
    assert_eq!(&d[768 + 12..768 + 15], &[0, 30, 116]);
    assert_eq!(&d[768 + 18..768 + 21], &[48, 0, 136]);
    let last = 7 * 768 + 31 * 24 + 7 * 3;
    assert_eq!(&d[last..last + 3], &[8, 16, 144]);
    assert_eq!(last + 3, 6144);
    assert!(d[6144..].iter().all(|b| *b == 0));
    let grey = d[..6144].chunks(3).filter(|c| *c == [84, 84, 84]).count();
    assert_eq!(grey, 2048 - 3 - 6 - 1);
}

#[test]
fn the_second_band_is_drawn_after_the_eighth_scanline() {
    let mut ppu = PPU::new(pattern_data()).unwrap();
    let mut regs = PPURegister::default();
    assert_eq!(regs.ppudata.write(0x2020, 1), Ok(()));
    for _ in 0..8 {
        ppu.run(341, &mut regs);
    }
    assert!(ppu.display()[6144..].iter().all(|b| *b == 0));
    assert_eq!(ppu.line(), 8);
    assert_eq!(ppu.run(341, &mut regs), ScanlineEvent::Drawn);
    let d = ppu.display();
    assert_eq!(&d[6144..6147], &[48, 0, 136]);
    assert_eq!(&d[6147..6150], &[8, 16, 144]);
    assert_eq!(&d[0..3], &[84, 84, 84]);
    assert!(d[12288..].iter().all(|b| *b == 0));
}

#[test]
fn drawing_by_hand() {
    let mut ppu = PPU::new(pattern_data()).unwrap();
    let mut regs = PPURegister::default();
    assert_eq!(regs.ppudata.write(0x2001, 1), Ok(()));
    ppu.sprite_generate(&regs);
    assert_eq!((ppu.cycle(), ppu.line()), (0, 0));
    let d = ppu.display();
    assert_eq!(&d[0..3], &[84, 84, 84]);
    assert_eq!(&d[24..27], &[48, 0, 136]);
    assert_eq!(&d[45..48], &[0, 30, 116]);
}

#[test]
fn the_last_band_ends_the_frame_buffer() {
    let mut ppu = PPU::new(pattern_data()).unwrap();
    let mut regs = PPURegister::default();
    assert_eq!(regs.ppudata.write(0x2000 + 29 * 32 + 31, 2), Ok(()));
    for _ in 0..232 {
        ppu.run(341, &mut regs);
    }
    assert_eq!(ppu.line(), 232);
    assert_eq!(ppu.run(341, &mut regs), ScanlineEvent::Drawn);
    let d = ppu.display();
    assert_eq!(&d[184_317..184_320], &[8, 16, 144]);
    assert_eq!(&d[184_314..184_317], &[84, 84, 84]);
}

#[test]
fn the_chip_side_register_read_is_not_modelled() {
    let ppu = PPU::new(vec![]).unwrap();
    assert_eq!(ppu.read(0), Err(Fault::Unimplemented));
    assert_eq!(ppu.read(0xFF), Err(Fault::Unimplemented));
}

#[test]
fn system_palette() {
    assert_eq!(COLOR_PALETTES.len(), 64);
    assert_eq!(COLOR_PALETTES[0], [84, 84, 84]);
    assert_eq!(COLOR_PALETTES[0x0D], [0, 0, 0]);
    assert_eq!(COLOR_PALETTES[0x20], [236, 238, 236]);
    assert_eq!(COLOR_PALETTES[0x3D], [160, 162, 160]);
    assert_eq!(COLOR_PALETTES[0x3F], [0, 0, 0]);
}
