use nesnes::parser::{parser, FormatError};
use nesnes::ui::sprite_map::generate_sprites;
use nesnes::arch::ppu::parse_sprite;

fn image(prg_pages: u8, chr_pages: u8, flags: u8) -> Vec<u8> {
    let mut bytes = vec![0x4E, 0x45, 0x53, 0x1A, prg_pages, chr_pages, flags];
    bytes.resize(16, 0xEE);
    for i in 0..0x4000 * prg_pages as usize {
        bytes.push((i % 251) as u8);
    }
    for i in 0..0x2000 * chr_pages as usize {
        bytes.push((i % 241) as u8 ^ 0xFF);
    }
    bytes
}

#[test]
fn an_image_is_taken_apart() {
    let bytes = image(2, 1, 0x31);
    let (prg, chr, flags) = parser(&bytes).unwrap();
    assert_eq!(prg.len(), 0x8000);
    assert_eq!(chr.len(), 0x2000);
    assert_eq!(flags, 0x31);
    assert_eq!(&prg[..], &bytes[16..16 + 0x8000]);
    assert_eq!(&chr[..], &bytes[16 + 0x8000..]);
    assert_eq!(prg[0], 0);
    assert_eq!(prg[250], 250);
    assert_eq!(prg[251], 0);
    assert_eq!(chr[0], 0xFF);
}

#[test]
fn an_image_without_pages() {
    let bytes = image(0, 0, 7);
    assert_eq!(bytes.len(), 16);
    assert_eq!(parser(&bytes), Ok((vec![], vec![], 7)));
}

#[test]
fn bytes_behind_the_pages_are_left_out() {
    let mut bytes = image(1, 0, 0);
    bytes.extend_from_slice(&[1, 2, 3]);
    let (prg, chr, _) = parser(&bytes).unwrap();
    assert_eq!(prg.len(), 0x4000);
    assert_eq!(chr.len(), 0);
}

#[test]
fn a_wrong_signature_is_refused() {
    let mut bytes = image(1, 1, 0);
    bytes[3] = 0x1B;
    assert_eq!(parser(&bytes), Err(FormatError::Signature));
    let mut bytes = image(1, 1, 0);
    bytes[0] = 0x4F;
    assert_eq!(parser(&bytes), Err(FormatError::Signature));
    assert_eq!(parser(&[0x00]), Err(FormatError::Signature));
    assert_eq!(parser(&[0x4E, 0x45, 0x00]), Err(FormatError::Signature));
    assert_eq!(parser(&[0x4E, 0x45, 0x53, 0x00, 0, 0, 0, 0, 0, 0, 0, 0, 0, 0, 0, 0]), Err(FormatError::Signature));
}

#[test]
fn a_short_image_is_refused() {
    assert_eq!(parser(&[]), Err(FormatError::Truncated));
    assert_eq!(parser(&[0x4E, 0x45, 0x53]), Err(FormatError::Truncated));
    assert_eq!(parser(&[0x4E, 0x45, 0x53, 0x1A]), Err(FormatError::Truncated));
    assert_eq!(parser(&[0x4E, 0x45, 0x53, 0x1A, 0, 0, 0, 0, 0, 0, 0, 0, 0, 0, 0]), Err(FormatError::Truncated));
    let mut bytes = image(1, 1, 0);
    bytes.pop();
    assert_eq!(parser(&bytes), Err(FormatError::Truncated));
    let mut bytes = image(1, 0, 0);
    bytes.pop();
    assert_eq!(parser(&bytes), Err(FormatError::Truncated));
    let mut bytes = image(0, 0, 0);
    bytes[4] = 255;
    bytes[5] = 255;
    assert_eq!(parser(&bytes), Err(FormatError::Truncated));
}

#[test]
fn the_largest_image() {
    let bytes = image(255, 255, 0xFF);
    let (prg, chr, flags) = parser(&bytes).unwrap();
    assert_eq!(prg.len(), 255 * 0x4000);
    assert_eq!(chr.len(), 255 * 0x2000);
    assert_eq!(flags, 0xFF);
    assert_eq!(chr[chr.len() - 1], bytes[bytes.len() - 1]);
}

#[test]
fn the_pattern_table_on_a_sheet() {
    let mut chr = vec![0u8; 0x2000];
    chr[16] = 0b1000_0001;
    chr[24] = 0b1100_0000;
    chr[16 * 16 + 7] = 0b0000_0001;
    chr[511 * 16 + 7] = 0b0000_0001;
    chr[511 * 16 + 15] = 0b0000_0001;
    let pattern = parse_sprite(&chr);
    let sheet = generate_sprites(&pattern);
    assert_eq!(sheet.len(), 128 * 340 * 3);
    assert_eq!(&sheet[0..3], &[0x00, 0x00, 0x00]);
    assert_eq!(&sheet[24..27], &[0x99, 0xFF, 0xFC]);
    assert_eq!(&sheet[27..30], &[0xFF, 0xFF, 0xFF]);
    assert_eq!(&sheet[30..33], &[0x00, 0x00, 0x00]);
    assert_eq!(&sheet[45..48], &[0xCF, 0x29, 0x50]);
    let tile16 = (8 * 128 + 7 * 128 + 7) * 3;
    assert_eq!(&sheet[tile16..tile16 + 3], &[0xCF, 0x29, 0x50]);
    let last = (15 * 8 + 31 * 128 * 8 + 7 + 7 * 128) * 3;
    assert_eq!(last + 3, 98_304);
    assert_eq!(&sheet[last..last + 3], &[0x99, 0xFF, 0xFC]);
    assert!(sheet[98_304..].iter().all(|b| *b == 0));
    let lit = sheet.chunks(3).filter(|c| *c != [0, 0, 0]).count();
    assert_eq!(lit, 5);
}
