//! The video chip: decoding of the pattern table, the scanline counter, and
//! the drawing of the picture into the frame buffer.

use crate::arch::memory::{PPURegister, VideoRegs};
use crate::arch::Fault;
use crate::parser::FormatError;
use crate::{DISPLAY_SIZE, DISPLAY_SPRITE_WIDTH, PATTERN_LENGTH, SPRITE, SPRITE_SIDE};
use vstd::arithmetic::div_mod::{lemma_fundamental_div_mod, lemma_fundamental_div_mod_converse};
use vstd::prelude::*;

verus! {

/// The pattern table: for each tile its 64 pixels, row by row, each a colour
/// index from 0 to 3.
pub type Pattern = [[u8; SPRITE]; PATTERN_LENGTH];

/// Cycles of the video clock in one scanline.
pub const LINE_CYCLES: u32 = 341;

/// The scanline after which the picture is handed out.
pub const FLUSH_LINE: u32 = 240;

/// The scanline after which vertical blank begins.
pub const VBLANK_LINE: u32 = 241;

/// The last scanline of a frame.
pub const LAST_LINE: u32 = 262;

/// Bytes of the frame buffer that hold one band of eight scanlines.
pub const BAND_SIZE: usize = 6144;

/// Where the first name table begins in video memory.
pub const NAME_TABLE: usize = 0x2000;

/// The colours of the system palette, each as red, green, blue.
pub const COLOR_PALETTES: [[u8; 3]; 0x40] = [
    [84, 84, 84], [0, 30, 116], [8, 16, 144], [48, 0, 136],
    [68, 0, 100], [92, 0, 48], [84, 4, 0], [60, 24, 0],
    [32, 42, 0], [8, 58, 0], [0, 64, 0], [0, 60, 0],
    [0, 50, 60], [0, 0, 0], [0, 0, 0], [0, 0, 0],
    [152, 150, 152], [8, 76, 196], [48, 50, 236], [92, 30, 228],
    [136, 20, 176], [160, 20, 100], [152, 34, 32], [120, 60, 0],
    [84, 90, 0], [40, 114, 0], [8, 124, 0], [0, 118, 40],
    [0, 102, 120], [0, 0, 0], [0, 0, 0], [0, 0, 0],
    [236, 238, 236], [76, 154, 236], [120, 124, 236], [176, 98, 236],
    [228, 84, 236], [236, 88, 180], [236, 106, 100], [212, 136, 32],
    [160, 170, 0], [116, 196, 0], [76, 208, 32], [56, 204, 108],
    [56, 180, 204], [60, 60, 60], [0, 0, 0], [0, 0, 0],
    [236, 238, 236], [168, 204, 236], [188, 188, 236], [212, 178, 236],
    [236, 174, 236], [236, 174, 212], [236, 180, 176], [228, 196, 144],
    [204, 210, 120], [180, 222, 120], [168, 226, 144], [52, 226, 180],
    [160, 214, 228], [160, 162, 160], [0, 0, 0], [0, 0, 0],
];

/// Bit `k` of `b`, as 0 or 1.
pub open spec fn bit_at(b: u8, k: u8) -> u8 {
    (b >> k) & 1
}

/// Pixel `p` of tile `t` as the pattern data `chr` defines it. A tile takes
/// 16 bytes: eight rows of the low bit plane, then eight rows of the high
/// one. The pixels of a row run from bit 7 of its two bytes down to bit 0,
/// and each is the bit of the low plane plus twice the bit of the high plane.
pub open spec fn tile_pixel(chr: Seq<u8>, t: int, p: int) -> u8 {
    (bit_at(chr[16 * t + p / 8], (7 - p % 8) as u8) + 2 * bit_at(
        chr[16 * t + 8 + p / 8],
        (7 - p % 8) as u8,
    )) as u8
}

/// The pattern table that the pattern data `chr` defines: its tiles in
/// order, and blank tiles after them.
pub open spec fn pattern_of(chr: Seq<u8>) -> Seq<Seq<u8>> {
    Seq::new(
        PATTERN_LENGTH as nat,
        |t: int|
            Seq::new(
                SPRITE as nat,
                |p: int|
                    if 16 * t + 16 <= chr.len() {
                        tile_pixel(chr, t, p)
                    } else {
                        0u8
                    },
            ),
    )
}

/// The pattern table as sequences.
pub open spec fn pattern_view(pattern: Pattern) -> Seq<Seq<u8>> {
    Seq::new(PATTERN_LENGTH as nat, |t: int| pattern@[t]@)
}

/// Every pixel of the pattern table is a colour index from 0 to 3.
pub open spec fn pattern_wf(pattern: Seq<Seq<u8>>) -> bool {
    &&& pattern.len() == PATTERN_LENGTH
    &&& forall|t: int, p: int|
        0 <= t < PATTERN_LENGTH && 0 <= p < SPRITE ==> (#[trigger] pattern[t][p]) < 4
    &&& forall|t: int| 0 <= t < PATTERN_LENGTH ==> (#[trigger] pattern[t]).len() == SPRITE
}

/// One pixel from its two plane bytes.
fn plane_pixel(low: u8, high: u8, k: u8) -> (b: u8)
    requires
        k < 8,
    ensures
        b == bit_at(low, k) + 2 * bit_at(high, k),
        b < 4,
{
    assert(((low >> k) & 1) <= 1 && ((high >> k) & 1) <= 1) by (bit_vector)
        requires
            k < 8,
    ;
    ((low >> k) & 1) + 2 * ((high >> k) & 1)
}

/// Decodes pattern data into the pattern table.
pub fn parse_sprite(chr: &Vec<u8>) -> (buffer: Pattern)
    requires
        chr@.len() % 16 == 0,
        chr@.len() <= 16 * PATTERN_LENGTH,
    ensures
        pattern_view(buffer) == pattern_of(chr@),
        pattern_wf(pattern_view(buffer)),
{
    let mut buffer: Pattern = [[0u8; SPRITE]; PATTERN_LENGTH];
    let tiles: usize = chr.len() / 16;
    let mut sprite_idx: usize = 0;
    while sprite_idx < tiles
        invariant
            tiles == chr@.len() / 16,
            chr@.len() % 16 == 0,
            tiles <= PATTERN_LENGTH,
            sprite_idx <= tiles,
            forall|t: int, p: int|
                0 <= t < sprite_idx && 0 <= p < SPRITE ==> (#[trigger] buffer@[t]@[p])
                    == tile_pixel(chr@, t, p),
            forall|t: int, p: int|
                sprite_idx <= t < PATTERN_LENGTH && 0 <= p < SPRITE ==> (#[trigger] buffer@[t]@[p])
                    == 0,
            forall|t: int, p: int|
                0 <= t < PATTERN_LENGTH && 0 <= p < SPRITE ==> (#[trigger] buffer@[t]@[p]) < 4,
        decreases tiles - sprite_idx,
    {
        let mut tile: [u8; SPRITE] = [0u8; SPRITE];
        let mut idx: usize = 0;
        while idx < SPRITE
            invariant
                sprite_idx < tiles,
                tiles <= PATTERN_LENGTH,
                tiles == chr@.len() / 16,
                chr@.len() % 16 == 0,
                idx <= SPRITE,
                forall|p: int| 0 <= p < idx ==> (#[trigger] tile@[p]) == tile_pixel(
                    chr@,
                    sprite_idx as int,
                    p,
                ),
                forall|p: int| 0 <= p < SPRITE ==> (#[trigger] tile@[p]) < 4,
            decreases SPRITE - idx,
        {
            let row: usize = idx / SPRITE_SIDE;
            let x: u8 = (7 - idx % SPRITE_SIDE) as u8;
            let pix0 = chr[16 * sprite_idx + row];
            let pix1 = chr[16 * sprite_idx + 8 + row];
            tile[idx] = plane_pixel(pix0, pix1, x);
            idx += 1;
        }
        buffer[sprite_idx] = tile;
        sprite_idx += 1;
    }
    proof {
        assert forall|t: int| 0 <= t < PATTERN_LENGTH implies (#[trigger] pattern_view(buffer)[t])
            =~= pattern_of(chr@)[t] by {
            assert forall|p: int| 0 <= p < SPRITE implies pattern_view(buffer)[t][p] == pattern_of(
                chr@,
            )[t][p] by {
            }
        }
        assert forall|t: int, p: int| 0 <= t < PATTERN_LENGTH && 0 <= p < SPRITE implies (
        #[trigger] pattern_view(buffer)[t][p]) < 4 by {
        }
    }
    buffer
}

/// What the video chip tells its driver when it has been advanced.
#[derive(Clone, Copy, Debug, PartialEq, Eq, Structural)]
pub enum ScanlineEvent {
    /// No scanline ended, or one that asks for nothing.
    Idle,
    /// A band of eight scanlines was drawn into the frame buffer.
    Drawn,
    /// The picture is complete and is to be handed out.
    Flush,
    /// Vertical blank began: the flag is up and an interrupt is due.
    VBlank,
    /// The frame ended and the scanline counter went back to zero.
    Wrap,
}

/// The colour index of the pixel at column `x`, row `y` of the picture: the
/// name table names the tile, the pattern table holds its pixels.
pub open spec fn screen_pixel(pattern: Seq<Seq<u8>>, vram: Seq<u8>, x: int, y: int) -> u8 {
    pattern[vram[NAME_TABLE + (y / 8) * 32 + x / 8] as int][(y % 8) * 8 + x % 8]
}

/// Byte `i` of a frame buffer that shows the picture. The pixels stand row
/// by row, three bytes each: red, green and blue of the pixel's colour.
pub open spec fn shade(pattern: Seq<Seq<u8>>, vram: Seq<u8>, i: int) -> u8 {
    COLOR_PALETTES[screen_pixel(pattern, vram, (i / 3) % 256, i / 768) as int][i % 3]
}

/// Byte `i` of the frame buffer belongs to band `band`.
pub open spec fn in_band(i: int, band: int) -> bool {
    band * BAND_SIZE <= i < (band + 1) * BAND_SIZE
}

/// The frame buffer after band `band` is drawn: the bytes of the band show
/// the picture and the others are as they were.
pub open spec fn draw_band(display: Seq<u8>, band: int, pattern: Seq<Seq<u8>>, vram: Seq<u8>) -> Seq<
    u8,
> {
    Seq::new(
        display.len(),
        |i: int|
            if in_band(i, band) {
                shade(pattern, vram, i)
            } else {
                display[i]
            },
    )
}

/// The video chip's timing and picture, as plain values.
#[verifier::ext_equal]
pub struct Video {
    pub pattern: Seq<Seq<u8>>,
    /// Cycles into the current scanline.
    pub cycle: u32,
    /// The current scanline.
    pub line: u32,
    /// The frame buffer.
    pub display: Seq<u8>,
}

impl Video {
    /// The state at power-on, with the pattern table that `chr` defines.
    pub open spec fn initial(chr: Seq<u8>) -> Video {
        Video {
            pattern: pattern_of(chr),
            cycle: 0,
            line: 0,
            display: Seq::new(DISPLAY_SIZE as nat, |i: int| 0u8),
        }
    }

    /// The pattern table holds colour indices, the scanline is one of the
    /// frame, and the frame buffer has its size.
    pub open spec fn wf(self) -> bool {
        &&& pattern_wf(self.pattern)
        &&& self.line <= LAST_LINE
        &&& self.display.len() == DISPLAY_SIZE
    }

    /// Advancing by `cycle` ends the current scanline.
    pub open spec fn ends_line(self, cycle: u32) -> bool {
        self.cycle + cycle >= LINE_CYCLES
    }

    /// What the chip tells its driver when it is advanced by `cycle`. Only
    /// the end of a scanline is told: of every eighth visible scanline that a
    /// band was drawn, of scanline 240 the flush, of 241 vertical blank, and
    /// of 262 the end of the frame.
    pub open spec fn event(self, cycle: u32) -> ScanlineEvent {
        if !self.ends_line(cycle) {
            ScanlineEvent::Idle
        } else if self.line < FLUSH_LINE && self.line % 8 == 0 {
            ScanlineEvent::Drawn
        } else if self.line == FLUSH_LINE {
            ScanlineEvent::Flush
        } else if self.line == VBLANK_LINE {
            ScanlineEvent::VBlank
        } else if self.line == LAST_LINE {
            ScanlineEvent::Wrap
        } else {
            ScanlineEvent::Idle
        }
    }

    /// The state with the band that holds the current scanline drawn from
    /// video memory `vram`.
    pub open spec fn drawn(self, vram: Seq<u8>) -> Video {
        Video { display: draw_band(self.display, self.line as int / 8, self.pattern, vram), ..self }
    }

    /// The state after the chip is advanced by `cycle`, with video memory
    /// `vram`. The cycles are added to the counter. If that ends the
    /// scanline, the counter is reduced by one scanline and the scanline
    /// counter moves on, from the last scanline back to zero; a band that is
    /// due is drawn.
    pub open spec fn run(self, cycle: u32, vram: Seq<u8>) -> Video {
        if !self.ends_line(cycle) {
            Video { cycle: (self.cycle + cycle) as u32, ..self }
        } else {
            Video {
                cycle: (self.cycle + cycle - LINE_CYCLES) as u32,
                line: if self.line == LAST_LINE {
                    0
                } else {
                    (self.line + 1) as u32
                },
                display: if self.event(cycle) == ScanlineEvent::Drawn {
                    draw_band(self.display, self.line as int / 8, self.pattern, vram)
                } else {
                    self.display
                },
                ..self
            }
        }
    }
}

/// The video registers after the chip is advanced and tells `event`: when
/// vertical blank begins the flag is raised, and otherwise nothing changes.
pub open spec fn registers_after(regs: VideoRegs, event: ScanlineEvent) -> VideoRegs {
    if event == ScanlineEvent::VBlank {
        regs.with_vblank()
    } else {
        regs
    }
}

/// Where the video chip stands in the frame.
#[derive(Clone, Copy, Debug, PartialEq, Eq, Structural)]
pub struct PPUState {
    /// Cycles into the current scanline.
    pub cycle: u32,
    /// The current scanline.
    pub line: u32,
}

impl Default for PPUState {
    fn default() -> (s: PPUState)
        ensures
            s.cycle == 0,
            s.line == 0,
    {
        PPUState { cycle: 0, line: 0 }
    }
}

/// The video chip: the pattern table, the place in the frame, and the frame
/// buffer.
pub struct PPU {
    pattern0: Pattern,
    state: PPUState,
    display: Vec<u8>,
}

impl View for PPU {
    type V = Video;

    closed spec fn view(&self) -> Video {
        Video {
            pattern: pattern_view(self.pattern0),
            cycle: self.state.cycle,
            line: self.state.line,
            display: self.display@,
        }
    }
}

/// The tile column that byte `i` of the frame buffer belongs to.
spec fn tile_column(i: int) -> int {
    ((i / 3) % 256) / 8
}

/// The pixel of its tile that byte `i` of the frame buffer belongs to.
spec fn tile_offset(i: int) -> int {
    ((i / 768) % 8) * 8 + ((i / 3) % 256) % 8
}

/// The place in the frame buffer of pixel `p` of the tile in column `column`
/// of band `band`.
spec fn pixel_place(band: int, column: int, p: int) -> int {
    column * 24 + band * 6144 + (p % 8) * 3 + (p / 8) * 768
}

/// A byte of the frame buffer is found by its band, the row in the band,
/// the tile column, the column in the tile, and the colour channel.
proof fn lemma_byte_digits(i: int)
    requires
        0 <= i < DISPLAY_SIZE,
    ensures
        i == 6144 * ((i / 768) / 8) + 768 * ((i / 768) % 8) + 24 * tile_column(i) + 3 * (((i / 3)
            % 256) % 8) + i % 3,
        0 <= (i / 768) / 8 < 30,
        0 <= (i / 768) % 8 < 8,
        0 <= tile_column(i) < 32,
        0 <= ((i / 3) % 256) % 8 < 8,
        0 <= i % 3 < 3,
        0 <= (i / 3) % 256 < 256,
        (i / 3) % 256 == 8 * tile_column(i) + ((i / 3) % 256) % 8,
        i / 768 == 8 * ((i / 768) / 8) + (i / 768) % 8,
{
    let q = i / 3;
    let k = i % 3;
    let r = q % 256;
    let h = q / 256;
    lemma_fundamental_div_mod(i, 3);
    lemma_fundamental_div_mod(q, 256);
    assert(i == 768 * h + (3 * r + k));
    lemma_fundamental_div_mod_converse(i, 768, h, 3 * r + k);
    lemma_fundamental_div_mod(r, 8);
    lemma_fundamental_div_mod(h, 8);
}

/// The three bytes at the place of a pixel are the bytes of its band that
/// belong to its tile column and to it, and they show that pixel.
proof fn lemma_pixel_place(band: int, column: int, p: int, i: int)
    requires
        0 <= band < 30,
        0 <= column < 32,
        0 <= p < 64,
        0 <= i < DISPLAY_SIZE,
    ensures
        0 <= pixel_place(band, column, p),
        pixel_place(band, column, p) + 3 <= DISPLAY_SIZE,
        (pixel_place(band, column, p) <= i < pixel_place(band, column, p) + 3) <==> (in_band(
            i,
            band,
        ) && tile_column(i) == column && tile_offset(i) == p),
        pixel_place(band, column, p) <= i < pixel_place(band, column, p) + 3 ==> {
            &&& (i / 3) % 256 == column * 8 + p % 8
            &&& i / 768 == band * 8 + p / 8
            &&& i % 3 == i - pixel_place(band, column, p)
        },
{
    lemma_byte_digits(i);
    lemma_fundamental_div_mod(p, 8);
    let b = (i / 768) / 8;
    let py = (i / 768) % 8;
    let c = tile_column(i);
    let px = ((i / 3) % 256) % 8;
    let k = i % 3;
    let o = pixel_place(band, column, p);
    assert(o == band * 6144 + (p / 8) * 768 + column * 24 + (p % 8) * 3);
    assert(i == 6144 * b + 768 * py + 24 * c + 3 * px + k);
    assert(tile_offset(i) == py * 8 + px);
    assert(in_band(i, band) <==> b == band);
    if o <= i < o + 3 {
        assert(b == band);
        assert(py == p / 8);
        assert(c == column);
        assert(px == p % 8);
    }
    if in_band(i, band) && tile_column(i) == column && tile_offset(i) == p {
        assert(py == p / 8 && px == p % 8);
    }
}

impl PPU {
    /// A video chip at power-on with the pattern table that `chr` defines.
    /// Pattern data that is no whole number of tiles, or more than the
    /// pattern table holds, is refused.
    pub fn new(chr: Vec<u8>) -> (r: Result<PPU, FormatError>)
        ensures
            match r {
                Ok(ppu) => {
                    &&& chr@.len() % 16 == 0
                    &&& chr@.len() <= 16 * PATTERN_LENGTH
                    &&& ppu@ == Video::initial(chr@)
                    &&& ppu@.wf()
                },
                Err(e) => {
                    &&& e == FormatError::PatternSize
                    &&& !(chr@.len() % 16 == 0 && chr@.len() <= 16 * PATTERN_LENGTH)
                },
            },
    {
        if chr.len() % 16 != 0 || chr.len() > 16 * PATTERN_LENGTH {
            return Err(FormatError::PatternSize);
        }
        let state = PPUState::default();
        let buffer = parse_sprite(&chr);
        let display: Vec<u8> = vec![0u8; DISPLAY_SIZE];
        let ppu = PPU { pattern0: buffer, state, display };
        Ok(ppu)
    }

    /// Advances the chip by `cycle` cycles of the video clock and tells what
    /// came of it. The cycle counter must have room for them.
    pub fn run(&mut self, cycle: u32, ioc: &mut PPURegister) -> (event: ScanlineEvent)
        requires
            old(self)@.wf(),
            old(self)@.cycle + cycle <= u32::MAX,
        ensures
            final(self)@ == old(self)@.run(cycle, old(ioc)@.vram),
            final(self)@.wf(),
            event == old(self)@.event(cycle),
            final(ioc)@ == registers_after(old(ioc)@, event),
    {
        let line = self.state.line;
        self.state.cycle += cycle;
        if self.state.cycle >= LINE_CYCLES {
            self.state.cycle -= LINE_CYCLES;
            if line == LAST_LINE {
                self.state.line = 0;
                ScanlineEvent::Wrap
            } else if line < FLUSH_LINE && line % 8 == 0 {
                self.sprite_generate(ioc);
                self.state.line = line + 1;
                ScanlineEvent::Drawn
            } else {
                self.state.line = line + 1;
                if line == FLUSH_LINE {
                    ScanlineEvent::Flush
                } else if line == VBLANK_LINE {
                    ioc.set_vblank();
                    ScanlineEvent::VBlank
                } else {
                    ScanlineEvent::Idle
                }
            }
        } else {
            ScanlineEvent::Idle
        }
    }

    /// Reads a register of the chip from its own side, which is not
    /// modelled.
    pub fn read(&self, adr: u8) -> (r: Result<(), Fault>)
        ensures
            r == Err::<(), Fault>(Fault::Unimplemented),
    {
        Err(Fault::Unimplemented)
    }

    /// The pattern table.
    pub fn sprite_flush(&self) -> (pattern: Pattern)
        ensures
            pattern_view(pattern) == self@.pattern,
    {
        self.pattern0
    }

    /// The frame buffer.
    pub fn display(&self) -> (buffer: &Vec<u8>)
        ensures
            buffer@ == self@.display,
    {
        &self.display
    }

    /// Cycles into the current scanline.
    pub fn cycle(&self) -> (cycle: u32)
        ensures
            cycle == self@.cycle,
    {
        self.state.cycle
    }

    /// The current scanline.
    pub fn line(&self) -> (line: u32)
        ensures
            line == self@.line,
    {
        self.state.line
    }

    /// Draws the band of eight scanlines that holds the current scanline
    /// into the frame buffer: each of its tiles is looked up in the name
    /// table and painted from the pattern table.
    pub fn sprite_generate(&mut self, ioc: &PPURegister)
        requires
            old(self)@.wf(),
            old(self)@.line < FLUSH_LINE,
        ensures
            final(self)@ == old(self)@.drawn(ioc@.vram),
            final(self)@.wf(),
    {
        let line: usize = self.state.line as usize / 8usize;
        let ghost before = self.display@;
        let ghost pattern = pattern_view(self.pattern0);
        let ghost target = draw_band(before, line as int, pattern, ioc@.vram);
        let mut idx: usize = 0;
        while idx < DISPLAY_SPRITE_WIDTH
            invariant
                idx <= DISPLAY_SPRITE_WIDTH,
                line < 30,
                before.len() == DISPLAY_SIZE,
                self.display@.len() == DISPLAY_SIZE,
                self.pattern0 == old(self).pattern0,
                self.state == old(self).state,
                pattern == pattern_view(self.pattern0),
                pattern_wf(pattern),
                target == draw_band(before, line as int, pattern, ioc@.vram),
                forall|i: int|
                    0 <= i < DISPLAY_SIZE ==> (#[trigger] self.display@[i]) == (if in_band(
                        i,
                        line as int,
                    ) && tile_column(i) < idx {
                        target[i]
                    } else {
                        before[i]
                    }),
            decreases DISPLAY_SPRITE_WIDTH - idx,
        {
            let sprite_idx: usize = line * DISPLAY_SPRITE_WIDTH + idx;
            let tile = ioc.ppudata.cell(sprite_idx + NAME_TABLE);
            let mut pixel_idx: usize = 0;
            while pixel_idx < SPRITE
                invariant
                    idx < DISPLAY_SPRITE_WIDTH,
                    pixel_idx <= SPRITE,
                    line < 30,
                    sprite_idx == line * DISPLAY_SPRITE_WIDTH + idx,
                    tile == ioc@.vram[NAME_TABLE + sprite_idx],
                    before.len() == DISPLAY_SIZE,
                    self.display@.len() == DISPLAY_SIZE,
                    self.pattern0 == old(self).pattern0,
                    self.state == old(self).state,
                    pattern == pattern_view(self.pattern0),
                    pattern_wf(pattern),
                    target == draw_band(before, line as int, pattern, ioc@.vram),
                    forall|i: int|
                        0 <= i < DISPLAY_SIZE ==> (#[trigger] self.display@[i]) == (if in_band(
                            i,
                            line as int,
                        ) && (tile_column(i) < idx || (tile_column(i) == idx && tile_offset(i)
                            < pixel_idx)) {
                            target[i]
                        } else {
                            before[i]
                        }),
                decreases SPRITE - pixel_idx,
            {
                let pixel = self.pattern0[tile as usize][pixel_idx];
                let pixel_x_idx: usize = pixel_idx % SPRITE_SIDE;
                let pixel_y_idx: usize = pixel_idx / SPRITE_SIDE;
                let offset: usize = idx * SPRITE_SIDE * 3 + line * 3 * 256 * 8 + pixel_x_idx * 3
                    + pixel_y_idx * 3 * SPRITE_SIDE * DISPLAY_SPRITE_WIDTH;
                proof {
                    assert(pixel == pattern[tile as int][pixel_idx as int]);
                    lemma_pixel_place(line as int, idx as int, pixel_idx as int, offset as int);
                }
                let color = COLOR_PALETTES[pixel as usize];
                self.display[offset] = color[0];
                self.display[offset + 1] = color[1];
                self.display[offset + 2] = color[2];
                proof {
                    assert forall|i: int| 0 <= i < DISPLAY_SIZE implies (
                    #[trigger] self.display@[i]) == (if in_band(i, line as int) && (tile_column(i)
                        < idx || (tile_column(i) == idx && tile_offset(i) < pixel_idx + 1)) {
                        target[i]
                    } else {
                        before[i]
                    }) by {
                        lemma_pixel_place(line as int, idx as int, pixel_idx as int, i);
                    }
                }
                pixel_idx += 1;
            }
            idx += 1;
        }
    }
}

/// The place in the frame buffer of colour channel `k` of the pixel at
/// column `x`, row `y`.
pub open spec fn channel_place(x: int, y: int, k: int) -> int {
    (y * 256 + x) * 3 + k
}

/// After a band is drawn, each pixel of its eight scanlines shows, as red,
/// green and blue, the colour that the system palette holds for the pixel's
/// colour index; the frame buffer keeps its size and the bytes of the other
/// bands.
pub proof fn lemma_draw_band(
    display: Seq<u8>,
    band: int,
    pattern: Seq<Seq<u8>>,
    vram: Seq<u8>,
    x: int,
    y: int,
    k: int,
)
    requires
        display.len() == DISPLAY_SIZE,
        0 <= band < 30,
        0 <= x < 256,
        0 <= y < 240,
        0 <= k < 3,
    ensures
        draw_band(display, band, pattern, vram).len() == DISPLAY_SIZE,
        0 <= channel_place(x, y, k) < DISPLAY_SIZE,
        y / 8 == band ==> draw_band(display, band, pattern, vram)[channel_place(x, y, k)]
            == COLOR_PALETTES[screen_pixel(pattern, vram, x, y) as int][k],
        y / 8 != band ==> draw_band(display, band, pattern, vram)[channel_place(x, y, k)]
            == display[channel_place(x, y, k)],
{
    let i = channel_place(x, y, k);
    lemma_fundamental_div_mod_converse(i, 3, y * 256 + x, k);
    lemma_fundamental_div_mod_converse(y * 256 + x, 256, y, x);
    lemma_fundamental_div_mod_converse(i, 768, y, 3 * x + k);
    lemma_fundamental_div_mod(y, 8);
    assert(in_band(i, band) <==> y / 8 == band);
}

/// Advanced by no more than one scanline at a time, the chip stays within a
/// scanline and within the frame: the cycle counter grows until it reaches a
/// scanline's length and then starts again less that length, and the scanline
/// counter moves on by one, from the last scanline back to zero. The pattern
/// table never changes.
pub proof fn lemma_run_timing(v: Video, cycle: u32, vram: Seq<u8>)
    requires
        v.wf(),
        v.cycle < LINE_CYCLES,
        cycle <= LINE_CYCLES,
    ensures
        v.run(cycle, vram).wf(),
        v.run(cycle, vram).cycle < LINE_CYCLES,
        v.run(cycle, vram).pattern == v.pattern,
        (v.run(cycle, vram).line * LINE_CYCLES + v.run(cycle, vram).cycle) == (v.line
            * LINE_CYCLES + v.cycle + cycle) % (LINE_CYCLES * (LAST_LINE + 1)),
        v.event(cycle) != ScanlineEvent::Drawn ==> v.run(cycle, vram).display == v.display,
{
    let total = v.line * LINE_CYCLES + v.cycle + cycle;
    let period = LINE_CYCLES * (LAST_LINE + 1);
    let after = v.run(cycle, vram);
    if total < period {
        lemma_fundamental_div_mod_converse(total as int, period as int, 0, total as int);
    } else {
        lemma_fundamental_div_mod_converse(
            total as int,
            period as int,
            1,
            total as int - period as int,
        );
    }
}

} // verus!
