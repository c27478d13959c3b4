//! A sheet that shows every tile of the pattern table.

use crate::arch::ppu::{pattern_view, pattern_wf, Pattern};
use crate::{PATTERN_LENGTH, SPRITE, SPRITE_SIDE};
use vstd::arithmetic::div_mod::{lemma_fundamental_div_mod, lemma_fundamental_div_mod_converse};
use vstd::prelude::*;

verus! {

/// Width of the sheet that shows the pattern table, in pixels.
pub const TEXTURE_WIDTH: usize = 128;

/// Height of the sheet, in pixels.
pub const TEXTURE_HEIGHT: usize = 340;

/// Bytes of the sheet: three for each pixel.
pub const TEXTURE_SIZE: usize = 130_560;

/// Bytes of the sheet that tiles cover: 32 rows of 16 tiles.
pub const SHEET_SIZE: usize = 98_304;

/// Tiles in a row of the sheet.
pub const SHEET_WIDTH: usize = 16;

/// The colours that stand for the four colour indices, each as red, green,
/// blue.
pub const SHEET_COLORS: [[u8; 3]; 4] = [
    [0x00, 0x00, 0x00],
    [0xCF, 0x29, 0x50],
    [0xFF, 0xFF, 0xFF],
    [0x99, 0xFF, 0xFC],
];

/// The tile that byte `i` of the sheet belongs to. The tiles stand in rows
/// of 16, in the order of the pattern table.
pub open spec fn sheet_tile(i: int) -> int {
    ((i / 384) / 8) * 16 + ((i / 3) % 128) / 8
}

/// The pixel of its tile that byte `i` of the sheet belongs to.
pub open spec fn sheet_pixel(i: int) -> int {
    ((i / 384) % 8) * 8 + ((i / 3) % 128) % 8
}

/// The sheet that shows the pattern table: where tiles stand, each pixel
/// holds the colour of its colour index, and the rest is black.
pub open spec fn sheet(pattern: Seq<Seq<u8>>) -> Seq<u8> {
    Seq::new(
        TEXTURE_SIZE as nat,
        |i: int|
            if i < SHEET_SIZE {
                SHEET_COLORS[pattern[sheet_tile(i)][sheet_pixel(i)] as int][i % 3]
            } else {
                0u8
            },
    )
}

/// The place in the sheet of pixel `p` of tile `t`.
spec fn sheet_place(t: int, p: int) -> int {
    ((t % 16) * 8 + (t / 16) * 1024 + p % 8 + (p / 8) * 128) * 3
}

/// The three bytes at the place of a pixel are the bytes of the sheet that
/// belong to its tile and to it.
proof fn lemma_sheet_place(t: int, p: int, i: int)
    requires
        0 <= t < PATTERN_LENGTH,
        0 <= p < SPRITE,
        0 <= i < TEXTURE_SIZE,
    ensures
        0 <= sheet_place(t, p),
        sheet_place(t, p) + 3 <= SHEET_SIZE,
        (sheet_place(t, p) <= i < sheet_place(t, p) + 3) <==> (i < SHEET_SIZE && sheet_tile(i) == t
            && sheet_pixel(i) == p),
        sheet_place(t, p) <= i < sheet_place(t, p) + 3 ==> i % 3 == i - sheet_place(t, p),
{
    let q = i / 3;
    let k = i % 3;
    let x = q % 128;
    let y = q / 128;
    lemma_fundamental_div_mod(i, 3);
    lemma_fundamental_div_mod(q, 128);
    assert(i == 384 * y + (3 * x + k));
    lemma_fundamental_div_mod_converse(i, 384, y, 3 * x + k);
    lemma_fundamental_div_mod(x, 8);
    lemma_fundamental_div_mod(y, 8);
    lemma_fundamental_div_mod(p, 8);
    lemma_fundamental_div_mod(t, 16);
    let sx = x / 8;
    let px = x % 8;
    let sy = y / 8;
    let py = y % 8;
    let o = sheet_place(t, p);
    assert(o == 3072 * (t / 16) + 384 * (p / 8) + 24 * (t % 16) + 3 * (p % 8));
    assert(i == 3072 * sy + 384 * py + 24 * sx + 3 * px + k);
    assert(sheet_tile(i) == sy * 16 + sx);
    assert(sheet_pixel(i) == py * 8 + px);
    if o <= i < o + 3 {
        assert(sy == t / 16);
        assert(py == p / 8);
        assert(sx == t % 16);
        assert(px == p % 8);
    }
    if i < SHEET_SIZE && sheet_tile(i) == t && sheet_pixel(i) == p {
        assert(sy == t / 16 && sx == t % 16);
        assert(py == p / 8 && px == p % 8);
    }
}

/// Paints the pattern table on a sheet of 128 by 340 pixels, 16 tiles to the
/// row, and returns the sheet's bytes, three for each pixel.
pub fn generate_sprites(chr: &Pattern) -> (buffer: Vec<u8>)
    requires
        pattern_wf(pattern_view(*chr)),
    ensures
        buffer@ == sheet(pattern_view(*chr)),
{
    let mut buffer: Vec<u8> = vec![0u8; TEXTURE_SIZE];
    let ghost pattern = pattern_view(*chr);
    let ghost target = sheet(pattern);
    let mut sprite_idx: usize = 0;
    while sprite_idx < PATTERN_LENGTH
        invariant
            sprite_idx <= PATTERN_LENGTH,
            buffer@.len() == TEXTURE_SIZE,
            pattern == pattern_view(*chr),
            pattern_wf(pattern),
            target == sheet(pattern),
            forall|i: int|
                0 <= i < TEXTURE_SIZE ==> (#[trigger] buffer@[i]) == (if i < SHEET_SIZE
                    && sheet_tile(i) < sprite_idx {
                    target[i]
                } else {
                    0u8
                }),
        decreases PATTERN_LENGTH - sprite_idx,
    {
        let mut idx: usize = 0;
        while idx < SPRITE
            invariant
                sprite_idx < PATTERN_LENGTH,
                idx <= SPRITE,
                buffer@.len() == TEXTURE_SIZE,
                pattern == pattern_view(*chr),
                pattern_wf(pattern),
                target == sheet(pattern),
                forall|i: int|
                    0 <= i < TEXTURE_SIZE ==> (#[trigger] buffer@[i]) == (if i < SHEET_SIZE && (
                    sheet_tile(i) < sprite_idx || (sheet_tile(i) == sprite_idx && sheet_pixel(i)
                        < idx)) {
                        target[i]
                    } else {
                        0u8
                    }),
            decreases SPRITE - idx,
        {
            let pixel = chr[sprite_idx][idx];
            let sprite_x_idx: usize = sprite_idx % SHEET_WIDTH;
            let sprite_y_idx: usize = sprite_idx / SHEET_WIDTH;
            let pixel_x_idx: usize = idx % SPRITE_SIDE;
            let pixel_y_idx: usize = idx / SPRITE_SIDE;
            let offset: usize = (sprite_x_idx * SPRITE_SIDE + sprite_y_idx * TEXTURE_WIDTH
                * SPRITE_SIDE + pixel_x_idx + pixel_y_idx * TEXTURE_WIDTH) * 3;
            proof {
                assert(pixel == pattern[sprite_idx as int][idx as int]);
                lemma_sheet_place(sprite_idx as int, idx as int, offset as int);
            }
            let color = SHEET_COLORS[pixel as usize];
            buffer[offset] = color[0];
            buffer[offset + 1] = color[1];
            buffer[offset + 2] = color[2];
            proof {
                assert forall|i: int| 0 <= i < TEXTURE_SIZE implies (#[trigger] buffer@[i]) == (
                if i < SHEET_SIZE && (sheet_tile(i) < sprite_idx || (sheet_tile(i) == sprite_idx
                    && sheet_pixel(i) < idx + 1)) {
                    target[i]
                } else {
                    0u8
                }) by {
                    lemma_sheet_place(sprite_idx as int, idx as int, i);
                }
            }
            idx += 1;
        }
        sprite_idx += 1;
    }
    proof {
        assert forall|i: int| 0 <= i < TEXTURE_SIZE implies buffer@[i] == target[i] by {
            if i < SHEET_SIZE {
                let q = i / 3;
                lemma_fundamental_div_mod(i, 3);
                lemma_fundamental_div_mod(q, 128);
                lemma_fundamental_div_mod_converse(i, 384, q / 128, 3 * (q % 128) + i % 3);
                lemma_fundamental_div_mod(q % 128, 8);
                lemma_fundamental_div_mod(q / 128, 8);
            }
        }
    }
    buffer
}

} // verus!
