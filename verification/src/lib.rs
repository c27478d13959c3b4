//! Core of an emulator for an 8-bit home console: the processor, the address
//! bus in front of it, and the timing and register model of the video chip.
//!
//! Every executable function states, over a mathematical view of the machine,
//! exactly which state it leaves behind and what it returns; the conditions
//! that stop the machine are returned as values and never raised as panics.

pub mod arch;
pub mod parser;
pub mod ui;

use vstd::prelude::*;

verus! {

/// Side of a tile, in pixels.
pub const SPRITE_SIDE: usize = 8;

/// Pixels of a tile.
pub const SPRITE: usize = 64;

/// Tiles of the pattern table.
pub const PATTERN_LENGTH: usize = 0x200;

/// Bytes of the frame buffer: three for each pixel of the picture.
pub const DISPLAY_SIZE: usize = 184_320;

/// Tiles in a row of the picture.
pub const DISPLAY_SPRITE_WIDTH: usize = 32;

/// Height of the picture, in pixels.
pub const DISPLAY_HEIGHT: usize = 240;

/// Width of the picture, in pixels.
pub const DISPLAY_WIDTH: usize = 256;

} // verus!
