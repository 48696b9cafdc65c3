//! The built-in hexadecimal font.

use vstd::prelude::*;

verus! {

/// Bytes per glyph.
pub const GLYPH_SIZE: usize = 5;

/// Bytes in the whole font: sixteen glyphs.
pub const FONTSET_SIZE: usize = 80;

/// The sixteen glyphs `0` to `F`, five bytes each, in order. Each byte is one
/// row of the glyph, its four high bits the pixels.
pub const FONTSET: [u8; FONTSET_SIZE] = [
    0xF0, 0x90, 0x90, 0x90, 0xF0,
    0x20, 0x60, 0x20, 0x20, 0x70,
    0xF0, 0x10, 0xF0, 0x80, 0xF0,
    0xF0, 0x10, 0xF0, 0x10, 0xF0,
    0x90, 0x90, 0xF0, 0x10, 0x10,
    0xF0, 0x80, 0xF0, 0x10, 0xF0,
    0xF0, 0x80, 0xF0, 0x90, 0xF0,
    0xF0, 0x10, 0x20, 0x40, 0x40,
    0xF0, 0x90, 0xF0, 0x90, 0xF0,
    0xF0, 0x90, 0xF0, 0x10, 0xF0,
    0xF0, 0x90, 0xF0, 0x90, 0x90,
    0xE0, 0x90, 0xE0, 0x90, 0xE0,
    0xF0, 0x80, 0x80, 0x80, 0xF0,
    0xE0, 0x90, 0x90, 0x90, 0xE0,
    0xF0, 0x80, 0xF0, 0x80, 0xF0,
    0xF0, 0x80, 0xF0, 0x80, 0x80,
];

/// Address in memory of the first byte of the glyph for `digit`.
pub open spec fn glyph_address(digit: int) -> int {
    digit * 5
}

} // verus!
