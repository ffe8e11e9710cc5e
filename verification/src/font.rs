//! The interpreter's font: 16 glyphs of 5 bytes each, one per hexadecimal
//! digit, held at addresses 0x50..0xA0 of every machine.

use vstd::prelude::*;

verus! {

/// Byte `i` of the 80-byte font table: glyph `i / 5`, row `i % 5`.
pub open spec fn font_byte(i: int) -> u8 {
    let d = i / 5;
    let j = i % 5;
    if d == 0 { if j == 0 { 0xF0 } else if j == 1 { 0x90 } else if j == 2 { 0x90 } else if j == 3 { 0x90 } else { 0xF0 } }
    else if d == 1 { if j == 0 { 0x20 } else if j == 1 { 0x60 } else if j == 2 { 0x20 } else if j == 3 { 0x20 } else { 0x70 } }
    else if d == 2 { if j == 0 { 0xF0 } else if j == 1 { 0x10 } else if j == 2 { 0xF0 } else if j == 3 { 0x80 } else { 0xF0 } }
    else if d == 3 { if j == 0 { 0xF0 } else if j == 1 { 0x10 } else if j == 2 { 0xF0 } else if j == 3 { 0x10 } else { 0xF0 } }
    else if d == 4 { if j == 0 { 0x90 } else if j == 1 { 0x90 } else if j == 2 { 0xF0 } else if j == 3 { 0x10 } else { 0x10 } }
    else if d == 5 { if j == 0 { 0xF0 } else if j == 1 { 0x80 } else if j == 2 { 0xF0 } else if j == 3 { 0x10 } else { 0xF0 } }
    else if d == 6 { if j == 0 { 0xF0 } else if j == 1 { 0x80 } else if j == 2 { 0xF0 } else if j == 3 { 0x90 } else { 0xF0 } }
    else if d == 7 { if j == 0 { 0xF0 } else if j == 1 { 0x10 } else if j == 2 { 0x20 } else if j == 3 { 0x40 } else { 0x40 } }
    else if d == 8 { if j == 0 { 0xF0 } else if j == 1 { 0x90 } else if j == 2 { 0xF0 } else if j == 3 { 0x90 } else { 0xF0 } }
    else if d == 9 { if j == 0 { 0xF0 } else if j == 1 { 0x90 } else if j == 2 { 0xF0 } else if j == 3 { 0x10 } else { 0xF0 } }
    else if d == 10 { if j == 0 { 0xF0 } else if j == 1 { 0x90 } else if j == 2 { 0xF0 } else if j == 3 { 0x90 } else { 0x90 } }
    else if d == 11 { if j == 0 { 0xE0 } else if j == 1 { 0x90 } else if j == 2 { 0xE0 } else if j == 3 { 0x90 } else { 0xE0 } }
    else if d == 12 { if j == 0 { 0xF0 } else if j == 1 { 0x80 } else if j == 2 { 0x80 } else if j == 3 { 0x80 } else { 0xF0 } }
    else if d == 13 { if j == 0 { 0xE0 } else if j == 1 { 0x90 } else if j == 2 { 0x90 } else if j == 3 { 0x90 } else { 0xE0 } }
    else if d == 14 { if j == 0 { 0xF0 } else if j == 1 { 0x80 } else if j == 2 { 0xF0 } else if j == 3 { 0x80 } else { 0xF0 } }
    else if d == 15 { if j == 0 { 0xF0 } else if j == 1 { 0x80 } else if j == 2 { 0xF0 } else if j == 3 { 0x80 } else { 0x80 } }
    else { 0 }
}

/// Reads byte `i` of the font table.
pub fn font_byte_at(i: usize) -> (b: u8)
    requires
        i < 80,
    ensures
        b == font_byte(i as int),
{
    let d = i / 5;
    let j = i % 5;
    if d == 0 { if j == 0 { 0xF0 } else if j == 1 { 0x90 } else if j == 2 { 0x90 } else if j == 3 { 0x90 } else { 0xF0 } }
    else if d == 1 { if j == 0 { 0x20 } else if j == 1 { 0x60 } else if j == 2 { 0x20 } else if j == 3 { 0x20 } else { 0x70 } }
    else if d == 2 { if j == 0 { 0xF0 } else if j == 1 { 0x10 } else if j == 2 { 0xF0 } else if j == 3 { 0x80 } else { 0xF0 } }
    else if d == 3 { if j == 0 { 0xF0 } else if j == 1 { 0x10 } else if j == 2 { 0xF0 } else if j == 3 { 0x10 } else { 0xF0 } }
    else if d == 4 { if j == 0 { 0x90 } else if j == 1 { 0x90 } else if j == 2 { 0xF0 } else if j == 3 { 0x10 } else { 0x10 } }
    else if d == 5 { if j == 0 { 0xF0 } else if j == 1 { 0x80 } else if j == 2 { 0xF0 } else if j == 3 { 0x10 } else { 0xF0 } }
    else if d == 6 { if j == 0 { 0xF0 } else if j == 1 { 0x80 } else if j == 2 { 0xF0 } else if j == 3 { 0x90 } else { 0xF0 } }
    else if d == 7 { if j == 0 { 0xF0 } else if j == 1 { 0x10 } else if j == 2 { 0x20 } else if j == 3 { 0x40 } else { 0x40 } }
    else if d == 8 { if j == 0 { 0xF0 } else if j == 1 { 0x90 } else if j == 2 { 0xF0 } else if j == 3 { 0x90 } else { 0xF0 } }
    else if d == 9 { if j == 0 { 0xF0 } else if j == 1 { 0x90 } else if j == 2 { 0xF0 } else if j == 3 { 0x10 } else { 0xF0 } }
    else if d == 10 { if j == 0 { 0xF0 } else if j == 1 { 0x90 } else if j == 2 { 0xF0 } else if j == 3 { 0x90 } else { 0x90 } }
    else if d == 11 { if j == 0 { 0xE0 } else if j == 1 { 0x90 } else if j == 2 { 0xE0 } else if j == 3 { 0x90 } else { 0xE0 } }
    else if d == 12 { if j == 0 { 0xF0 } else if j == 1 { 0x80 } else if j == 2 { 0x80 } else if j == 3 { 0x80 } else { 0xF0 } }
    else if d == 13 { if j == 0 { 0xE0 } else if j == 1 { 0x90 } else if j == 2 { 0x90 } else if j == 3 { 0x90 } else { 0xE0 } }
    else if d == 14 { if j == 0 { 0xF0 } else if j == 1 { 0x80 } else if j == 2 { 0xF0 } else if j == 3 { 0x80 } else { 0xF0 } }
    else if d == 15 { if j == 0 { 0xF0 } else if j == 1 { 0x80 } else if j == 2 { 0xF0 } else if j == 3 { 0x80 } else { 0x80 } }
    else { 0 }
}

} // verus!
