//! The glyph table: a proportional font, five rows high.

use vstd::prelude::*;

verus! {

/// Number of glyphs in [`FONT`]: one for each printable ASCII character and
/// the fallback glyph.
pub const GLYPH_COUNT: usize = 96;

/// Index in [`FONT`] of the glyph that stands for every character without a
/// glyph of its own: a hollow box, four columns wide.
pub const FALLBACK_GLYPH: usize = 95;

/// Width of the widest glyph, in columns.
pub const MAX_GLYPH_WIDTH: usize = 5;

/// For each display column, the bit of a row pattern that holds it.
pub const COLUMN_BITS: [u8; 5] = [0b10000, 0b01000, 0b00100, 0b00010, 0b00001];

/// The glyphs, in the order of the character codes from the space to the
/// tilde, then the fallback glyph. An entry holds the glyph's width in columns
/// and its five row patterns from top to bottom; in a pattern the leftmost
/// column is the bit of value 16, and the columns beyond the width are off.
pub const FONT: [[u8; 6]; 96] = [
    [3, 0b00000, 0b00000, 0b00000, 0b00000, 0b00000],  // space
    [1, 0b10000, 0b10000, 0b10000, 0b00000, 0b10000],  // !
    [3, 0b10100, 0b10100, 0b00000, 0b00000, 0b00000],  // "
    [5, 0b01010, 0b11111, 0b01010, 0b11111, 0b01010],  // #
    [4, 0b01110, 0b11000, 0b01100, 0b00110, 0b11100],  // $
    [5, 0b11001, 0b11010, 0b00100, 0b01011, 0b10011],  // %
    [5, 0b01100, 0b10010, 0b01101, 0b10010, 0b01101],  // &
    [1, 0b10000, 0b10000, 0b00000, 0b00000, 0b00000],  // apostrophe
    [2, 0b01000, 0b10000, 0b10000, 0b10000, 0b01000],  // (
    [2, 0b10000, 0b01000, 0b01000, 0b01000, 0b10000],  // )
    [3, 0b10100, 0b01000, 0b10100, 0b00000, 0b00000],  // *
    [3, 0b00000, 0b01000, 0b11100, 0b01000, 0b00000],  // +
    [2, 0b00000, 0b00000, 0b00000, 0b01000, 0b10000],  // ,
    [3, 0b00000, 0b00000, 0b11100, 0b00000, 0b00000],  // -
    [1, 0b00000, 0b00000, 0b00000, 0b00000, 0b10000],  // .
    [3, 0b00100, 0b00100, 0b01000, 0b10000, 0b10000],  // /
    [4, 0b01100, 0b10010, 0b10010, 0b10010, 0b01100],  // 0
    [3, 0b01000, 0b11000, 0b01000, 0b01000, 0b11100],  // 1
    [4, 0b11100, 0b00010, 0b01100, 0b10000, 0b11110],  // 2
    [4, 0b11100, 0b00010, 0b01100, 0b00010, 0b11100],  // 3
    [4, 0b10010, 0b10010, 0b11110, 0b00010, 0b00010],  // 4
    [4, 0b11110, 0b10000, 0b11100, 0b00010, 0b11100],  // 5
    [4, 0b01100, 0b10000, 0b11100, 0b10010, 0b01100],  // 6
    [4, 0b11110, 0b00010, 0b00100, 0b01000, 0b01000],  // 7
    [4, 0b01100, 0b10010, 0b01100, 0b10010, 0b01100],  // 8
    [4, 0b01100, 0b10010, 0b01110, 0b00010, 0b01100],  // 9
    [1, 0b00000, 0b10000, 0b00000, 0b10000, 0b00000],  // :
    [2, 0b00000, 0b01000, 0b00000, 0b01000, 0b10000],  // ;
    [3, 0b00100, 0b01000, 0b10000, 0b01000, 0b00100],  // <
    [3, 0b00000, 0b11100, 0b00000, 0b11100, 0b00000],  // =
    [3, 0b10000, 0b01000, 0b00100, 0b01000, 0b10000],  // >
    [4, 0b11100, 0b00010, 0b01100, 0b00000, 0b01000],  // ?
    [5, 0b01110, 0b10001, 0b10111, 0b10101, 0b01110],  // @
    [4, 0b01100, 0b10010, 0b11110, 0b10010, 0b10010],  // A
    [4, 0b11100, 0b10010, 0b11100, 0b10010, 0b11100],  // B
    [4, 0b01110, 0b10000, 0b10000, 0b10000, 0b01110],  // C
    [4, 0b11100, 0b10010, 0b10010, 0b10010, 0b11100],  // D
    [4, 0b11110, 0b10000, 0b11100, 0b10000, 0b11110],  // E
    [4, 0b11110, 0b10000, 0b11100, 0b10000, 0b10000],  // F
    [4, 0b01110, 0b10000, 0b10110, 0b10010, 0b01110],  // G
    [4, 0b10010, 0b10010, 0b11110, 0b10010, 0b10010],  // H
    [3, 0b11100, 0b01000, 0b01000, 0b01000, 0b11100],  // I
    [4, 0b00110, 0b00010, 0b00010, 0b10010, 0b01100],  // J
    [4, 0b10010, 0b10100, 0b11000, 0b10100, 0b10010],  // K
    [4, 0b10000, 0b10000, 0b10000, 0b10000, 0b11110],  // L
    [5, 0b10001, 0b11011, 0b10101, 0b10001, 0b10001],  // M
    [4, 0b10010, 0b11010, 0b10110, 0b10010, 0b10010],  // N
    [4, 0b01100, 0b10010, 0b10010, 0b10010, 0b01100],  // O
    [4, 0b11100, 0b10010, 0b11100, 0b10000, 0b10000],  // P
    [4, 0b01100, 0b10010, 0b10010, 0b10100, 0b01010],  // Q
    [4, 0b11100, 0b10010, 0b11100, 0b10100, 0b10010],  // R
    [4, 0b01110, 0b10000, 0b01100, 0b00010, 0b11100],  // S
    [3, 0b11100, 0b01000, 0b01000, 0b01000, 0b01000],  // T
    [4, 0b10010, 0b10010, 0b10010, 0b10010, 0b01100],  // U
    [5, 0b10001, 0b10001, 0b10001, 0b01010, 0b00100],  // V
    [5, 0b10001, 0b10001, 0b10101, 0b11011, 0b10001],  // W
    [4, 0b10010, 0b10010, 0b01100, 0b10010, 0b10010],  // X
    [5, 0b10001, 0b01010, 0b00100, 0b00100, 0b00100],  // Y
    [4, 0b11110, 0b00010, 0b01100, 0b10000, 0b11110],  // Z
    [2, 0b11000, 0b10000, 0b10000, 0b10000, 0b11000],  // [
    [3, 0b10000, 0b10000, 0b01000, 0b00100, 0b00100],  // backslash
    [2, 0b11000, 0b01000, 0b01000, 0b01000, 0b11000],  // ]
    [3, 0b01000, 0b10100, 0b00000, 0b00000, 0b00000],  // ^
    [4, 0b00000, 0b00000, 0b00000, 0b00000, 0b11110],  // _
    [2, 0b10000, 0b01000, 0b00000, 0b00000, 0b00000],  // `
    [4, 0b00000, 0b01110, 0b10010, 0b10010, 0b01110],  // a
    [4, 0b10000, 0b11100, 0b10010, 0b10010, 0b11100],  // b
    [3, 0b00000, 0b01100, 0b10000, 0b10000, 0b01100],  // c
    [4, 0b00010, 0b01110, 0b10010, 0b10010, 0b01110],  // d
    [4, 0b01100, 0b10010, 0b11110, 0b10000, 0b01110],  // e
    [3, 0b01100, 0b10000, 0b11100, 0b10000, 0b10000],  // f
    [4, 0b01110, 0b10010, 0b01110, 0b00010, 0b01100],  // g
    [4, 0b10000, 0b11100, 0b10010, 0b10010, 0b10010],  // h
    [1, 0b10000, 0b00000, 0b10000, 0b10000, 0b10000],  // i
    [2, 0b01000, 0b00000, 0b01000, 0b01000, 0b10000],  // j
    [3, 0b10000, 0b10100, 0b11000, 0b10100, 0b10100],  // k
    [2, 0b10000, 0b10000, 0b10000, 0b10000, 0b01000],  // l
    [5, 0b00000, 0b11010, 0b10101, 0b10101, 0b10101],  // m
    [4, 0b00000, 0b11100, 0b10010, 0b10010, 0b10010],  // n
    [4, 0b00000, 0b01100, 0b10010, 0b10010, 0b01100],  // o
    [4, 0b00000, 0b11100, 0b10010, 0b11100, 0b10000],  // p
    [4, 0b00000, 0b01110, 0b10010, 0b01110, 0b00010],  // q
    [3, 0b00000, 0b10100, 0b11000, 0b10000, 0b10000],  // r
    [3, 0b01100, 0b10000, 0b01000, 0b00100, 0b11000],  // s
    [3, 0b01000, 0b11100, 0b01000, 0b01000, 0b00100],  // t
    [4, 0b00000, 0b10010, 0b10010, 0b10010, 0b01110],  // u
    [3, 0b00000, 0b10100, 0b10100, 0b10100, 0b01000],  // v
    [5, 0b00000, 0b10001, 0b10101, 0b10101, 0b01010],  // w
    [3, 0b00000, 0b10100, 0b01000, 0b10100, 0b00000],  // x
    [4, 0b10010, 0b10010, 0b01110, 0b00010, 0b01100],  // y
    [3, 0b00000, 0b11100, 0b01000, 0b10000, 0b11100],  // z
    [3, 0b01100, 0b01000, 0b10000, 0b01000, 0b01100],  // {
    [1, 0b10000, 0b10000, 0b10000, 0b10000, 0b10000],  // |
    [3, 0b11000, 0b01000, 0b00100, 0b01000, 0b11000],  // }
    [4, 0b00000, 0b01010, 0b10100, 0b00000, 0b00000],  // ~
    [4, 0b11110, 0b10010, 0b10010, 0b10010, 0b11110],  // fallback box
];

/// The index in [`FONT`] of the glyph of `c`: its own for a printable ASCII
/// character, the fallback for any other.
pub open spec fn glyph_index(c: char) -> int {
    if ' ' <= c <= '~' {
        c as int - 0x20
    } else {
        FALLBACK_GLYPH as int
    }
}

/// The width of the glyph of `c`, in columns.
pub open spec fn glyph_width(c: char) -> int {
    FONT[glyph_index(c)][0] as int
}

/// Whether the glyph of `c` is lit at (`row`, `col`). Outside the glyph
/// nothing is lit.
pub open spec fn glyph_pixel(c: char, row: int, col: int) -> bool {
    &&& 0 <= row < 5
    &&& 0 <= col < glyph_width(c)
    &&& FONT[glyph_index(c)][1 + row] & COLUMN_BITS[col] != 0
}

/// Every glyph is at least one column wide and at most five.
pub proof fn lemma_glyph_width_bounds(c: char)
    ensures
        1 <= glyph_width(c) <= MAX_GLYPH_WIDTH,
{
}

/// Looks up the glyph of a character.
pub fn glyph_of(c: char) -> (index: usize)
    ensures
        index == glyph_index(c),
        index < GLYPH_COUNT,
{
    if ' ' <= c && c <= '~' {
        (c as u32 - 0x20) as usize
    } else {
        FALLBACK_GLYPH
    }
}

/// The width in columns of the glyph of a character.
pub fn width_of(c: char) -> (width: usize)
    ensures
        width == glyph_width(c),
        1 <= width <= MAX_GLYPH_WIDTH,
{
    proof {
        lemma_glyph_width_bounds(c);
    }
    FONT[glyph_of(c)][0] as usize
}

/// Whether the glyph of a character is lit at (`row`, `col`).
pub fn pixel_of(c: char, row: usize, col: usize) -> (lit: bool)
    requires
        row < 5,
    ensures
        lit == glyph_pixel(c, row as int, col as int),
{
    let index = glyph_of(c);
    if col < FONT[index][0] as usize {
        proof {
            lemma_glyph_width_bounds(c);
        }
        FONT[index][1 + row] & COLUMN_BITS[col] != 0
    } else {
        false
    }
}

} // verus!
