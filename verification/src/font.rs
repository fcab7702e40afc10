//! The 7x7 pixel font.
//!
//! A glyph occupies one 8x8 cell and is held as eight column bytes, left to
//! right. Within a column byte, bit 0 is the top pixel row. This module is the
//! mathematical statement of the font: which columns belong to which character.

use vstd::prelude::*;

verus! {

/// The glyph with no pixel set: eight zero columns.
pub open spec fn blank_glyph() -> Seq<u8> {
    seq![0x00u8, 0x00, 0x00, 0x00, 0x00, 0x00, 0x00, 0x00]
}

/// Whether the font draws `c`: the characters from `'!'` to `'}'`. Every other
/// character, the space and `'~'` among them, is shown as an empty cell.
pub open spec fn has_glyph(c: char) -> bool {
    '!' <= c <= '}'
}

/// The eight column bytes of the glyph that stands for `c`.
pub open spec fn glyph(c: char) -> Seq<u8> {
    match c {
        '!' => seq![0x00u8, 0x00, 0x5F, 0x00, 0x00, 0x00, 0x00, 0x00],
        '"' => seq![0x00u8, 0x07, 0x00, 0x07, 0x00, 0x00, 0x00, 0x00],
        '#' => seq![0x14u8, 0x7F, 0x14, 0x7F, 0x14, 0x00, 0x00, 0x00],
        '$' => seq![0x24u8, 0x2A, 0x7F, 0x2A, 0x12, 0x00, 0x00, 0x00],
        '%' => seq![0x23u8, 0x13, 0x08, 0x64, 0x62, 0x00, 0x00, 0x00],
        '&' => seq![0x36u8, 0x49, 0x55, 0x22, 0x50, 0x00, 0x00, 0x00],
        '\'' => seq![0x00u8, 0x05, 0x03, 0x00, 0x00, 0x00, 0x00, 0x00],
        '(' => seq![0x00u8, 0x1C, 0x22, 0x41, 0x00, 0x00, 0x00, 0x00],
        ')' => seq![0x00u8, 0x41, 0x22, 0x1C, 0x00, 0x00, 0x00, 0x00],
        '*' => seq![0x08u8, 0x2A, 0x1C, 0x2A, 0x08, 0x00, 0x00, 0x00],
        '+' => seq![0x08u8, 0x08, 0x3E, 0x08, 0x08, 0x00, 0x00, 0x00],
        ',' => seq![0x00u8, 0x50, 0x30, 0x00, 0x00, 0x00, 0x00, 0x00],
        '-' => seq![0x00u8, 0x18, 0x18, 0x18, 0x18, 0x18, 0x00, 0x00],
        '.' => seq![0x00u8, 0x60, 0x60, 0x00, 0x00, 0x00, 0x00, 0x00],
        '/' => seq![0x20u8, 0x10, 0x08, 0x04, 0x02, 0x00, 0x00, 0x00],
        '0' => seq![0x1Cu8, 0x3E, 0x61, 0x41, 0x43, 0x3E, 0x1C, 0x00],
        '1' => seq![0x40u8, 0x42, 0x7F, 0x7F, 0x40, 0x40, 0x00, 0x00],
        '2' => seq![0x62u8, 0x73, 0x79, 0x59, 0x5D, 0x4F, 0x46, 0x00],
        '3' => seq![0x20u8, 0x61, 0x49, 0x4D, 0x4F, 0x7B, 0x31, 0x00],
        '4' => seq![0x18u8, 0x1C, 0x16, 0x13, 0x7F, 0x7F, 0x10, 0x00],
        '5' => seq![0x27u8, 0x67, 0x45, 0x45, 0x45, 0x7D, 0x38, 0x00],
        '6' => seq![0x3Cu8, 0x7E, 0x4B, 0x49, 0x49, 0x79, 0x30, 0x00],
        '7' => seq![0x03u8, 0x03, 0x71, 0x79, 0x0D, 0x07, 0x03, 0x00],
        '8' => seq![0x36u8, 0x7F, 0x49, 0x49, 0x49, 0x7F, 0x36, 0x00],
        '9' => seq![0x06u8, 0x4F, 0x49, 0x49, 0x69, 0x3F, 0x1E, 0x00],
        ':' => seq![0x00u8, 0x36, 0x36, 0x00, 0x00, 0x00, 0x00, 0x00],
        ';' => seq![0x00u8, 0x56, 0x36, 0x00, 0x00, 0x00, 0x00, 0x00],
        '<' => seq![0x00u8, 0x08, 0x14, 0x22, 0x41, 0x00, 0x00, 0x00],
        '=' => seq![0x14u8, 0x14, 0x14, 0x14, 0x14, 0x00, 0x00, 0x00],
        '>' => seq![0x41u8, 0x22, 0x14, 0x08, 0x00, 0x00, 0x00, 0x00],
        '?' => seq![0x02u8, 0x01, 0x51, 0x09, 0x06, 0x00, 0x00, 0x00],
        '@' => seq![0x32u8, 0x49, 0x79, 0x41, 0x3E, 0x00, 0x00, 0x00],
        'A' => seq![0x7Eu8, 0x11, 0x11, 0x11, 0x7E, 0x00, 0x00, 0x00],
        'B' => seq![0x7Fu8, 0x49, 0x49, 0x49, 0x36, 0x00, 0x00, 0x00],
        'C' => seq![0x3Eu8, 0x41, 0x41, 0x41, 0x22, 0x00, 0x00, 0x00],
        'D' => seq![0x7Fu8, 0x7F, 0x41, 0x41, 0x63, 0x3E, 0x1C, 0x00],
        'E' => seq![0x7Fu8, 0x49, 0x49, 0x49, 0x41, 0x00, 0x00, 0x00],
        'F' => seq![0x7Fu8, 0x09, 0x09, 0x01, 0x01, 0x00, 0x00, 0x00],
        'G' => seq![0x3Eu8, 0x41, 0x41, 0x51, 0x32, 0x00, 0x00, 0x00],
        'H' => seq![0x7Fu8, 0x08, 0x08, 0x08, 0x7F, 0x00, 0x00, 0x00],
        'I' => seq![0x00u8, 0x41, 0x7F, 0x41, 0x00, 0x00, 0x00, 0x00],
        'J' => seq![0x20u8, 0x40, 0x41, 0x3F, 0x01, 0x00, 0x00, 0x00],
        'K' => seq![0x7Fu8, 0x08, 0x14, 0x22, 0x41, 0x00, 0x00, 0x00],
        'L' => seq![0x7Fu8, 0x7F, 0x40, 0x40, 0x40, 0x40, 0x00, 0x00],
        'M' => seq![0x7Fu8, 0x02, 0x04, 0x02, 0x7F, 0x00, 0x00, 0x00],
        'N' => seq![0x7Fu8, 0x04, 0x08, 0x10, 0x7F, 0x00, 0x00, 0x00],
        'O' => seq![0x3Eu8, 0x7F, 0x41, 0x41, 0x41, 0x7F, 0x3E, 0x00],
        'P' => seq![0x7Fu8, 0x09, 0x09, 0x09, 0x06, 0x00, 0x00, 0x00],
        'Q' => seq![0x3Eu8, 0x41, 0x51, 0x21, 0x5E, 0x00, 0x00, 0x00],
        'R' => seq![0x7Fu8, 0x7F, 0x11, 0x31, 0x79, 0x6F, 0x4E, 0x00],
        'S' => seq![0x46u8, 0x49, 0x49, 0x49, 0x31, 0x00, 0x00, 0x00],
        'T' => seq![0x01u8, 0x01, 0x7F, 0x01, 0x01, 0x00, 0x00, 0x00],
        'U' => seq![0x3Fu8, 0x40, 0x40, 0x40, 0x3F, 0x00, 0x00, 0x00],
        'V' => seq![0x1Fu8, 0x20, 0x40, 0x20, 0x1F, 0x00, 0x00, 0x00],
        'W' => seq![0x7Fu8, 0x7F, 0x38, 0x1C, 0x38, 0x7F, 0x7F, 0x00],
        'X' => seq![0x63u8, 0x14, 0x08, 0x14, 0x63, 0x00, 0x00, 0x00],
        'Y' => seq![0x03u8, 0x04, 0x78, 0x04, 0x03, 0x00, 0x00, 0x00],
        'Z' => seq![0x61u8, 0x51, 0x49, 0x45, 0x43, 0x00, 0x00, 0x00],
        '[' => seq![0x00u8, 0x00, 0x7F, 0x41, 0x41, 0x00, 0x00, 0x00],
        '\\' => seq![0x02u8, 0x04, 0x08, 0x10, 0x20, 0x00, 0x00, 0x00],
        ']' => seq![0x41u8, 0x41, 0x7F, 0x00, 0x00, 0x00, 0x00, 0x00],
        '^' => seq![0x04u8, 0x02, 0x01, 0x02, 0x04, 0x00, 0x00, 0x00],
        '_' => seq![0x40u8, 0x40, 0x40, 0x40, 0x40, 0x00, 0x00, 0x00],
        '`' => seq![0x00u8, 0x01, 0x02, 0x04, 0x00, 0x00, 0x00, 0x00],
        'a' => seq![0x20u8, 0x54, 0x54, 0x54, 0x78, 0x00, 0x00, 0x00],
        'b' => seq![0x7Fu8, 0x48, 0x44, 0x44, 0x38, 0x00, 0x00, 0x00],
        'c' => seq![0x38u8, 0x44, 0x44, 0x44, 0x20, 0x00, 0x00, 0x00],
        'd' => seq![0x38u8, 0x44, 0x44, 0x48, 0x7F, 0x00, 0x00, 0x00],
        'e' => seq![0x38u8, 0x54, 0x54, 0x54, 0x18, 0x00, 0x00, 0x00],
        'f' => seq![0x08u8, 0x7E, 0x09, 0x01, 0x02, 0x00, 0x00, 0x00],
        'g' => seq![0x08u8, 0x14, 0x54, 0x54, 0x3C, 0x00, 0x00, 0x00],
        'h' => seq![0x7Fu8, 0x08, 0x04, 0x04, 0x78, 0x00, 0x00, 0x00],
        'i' => seq![0x00u8, 0x44, 0x7D, 0x40, 0x00, 0x00, 0x00, 0x00],
        'j' => seq![0x20u8, 0x40, 0x44, 0x3D, 0x00, 0x00, 0x00, 0x00],
        'k' => seq![0x00u8, 0x7F, 0x10, 0x28, 0x44, 0x00, 0x00, 0x00],
        'l' => seq![0x00u8, 0x41, 0x7F, 0x40, 0x00, 0x00, 0x00, 0x00],
        'm' => seq![0x7Cu8, 0x04, 0x18, 0x04, 0x78, 0x00, 0x00, 0x00],
        'n' => seq![0x7Cu8, 0x08, 0x04, 0x04, 0x78, 0x00, 0x00, 0x00],
        'o' => seq![0x38u8, 0x44, 0x44, 0x44, 0x38, 0x00, 0x00, 0x00],
        'p' => seq![0x7Cu8, 0x14, 0x14, 0x14, 0x08, 0x00, 0x00, 0x00],
        'q' => seq![0x08u8, 0x14, 0x14, 0x18, 0x7C, 0x00, 0x00, 0x00],
        'r' => seq![0x7Cu8, 0x08, 0x04, 0x04, 0x08, 0x00, 0x00, 0x00],
        's' => seq![0x48u8, 0x54, 0x54, 0x54, 0x20, 0x00, 0x00, 0x00],
        't' => seq![0x04u8, 0x3F, 0x44, 0x40, 0x20, 0x00, 0x00, 0x00],
        'u' => seq![0x3Cu8, 0x40, 0x40, 0x20, 0x7C, 0x00, 0x00, 0x00],
        'v' => seq![0x1Cu8, 0x20, 0x40, 0x20, 0x1C, 0x00, 0x00, 0x00],
        'w' => seq![0x3Cu8, 0x40, 0x30, 0x40, 0x3C, 0x00, 0x00, 0x00],
        'x' => seq![0x00u8, 0x44, 0x28, 0x10, 0x28, 0x44, 0x00, 0x00],
        'y' => seq![0x0Cu8, 0x50, 0x50, 0x50, 0x3C, 0x00, 0x00, 0x00],
        'z' => seq![0x44u8, 0x64, 0x54, 0x4C, 0x44, 0x00, 0x00, 0x00],
        '{' => seq![0x00u8, 0x08, 0x36, 0x41, 0x00, 0x00, 0x00, 0x00],
        '|' => seq![0x00u8, 0x00, 0x7F, 0x00, 0x00, 0x00, 0x00, 0x00],
        '}' => seq![0x00u8, 0x41, 0x36, 0x08, 0x00, 0x00, 0x00, 0x00],
        _ => blank_glyph(),
    }
}

/// A character that the font does not draw has the blank glyph.
pub proof fn lemma_unmapped_is_blank(c: char)
    requires
        !has_glyph(c),
    ensures
        glyph(c) == blank_glyph(),
{
}

/// Every glyph, the blank one included, has exactly eight columns.
pub proof fn lemma_glyph_has_eight_columns(c: char)
    ensures
        glyph(c).len() == 8,
{
}

/// Every glyph is drawn within the upper left 7x7 pixels of its cell: the
/// bottom pixel row and the rightmost column stay dark, which is what keeps
/// neighbouring characters apart.
pub proof fn lemma_glyph_fits_seven_by_seven(c: char, column: int)
    requires
        0 <= column < 8,
    ensures
        glyph(c)[column] < 0x80,
        glyph(c)[7] == 0,
{
}

} // verus!
