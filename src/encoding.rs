use vstd::prelude::*;
use crate::constants::{BoardMasks, Pieces, TileModifiers};

verus! {

/// The piece-kind field of a square.
pub open spec fn piece_of(square: u16) -> u16 {
    square & BoardMasks::PIECES
}

/// The colour field of a square.
pub open spec fn colour_of(square: u16) -> u16 {
    square & BoardMasks::COLOUR
}

/// The tile-modifier field of a square.
pub open spec fn modifier_of(square: u16) -> u16 {
    square & BoardMasks::MODIFIERS
}

/// The base glyph of a piece kind; unknown kinds show as '?'.
pub open spec fn piece_glyph(piece: u16) -> char {
    if piece == Pieces::EMPTY {
        ' '
    } else if piece == Pieces::PAWN {
        'p'
    } else if piece == Pieces::ROOK {
        'r'
    } else if piece == Pieces::KNIGHT {
        'n'
    } else if piece == Pieces::BISHOP {
        'b'
    } else if piece == Pieces::QUEEN {
        'q'
    } else if piece == Pieces::KING {
        'k'
    } else if piece == Pieces::EN_PASSANT {
        'e'
    } else {
        '?'
    }
}

/// The trailing glyph of a tile modifier; no modifier and unknown ones show as a space.
pub open spec fn modifier_glyph(modifier: u16) -> char {
    if modifier == TileModifiers::CLEAR_MODIFIER {
        '\u{2070}'
    } else if modifier == TileModifiers::TRENCH {
        '\u{b9}'
    } else if modifier == TileModifiers::PORTAL {
        '\u{b2}'
    } else if modifier == TileModifiers::REVERSE_PAWN {
        '\u{b3}'
    } else if modifier == TileModifiers::SHOVE_PAWN {
        '\u{2074}'
    } else {
        ' '
    }
}

/// Upper case of an ASCII lower-case letter; every other character is kept.
pub open spec fn upper_ascii(c: char) -> char {
    if 97 <= c as u32 <= 122 {
        ((c as u32 - 32) as u8) as char
    } else {
        c
    }
}

/// The piece glyph of a square, in upper case exactly when its colour field is the white flag.
pub open spec fn cased_piece_glyph(square: u16) -> char {
    if colour_of(square) == Pieces::WHITE {
        upper_ascii(piece_glyph(piece_of(square)))
    } else {
        piece_glyph(piece_of(square))
    }
}

/// The two characters that show one square: its piece glyph, then its modifier glyph.
pub open spec fn square_text(square: u16) -> Seq<char> {
    seq![cased_piece_glyph(square), modifier_glyph(modifier_of(square))]
}

/// Maps a piece kind to its base glyph.
pub fn piece_to_char(piece: u16) -> (c: char)
    ensures
        c == piece_glyph(piece),
{
    if piece == Pieces::EMPTY {
        ' '
    } else if piece == Pieces::PAWN {
        'p'
    } else if piece == Pieces::ROOK {
        'r'
    } else if piece == Pieces::KNIGHT {
        'n'
    } else if piece == Pieces::BISHOP {
        'b'
    } else if piece == Pieces::QUEEN {
        'q'
    } else if piece == Pieces::KING {
        'k'
    } else if piece == Pieces::EN_PASSANT {
        'e'
    } else {
        '?'
    }
}

/// Maps a tile modifier to its trailing glyph.
pub fn modifier_to_char(modifier: u16) -> (c: char)
    ensures
        c == modifier_glyph(modifier),
{
    if modifier == 0 {
        ' '
    } else if modifier == TileModifiers::CLEAR_MODIFIER {
        '\u{2070}'
    } else if modifier == TileModifiers::TRENCH {
        '\u{b9}'
    } else if modifier == TileModifiers::PORTAL {
        '\u{b2}'
    } else if modifier == TileModifiers::REVERSE_PAWN {
        '\u{b3}'
    } else if modifier == TileModifiers::SHOVE_PAWN {
        '\u{2074}'
    } else {
        ' '
    }
}

/// Upper-cases an ASCII lower-case letter and keeps every other character.
pub fn to_upper_ascii(c: char) -> (r: char)
    ensures
        r == upper_ascii(c),
{
    let code = c as u32;
    if 97 <= code && code <= 122 {
        ((code - 32) as u8) as char
    } else {
        c
    }
}

/// The three fields of a square occupy disjoint bits, and together they are
/// exactly the square masked by the union of the three field masks.
pub proof fn lemma_extraction_is_masking(v: u16)
    ensures
        piece_of(v) | colour_of(v) | modifier_of(v) == v & (BoardMasks::PIECES
            | BoardMasks::COLOUR | BoardMasks::MODIFIERS),
        piece_of(v) & colour_of(v) == 0,
        piece_of(v) & modifier_of(v) == 0,
        colour_of(v) & modifier_of(v) == 0,
{
    assert((v & 7u16) | (v & 24u16) | (v & 480u16) == v & (7u16 | 24u16 | 480u16))
        by (bit_vector);
    assert((v & 7u16) & (v & 24u16) == 0) by (bit_vector);
    assert((v & 7u16) & (v & 480u16) == 0) by (bit_vector);
    assert((v & 24u16) & (v & 480u16) == 0) by (bit_vector);
}

} // verus!
