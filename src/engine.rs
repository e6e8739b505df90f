use vstd::prelude::*;
use crate::constants::{BoardMasks, Pieces};
use crate::encoding::{
    colour_of, modifier_of, modifier_to_char, piece_of, piece_to_char, square_text,
    to_upper_ascii,
};

verus! {

/// Relies on std's String::push, which appends one character to the end of the string.
pub assume_specification[ String::push ](s: &mut String, ch: char)
    ensures
        final(s)@ == old(s)@.push(ch),
;

/// Number of squares on the board.
pub const BOARD_SIZE: usize = 64;

/// Owns the 64 encoded squares of one board, in rank-major order.
pub struct Engine {
    pub state: [u16; 64],
}

/// The digit that labels a rank.
pub open spec fn rank_label(rank: int) -> char {
    ((48 + rank) as u8) as char
}

/// The first `n` cells of a rank, each followed by a space.
pub open spec fn cells_text(board: Seq<u16>, rank: int, n: nat) -> Seq<char>
    decreases n,
{
    if n == 0 {
        seq![]
    } else {
        cells_text(board, rank, (n - 1) as nat) + square_text(board[(rank - 1) * 8 + n - 1])
            + seq![' ']
    }
}

/// One line of the diagram: a line break, the rank label, a bar, then the rank's eight cells.
pub open spec fn row_text(board: Seq<u16>, rank: int) -> Seq<char> {
    seq!['\n', rank_label(rank), ' ', '|', ' '] + cells_text(board, rank, 8)
}

/// The lines of the top `k` ranks, from rank 8 downwards.
pub open spec fn rows_text(board: Seq<u16>, k: nat) -> Seq<char>
    decreases k,
{
    if k == 0 {
        seq![]
    } else {
        rows_text(board, (k - 1) as nat) + row_text(board, 9 - k)
    }
}

/// The title and top border of the diagram.
pub open spec fn diagram_top() -> Seq<char> {
    "  rust draw\n"@ + "  +-------------------------+"@
}

/// The bottom border and the file labels of the diagram.
pub open spec fn diagram_bottom() -> Seq<char> {
    "\n  +-------------------------+"@ + "\n    a  b  c  d  e  f  g  h"@
}

/// The whole diagram of a board.
pub open spec fn diagram(board: Seq<u16>) -> Seq<char> {
    diagram_top() + rows_text(board, 8) + diagram_bottom()
}

impl Engine {
    /// A board whose every square is empty, with no modifier.
    pub fn new() -> (e: Self)
        ensures
            forall|i: int| 0 <= i < 64 ==> e.state@[i] == Pieces::EMPTY,
    {
        Engine { state: [0u16; 64] }
    }

    /// Replaces the whole board by the first 64 values of `new_state`;
    /// a shorter input leaves the board as it was.
    pub fn set_state(&mut self, new_state: &[u16])
        ensures
            new_state@.len() < 64 ==> final(self).state@ == old(self).state@,
            new_state@.len() >= 64 ==> final(self).state@ == new_state@.subrange(0, 64),
    {
        if new_state.len() >= BOARD_SIZE {
            let mut i: usize = 0;
            while i < BOARD_SIZE
                invariant
                    i <= 64,
                    new_state@.len() >= 64,
                    forall|j: int| 0 <= j < i ==> self.state@[j] == new_state@[j],
                decreases 64 - i,
            {
                self.state[i] = new_state[i];
                i += 1;
            }
            assert(self.state@ =~= new_state@.subrange(0, 64));
        }
    }

    /// Writes `value` to the square at `index`; an index past the board leaves it as it was.
    pub fn set_square(&mut self, index: usize, value: u16)
        ensures
            index < 64 ==> final(self).state@ == old(self).state@.update(index as int, value),
            index >= 64 ==> final(self).state@ == old(self).state@,
    {
        if index < BOARD_SIZE {
            self.state[index] = value;
        }
    }

    /// The piece-kind bits of a square.
    pub fn extract_piece(&self, square: &u16) -> (r: u16)
        ensures
            r == piece_of(*square),
    {
        *square & BoardMasks::PIECES
    }

    /// The colour bits of a square.
    pub fn extract_colour(&self, square: &u16) -> (r: u16)
        ensures
            r == colour_of(*square),
    {
        *square & BoardMasks::COLOUR
    }

    /// The tile-modifier bits of a square.
    pub fn extract_modifier(&self, square: &u16) -> (r: u16)
        ensures
            r == modifier_of(*square),
    {
        *square & BoardMasks::MODIFIERS
    }

    /// The two characters that show a square.
    pub fn square_to_char(&self, square: &u16) -> (r: String)
        ensures
            r@ == square_text(*square),
    {
        let piece = self.extract_piece(square);
        let colour = self.extract_colour(square);
        let modifier = self.extract_modifier(square);

        let piece_char = piece_to_char(piece);
        let output_char = if colour == Pieces::WHITE {
            to_upper_ascii(piece_char)
        } else {
            piece_char
        };
        let modifier_char = modifier_to_char(modifier);

        let mut text = String::new();
        text.push(output_char);
        text.push(modifier_char);
        assert(text@ =~= square_text(*square));
        text
    }

    /// The diagram of the board: ranks 8 down to 1, files a to h, between borders.
    pub fn draw(&self) -> (r: String)
        ensures
            r@ == diagram(self.state@),
    {
        let mut out = String::new();
        out.append("  rust draw\n");
        out.append("  +-------------------------+");
        assert(out@ =~= diagram_top() + rows_text(self.state@, 0));

        let mut k: usize = 0;
        while k < 8
            invariant
                k <= 8,
                out@ == diagram_top() + rows_text(self.state@, k as nat),
            decreases 8 - k,
        {
            let rank: usize = 8 - k;
            let ghost before = out@;
            out.push('\n');
            out.push(((48 + rank) as u8) as char);
            out.push(' ');
            out.push('|');
            out.push(' ');
            assert(out@ =~= before + seq!['\n', rank_label(rank as int), ' ', '|', ' ']
                + cells_text(self.state@, rank as int, 0));

            let mut file: usize = 0;
            while file < 8
                invariant
                    1 <= rank <= 8,
                    file <= 8,
                    out@ == before + seq!['\n', rank_label(rank as int), ' ', '|', ' ']
                        + cells_text(self.state@, rank as int, file as nat),
                decreases 8 - file,
            {
                let index: usize = (rank - 1) * 8 + file;
                let square = self.state[index];
                let text = self.square_to_char(&square);
                out.append(text.as_str());
                out.push(' ');
                assert(out@ =~= before + seq!['\n', rank_label(rank as int), ' ', '|', ' ']
                    + cells_text(self.state@, rank as int, (file + 1) as nat));
                file += 1;
            }
            assert(out@ =~= diagram_top() + rows_text(self.state@, (k + 1) as nat));
            k += 1;
        }

        out.append("\n  +-------------------------+");
        out.append("\n    a  b  c  d  e  f  g  h");
        assert(out@ =~= diagram(self.state@));
        out
    }
}

/// The diagram depends on the squares alone: two boards that hold the same
/// squares are drawn alike, however often either is drawn.
pub proof fn lemma_draw_depends_on_squares_only(a: &Engine, b: &Engine)
    requires
        a.state@ == b.state@,
    ensures
        diagram(a.state@) == diagram(b.state@),
{
}

} // verus!
