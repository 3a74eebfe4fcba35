//! The drawing surface as the game sees it: a grid of character cells, and the
//! operations that the game asks its caller to perform on it.

use crate::ring::wrap_add;
use vstd::prelude::*;

verus! {

/// Number of columns of the grid.
pub const BUFFER_WIDTH: usize = 80;

/// Number of rows of the grid.
pub const BUFFER_HEIGHT: usize = 25;

/// The colours that the game draws with.
#[derive(Clone, Copy, Debug, PartialEq, Eq, Structural)]
pub enum Color {
    Black,
    Red,
    Magenta,
    Cyan,
    Yellow,
}

/// One request to the drawing surface.
#[derive(Clone, Copy, Debug, PartialEq, Eq, Structural)]
pub enum DrawOp {
    /// Write one glyph into the cell at (`col`, `row`).
    Plot { glyph: char, col: usize, row: usize, fg: Color, bg: Color },
    /// Write a number, starting at the cell at (`col`, `row`).
    PlotNum { value: isize, col: usize, row: usize, fg: Color, bg: Color },
}

impl DrawOp {
    /// The operation starts at a cell of the grid.
    pub open spec fn on_grid(self) -> bool {
        match self {
            DrawOp::Plot { col, row, .. } => col < BUFFER_WIDTH && row < BUFFER_HEIGHT,
            DrawOp::PlotNum { col, row, .. } => col < BUFFER_WIDTH && row < BUFFER_HEIGHT,
        }
    }
}

/// The operation that blanks one cell.
pub open spec fn blank(col: int, row: int) -> DrawOp {
    DrawOp::Plot { glyph: ' ', col: col as usize, row: row as usize, fg: Color::Black, bg: Color::Black }
}

/// Blanking `count` cells of row `row`, from column `col` rightwards and
/// round the edge of the grid.
pub open spec fn erase_ops(col: int, row: int, count: int) -> Seq<DrawOp> {
    Seq::new(count as nat, |i: int| blank(wrap_add(col, i, BUFFER_WIDTH as int), row))
}

/// Drawing one glyph of the moving row, in cyan.
pub open spec fn segment_op(glyph: char, col: int, row: int) -> DrawOp {
    DrawOp::Plot { glyph, col: col as usize, row: row as usize, fg: Color::Cyan, bg: Color::Black }
}

/// Drawing the first `count` glyphs of `letters` into row `row`, from column
/// `col` rightwards and round the edge of the grid.
pub open spec fn segment_ops(letters: Seq<char>, col: int, row: int, count: int) -> Seq<DrawOp> {
    Seq::new(
        count as nat,
        |i: int| segment_op(letters[i], wrap_add(col, i, BUFFER_WIDTH as int), row),
    )
}

/// Drawing one glyph of a banner, in magenta.
pub open spec fn banner_op(glyph: char, col: int, row: int) -> DrawOp {
    DrawOp::Plot { glyph, col: col as usize, row: row as usize, fg: Color::Magenta, bg: Color::Black }
}

/// Writing `text` into row `row`, from the left edge.
pub open spec fn banner_ops(text: Seq<char>, row: int) -> Seq<DrawOp> {
    Seq::new(text.len(), |i: int| banner_op(text[i], i, row))
}

/// The text of the banner in the top row.
pub open spec fn game_over_text() -> Seq<char> {
    seq!['G', 'A', 'M', 'E', ' ', 'O', 'V', 'E', 'R']
}

/// The text of the banner in the bottom row.
pub open spec fn reset_text() -> Seq<char> {
    seq!['P', 'R', 'E', 'S', 'S', ' ', 'R', ' ', 'T', 'O', ' ', 'R', 'E', 'S', 'E', 'T']
}

/// Blanking every cell of the grid, column by column, each from top to bottom.
pub open spec fn clear_ops() -> Seq<DrawOp> {
    Seq::new(
        (BUFFER_WIDTH * BUFFER_HEIGHT) as nat,
        |i: int| blank(i / (BUFFER_HEIGHT as int), i % (BUFFER_HEIGHT as int)),
    )
}

/// Drawing the apple in red.
pub open spec fn apple_op(glyph: char, col: int, row: int) -> DrawOp {
    DrawOp::Plot { glyph, col: col as usize, row: row as usize, fg: Color::Red, bg: Color::Black }
}

/// Drawing the score in yellow in the top left corner.
pub open spec fn score_op(score: int) -> DrawOp {
    DrawOp::PlotNum { value: score as isize, col: 0, row: 0, fg: Color::Yellow, bg: Color::Black }
}

/// The glyph at index `i` of a fixed row of glyphs.
pub(crate) fn glyph_at<const N: usize>(text: &[char; N], i: usize) -> (glyph: char)
    requires
        i < N,
    ensures
        glyph == text@[i as int],
{
    text[i]
}

/// Appends to `ops` the writing of `text` into row `row`.
pub(crate) fn draw_banner<const N: usize>(ops: &mut Vec<DrawOp>, text: &[char; N], row: usize)
    ensures
        final(ops)@ == old(ops)@ + banner_ops(text@, row as int),
{
    let ghost base = ops@;
    let ghost want = banner_ops(text@, row as int);
    let mut i: usize = 0;
    while i < N
        invariant
            i <= N,
            want == banner_ops(text@, row as int),
            ops@.len() == base.len() + i,
            forall|k: int| 0 <= k < base.len() ==> ops@[k] == base[k],
            forall|k: int|
                base.len() <= k < base.len() + i ==> #[trigger] ops@[k] == want[k - base.len()],
        decreases N - i,
    {
        let glyph = glyph_at(text, i);
        ops.push(DrawOp::Plot { glyph, col: i, row, fg: Color::Magenta, bg: Color::Black });
        i += 1;
    }
    assert(ops@ =~= base + want);
}

} // verus!
