//! The game itself: its state, one tick, and one key.

use crate::model::{
    initial_state, next_apple_col, next_apple_row, on_bound, KeyInput, MoverState, RawKey,
    APPLE_GLYPH, APPLE_JUMP, APPLE_SCORE, SEGMENT_GLYPH,
};
use crate::ring::{ring_add, ring_add_plain, ring_new, ring_sub_plain, ring_walk};
use crate::ring::wrap_add;
use crate::screen::{
    apple_op, banner_ops, clear_ops, draw_banner, erase_ops, game_over_text, glyph_at,
    reset_text, score_op, segment_ops, Color, DrawOp, BUFFER_HEIGHT, BUFFER_WIDTH,
};
use vstd::prelude::*;

verus! {

/// The game: a row of glyphs that moves over the grid, and an apple.
#[derive(Copy, Clone, Debug, Eq, PartialEq)]
pub struct LetterMover {
    letters: [char; BUFFER_WIDTH],
    num_letters: usize,
    next_letter: usize,
    col: usize,
    row: usize,
    dx: usize,
    dy: usize,
    r_is_pressed: bool,
    game_over: bool,
    apple: char,
    a_col: usize,
    a_row: usize,
    score: isize,
}

impl View for LetterMover {
    type V = MoverState;

    closed spec fn view(&self) -> MoverState {
        MoverState {
            letters: self.letters@,
            num_letters: self.num_letters as int,
            next_letter: self.next_letter as int,
            col: self.col as int,
            row: self.row as int,
            dx: self.dx as int,
            dy: self.dy as int,
            r_is_pressed: self.r_is_pressed,
            game_over: self.game_over,
            apple: self.apple,
            a_col: self.a_col as int,
            a_row: self.a_row as int,
            score: self.score as int,
        }
    }
}

impl LetterMover {
    /// A game at its beginning.
    pub fn new() -> (r: Self)
        ensures
            r@ == initial_state(),
            r@.wf(),
    {
        let r = LetterMover {
            letters: [SEGMENT_GLYPH; BUFFER_WIDTH],
            num_letters: ring_new::<BUFFER_WIDTH>(1),
            next_letter: ring_new::<BUFFER_WIDTH>(1),
            col: ring_new::<BUFFER_WIDTH>(BUFFER_WIDTH / 2),
            row: ring_new::<BUFFER_HEIGHT>(BUFFER_HEIGHT / 2),
            dx: ring_new::<BUFFER_WIDTH>(1),
            dy: ring_new::<BUFFER_HEIGHT>(0),
            r_is_pressed: false,
            game_over: false,
            apple: APPLE_GLYPH,
            a_col: ring_new::<BUFFER_WIDTH>(BUFFER_WIDTH / 2),
            a_row: ring_new::<BUFFER_HEIGHT>(BUFFER_HEIGHT / 2 + APPLE_JUMP),
            score: 0,
        };
        assert(r@.letters =~= initial_state().letters);
        r
    }

    /// The columns that the row occupies, from its head rightwards and round
    /// the edge of the grid.
    fn letter_columns(&self) -> (cols: Vec<usize>)
        requires
            self@.in_grid(),
        ensures
            cols@.len() == self@.num_letters,
            forall|i: int|
                0 <= i < cols@.len() ==> #[trigger] cols@[i] == wrap_add(
                    self@.col,
                    i,
                    BUFFER_WIDTH as int,
                ),
    {
        let walk = ring_walk::<BUFFER_WIDTH>(self.col);
        let mut cols: Vec<usize> = Vec::new();
        let mut i: usize = 0;
        while i < self.num_letters
            invariant
                i <= self.num_letters < BUFFER_WIDTH,
                walk@.len() == BUFFER_WIDTH,
                cols@.len() == i,
                forall|k: int| 0 <= k < i ==> #[trigger] cols@[k] == walk@[k],
            decreases self.num_letters - i,
        {
            cols.push(walk[i]);
            i += 1;
        }
        cols
    }

    /// Advances the game by one tick and returns what is to be drawn, in
    /// order. The row is blanked where it stood and moves on by its velocity.
    /// On the edge the game is over: both banners are drawn and the row stops;
    /// where a reset was asked for, the game begins again and the whole grid
    /// is blanked. Off the edge the apple and the score are drawn, the apple
    /// is taken if the row has reached it, and the row is drawn in its place.
    pub fn tick(&mut self) -> (ops: Vec<DrawOp>)
        requires
            old(self)@.wf(),
            old(self)@.scores_next() ==> old(self)@.score + APPLE_SCORE <= isize::MAX,
        ensures
            final(self)@ == old(self)@.tick(),
            final(self)@.wf(),
            ops@ == old(self)@.tick_ops(),
    {
        let mut ops: Vec<DrawOp> = Vec::new();
        self.clear_current(&mut ops);
        self.update_location();
        if self.collide_bound() {
            self.draw_game_over(&mut ops);
            self.draw_reset(&mut ops);
            self.zero_out();
            if self.r_is_pressed {
                self.reset();
                self.clear_text(&mut ops);
            }
        } else {
            self.draw_apple(&mut ops);
            self.draw_score(&mut ops);
            self.collide_apple();
            self.draw_current(&mut ops);
        }
        assert(ops@ =~= old(self)@.tick_ops());
        ops
    }

    /// Whether the next tick stays within what the score can hold: it does
    /// unless it would add to a score that is at the top of its range.
    pub fn can_tick(&self) -> (ok: bool)
        requires
            self@.wf(),
        ensures
            ok == (self@.scores_next() ==> self@.score + APPLE_SCORE <= isize::MAX),
    {
        let col = ring_add::<BUFFER_WIDTH>(self.col, self.dx);
        let row = ring_add::<BUFFER_HEIGHT>(self.row, self.dy);
        let scores = col != 0 && row != 0 && col == self.a_col && row == self.a_row;
        !scores || self.score <= isize::MAX - APPLE_SCORE
    }

    /// The column of the head of the row.
    pub fn col(&self) -> (r: usize)
        ensures
            r == self@.col,
    {
        self.col
    }

    /// The row that the moving row is in.
    pub fn row(&self) -> (r: usize)
        ensures
            r == self@.row,
    {
        self.row
    }

    /// The step per tick along the columns, as a ring value.
    pub fn dx(&self) -> (r: usize)
        ensures
            r == self@.dx,
    {
        self.dx
    }

    /// The step per tick along the rows, as a ring value.
    pub fn dy(&self) -> (r: usize)
        ensures
            r == self@.dy,
    {
        self.dy
    }

    /// The score.
    pub fn score(&self) -> (r: isize)
        ensures
            r == self@.score,
    {
        self.score
    }

    /// Whether the game is over.
    pub fn is_game_over(&self) -> (r: bool)
        ensures
            r == self@.game_over,
    {
        self.game_over
    }

    /// Whether a reset was asked for and is still to come.
    pub fn reset_requested(&self) -> (r: bool)
        ensures
            r == self@.r_is_pressed,
    {
        self.r_is_pressed
    }

    /// The column of the apple.
    pub fn apple_col(&self) -> (r: usize)
        ensures
            r == self@.a_col,
    {
        self.a_col
    }

    /// The row of the apple.
    pub fn apple_row(&self) -> (r: usize)
        ensures
            r == self@.a_row,
    {
        self.a_row
    }

    /// The number of glyphs that the moving row is made of.
    pub fn segment_count(&self) -> (r: usize)
        ensures
            r == self@.num_letters,
    {
        self.num_letters
    }

    /// Appends to `ops` the blanking of the row where it stands.
    fn clear_current(&self, ops: &mut Vec<DrawOp>)
        requires
            self@.in_grid(),
        ensures
            final(ops)@ == old(ops)@ + erase_ops(self@.col, self@.row, self@.num_letters),
    {
        let ghost base = ops@;
        let ghost want = erase_ops(self@.col, self@.row, self@.num_letters);
        let cols = self.letter_columns();
        let mut i: usize = 0;
        while i < cols.len()
            invariant
                i <= cols@.len(),
                cols@.len() == self@.num_letters,
                self@.in_grid(),
                want == erase_ops(self@.col, self@.row, self@.num_letters),
                forall|k: int|
                    0 <= k < cols@.len() ==> #[trigger] cols@[k] == wrap_add(
                        self@.col,
                        k,
                        BUFFER_WIDTH as int,
                    ),
                ops@.len() == base.len() + i,
                forall|k: int| 0 <= k < base.len() ==> ops@[k] == base[k],
                forall|k: int|
                    base.len() <= k < base.len() + i ==> #[trigger] ops@[k] == want[k - base.len()],
            decreases cols.len() - i,
        {
            ops.push(
                DrawOp::Plot {
                    glyph: ' ',
                    col: cols[i],
                    row: self.row,
                    fg: Color::Black,
                    bg: Color::Black,
                },
            );
            i += 1;
        }
        assert(ops@ =~= base + want);
    }

    /// Appends to `ops` the banner of the top row.
    fn draw_game_over(&self, ops: &mut Vec<DrawOp>)
        ensures
            final(ops)@ == old(ops)@ + banner_ops(game_over_text(), 0),
    {
        let game_over = ['G', 'A', 'M', 'E', ' ', 'O', 'V', 'E', 'R'];
        assert(game_over@ =~= game_over_text());
        draw_banner(ops, &game_over, 0);
    }

    /// Appends to `ops` the banner of the bottom row.
    fn draw_reset(&self, ops: &mut Vec<DrawOp>)
        ensures
            final(ops)@ == old(ops)@ + banner_ops(
                reset_text(),
                BUFFER_HEIGHT - 1,
            ),
    {
        let reset = ['P', 'R', 'E', 'S', 'S', ' ', 'R', ' ', 'T', 'O', ' ', 'R', 'E', 'S', 'E', 'T'];
        assert(reset@ =~= reset_text());
        draw_banner(ops, &reset, BUFFER_HEIGHT - 1);
    }

    /// Appends to `ops` the blanking of the whole grid.
    fn clear_text(&self, ops: &mut Vec<DrawOp>)
        ensures
            final(ops)@ == old(ops)@ + clear_ops(),
    {
        let ghost base = ops@;
        let mut x: usize = 0;
        while x < BUFFER_WIDTH
            invariant
                x <= BUFFER_WIDTH,
                ops@.len() == base.len() + x * BUFFER_HEIGHT,
                forall|j: int| 0 <= j < base.len() ==> ops@[j] == base[j],
                forall|j: int| 0 <= j < x * BUFFER_HEIGHT ==> ops@[base.len() + j] == clear_ops()[j],
            decreases BUFFER_WIDTH - x,
        {
            let mut y: usize = 0;
            while y < BUFFER_HEIGHT
                invariant
                    x < BUFFER_WIDTH,
                    y <= BUFFER_HEIGHT,
                    ops@.len() == base.len() + x * BUFFER_HEIGHT + y,
                    forall|j: int| 0 <= j < base.len() ==> ops@[j] == base[j],
                    forall|j: int|
                        0 <= j < x * BUFFER_HEIGHT + y ==> ops@[base.len() + j] == clear_ops()[j],
                decreases BUFFER_HEIGHT - y,
            {
                ops.push(
                    DrawOp::Plot { glyph: ' ', col: x, row: y, fg: Color::Black, bg: Color::Black },
                );
                y += 1;
            }
            x += 1;
        }
        assert(ops@ =~= base + clear_ops());
    }

    /// Stops the row.
    fn zero_out(&mut self)
        ensures
            final(self)@ == (MoverState { dx: 0, dy: 0, ..old(self)@ }),
    {
        self.dy = ring_new::<BUFFER_HEIGHT>(0);
        self.dx = ring_new::<BUFFER_WIDTH>(0);
    }

    /// Moves the row on by its velocity, round the ring.
    fn update_location(&mut self)
        requires
            old(self)@.in_grid(),
        ensures
            final(self)@ == old(self)@.moved(),
            final(self)@.in_grid(),
    {
        self.col = ring_add::<BUFFER_WIDTH>(self.col, self.dx);
        self.row = ring_add::<BUFFER_HEIGHT>(self.row, self.dy);
    }

    /// Appends to `ops` the drawing of the row where it stands.
    fn draw_current(&self, ops: &mut Vec<DrawOp>)
        requires
            self@.in_grid(),
        ensures
            final(ops)@ == old(ops)@ + segment_ops(
                self@.letters,
                self@.col,
                self@.row,
                self@.num_letters,
            ),
    {
        let ghost base = ops@;
        let ghost want = segment_ops(self@.letters, self@.col, self@.row, self@.num_letters);
        let cols = self.letter_columns();
        let mut i: usize = 0;
        while i < cols.len()
            invariant
                i <= cols@.len(),
                cols@.len() == self@.num_letters,
                self@.in_grid(),
                want == segment_ops(self@.letters, self@.col, self@.row, self@.num_letters),
                forall|k: int|
                    0 <= k < cols@.len() ==> #[trigger] cols@[k] == wrap_add(
                        self@.col,
                        k,
                        BUFFER_WIDTH as int,
                    ),
                ops@.len() == base.len() + i,
                forall|k: int| 0 <= k < base.len() ==> ops@[k] == base[k],
                forall|k: int|
                    base.len() <= k < base.len() + i ==> #[trigger] ops@[k] == want[k - base.len()],
            decreases cols.len() - i,
        {
            let glyph = glyph_at(&self.letters, i);
            ops.push(
                DrawOp::Plot { glyph, col: cols[i], row: self.row, fg: Color::Cyan, bg: Color::Black },
            );
            i += 1;
        }
        assert(ops@ =~= base + want);
    }

    /// Appends to `ops` the drawing of the score.
    fn draw_score(&self, ops: &mut Vec<DrawOp>)
        ensures
            final(ops)@ == old(ops)@.push(score_op(self@.score)),
    {
        ops.push(
            DrawOp::PlotNum { value: self.score, col: 0, row: 0, fg: Color::Yellow, bg: Color::Black },
        );
    }

    /// Appends to `ops` the drawing of the apple.
    fn draw_apple(&self, ops: &mut Vec<DrawOp>)
        ensures
            final(ops)@ == old(ops)@.push(
                apple_op(self@.apple, self@.a_col, self@.a_row),
            ),
    {
        ops.push(
            DrawOp::Plot {
                glyph: self.apple,
                col: self.a_col,
                row: self.a_row,
                fg: Color::Red,
                bg: Color::Black,
            },
        );
    }

    /// Takes one event from the keyboard. While the game runs, an arrow key
    /// turns the row; once it is over, the character `R` asks for a reset.
    /// Nothing else has any effect.
    pub fn key(&mut self, key: KeyInput)
        requires
            old(self)@.wf(),
        ensures
            final(self)@ == old(self)@.key(key),
            final(self)@.wf(),
    {
        match key {
            KeyInput::RawKey(code) => self.handle_raw(code),
            KeyInput::Unicode(c) => self.handle_unicode(c),
        }
    }

    /// Turns the row on an arrow key, while the game runs.
    fn handle_raw(&mut self, key: RawKey)
        ensures
            final(self)@ == old(self)@.raw_key(key),
    {
        if !self.game_over {
            match key {
                RawKey::ArrowLeft => {
                    self.dx = ring_sub_plain::<BUFFER_WIDTH>(ring_new::<BUFFER_WIDTH>(0), 1);
                    self.dy = ring_new::<BUFFER_HEIGHT>(0);
                },
                RawKey::ArrowRight => {
                    self.dx = ring_new::<BUFFER_WIDTH>(1);
                    self.dy = ring_new::<BUFFER_HEIGHT>(0);
                },
                RawKey::ArrowUp => {
                    self.dy = ring_sub_plain::<BUFFER_HEIGHT>(ring_new::<BUFFER_HEIGHT>(0), 1);
                    self.dx = ring_new::<BUFFER_WIDTH>(0);
                },
                RawKey::ArrowDown => {
                    self.dy = ring_new::<BUFFER_HEIGHT>(1);
                    self.dx = ring_new::<BUFFER_WIDTH>(0);
                },
                RawKey::Other => {},
            }
        }
    }

    /// Puts the game back into its first state. The apple keeps its glyph.
    fn reset(&mut self)
        ensures
            final(self)@ == (MoverState { apple: old(self)@.apple, ..initial_state() }),
    {
        self.letters = [SEGMENT_GLYPH; BUFFER_WIDTH];
        self.num_letters = ring_new::<BUFFER_WIDTH>(1);
        self.next_letter = ring_new::<BUFFER_WIDTH>(1);
        self.col = ring_new::<BUFFER_WIDTH>(BUFFER_WIDTH / 2);
        self.row = ring_new::<BUFFER_HEIGHT>(BUFFER_HEIGHT / 2);
        self.dx = ring_new::<BUFFER_WIDTH>(1);
        self.dy = ring_new::<BUFFER_HEIGHT>(0);
        self.r_is_pressed = false;
        self.game_over = false;
        self.a_col = ring_new::<BUFFER_WIDTH>(BUFFER_WIDTH / 2);
        self.a_row = ring_new::<BUFFER_HEIGHT>(BUFFER_HEIGHT / 2 + APPLE_JUMP);
        self.score = 0;
        assert(self@.letters =~= initial_state().letters);
    }

    /// Notes the wish for a reset on the character `R`, once the game is over.
    fn handle_unicode(&mut self, key: char)
        ensures
            final(self)@ == old(self)@.unicode_key(key),
    {
        match key {
            'R' => {
                if self.game_over {
                    self.r_is_pressed = true;
                }
            },
            _ => {},
        }
    }

    /// Takes the apple if the row is on it.
    fn collide_apple(&mut self)
        requires
            old(self)@.in_grid(),
            old(self)@.on_apple() ==> old(self)@.score + APPLE_SCORE <= isize::MAX,
        ensures
            final(self)@ == (if old(self)@.on_apple() {
                old(self)@.captured()
            } else {
                old(self)@
            }),
    {
        if self.col == self.a_col && self.row == self.a_row {
            self.score += APPLE_SCORE;
            self.make_new_apple_loc();
        }
    }

    /// Moves the apple on, and off the cells where it may not lie.
    fn make_new_apple_loc(&mut self)
        requires
            old(self)@.in_grid(),
        ensures
            final(self)@ == (MoverState {
                a_row: next_apple_row(old(self)@.a_row),
                a_col: next_apple_col(old(self)@.a_col),
                ..old(self)@
            }),
    {
        self.a_row = ring_sub_plain::<BUFFER_HEIGHT>(self.a_row, APPLE_JUMP);
        if self.a_row == 0 {
            self.a_row = ring_add_plain::<BUFFER_HEIGHT>(self.a_row, 1);
        } else if self.a_row == BUFFER_HEIGHT - 1 {
            self.a_row = ring_sub_plain::<BUFFER_HEIGHT>(self.a_row, 1);
        }
        self.a_col = ring_add_plain::<BUFFER_WIDTH>(self.a_col, APPLE_JUMP);
        if self.a_col == 0 {
            self.a_col = ring_add_plain::<BUFFER_WIDTH>(self.a_col, 1);
        } else if self.a_col == BUFFER_HEIGHT - 1 {
            self.a_col = ring_sub_plain::<BUFFER_WIDTH>(self.a_col, 1);
        }
    }

    /// Ends the game if the row is on the edge, and says whether it is.
    fn collide_bound(&mut self) -> (hit: bool)
        ensures
            hit == on_bound(old(self)@.col, old(self)@.row),
            final(self)@ == (if hit {
                MoverState { game_over: true, ..old(self)@ }
            } else {
                old(self)@
            }),
    {
        if self.col == BUFFER_WIDTH {
            self.game_over = true;
            true
        } else if self.col == 0 {
            self.game_over = true;
            true
        } else if self.row == 0 {
            self.game_over = true;
            true
        } else if self.row == BUFFER_HEIGHT {
            self.game_over = true;
            true
        } else {
            false
        }
    }
}

} // verus!
