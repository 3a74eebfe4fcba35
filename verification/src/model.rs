//! The game as mathematics: the state as a record of integers, and each
//! transition as a function from state to state.

use crate::ring::{wrap_add, wrap_sub};
use crate::screen::{
    apple_op, banner_ops, clear_ops, erase_ops, game_over_text, reset_text, score_op,
    segment_ops, DrawOp, BUFFER_HEIGHT, BUFFER_WIDTH,
};
use vstd::prelude::*;

verus! {

/// Points won by reaching the apple.
pub const APPLE_SCORE: isize = 5;

/// How far the apple moves, left to right and upwards, when it is reached.
pub const APPLE_JUMP: usize = 5;

/// The glyph of the moving row.
pub const SEGMENT_GLYPH: char = '#';

/// The glyph of the apple.
pub const APPLE_GLYPH: char = 'A';

/// What a key press means to the game, when it is not a character.
#[derive(Clone, Copy, Debug, PartialEq, Eq, Structural)]
pub enum RawKey {
    ArrowLeft,
    ArrowRight,
    ArrowUp,
    ArrowDown,
    /// Any other key.
    Other,
}

/// One event from the keyboard.
#[derive(Clone, Copy, Debug, PartialEq, Eq, Structural)]
pub enum KeyInput {
    /// A key that stands for no character.
    RawKey(RawKey),
    /// A key that was decoded to a character.
    Unicode(char),
}

/// The state of the game. Positions and velocities are ring values: a column
/// lies in `[0, BUFFER_WIDTH)`, a row in `[0, BUFFER_HEIGHT)`, and a step
/// backwards is the extent less one.
pub struct MoverState {
    pub letters: Seq<char>,
    pub num_letters: int,
    pub next_letter: int,
    pub col: int,
    pub row: int,
    pub dx: int,
    pub dy: int,
    pub r_is_pressed: bool,
    pub game_over: bool,
    pub apple: char,
    pub a_col: int,
    pub a_row: int,
    pub score: int,
}

/// The velocity is one step along one axis.
pub open spec fn unit_velocity(dx: int, dy: int) -> bool {
    ||| (dx == 1 && dy == 0)
    ||| (dx == BUFFER_WIDTH - 1 && dy == 0)
    ||| (dx == 0 && dy == 1)
    ||| (dx == 0 && dy == BUFFER_HEIGHT - 1)
}

/// The position lies on the edge that ends the game.
pub open spec fn on_bound(col: int, row: int) -> bool {
    col == BUFFER_WIDTH || col == 0 || row == 0 || row == BUFFER_HEIGHT
}

impl MoverState {
    /// Every ring value lies in its ring.
    pub open spec fn in_grid(self) -> bool {
        &&& self.letters.len() == BUFFER_WIDTH
        &&& 0 <= self.num_letters < BUFFER_WIDTH
        &&& 0 <= self.next_letter < BUFFER_WIDTH
        &&& 0 <= self.col < BUFFER_WIDTH
        &&& 0 <= self.row < BUFFER_HEIGHT
        &&& 0 <= self.dx < BUFFER_WIDTH
        &&& 0 <= self.dy < BUFFER_HEIGHT
        &&& 0 <= self.a_col < BUFFER_WIDTH
        &&& 0 <= self.a_row < BUFFER_HEIGHT
    }

    /// What holds of every state that the game can reach.
    pub open spec fn wf(self) -> bool {
        &&& self.in_grid()
        &&& forall|i: int| 0 <= i < BUFFER_WIDTH ==> self.letters[i] == SEGMENT_GLYPH
        &&& (self.game_over <==> on_bound(self.col, self.row))
        &&& (self.game_over ==> self.dx == 0 && self.dy == 0)
        &&& (!self.game_over ==> unit_velocity(self.dx, self.dy))
        &&& (self.r_is_pressed ==> self.game_over)
        &&& self.apple == APPLE_GLYPH
        &&& self.a_col != 0
        &&& self.a_col != BUFFER_HEIGHT - 1
        &&& 0 < self.a_row < BUFFER_HEIGHT - 1
        &&& 0 <= self.score
    }

    /// The state with the position advanced by the velocity.
    pub open spec fn moved(self) -> MoverState {
        MoverState {
            col: wrap_add(self.col, self.dx, BUFFER_WIDTH as int),
            row: wrap_add(self.row, self.dy, BUFFER_HEIGHT as int),
            ..self
        }
    }

    /// The row is on the apple.
    pub open spec fn on_apple(self) -> bool {
        self.col == self.a_col && self.row == self.a_row
    }

    /// The state after the apple was reached: the score is higher and the
    /// apple has moved.
    pub open spec fn captured(self) -> MoverState {
        MoverState {
            score: self.score + APPLE_SCORE,
            a_row: next_apple_row(self.a_row),
            a_col: next_apple_col(self.a_col),
            ..self
        }
    }

    /// The state after the row has met the edge: the game is over, or, where
    /// a reset was asked for, begins again.
    pub open spec fn stopped(self) -> MoverState {
        if self.r_is_pressed {
            MoverState { apple: self.apple, ..initial_state() }
        } else {
            MoverState { game_over: true, dx: 0, dy: 0, ..self }
        }
    }

    /// The next step leads off the grid: to the column after the last or the
    /// row after the last, or onto column 0 or row 0.
    pub open spec fn leaves_grid(self) -> bool {
        ||| (self.dx == 1 && self.col + 1 == BUFFER_WIDTH)
        ||| (self.dx == BUFFER_WIDTH - 1 && self.col - 1 == 0)
        ||| (self.dy == 1 && self.row + 1 == BUFFER_HEIGHT)
        ||| (self.dy == BUFFER_HEIGHT - 1 && self.row - 1 == 0)
    }

    /// The next tick would add to the score.
    pub open spec fn scores_next(self) -> bool {
        !on_bound(self.moved().col, self.moved().row) && self.moved().on_apple()
    }

    /// The state after one tick.
    pub open spec fn tick(self) -> MoverState {
        let m = self.moved();
        if on_bound(m.col, m.row) {
            m.stopped()
        } else if m.on_apple() {
            m.captured()
        } else {
            m
        }
    }

    /// What one tick draws, in order.
    pub open spec fn tick_ops(self) -> Seq<DrawOp> {
        let m = self.moved();
        let n = self.tick();
        erase_ops(self.col, self.row, self.num_letters) + if on_bound(m.col, m.row) {
            banner_ops(game_over_text(), 0) + banner_ops(reset_text(), BUFFER_HEIGHT - 1) + if m.r_is_pressed {
                clear_ops()
            } else {
                Seq::empty()
            }
        } else {
            seq![apple_op(m.apple, m.a_col, m.a_row), score_op(m.score)] + segment_ops(
                n.letters,
                n.col,
                n.row,
                n.num_letters,
            )
        }
    }

    /// The state after a key that stands for no character.
    pub open spec fn raw_key(self, key: RawKey) -> MoverState {
        if self.game_over {
            self
        } else {
            match key {
                RawKey::ArrowLeft => MoverState { dx: BUFFER_WIDTH - 1, dy: 0, ..self },
                RawKey::ArrowRight => MoverState { dx: 1, dy: 0, ..self },
                RawKey::ArrowUp => MoverState { dx: 0, dy: BUFFER_HEIGHT - 1, ..self },
                RawKey::ArrowDown => MoverState { dx: 0, dy: 1, ..self },
                RawKey::Other => self,
            }
        }
    }

    /// The state after a key that was decoded to a character.
    pub open spec fn unicode_key(self, c: char) -> MoverState {
        if c == 'R' && self.game_over {
            MoverState { r_is_pressed: true, ..self }
        } else {
            self
        }
    }

    /// The state after one event from the keyboard.
    pub open spec fn key(self, key: KeyInput) -> MoverState {
        match key {
            KeyInput::RawKey(code) => self.raw_key(code),
            KeyInput::Unicode(c) => self.unicode_key(c),
        }
    }
}

/// The state after `n` ticks.
pub open spec fn ticks(s: MoverState, n: nat) -> MoverState
    decreases n,
{
    if n == 0 {
        s
    } else {
        ticks(s, (n - 1) as nat).tick()
    }
}

/// The state in which every game begins.
pub open spec fn initial_state() -> MoverState {
    MoverState {
        letters: Seq::new(BUFFER_WIDTH as nat, |i: int| SEGMENT_GLYPH),
        num_letters: 1,
        next_letter: 1,
        col: (BUFFER_WIDTH / 2) as int,
        row: (BUFFER_HEIGHT / 2) as int,
        dx: 1,
        dy: 0,
        r_is_pressed: false,
        game_over: false,
        apple: APPLE_GLYPH,
        a_col: (BUFFER_WIDTH / 2) as int,
        a_row: BUFFER_HEIGHT / 2 + APPLE_JUMP,
        score: 0,
    }
}

/// An edge correction: a value on `0` moves one forward, a value on `last`
/// one back, any other stays.
pub open spec fn off_edge(v: int, last: int, m: int) -> int {
    if v == 0 {
        wrap_add(v, 1, m)
    } else if v == last {
        wrap_sub(v, 1, m)
    } else {
        v
    }
}

/// The apple's row after it was reached: five rows up, round the edge, and
/// then off the top and the bottom row.
pub open spec fn next_apple_row(a_row: int) -> int {
    off_edge(
        wrap_sub(a_row, APPLE_JUMP as int, BUFFER_HEIGHT as int),
        BUFFER_HEIGHT - 1,
        BUFFER_HEIGHT as int,
    )
}

/// The apple's column after it was reached: five columns to the right, round
/// the edge, and then off column 0 and off the column whose number is that of
/// the bottom row.
pub open spec fn next_apple_col(a_col: int) -> int {
    off_edge(
        wrap_add(a_col, APPLE_JUMP as int, BUFFER_WIDTH as int),
        BUFFER_HEIGHT - 1,
        BUFFER_WIDTH as int,
    )
}

} // verus!
