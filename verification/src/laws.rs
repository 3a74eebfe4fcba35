//! What holds of the game whatever is played.

use crate::model::{
    initial_state, next_apple_col, next_apple_row, ticks, unit_velocity, KeyInput, MoverState,
    RawKey, APPLE_SCORE,
};
use crate::ring::wrap_add;
use crate::screen::{
    banner_ops, clear_ops, erase_ops, game_over_text, reset_text, BUFFER_HEIGHT, BUFFER_WIDTH,
};
use vstd::prelude::*;

verus! {

/// The first state of every game is a reachable state: the row stands in the
/// centre of the grid and moves right, the apple lies five rows below it, and
/// nothing is scored.
pub proof fn law_initial_state_wf()
    ensures
        initial_state().wf(),
        !initial_state().game_over,
        initial_state().col == BUFFER_WIDTH / 2,
        initial_state().row == BUFFER_HEIGHT / 2,
        initial_state().dx == 1 && initial_state().dy == 0,
        initial_state().a_col == BUFFER_WIDTH / 2,
        initial_state().a_row == BUFFER_HEIGHT / 2 + 5,
        initial_state().score == 0,
{
}

/// A tick leads from a reachable state to a reachable state.
pub proof fn law_tick_keeps_wf(s: MoverState)
    requires
        s.wf(),
    ensures
        s.tick().wf(),
{
}

/// A key leads from a reachable state to a reachable state.
pub proof fn law_key_keeps_wf(s: MoverState, key: KeyInput)
    requires
        s.wf(),
    ensures
        s.key(key).wf(),
{
}

/// Whatever a tick draws, it draws on the grid.
pub proof fn law_tick_draws_on_grid(s: MoverState, i: int)
    requires
        s.wf(),
        0 <= i < s.tick_ops().len(),
    ensures
        s.tick_ops()[i].on_grid(),
{
}

/// While the game runs, a tick moves the row by its velocity, which is one
/// step along one axis, and the new position is a cell of the grid. If the
/// game still runs afterwards, the velocity is what it was.
pub proof fn law_tick_moves_one_step(s: MoverState)
    requires
        s.wf(),
        !s.game_over,
    ensures
        unit_velocity(s.dx, s.dy),
        s.tick().col == wrap_add(s.col, s.dx, BUFFER_WIDTH as int),
        s.tick().row == wrap_add(s.row, s.dy, BUFFER_HEIGHT as int),
        0 <= s.tick().col < BUFFER_WIDTH,
        0 <= s.tick().row < BUFFER_HEIGHT,
        s.dx == 1 && s.col + 1 < BUFFER_WIDTH ==> s.tick().col == s.col + 1 && s.tick().row == s.row,
        s.dx == BUFFER_WIDTH - 1 ==> s.tick().col == s.col - 1 && s.tick().row == s.row,
        s.dy == 1 && s.row + 1 < BUFFER_HEIGHT ==> s.tick().row == s.row + 1 && s.tick().col == s.col,
        s.dy == BUFFER_HEIGHT - 1 ==> s.tick().row == s.row - 1 && s.tick().col == s.col,
        !s.tick().game_over ==> s.tick().dx == s.dx && s.tick().dy == s.dy,
{
}

/// A game that is over and was not reset stays as it is.
pub proof fn law_game_over_absorbs(s: MoverState, n: nat)
    requires
        s.wf(),
        s.game_over,
        !s.r_is_pressed,
    ensures
        ticks(s, n) == s,
    decreases n,
{
    if n > 0 {
        law_game_over_absorbs(s, (n - 1) as nat);
    }
}

/// If a game that ran at first runs after `n` ticks, it ran after each of
/// them.
pub proof fn law_run_is_alive(s: MoverState, n: nat, k: nat)
    requires
        s.wf(),
        !s.game_over,
        !ticks(s, n).game_over,
        k <= n,
    ensures
        !ticks(s, k).game_over,
    decreases n,
{
    if k < n {
        let m = (n - 1) as nat;
        law_ticks_keep_wf(s, m);
        law_no_reset_without_key(s, m);
        law_run_is_alive(s, m, k);
    }
}

/// Ticks lead from a reachable state to reachable states.
pub proof fn law_ticks_keep_wf(s: MoverState, n: nat)
    requires
        s.wf(),
    ensures
        ticks(s, n).wf(),
    decreases n,
{
    if n > 0 {
        law_ticks_keep_wf(s, (n - 1) as nat);
    }
}

/// Ticks alone ask for no reset.
pub proof fn law_no_reset_without_key(s: MoverState, n: nat)
    requires
        s.wf(),
        !s.r_is_pressed,
    ensures
        !ticks(s, n).r_is_pressed,
    decreases n,
{
    if n > 0 {
        law_no_reset_without_key(s, (n - 1) as nat);
        law_ticks_keep_wf(s, (n - 1) as nat);
    }
}

/// While the game runs, `n` ticks move the row `n` steps along the axis of
/// its velocity: each tick advances it by that velocity, round the ring, and
/// it never leaves the grid.
pub proof fn law_ticks_advance(s: MoverState, n: nat)
    requires
        s.wf(),
        !s.game_over,
        !ticks(s, n).game_over,
    ensures
        ticks(s, n).dx == s.dx,
        ticks(s, n).dy == s.dy,
        ticks(s, n).col == (s.col + n * s.dx) % (BUFFER_WIDTH as int),
        ticks(s, n).row == (s.row + n * s.dy) % (BUFFER_HEIGHT as int),
        0 <= ticks(s, n).col < BUFFER_WIDTH,
        0 <= ticks(s, n).row < BUFFER_HEIGHT,
    decreases n,
{
    if n > 0 {
        let m = (n - 1) as nat;
        law_run_is_alive(s, n, m);
        law_ticks_keep_wf(s, m);
        law_ticks_advance(s, m);
        let p = ticks(s, m);
        law_tick_moves_one_step(p);
        assert(n * s.dx == m * s.dx + s.dx) by (nonlinear_arith)
            requires
                n == m + 1,
        ;
        assert(n * s.dy == m * s.dy + s.dy) by (nonlinear_arith)
            requires
                n == m + 1,
        ;
    }
}

/// While the game runs, a tick ends it exactly when the step leads off the
/// grid. The row then stops, and stays where that step has put it.
pub proof fn law_edge_ends_game(s: MoverState)
    requires
        s.wf(),
        !s.game_over,
    ensures
        s.tick().game_over <==> s.leaves_grid(),
        s.tick().game_over ==> s.tick().dx == 0 && s.tick().dy == 0,
        s.tick().game_over ==> s.tick().col == s.moved().col && s.tick().row == s.moved().row,
        s.tick().game_over ==> s.tick().score == s.score,
{
}

/// Once the game is over and no reset was asked for, a tick changes nothing
/// and draws the two banners, after blanking the row where it stands.
pub proof fn law_game_over_redraws(s: MoverState)
    requires
        s.wf(),
        s.game_over,
        !s.r_is_pressed,
    ensures
        s.tick() == s,
        s.tick_ops() == erase_ops(s.col, s.row, s.num_letters) + banner_ops(game_over_text(), 0)
            + banner_ops(reset_text(), BUFFER_HEIGHT - 1),
{
    assert(s.tick_ops() =~= erase_ops(s.col, s.row, s.num_letters) + banner_ops(
        game_over_text(),
        0,
    ) + banner_ops(reset_text(), BUFFER_HEIGHT - 1));
}

/// While the game runs, the character `R` changes nothing.
pub proof fn law_reset_key_needs_game_over(s: MoverState)
    requires
        s.wf(),
        !s.game_over,
    ensures
        s.key(KeyInput::Unicode('R')) == s,
{
}

/// Once the game is over, the character `R` asks for a reset and changes
/// nothing else. The next tick puts the game into its first state and ends
/// what it draws with one blanking of the whole grid; the tick after that
/// blanks only the row.
pub proof fn law_reset_restarts(s: MoverState)
    requires
        s.wf(),
        s.game_over,
    ensures
        s.key(KeyInput::Unicode('R')) == (MoverState { r_is_pressed: true, ..s }),
        s.key(KeyInput::Unicode('R')).tick() == initial_state(),
        s.key(KeyInput::Unicode('R')).tick_ops() == erase_ops(s.col, s.row, s.num_letters)
            + banner_ops(game_over_text(), 0) + banner_ops(reset_text(), BUFFER_HEIGHT - 1)
            + clear_ops(),
        !initial_state().r_is_pressed,
        !initial_state().game_over,
        initial_state().tick_ops().len() == 4,
{
    let p = s.key(KeyInput::Unicode('R'));
    assert(p.tick_ops() =~= erase_ops(s.col, s.row, s.num_letters) + banner_ops(
        game_over_text(),
        0,
    ) + banner_ops(reset_text(), BUFFER_HEIGHT - 1) + clear_ops());
}

/// A tick that brings the row onto the apple adds five to the score and
/// moves the apple: five rows up and five columns right, round the ring. Its
/// new row is neither the top row nor the bottom row. Its new column is
/// neither column 0 nor the column whose number is that of the bottom row:
/// from column 0 it goes to column 1, from that column one to the left. Any
/// other tick leaves score and apple as they are, unless it restarts the game.
pub proof fn law_capture(s: MoverState)
    requires
        s.wf(),
    ensures
        s.scores_next() ==> s.tick().score == s.score + APPLE_SCORE,
        s.scores_next() ==> s.tick().a_row == next_apple_row(s.a_row),
        s.scores_next() ==> s.tick().a_col == next_apple_col(s.a_col),
        s.tick().a_row != 0,
        s.tick().a_row != BUFFER_HEIGHT - 1,
        s.tick().a_col != 0,
        s.tick().a_col != BUFFER_HEIGHT - 1,
        next_apple_col(s.a_col) == (if (s.a_col + 5) % 80 == 0 {
            1
        } else if (s.a_col + 5) % 80 == BUFFER_HEIGHT - 1 {
            BUFFER_HEIGHT - 2
        } else {
            (s.a_col + 5) % 80
        }),
        next_apple_row(s.a_row) == (if (s.a_row + 20) % 25 == 0 {
            1
        } else if (s.a_row + 20) % 25 == BUFFER_HEIGHT - 1 {
            BUFFER_HEIGHT - 2
        } else {
            (s.a_row + 20) % 25
        }),
        !s.scores_next() && !s.r_is_pressed ==> s.tick().score == s.score && s.tick().a_row
            == s.a_row && s.tick().a_col == s.a_col,
{
}

/// While the game runs, an arrow key sets the velocity to the one step in
/// its direction, whatever the velocity was, and changes nothing else.
pub proof fn law_arrow_sets_velocity(s: MoverState, key: RawKey)
    requires
        s.wf(),
        !s.game_over,
        key != RawKey::Other,
    ensures
        unit_velocity(s.raw_key(key).dx, s.raw_key(key).dy),
        key == RawKey::ArrowLeft ==> s.raw_key(key).dx == BUFFER_WIDTH - 1 && s.raw_key(key).dy == 0,
        key == RawKey::ArrowRight ==> s.raw_key(key).dx == 1 && s.raw_key(key).dy == 0,
        key == RawKey::ArrowUp ==> s.raw_key(key).dx == 0 && s.raw_key(key).dy == BUFFER_HEIGHT - 1,
        key == RawKey::ArrowDown ==> s.raw_key(key).dx == 0 && s.raw_key(key).dy == 1,
        s.raw_key(key) == (MoverState { dx: s.raw_key(key).dx, dy: s.raw_key(key).dy, ..s }),
        s.key(KeyInput::RawKey(key)) == s.raw_key(key),
{
}

/// Once the game is over, no key that is not the character `R` has any
/// effect, and while it runs, no key that is not an arrow has any.
pub proof fn law_other_keys_ignored(s: MoverState, key: KeyInput)
    requires
        s.wf(),
        match key {
            KeyInput::RawKey(code) => s.game_over || code == RawKey::Other,
            KeyInput::Unicode(c) => !s.game_over || c != 'R',
        },
    ensures
        s.key(key) == s,
{
}

} // verus!
