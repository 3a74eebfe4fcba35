use letter_mover::{Color, DrawOp, KeyInput, LetterMover, RawKey, BUFFER_HEIGHT, BUFFER_WIDTH};

fn blank(col: usize, row: usize) -> DrawOp {
    DrawOp::Plot { glyph: ' ', col, row, fg: Color::Black, bg: Color::Black }
}

fn magenta(text: &str, row: usize) -> Vec<DrawOp> {
    text.chars()
        .enumerate()
        .map(|(i, glyph)| DrawOp::Plot { glyph, col: i, row, fg: Color::Magenta, bg: Color::Black })
        .collect()
}

fn banners() -> Vec<DrawOp> {
    let mut ops = magenta("GAME OVER", 0);
    ops.extend(magenta("PRESS R TO RESET", BUFFER_HEIGHT - 1));
    ops
}

fn press(game: &mut LetterMover, key: RawKey) {
    game.key(KeyInput::RawKey(key));
}

fn run(game: &mut LetterMover, ticks: usize) {
    for _ in 0..ticks {
        game.tick();
    }
}

/// Steers the row onto (col, row), first along the columns, then along the rows.
fn steer(game: &mut LetterMover, col: usize, row: usize) {
    if col > game.col() {
        press(game, RawKey::ArrowRight);
        run(game, col - game.col());
    } else if col < game.col() {
        press(game, RawKey::ArrowLeft);
        run(game, game.col() - col);
    }
    if row > game.row() {
        press(game, RawKey::ArrowDown);
        run(game, row - game.row());
    } else if row < game.row() {
        press(game, RawKey::ArrowUp);
        run(game, game.row() - row);
    }
}

fn over_at_right_edge() -> LetterMover {
    let mut game = LetterMover::new();
    run(&mut game, BUFFER_WIDTH / 2);
    game
}

#[test]
fn grid_is_eighty_by_twenty_five() {
    assert_eq!(BUFFER_WIDTH, 80);
    assert_eq!(BUFFER_HEIGHT, 25);
}

#[test]
fn new_game_starts_in_the_centre() {
    let game = LetterMover::new();
    assert_eq!(game.col(), 40);
    assert_eq!(game.row(), 12);
    assert_eq!(game.dx(), 1);
    assert_eq!(game.dy(), 0);
    assert_eq!(game.score(), 0);
    assert_eq!(game.apple_col(), 40);
    assert_eq!(game.apple_row(), 17);
    assert_eq!(game.segment_count(), 1);
    assert!(!game.is_game_over());
    assert!(!game.reset_requested());
    assert!(game.can_tick());
}

#[test]
fn first_tick_draws_in_order() {
    let mut game = LetterMover::new();
    let ops = game.tick();
    assert_eq!(
        ops,
        vec![
            blank(40, 12),
            DrawOp::Plot { glyph: 'A', col: 40, row: 17, fg: Color::Red, bg: Color::Black },
            DrawOp::PlotNum { value: 0, col: 0, row: 0, fg: Color::Yellow, bg: Color::Black },
            DrawOp::Plot { glyph: '#', col: 41, row: 12, fg: Color::Cyan, bg: Color::Black },
        ]
    );
    assert_eq!((game.col(), game.row()), (41, 12));
}

#[test]
fn tick_moves_one_cell_in_each_direction() {
    let mut game = LetterMover::new();
    game.tick();
    assert_eq!((game.col(), game.row()), (41, 12));
    press(&mut game, RawKey::ArrowDown);
    game.tick();
    assert_eq!((game.col(), game.row()), (41, 13));
    press(&mut game, RawKey::ArrowLeft);
    game.tick();
    assert_eq!((game.col(), game.row()), (40, 13));
    press(&mut game, RawKey::ArrowUp);
    game.tick();
    assert_eq!((game.col(), game.row()), (40, 12));
    assert!(!game.is_game_over());
}

#[test]
fn position_stays_on_the_grid() {
    let mut game = LetterMover::new();
    press(&mut game, RawKey::ArrowUp);
    for _ in 0..40 {
        game.tick();
        assert!(game.col() < BUFFER_WIDTH);
        assert!(game.row() < BUFFER_HEIGHT);
    }
}

#[test]
fn arrows_set_unit_velocities() {
    let mut game = LetterMover::new();
    press(&mut game, RawKey::ArrowLeft);
    assert_eq!((game.dx(), game.dy()), (BUFFER_WIDTH - 1, 0));
    press(&mut game, RawKey::ArrowDown);
    assert_eq!((game.dx(), game.dy()), (0, 1));
    press(&mut game, RawKey::ArrowUp);
    assert_eq!((game.dx(), game.dy()), (0, BUFFER_HEIGHT - 1));
    press(&mut game, RawKey::ArrowRight);
    assert_eq!((game.dx(), game.dy()), (1, 0));
}

#[test]
fn other_keys_change_nothing() {
    let mut game = LetterMover::new();
    let before = game;
    press(&mut game, RawKey::Other);
    assert_eq!(game, before);
    game.key(KeyInput::Unicode('r'));
    assert_eq!(game, before);
    game.key(KeyInput::Unicode('x'));
    assert_eq!(game, before);
}

#[test]
fn reset_key_is_ignored_while_alive() {
    let mut game = LetterMover::new();
    game.tick();
    let before = game;
    game.key(KeyInput::Unicode('R'));
    assert_eq!(game, before);
    assert!(!game.reset_requested());
}

#[test]
fn right_edge_ends_the_game() {
    let mut game = LetterMover::new();
    run(&mut game, BUFFER_WIDTH / 2 - 1);
    assert_eq!(game.col(), BUFFER_WIDTH - 1);
    assert!(!game.is_game_over());
    assert_eq!((game.dx(), game.dy()), (1, 0));
    let ops = game.tick();
    assert!(game.is_game_over());
    assert_eq!((game.dx(), game.dy()), (0, 0));
    assert_eq!((game.col(), game.row()), (0, 12));
    assert_eq!(game.score(), 0);
    let mut expected = vec![blank(BUFFER_WIDTH - 1, 12)];
    expected.extend(banners());
    assert_eq!(ops, expected);
}

#[test]
fn left_edge_ends_the_game() {
    let mut game = LetterMover::new();
    press(&mut game, RawKey::ArrowLeft);
    run(&mut game, 39);
    assert_eq!(game.col(), 1);
    assert!(!game.is_game_over());
    game.tick();
    assert!(game.is_game_over());
    assert_eq!((game.col(), game.row()), (0, 12));
    assert_eq!((game.dx(), game.dy()), (0, 0));
}

#[test]
fn top_edge_ends_the_game() {
    let mut game = LetterMover::new();
    press(&mut game, RawKey::ArrowUp);
    run(&mut game, 11);
    assert_eq!(game.row(), 1);
    assert!(!game.is_game_over());
    game.tick();
    assert!(game.is_game_over());
    assert_eq!((game.col(), game.row()), (40, 0));
    assert_eq!((game.dx(), game.dy()), (0, 0));
}

#[test]
fn bottom_edge_ends_the_game() {
    let mut game = LetterMover::new();
    game.tick();
    press(&mut game, RawKey::ArrowDown);
    run(&mut game, 12);
    assert_eq!(game.row(), BUFFER_HEIGHT - 1);
    assert!(!game.is_game_over());
    game.tick();
    assert!(game.is_game_over());
    assert_eq!((game.col(), game.row()), (41, 0));
    assert_eq!((game.dx(), game.dy()), (0, 0));
}

#[test]
fn game_over_repeats_the_banners_and_stays() {
    let mut game = over_at_right_edge();
    assert!(game.is_game_over());
    let before = game;
    for _ in 0..3 {
        let ops = game.tick();
        let mut expected = vec![blank(0, 12)];
        expected.extend(banners());
        assert_eq!(ops, expected);
        assert_eq!(game, before);
    }
}

#[test]
fn arrows_are_ignored_once_the_game_is_over() {
    let mut game = over_at_right_edge();
    let before = game;
    press(&mut game, RawKey::ArrowLeft);
    press(&mut game, RawKey::ArrowDown);
    assert_eq!(game, before);
    game.tick();
    assert_eq!((game.col(), game.row()), (0, 12));
}

#[test]
fn reset_key_then_tick_restarts_the_game() {
    let mut game = over_at_right_edge();
    game.key(KeyInput::Unicode('R'));
    assert!(game.reset_requested());
    assert!(game.is_game_over());
    let ops = game.tick();
    assert!(!game.is_game_over());
    assert!(!game.reset_requested());
    assert_eq!((game.col(), game.row()), (BUFFER_WIDTH / 2, BUFFER_HEIGHT / 2));
    assert_eq!((game.dx(), game.dy()), (1, 0));
    assert_eq!(game.score(), 0);
    assert_eq!((game.apple_col(), game.apple_row()), (BUFFER_WIDTH / 2, BUFFER_HEIGHT / 2 + 5));
    assert_eq!(game, LetterMover::new());

    let mut head = vec![blank(0, 12)];
    head.extend(banners());
    assert_eq!(ops.len(), head.len() + BUFFER_WIDTH * BUFFER_HEIGHT);
    assert_eq!(ops[..head.len()], head[..]);
    let clear = &ops[head.len()..];
    assert_eq!(clear[0], blank(0, 0));
    assert_eq!(clear[1], blank(0, 1));
    assert_eq!(clear[BUFFER_HEIGHT], blank(1, 0));
    assert_eq!(clear[clear.len() - 1], blank(BUFFER_WIDTH - 1, BUFFER_HEIGHT - 1));
    for (i, op) in clear.iter().enumerate() {
        assert_eq!(*op, blank(i / BUFFER_HEIGHT, i % BUFFER_HEIGHT));
    }
}

#[test]
fn grid_is_cleared_only_by_the_restarting_tick() {
    let mut game = over_at_right_edge();
    game.key(KeyInput::Unicode('R'));
    let restart = game.tick();
    assert_eq!(restart.len(), 1 + 9 + 16 + 2000);
    let next = game.tick();
    assert_eq!(next.len(), 4);
    assert_eq!((game.col(), game.row()), (41, 12));
}

#[test]
fn reaching_the_apple_scores_five_and_moves_it() {
    let mut game = LetterMover::new();
    press(&mut game, RawKey::ArrowDown);
    run(&mut game, 4);
    assert_eq!(game.score(), 0);
    assert_eq!((game.apple_col(), game.apple_row()), (40, 17));
    let ops = game.tick();
    assert_eq!((game.col(), game.row()), (40, 17));
    assert_eq!(game.score(), 5);
    assert_eq!((game.apple_col(), game.apple_row()), (45, 12));
    assert_eq!(
        ops,
        vec![
            blank(40, 16),
            DrawOp::Plot { glyph: 'A', col: 40, row: 17, fg: Color::Red, bg: Color::Black },
            DrawOp::PlotNum { value: 0, col: 0, row: 0, fg: Color::Yellow, bg: Color::Black },
            DrawOp::Plot { glyph: '#', col: 40, row: 17, fg: Color::Cyan, bg: Color::Black },
        ]
    );
    let ops = game.tick();
    assert_eq!(ops[1], DrawOp::Plot { glyph: 'A', col: 45, row: 12, fg: Color::Red, bg: Color::Black });
    assert_eq!(ops[2], DrawOp::PlotNum { value: 5, col: 0, row: 0, fg: Color::Yellow, bg: Color::Black });
    assert_eq!(game.score(), 5);
}

#[test]
fn apple_wraps_round_the_top_and_keeps_off_column_zero() {
    let mut game = LetterMover::new();
    let expected = [
        (45, 12),
        (50, 7),
        (55, 2),
        (60, 22),
        (65, 17),
        (70, 12),
        (75, 7),
        (1, 2),
        (6, 22),
    ];
    let mut score = 0;
    for (col, row) in expected {
        let (a_col, a_row) = (game.apple_col(), game.apple_row());
        steer(&mut game, a_col, a_row);
        score += 5;
        assert!(!game.is_game_over());
        assert_eq!(game.score(), score);
        assert_eq!((game.apple_col(), game.apple_row()), (col, row));
        assert!(game.apple_row() != 0 && game.apple_row() != BUFFER_HEIGHT - 1);
        assert!(game.apple_col() != 0 && game.apple_col() != BUFFER_HEIGHT - 1);
    }
    assert_eq!(game.score(), 45);
}

#[test]
fn score_survives_until_the_restart() {
    let mut game = LetterMover::new();
    steer(&mut game, 40, 17);
    assert_eq!(game.score(), 5);
    press(&mut game, RawKey::ArrowUp);
    run(&mut game, 17);
    assert!(game.is_game_over());
    assert_eq!(game.score(), 5);
    assert_eq!((game.apple_col(), game.apple_row()), (45, 12));
    game.key(KeyInput::Unicode('R'));
    game.tick();
    assert_eq!(game.score(), 0);
    assert_eq!((game.apple_col(), game.apple_row()), (40, 17));
}

#[test]
fn can_tick_on_every_step_of_a_run() {
    let mut game = LetterMover::new();
    for _ in 0..45 {
        assert!(game.can_tick());
        game.tick();
    }
    assert!(game.is_game_over());
}
