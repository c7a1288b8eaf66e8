//! The game state machine: scoring, leveling, pausing, ticking and cues.

use tetrix::field::{EMPTY_ROW, FIELD_HEIGHT};
use tetrix::game::{calc_level_speed, Cue, Game};
use tetrix::geometry::{Direction, Pos};
use tetrix::object::Object;
use tetrix::tetromino::Tetromino;

#[test]
fn test_level_speed_endpoints() {
    assert_eq!(calc_level_speed(1), 1000);
    assert_eq!(calc_level_speed(2), 972);
    assert_eq!(calc_level_speed(50), 250);
    assert_eq!(calc_level_speed(120), 250);
    assert_eq!(calc_level_speed(255), 250);
}

#[test]
fn test_level_speed_monotone() {
    let mut prev = calc_level_speed(1);
    for level in 2..=255u8 {
        let next = calc_level_speed(level);
        assert!(next <= prev);
        assert!((250..=1000).contains(&next));
        prev = next;
    }
}

#[test]
fn test_new_game_initial_state() {
    let game = Game::new();
    assert_eq!(game.score, 0);
    assert_eq!(game.level, 1);
    assert!(game.is_paused());
    assert!(!game.is_game_over());
    assert!(!game.should_exit());
    assert_eq!(game.last_tick, 0);
    assert_eq!(game.field.area, vec![EMPTY_ROW; FIELD_HEIGHT as usize]);
    assert_eq!(game.current_object.pos.y, 0);
}

#[test]
fn test_exit_flag() {
    let mut game = Game::new();
    assert!(!game.should_exit());
    game.exit();
    assert!(game.should_exit());
}

#[test]
fn test_set_paused_cues() {
    let mut game = Game::new();
    assert!(game.is_paused());

    // Setting the current state again does nothing.
    let cues = game.set_paused(true);
    assert!(cues.is_empty());

    let cues = game.set_paused(false);
    assert_eq!(
        cues,
        vec![Cue::Prerender, Cue::Render, Cue::PlayPauseSound, Cue::PlayBackgroundMusic]
    );
    assert!(!game.is_paused());

    let cues = game.set_paused(true);
    assert_eq!(
        cues,
        vec![Cue::Prerender, Cue::Render, Cue::PlayPauseSound, Cue::MuteBackgroundMusic]
    );
}

#[test]
fn test_reset_restores_initial_state() {
    let mut game = Game::new();
    game.score = 4200;
    game.level = 7;
    game.game_over = true;
    game.field.area[10] = u16::MAX;
    let cues = game.reset();
    assert_eq!(cues, vec![Cue::Prerender, Cue::Render]);
    assert_eq!(game.score, 0);
    assert_eq!(game.level, 1);
    assert!(game.is_paused());
    assert!(!game.is_game_over());
    assert_eq!(game.last_tick, 0);
    assert_eq!(game.field.area, vec![EMPTY_ROW; FIELD_HEIGHT as usize]);
}

fn fixed_o_piece(game: &mut Game, x: u16, y: u16) {
    game.current_object = Object::new(
        Tetromino::O,
        Direction::Up,
        Pos { x, y },
    );
}

#[test]
fn test_move_left_and_right() {
    let mut game = Game::new();
    fixed_o_piece(&mut game, 4, 0);

    let cues = game.move_current_object_left();
    assert_eq!(cues, vec![Cue::PlayMoveSound, Cue::Render]);
    assert_eq!(game.current_object.pos.x, 3);

    let cues = game.move_current_object_right();
    assert_eq!(cues, vec![Cue::PlayMoveSound, Cue::Render]);
    assert_eq!(game.current_object.pos.x, 4);
}

#[test]
fn test_move_right_blocked_at_wall() {
    let mut game = Game::new();
    fixed_o_piece(&mut game, 8, 0);

    // Columns 8 and 9 are the last two: one more step right leaves the
    // field's width and is refused.
    let cues = game.move_current_object_right();
    assert_eq!(cues, vec![Cue::PlayNoMoveSound]);
    assert_eq!(game.current_object.pos.x, 8);
}

#[test]
fn test_move_down_scores_one_point() {
    let mut game = Game::new();
    fixed_o_piece(&mut game, 4, 0);

    let cues = game.move_current_object_down();
    assert_eq!(cues, vec![Cue::PlayMoveSound, Cue::Render]);
    assert_eq!(game.current_object.pos.y, 1);
    assert_eq!(game.score, 1);

    // A blocked soft drop changes nothing and plays the blocked-move cue.
    fixed_o_piece(&mut game, 4, 18);
    let cues = game.move_current_object_down();
    assert_eq!(cues, vec![Cue::PlayNoMoveSound]);
    assert_eq!(game.current_object.pos.y, 18);
    assert_eq!(game.score, 1);
}

#[test]
fn test_rotate_cycles_facing() {
    let mut game = Game::new();
    fixed_o_piece(&mut game, 4, 0);

    let cues = game.rotate_current_object();
    assert_eq!(cues, vec![Cue::PlayRotateSound, Cue::Render]);
    assert_eq!(game.current_object.direction, Direction::Right);
}

#[test]
fn test_rotate_blocked_keeps_state() {
    let mut game = Game::new();
    // An I piece standing upright in the last column: rotated flat it would
    // need four columns and leave the field, so the rotation is refused.
    game.current_object = Object::new(Tetromino::I, Direction::Up, Pos { x: 9, y: 0 });

    let cues = game.rotate_current_object();
    assert_eq!(cues, vec![Cue::PlayNoRotateSound]);
    assert_eq!(game.current_object.direction, Direction::Up);
}

#[test]
fn test_drop_lands_and_scores() {
    let mut game = Game::new();
    fixed_o_piece(&mut game, 4, 0);

    let cues = game.drop_current_object_down();
    // The O piece falls 18 rows and rests on the floor, occupying rows 18
    // and 19; the drop awards floor(18 * 1.25) = 22 points.
    assert_eq!(game.score, 22);
    assert_eq!(cues.first(), Some(&Cue::PlayDropSound));
    assert_eq!(cues.last(), Some(&Cue::Render));
    // Columns 4 and 5 of rows 18 and 19 are bits 5 and 4.
    assert_eq!(game.field.area[18], EMPTY_ROW | 0b11_0000);
    assert_eq!(game.field.area[19], EMPTY_ROW | 0b11_0000);
    assert!(!game.is_game_over());
}

#[test]
fn test_drop_of_zero_rows_is_a_no_op() {
    let mut game = Game::new();
    // The piece already rests on the floor.
    fixed_o_piece(&mut game, 4, 18);
    let score_before = game.score;
    let cues = game.drop_current_object_down();
    assert!(cues.is_empty());
    assert_eq!(game.score, score_before);
    assert_eq!(game.current_object.pos.y, 18);
    assert_eq!(game.field.area, vec![EMPTY_ROW; FIELD_HEIGHT as usize]);
}

#[test]
fn test_level_up_crosses_threshold_once() {
    // The score crosses the level-1 threshold of 150 in one addition: the
    // level becomes exactly 2, not higher, however far the score overshoots.
    let mut game = Game::new();
    game.score = 149;
    game.level = 1;
    fixed_o_piece(&mut game, 4, 0);
    // Block rows 4 and below under the piece: the drop skips exactly 2 rows
    // and awards floor(2 * 1.25) = 2 points.
    for y in 4..FIELD_HEIGHT as usize {
        game.field.area[y] = EMPTY_ROW | 0b11_0000;
    }

    game.drop_current_object_down();
    assert_eq!(game.score, 151);
    assert_eq!(game.level, 2);
}

#[test]
fn test_score_and_level_never_decrease() {
    let mut game = Game::new();
    game.set_paused(false);
    let mut score = game.score;
    let mut level = game.level;
    for step in 0..200u64 {
        match step % 5 {
            0 => {
                game.move_current_object_left();
            },
            1 => {
                game.move_current_object_right();
            },
            2 => {
                game.rotate_current_object();
            },
            3 => {
                game.move_current_object_down();
            },
            _ => {
                game.drop_current_object_down();
            },
        }
        if game.is_game_over() {
            break;
        }
        assert!(game.score >= score);
        assert!(game.level >= level);
        score = game.score;
        level = game.level;
    }
}

#[test]
fn test_first_tick_sets_baseline_only() {
    let mut game = Game::new();
    game.set_paused(false);
    let r = game.tick_at(5000);
    assert_eq!(r, Ok(vec![Cue::Render]));
    assert_eq!(game.last_tick, 5000);
    assert_eq!(game.current_object.pos.y, 0);
}

#[test]
fn test_tick_ignored_while_paused() {
    let mut game = Game::new();
    assert!(game.is_paused());
    let r = game.tick_at(5000);
    assert_eq!(r, Ok(vec![]));
    assert_eq!(game.last_tick, 0);
}

#[test]
fn test_tick_polls_the_drop_interval() {
    let mut game = Game::new();
    game.set_paused(false);
    fixed_o_piece(&mut game, 4, 0);
    game.tick_at(1000).unwrap();

    // At level 1 the drop interval is 1000 ms: 500 ms later nothing moves.
    let r = game.tick_at(1500);
    assert_eq!(r, Ok(vec![]));
    assert_eq!(game.current_object.pos.y, 0);

    // Once the interval has elapsed, gravity advances the piece one row.
    let r = game.tick_at(2100);
    assert_eq!(r, Ok(vec![Cue::Render]));
    assert_eq!(game.current_object.pos.y, 1);
    assert_eq!(game.last_tick, 2100);
}

#[test]
fn test_tick_clears_pending_rows_before_gravity() {
    let mut game = Game::new();
    game.set_paused(false);
    fixed_o_piece(&mut game, 4, 0);
    game.tick_at(1000).unwrap();
    game.field.area[19] = u16::MAX;

    let r = game.tick_at(2500).unwrap();
    assert_eq!(r, vec![Cue::PlayLineClearSound, Cue::Render]);
    // One cleared row awards 10 points; gravity did not run in this tick.
    assert_eq!(game.score, 10);
    assert_eq!(game.field.area[19], EMPTY_ROW);
    assert_eq!(game.current_object.pos.y, 0);
    // The timer advances by half the elapsed time beyond the baseline.
    assert_eq!(game.last_tick, 2500 + (2500 - 1000) / 2);
}

#[test]
fn test_tick_four_cleared_rows_play_the_big_cue() {
    let mut game = Game::new();
    game.set_paused(false);
    fixed_o_piece(&mut game, 4, 0);
    game.tick_at(1000).unwrap();
    for y in 16..20 {
        game.field.area[y] = u16::MAX;
    }

    let r = game.tick_at(2500).unwrap();
    // Four cleared rows award 10 + 3 * 15 = 55 points.
    assert_eq!(r, vec![Cue::PlayTetrisLineClearSound, Cue::Render]);
    assert_eq!(game.score, 55);
}

#[test]
fn test_tick_lands_piece_and_spawns_next() {
    let mut game = Game::new();
    game.set_paused(false);
    fixed_o_piece(&mut game, 4, 18);
    game.tick_at(1000).unwrap();

    let r = game.tick_at(2100).unwrap();
    // The piece rests on the floor: it is committed and the next piece
    // enters play at the top.
    assert_eq!(game.field.area[18], EMPTY_ROW | 0b11_0000);
    assert_eq!(game.field.area[19], EMPTY_ROW | 0b11_0000);
    assert_eq!(game.current_object.pos.y, 0);
    assert!(!game.is_game_over());
    assert_eq!(r, vec![Cue::Render, Cue::Render]);
}

#[test]
fn test_next_without_spawn_column_ends_the_game() {
    let mut game = Game::new();
    // No two adjacent free columns at the top: the O piece cannot spawn.
    let striped: u16 = EMPTY_ROW | 0b10_1010_1010;
    game.field.area[0] = striped;
    game.field.area[1] = striped;
    game.next_object = (Tetromino::O, Direction::Up);

    let cues = game.next();
    assert!(game.is_game_over());
    assert_eq!(
        cues,
        vec![Cue::MuteBackgroundMusic, Cue::PlayGameOverSound, Cue::Render]
    );
}

#[test]
fn test_tick_reports_a_piece_that_no_longer_fits() {
    let mut game = Game::new();
    game.set_paused(false);
    fixed_o_piece(&mut game, 4, 0);
    game.tick_at(1000).unwrap();
    // Occupy the piece's own cells: it can neither fall nor be committed.
    game.field.area[0] = EMPTY_ROW | 0b11_0000;
    game.field.area[1] = EMPTY_ROW | 0b11_0000;
    game.field.area[2] = EMPTY_ROW | 0b11_0000;

    let r = game.tick_at(2100);
    assert!(r.is_err());
    // Nothing changed: the host treats the breach as fatal.
    assert_eq!(game.current_object.pos.y, 0);
    assert_eq!(game.score, 0);
}

#[test]
fn test_wall_clock_tick_runs() {
    let mut game = Game::new();
    game.set_paused(false);
    // The first wall-clock tick records a baseline from the real clock.
    let r = game.tick();
    assert!(r.is_ok());
    assert!(game.last_tick > 0);
}

#[test]
fn test_new_game_spawns_centered_at_top() {
    let game = Game::new();
    let (w, _) = game
        .current_object
        .tetromino
        .dimensions(&game.current_object.direction);
    assert_eq!(game.current_object.pos.y, 0);
    assert_eq!(game.current_object.pos.x, (10 - w) / 2);
}

#[test]
fn test_reset_spawns_centered_at_top() {
    let mut game = Game::new();
    fixed_o_piece(&mut game, 7, 13);
    game.field.area[10] = u16::MAX;
    game.reset();
    let (w, _) = game
        .current_object
        .tetromino
        .dimensions(&game.current_object.direction);
    assert_eq!(game.current_object.pos.y, 0);
    assert_eq!(game.current_object.pos.x, (10 - w) / 2);
}
