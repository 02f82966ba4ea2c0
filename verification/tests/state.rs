use flappy::caption::Caption;
use flappy::obstacle::Obstacle;
use flappy::player::Player;
use flappy::screen::{Colour, DrawCommand, Frame};
use flappy::state::{GameMode, Key, State, FRAME_DURATION, START_X, START_Y};

const STEP: u64 = FRAME_DURATION + 1;

fn started() -> State {
    let mut state = State::new();
    state.tick(Some(Key::P), 0);
    assert_eq!(state.mode(), GameMode::Playing);
    state
}

fn fall_to_the_end(state: &mut State) {
    while state.mode() == GameMode::Playing {
        state.tick(None, STEP);
    }
    assert_eq!(state.mode(), GameMode::End);
}

fn fly_towards(state: &mut State, row: i32) -> Frame {
    let key = if state.player().y > row { Some(Key::Space) } else { None };
    state.tick(key, STEP)
}

fn menu_commands() -> Vec<DrawCommand> {
    vec![
        DrawCommand::Clear,
        DrawCommand::PrintCentered { y: 5, caption: Caption::Title },
        DrawCommand::PrintCentered { y: 8, caption: Caption::PlayGame },
        DrawCommand::PrintCentered { y: 9, caption: Caption::QuitGame },
    ]
}

fn dead_commands(score: i32) -> Vec<DrawCommand> {
    vec![
        DrawCommand::Clear,
        DrawCommand::PrintCentered { y: 5, caption: Caption::GameOver },
        DrawCommand::PrintCentered { y: 7, caption: Caption::Earned(score) },
        DrawCommand::PrintCentered { y: 9, caption: Caption::PlayAgain },
        DrawCommand::PrintCentered { y: 10, caption: Caption::QuitGame },
    ]
}

fn assert_fresh(state: &State, mode: GameMode) {
    assert_eq!(state.mode(), mode);
    assert_eq!(state.score(), 0);
    assert_eq!(state.frame_time(), 0);
    assert_eq!(state.player(), Player { x: 5, y: 25, velocity: 0 });
    assert_eq!(state.obstacle().x, 80);
    assert_eq!(state.obstacle().size, 20);
    assert!(10 <= state.obstacle().gap_y && state.obstacle().gap_y < 40);
}

#[test]
fn the_game_begins_on_the_menu() {
    let state = State::new();
    assert_fresh(&state, GameMode::Menu);
    assert_eq!((START_X, START_Y), (5, 25));
    assert!(state.can_tick());
}

#[test]
fn p_on_the_menu_starts_a_game() {
    let mut state = State::new();
    let frame = state.tick(Some(Key::P), 0);
    assert_eq!(frame.commands, menu_commands());
    assert!(!frame.quit);
    assert_fresh(&state, GameMode::Playing);
    assert_eq!(state.obstacle(), Obstacle::with_gap(80, state.obstacle().gap_y, 0));
}

#[test]
fn q_on_the_menu_asks_to_quit() {
    let mut state = State::new();
    let before = state;
    let frame = state.tick(Some(Key::Q), 12);
    assert!(frame.quit);
    assert_eq!(frame.commands, menu_commands());
    assert_eq!(state, before);
}

#[test]
fn the_menu_ignores_other_keys_and_the_time() {
    let mut state = State::new();
    let before = state;
    for key in [None, Some(Key::Space), Some(Key::Other)] {
        let frame = state.tick(key, 1_000_000);
        assert!(!frame.quit);
        assert_eq!(frame.commands, menu_commands());
        assert_eq!(state, before);
    }
}

#[test]
fn the_menu_handler_is_what_a_tick_on_the_menu_runs() {
    let mut state = State::new();
    let frame = state.main_menu(Some(Key::Q));
    assert!(frame.quit);
    assert_eq!(state.mode(), GameMode::Menu);
    let frame = state.main_menu(Some(Key::P));
    assert!(!frame.quit);
    assert_eq!(frame.commands, menu_commands());
    assert_fresh(&state, GameMode::Playing);
}

#[test]
fn restart_resets_the_whole_game() {
    let mut state = started();
    for _ in 0..7 {
        state.tick(Some(Key::Space), STEP);
    }
    state.tick(None, 3);
    assert_ne!(state.player(), Player::new(5, 25));
    assert_eq!(state.frame_time(), 3);
    state.restart();
    assert_fresh(&state, GameMode::Playing);
}

#[test]
fn a_physics_step_waits_until_the_time_exceeds_the_frame_duration() {
    let mut state = started();
    state.tick(None, 20_000);
    assert_eq!(state.frame_time(), 20_000);
    assert_eq!(state.player(), Player { x: 5, y: 25, velocity: 0 });

    state.tick(None, 1);
    assert_eq!(state.frame_time(), 0);
    assert_eq!(state.player(), Player { x: 6, y: 25, velocity: 1 });

    state.tick(None, 19_999);
    assert_eq!(state.frame_time(), 19_999);
    assert_eq!(state.player(), Player { x: 6, y: 25, velocity: 1 });
}

#[test]
fn one_long_frame_fires_one_physics_step() {
    let mut state = started();
    state.tick(None, 20_001);
    assert_eq!(state.frame_time(), 0);
    assert_eq!(state.player(), Player { x: 6, y: 25, velocity: 1 });

    state.tick(None, 5_000);
    assert_eq!(state.frame_time(), 5_000);
    assert_eq!(state.player(), Player { x: 6, y: 25, velocity: 1 });

    state.tick(None, u64::MAX);
    assert_eq!(state.frame_time(), 0);
    assert_eq!(state.player(), Player { x: 7, y: 25, velocity: 2 });
}

#[test]
fn short_frames_add_up_to_a_physics_step() {
    let mut state = started();
    for gathered in [7_000, 14_000] {
        state.tick(None, 7_000);
        assert_eq!(state.frame_time(), gathered);
        assert_eq!(state.player().x, 5);
    }
    state.tick(None, 7_000);
    assert_eq!(state.frame_time(), 0);
    assert_eq!(state.player().x, 6);
}

#[test]
fn a_flap_does_not_wait_for_the_physics_step() {
    let mut state = started();
    state.tick(Some(Key::Space), 0);
    assert_eq!(state.player(), Player { x: 5, y: 25, velocity: -10 });
    assert_eq!(state.frame_time(), 0);
    state.tick(None, STEP);
    assert_eq!(state.player(), Player { x: 6, y: 24, velocity: -9 });
}

#[test]
fn a_flap_in_the_tick_of_a_physics_step_comes_after_it() {
    let mut state = started();
    for _ in 0..5 {
        state.tick(None, STEP);
    }
    assert_eq!(state.player(), Player { x: 10, y: 26, velocity: 5 });
    state.tick(Some(Key::Space), STEP);
    assert_eq!(state.player(), Player { x: 11, y: 27, velocity: -10 });
}

#[test]
fn play_ignores_the_menu_keys() {
    let mut state = started();
    for key in [Some(Key::P), Some(Key::Q), Some(Key::Other)] {
        let frame = state.tick(key, 10);
        assert!(!frame.quit);
        assert_eq!(state.mode(), GameMode::Playing);
        assert_eq!(state.player(), Player::new(5, 25));
        assert_eq!(state.score(), 0);
    }
    assert_eq!(state.frame_time(), 30);
}

#[test]
fn a_tick_of_play_draws_the_hint_the_score_the_player_and_the_walls() {
    let mut state = started();
    let obstacle = state.obstacle();
    let frame = state.tick(None, STEP);
    let mut expected = vec![
        DrawCommand::ClearBackground { colour: Colour::Navy },
        DrawCommand::Print { x: 0, y: 0, caption: Caption::FlapHint },
        DrawCommand::Print { x: 0, y: 1, caption: Caption::Score(0) },
        DrawCommand::Plot { x: 0, y: 25, fg: Colour::Yellow, bg: Colour::Black, glyph: 64 },
    ];
    expected.extend(obstacle.walls(6, 124));
    assert_eq!(frame.commands, expected);
    assert!(!frame.quit);
    let first_row = if obstacle.gap_y > 10 { 0 } else { 20 };
    assert_eq!(frame.commands[4], DrawCommand::Plot {
        x: 74,
        y: first_row,
        fg: Colour::Red,
        bg: Colour::Black,
        glyph: 124,
    });
}

#[test]
fn the_play_handler_is_what_a_tick_of_play_runs() {
    let mut state = started();
    let mut twin = state;
    let frame = state.play(Some(Key::Space), STEP);
    let twin_frame = twin.tick(Some(Key::Space), STEP);
    assert_eq!(frame, twin_frame);
    assert_eq!(state, twin);
    assert_eq!(state.player(), Player { x: 6, y: 25, velocity: -10 });
}

#[test]
fn falling_below_the_screen_ends_the_game() {
    let mut state = started();
    let mut steps = 0;
    while state.mode() == GameMode::Playing {
        assert!(state.player().y <= 50);
        state.tick(None, STEP);
        steps += 1;
    }
    assert_eq!(steps, 20);
    assert_eq!(state.mode(), GameMode::End);
    assert_eq!(state.player(), Player { x: 25, y: 52, velocity: 10 });
    assert!(state.player().y > 50);
    assert_eq!(state.score(), 0);
}

#[test]
fn row_fifty_is_still_on_the_screen() {
    let mut state = started();
    for _ in 0..19 {
        state.tick(None, STEP);
    }
    assert_eq!(state.player().y, 50);
    assert_eq!(state.mode(), GameMode::Playing);
    state.tick(None, STEP);
    assert_eq!(state.player().y, 52);
    assert_eq!(state.mode(), GameMode::End);
}

#[test]
fn flying_through_the_gap_earns_a_point_and_brings_a_narrower_gap() {
    let mut state = started();
    let first = state.obstacle();
    while state.player().x < 80 {
        fly_towards(&mut state, first.gap_y);
        assert_eq!(state.mode(), GameMode::Playing);
        assert_eq!(state.score(), 0);
        assert_eq!(state.obstacle(), first);
    }
    assert_eq!(state.player().x, 80);
    assert!(!first.hit_obstacle(&state.player()));

    let frame = fly_towards(&mut state, first.gap_y);
    assert_eq!(state.player().x, 81);
    assert_eq!(state.score(), 1);
    assert_eq!(state.mode(), GameMode::Playing);
    let second = state.obstacle();
    assert_eq!(second.x, 161);
    assert_eq!(second.size, 19);
    assert!(10 <= second.gap_y && second.gap_y < 40);
    assert_eq!(frame.commands[2], DrawCommand::Print { x: 0, y: 1, caption: Caption::Score(0) });
    assert_eq!(frame.commands[4..], first.walls(81, 124)[..]);

    let frame = fly_towards(&mut state, second.gap_y);
    assert_eq!(frame.commands[2], DrawCommand::Print { x: 0, y: 1, caption: Caption::Score(1) });
    assert_eq!(frame.commands[4..], second.walls(82, 124)[..]);
}

#[test]
fn the_score_stays_when_the_game_ends() {
    let mut state = started();
    let first = state.obstacle();
    while state.player().x <= 80 {
        fly_towards(&mut state, first.gap_y);
    }
    assert_eq!(state.score(), 1);
    fall_to_the_end(&mut state);
    assert!(state.player().y > 50);
    assert_eq!(state.score(), 1);
    let frame = state.tick(None, STEP);
    assert_eq!(frame.commands, dead_commands(1));
    assert_eq!(state.score(), 1);
}

#[test]
fn flying_into_the_wall_ends_the_game() {
    for _ in 0..20 {
        let mut state = started();
        let obstacle = state.obstacle();
        let row = if obstacle.gap_y - 10 > 0 { -1 } else { 35 };
        while state.player().x < 79 {
            fly_towards(&mut state, row);
            assert_eq!(state.mode(), GameMode::Playing);
        }
        fly_towards(&mut state, row);
        assert_eq!(state.player().x, 80);
        assert!(obstacle.hit_obstacle(&state.player()));
        assert_eq!(state.mode(), GameMode::End);
        assert_eq!(state.score(), 0);
        assert_eq!(state.obstacle(), obstacle);
    }
}

#[test]
fn the_end_screen_shows_the_score_and_waits() {
    let mut state = started();
    fall_to_the_end(&mut state);
    let before = state;
    for key in [None, Some(Key::Space), Some(Key::Other)] {
        let frame = state.tick(key, STEP);
        assert_eq!(frame.commands, dead_commands(0));
        assert!(!frame.quit);
        assert_eq!(state, before);
    }
}

#[test]
fn q_on_the_end_screen_asks_to_quit() {
    let mut state = started();
    fall_to_the_end(&mut state);
    let before = state;
    let frame = state.tick(Some(Key::Q), 0);
    assert!(frame.quit);
    assert_eq!(frame.commands, dead_commands(0));
    assert_eq!(state, before);
}

#[test]
fn p_on_the_end_screen_starts_over() {
    let mut state = started();
    let first = state.obstacle();
    while state.player().x <= 80 {
        fly_towards(&mut state, first.gap_y);
    }
    fall_to_the_end(&mut state);
    assert_eq!(state.score(), 1);
    let frame = state.tick(Some(Key::P), 0);
    assert!(!frame.quit);
    assert_eq!(frame.commands, dead_commands(1));
    assert_fresh(&state, GameMode::Playing);
}

#[test]
fn the_end_handler_is_what_a_tick_on_the_end_screen_runs() {
    let mut state = started();
    fall_to_the_end(&mut state);
    let frame = state.dead(Some(Key::Q));
    assert!(frame.quit);
    assert_eq!(state.mode(), GameMode::End);
    let frame = state.dead(Some(Key::P));
    assert!(!frame.quit);
    assert_eq!(frame.commands, dead_commands(0));
    assert_fresh(&state, GameMode::Playing);
}

#[test]
fn a_game_can_always_take_a_tick_near_the_start() {
    let mut state = State::new();
    assert!(state.can_tick());
    state.tick(Some(Key::P), 0);
    for _ in 0..200 {
        assert!(state.can_tick());
        state.tick(Some(Key::Space), STEP);
    }
    assert_eq!(state.mode(), GameMode::End);
    assert_eq!(state.player().y, 0);
}
