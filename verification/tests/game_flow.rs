use flappy::obstacle::Obstacle;
use flappy::player::Player;
use flappy::state::{GameMode, Key, State};

#[test]
fn fresh_game_starts_on_the_menu_with_a_reset_round() {
    let s = State::new();
    assert_eq!(s.mode, GameMode::Menu);
    assert_eq!(s.score, 0);
    assert_eq!(s.player.x, 5);
    assert_eq!(s.player.y, 25);
    assert_eq!(s.player.velocity_tenths, 0);
    assert_eq!(s.frame_time_micros, 0);
    assert_eq!(s.obstacle.x, 80);
    assert_eq!(s.obstacle.size, 20);
}

#[test]
fn confirm_from_the_menu_enters_play_at_the_initial_position() {
    let mut s = State::new();
    let quit = s.tick(16_000, Some(Key::Confirm));
    assert!(!quit);
    assert_eq!(s.mode, GameMode::Playing);
    assert_eq!(s.player.x, 5);
    assert_eq!(s.player.y, 25);
    assert_eq!(s.player.velocity_tenths, 0);
    assert_eq!(s.score, 0);
}

#[test]
fn quit_key_is_reported_and_leaves_the_state_alone() {
    let mut s = State::new();
    let quit = s.tick(16_000, Some(Key::Quit));
    assert!(quit);
    assert_eq!(s.mode, GameMode::Menu);
    assert_eq!(s.score, 0);
}

#[test]
fn other_keys_do_nothing_on_the_menu() {
    let mut s = State::new();
    assert!(!s.tick(16_000, Some(Key::Flap)));
    assert!(!s.tick(16_000, Some(Key::Other)));
    assert!(!s.tick(16_000, None));
    assert_eq!(s.mode, GameMode::Menu);
}

#[test]
fn passing_the_obstacle_scores_and_spawns_the_next_one_a_screen_ahead() {
    let mut s = State {
        player: Player::new(80, 25),
        frame_time_micros: 0,
        mode: GameMode::Playing,
        score: 0,
        obstacle: Obstacle {
            x: 80,
            width: 4,
            gap_y: 25,
            size: 20,
        },
    };
    // One logical tick moves the player to column 81, past the obstacle.
    s.playing(31, None);
    assert_eq!(s.score, 1);
    assert_eq!(s.obstacle.x, 81 + 80);
    // The replacement is parameterized by the updated score.
    assert_eq!(s.obstacle.size, 19);
    assert!(s.obstacle.width >= 3 && s.obstacle.width < 5 + 1 / 5);
    assert!(s.obstacle.gap_y >= 10 && s.obstacle.gap_y < 40);
    assert_eq!(s.mode, GameMode::Playing);
}

#[test]
fn falling_off_screen_ends_the_round_on_the_same_frame() {
    let mut s = State {
        player: Player {
            x: 20,
            y: 50,
            velocity_tenths: 20,
        },
        frame_time_micros: 10,
        mode: GameMode::Playing,
        score: 0,
        obstacle: Obstacle {
            x: 80,
            width: 4,
            gap_y: 25,
            size: 20,
        },
    };
    // The gravity tick carries the player to row 52, below the screen.
    s.playing(25, None);
    assert_eq!(s.player.y, 52);
    assert_eq!(s.mode, GameMode::GameOver);
}

#[test]
fn colliding_with_the_obstacle_ends_the_round() {
    let mut s = State {
        player: Player::new(9, 5),
        frame_time_micros: 0,
        mode: GameMode::Playing,
        score: 0,
        obstacle: Obstacle {
            x: 10,
            width: 4,
            gap_y: 25,
            size: 4,
        },
    };
    // The tick moves the player onto the bar, well above the gap.
    s.playing(31, None);
    assert_eq!(s.player.x, 10);
    assert_eq!(s.mode, GameMode::GameOver);
}

#[test]
fn no_physics_tick_runs_until_the_budget_is_passed() {
    let mut s = State::new();
    s.restart_game();
    // 30 microseconds exactly do not pass the budget; nothing moves yet.
    s.playing(30, None);
    assert_eq!(s.player.x, 5);
    assert_eq!(s.player.velocity_tenths, 0);
    assert_eq!(s.frame_time_micros, 30);
    // The next frame crosses the threshold and runs exactly one tick.
    s.playing(1, None);
    assert_eq!(s.player.x, 6);
    assert_eq!(s.player.velocity_tenths, 2);
    assert_eq!(s.frame_time_micros, 0);
}

#[test]
fn flap_responds_even_on_a_frame_without_a_physics_tick() {
    let mut s = State::new();
    s.restart_game();
    s.playing(5, Some(Key::Flap));
    assert_eq!(s.player.velocity_tenths, -20);
    assert_eq!(s.player.x, 5);
}

#[test]
fn confirm_key_has_no_effect_while_playing() {
    let mut s = State::new();
    s.restart_game();
    let quit = s.tick(31, Some(Key::Confirm));
    assert!(!quit);
    assert_eq!(s.mode, GameMode::Playing);
    // The frame ran as any other: one tick of physics, no restart.
    assert_eq!(s.player.x, 6);
}

#[test]
fn restart_resets_score_and_obstacle_regardless_of_the_prior_round() {
    let mut s = State {
        player: Player {
            x: 4000,
            y: 51,
            velocity_tenths: 22,
        },
        frame_time_micros: 12,
        mode: GameMode::GameOver,
        score: 37,
        obstacle: Obstacle {
            x: 4050,
            width: 9,
            gap_y: 13,
            size: 2,
        },
    };
    let quit = s.tick(16_000, Some(Key::Confirm));
    assert!(!quit);
    assert_eq!(s.mode, GameMode::Playing);
    assert_eq!(s.score, 0);
    assert_eq!(s.player.x, 5);
    assert_eq!(s.player.y, 25);
    assert_eq!(s.player.velocity_tenths, 0);
    assert_eq!(s.frame_time_micros, 0);
    // The obstacle is back at the score-zero parameter distribution.
    assert_eq!(s.obstacle.x, 80);
    assert_eq!(s.obstacle.size, 20);
    assert!(s.obstacle.width >= 3 && s.obstacle.width < 5);
    assert!(s.obstacle.gap_y >= 10 && s.obstacle.gap_y < 40);
}

#[test]
fn quit_works_from_the_game_over_screen_too() {
    let mut s = State::new();
    s.mode = GameMode::GameOver;
    let quit = s.tick(16_000, Some(Key::Quit));
    assert!(quit);
    assert_eq!(s.mode, GameMode::GameOver);
}

#[test]
fn a_scripted_round_keeps_the_player_on_or_above_the_floor() {
    // Drive a round from the menu with rhythmic flaps: whatever happens, the
    // player's row never goes negative and the score never goes down.
    let mut s = State::new();
    s.tick(16_000, Some(Key::Confirm));
    let mut last_score = 0;
    for i in 0..200 {
        if s.mode != GameMode::Playing {
            break;
        }
        let key = if i % 8 == 0 { Some(Key::Flap) } else { None };
        s.tick(31, key);
        assert!(s.player.y >= 0);
        assert!(s.score >= last_score);
        last_score = s.score;
    }
}
