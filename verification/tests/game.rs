use flappy_square::game::{Game, Input, SPAWN_INTERVAL};
use flappy_square::pipe::{Pipe, Rect};
use flappy_square::player::Player;
use flappy_square::timer::Timer;
use flappy_square::units::{Vec2, PIXEL, PIXEL_PER_SECOND};

const SECOND: u128 = 1_000_000;

fn jump() -> Input {
    Input { up: false, space: false, pointer: true }
}

fn started_game() -> Game {
    let mut game = Game::new();
    game.game_started = true;
    game
}

#[test]
fn new_game_waits_for_the_first_jump() {
    let game = Game::new();
    assert_eq!(game.player, Player::new());
    assert!(!game.game_started);
    assert!(game.pipes.is_empty());
    assert_eq!(game.timer.interval(), 1);
    assert_eq!(SPAWN_INTERVAL, 1);
    assert!(!game.timer.is_oneshot());
    assert!(!game.timer.is_stopped());
}

#[test]
fn any_of_the_three_inputs_is_a_jump() {
    assert!(!Input::none().is_jump());
    assert!(Input { up: true, space: false, pointer: false }.is_jump());
    assert!(Input { up: false, space: true, pointer: false }.is_jump());
    assert!(Input { up: false, space: false, pointer: true }.is_jump());
    assert!(Input { up: true, space: true, pointer: true }.is_jump());
}

#[test]
fn player_holds_its_place_until_the_round_starts() {
    let mut game = Game::new();
    for _ in 0..10 {
        game.step(100_000, Input::none(), 10 * SECOND, 0);
    }
    assert_eq!(game.player, Player::new());
    assert_eq!(game.player.position, Vec2 { x: 426_666_666_666_666, y: 360 * PIXEL });
    assert!(!game.game_started);
    assert!(game.pipes.is_empty());
}

#[test]
fn frame_holds_the_player_until_the_round_starts() {
    let mut game = Game::new();
    for _ in 0..10 {
        game.frame(100_000, Input::none());
    }
    assert_eq!(game.player, Player::new());
    assert!(!game.game_started);
    assert!(game.pipes.is_empty());
}

#[test]
fn first_jump_starts_the_round() {
    let mut game = Game::new();
    game.step(16_667, jump(), 0, 0);
    assert!(game.game_started);
    assert_eq!(game.player.velocity.y, -650 * PIXEL_PER_SECOND);
    assert_eq!(game.player.position, Player::new().position);
    assert!(game.player.is_alive);
}

#[test]
fn several_inputs_at_once_are_one_jump() {
    let mut one = Game::new();
    one.step(16_667, jump(), 0, 0);
    let mut all = Game::new();
    all.step(16_667, Input { up: true, space: true, pointer: true }, 0, 0);
    assert_eq!(one.player, all.player);
    assert_eq!(one.game_started, all.game_started);
}

#[test]
fn gravity_acts_from_the_frame_after_the_first_jump() {
    let mut game = Game::new();
    game.step(100_000, jump(), 0, 0);
    assert_eq!(game.player.velocity.y, -650 * PIXEL_PER_SECOND);
    game.step(100_000, Input::none(), 0, 0);
    assert_eq!(game.player.position.y, 295 * PIXEL);
    assert_eq!(game.player.velocity.y, -463 * PIXEL_PER_SECOND);
    game.step(100_000, Input::none(), 0, 0);
    assert_eq!(game.player.position.y, 248_700_000_000_000);
    assert_eq!(game.player.velocity.y, -276 * PIXEL_PER_SECOND);
}

#[test]
fn jump_in_a_started_round_overrides_gravity() {
    let mut game = started_game();
    game.player.velocity.y = 200 * PIXEL_PER_SECOND;
    game.step(100_000, jump(), 0, 0);
    assert_eq!(game.player.velocity.y, -650 * PIXEL_PER_SECOND);
    assert_eq!(game.player.position.y, 380 * PIXEL);
}

#[test]
fn player_beyond_the_bottom_dies_and_the_next_frame_resets() {
    let mut game = started_game();
    game.player.position.y = 700 * PIXEL;
    game.player.velocity.y = 210 * PIXEL_PER_SECOND;
    game.pipes.push(Pipe::spawn(0));
    game.step(100_000, Input::none(), 0, 0);
    assert_eq!(game.player.position.y, 721 * PIXEL);
    assert!(!game.player.is_alive);
    assert!(game.game_started);
    assert_eq!(game.pipes.len(), 1);
    game.step(100_000, Input::none(), 5 * SECOND, 0);
    assert_eq!(game.player, Player::new());
    assert!(game.player.is_alive);
    assert!(!game.game_started);
    assert!(game.pipes.is_empty());
}

#[test]
fn player_at_the_top_dies() {
    let mut game = started_game();
    game.player.position.y = 5 * PIXEL;
    game.player.velocity.y = -650 * PIXEL_PER_SECOND;
    game.step(16_667, Input::none(), 0, 0);
    assert!(game.player.position.y < 0);
    assert!(!game.player.is_alive);
}

#[test]
fn dead_frame_ignores_input_and_timer() {
    let mut game = started_game();
    game.player.is_alive = false;
    game.player.position.y = 721 * PIXEL;
    game.pipes.push(Pipe::spawn(0));
    game.pipes.push(Pipe::spawn(10));
    game.step(1_000_000, jump(), 100 * SECOND, 42);
    assert_eq!(game.player, Player::new());
    assert!(!game.game_started);
    assert!(game.pipes.is_empty());
    assert!(!game.timer.is_stopped());
}

#[test]
fn frame_resets_after_a_death() {
    let mut game = started_game();
    game.player.is_alive = false;
    game.pipes.push(Pipe::spawn(0));
    game.frame(1_000_000, jump());
    assert_eq!(game.player, Player::new());
    assert!(!game.game_started);
    assert!(game.pipes.is_empty());
}

#[test]
fn one_second_on_a_fresh_timer_spawns_one_pipe() {
    let mut game = started_game();
    game.step(0, Input::none(), SECOND, 25 * PIXEL);
    assert_eq!(game.pipes.len(), 1);
    assert_eq!(game.pipes[0], Pipe::spawn(25 * PIXEL));
    assert_eq!(game.pipes[0].position, Vec2 { x: 1344 * PIXEL, y: 335 * PIXEL });
    assert_eq!(game.pipes[0].velocity, Vec2 { x: -300 * PIXEL_PER_SECOND, y: 0 });
}

#[test]
fn half_a_second_after_a_pipe_spawns_nothing() {
    let mut game = started_game();
    game.step(0, Input::none(), SECOND, 0);
    assert_eq!(game.pipes.len(), 1);
    assert_eq!(game.timer.start(), SECOND);
    game.step(0, Input::none(), SECOND + 500_000, 0);
    assert_eq!(game.pipes.len(), 1);
    game.step(0, Input::none(), 2 * SECOND - 1, 0);
    assert_eq!(game.pipes.len(), 1);
    game.step(0, Input::none(), 2 * SECOND, 0);
    assert_eq!(game.pipes.len(), 2);
}

#[test]
fn five_seconds_of_waiting_do_not_count_towards_the_first_pipe() {
    let mut game = Game::new();
    for frame in 0..50u128 {
        game.step(100_000, Input::none(), frame * 100_000, 0);
    }
    assert!(game.pipes.is_empty());
    assert_eq!(game.timer.start(), 0);
    game.step(0, jump(), 5 * SECOND, 0);
    assert!(game.game_started);
    assert!(game.pipes.is_empty());
    assert_eq!(game.timer.start(), 5 * SECOND);
    game.player.jump_force = 0;
    game.player.gravity_force = 0;
    game.player.velocity.y = 0;
    game.step(0, Input::none(), 6 * SECOND - 1, 0);
    assert!(game.pipes.is_empty());
    game.step(0, Input::none(), 6 * SECOND, 0);
    assert_eq!(game.pipes.len(), 1);
}

#[test]
fn a_later_jump_does_not_restart_the_timer() {
    let mut game = started_game();
    game.player.jump_force = 0;
    game.player.gravity_force = 0;
    game.step(0, jump(), 900_000, 0);
    assert_eq!(game.timer.start(), 0);
    game.step(0, jump(), SECOND, 0);
    assert_eq!(game.pipes.len(), 1);
}

#[test]
fn nine_tenths_of_a_second_spawn_nothing() {
    let mut game = started_game();
    game.step(0, Input::none(), 900_000, 25 * PIXEL);
    assert!(game.pipes.is_empty());
    game.step(0, Input::none(), 999_999, 25 * PIXEL);
    assert!(game.pipes.is_empty());
}

#[test]
fn timer_is_not_polled_before_the_round_starts() {
    let mut game = Game::new();
    game.timer = Timer::new(0, true);
    game.step(16_667, Input::none(), 100 * SECOND, 0);
    assert!(game.pipes.is_empty());
    assert!(!game.timer.is_stopped());
    game.step(16_667, jump(), 100 * SECOND, 0);
    assert_eq!(game.pipes.len(), 1);
    assert!(game.timer.is_stopped());
    game.step(16_667, Input::none(), 100 * SECOND, 0);
    assert_eq!(game.pipes.len(), 1);
}

#[test]
fn pipes_enter_behind_the_others_and_scroll() {
    let mut game = started_game();
    game.player.gravity_force = 0;
    game.step(500_000, Input::none(), SECOND, -10 * PIXEL);
    game.step(500_000, Input::none(), 0, 0);
    game.step(500_000, Input::none(), 2 * SECOND, 20 * PIXEL);
    assert_eq!(game.pipes.len(), 2);
    assert_eq!(game.pipes[0].position, Vec2 { x: 1044 * PIXEL, y: 370 * PIXEL });
    assert_eq!(game.pipes[1].position, Vec2 { x: 1344 * PIXEL, y: 340 * PIXEL });
    assert!(game.pipes.iter().all(|p| p.velocity.x == -300 * PIXEL_PER_SECOND));
}

#[test]
fn pipes_are_never_removed_while_the_player_lives() {
    let mut game = started_game();
    game.player.gravity_force = 0;
    for frame in 1..=50u128 {
        game.step(1_000_000, Input::none(), frame * SECOND, 0);
    }
    assert_eq!(game.pipes.len(), 50);
    assert_eq!(game.pipes[0].position.x, (1344 - 49 * 300) * PIXEL);
    assert!(game.player.is_alive);
}

#[test]
fn update_player_and_advance_pipes_are_the_parts_of_a_frame() {
    let mut game = started_game();
    game.pipes.push(Pipe::spawn(0));
    game.update_player(100_000, false, 0);
    assert_eq!(game.player.velocity.y, 187 * PIXEL_PER_SECOND);
    assert_eq!(game.pipes[0].position.x, 1344 * PIXEL);
    game.advance_pipes(100_000);
    assert_eq!(game.pipes[0].position.x, 1314 * PIXEL);
    assert_eq!(game.player.velocity.y, 187 * PIXEL_PER_SECOND);
    game.spawn_pipe(-5);
    assert_eq!(game.pipes.len(), 2);
    assert_eq!(game.pipes[1].position.y, 360 * PIXEL + 5);
}

#[test]
fn frame_spawns_from_the_clock_with_offsets_in_the_spread() {
    let mut game = started_game();
    game.player.gravity_force = 0;
    game.timer = Timer::new(0, false);
    for _ in 0..100 {
        game.frame(0, Input::none());
    }
    assert_eq!(game.pipes.len(), 100);
    for pipe in game.pipes.iter() {
        assert_eq!(pipe.position.x, 1344 * PIXEL);
        assert!(210 * PIXEL < pipe.position.y);
        assert!(pipe.position.y <= 510 * PIXEL);
        assert_eq!(pipe.velocity, Vec2 { x: -300 * PIXEL_PER_SECOND, y: 0 });
        assert_eq!(pipe.size, Vec2 { x: 64 * PIXEL, y: 1280 * PIXEL });
    }
    assert!(game.pipes.iter().any(|p| p.position.y != game.pipes[0].position.y));
}

#[test]
fn frame_does_not_spawn_at_once_on_a_fresh_long_timer() {
    let mut game = started_game();
    game.timer = Timer::new(3600, false);
    game.frame(16_667, Input::none());
    assert!(game.pipes.is_empty());
    assert_eq!(game.player.velocity.y, 31_167_290);
}

#[test]
fn scene_shows_the_waiting_player_and_the_prompt() {
    let scene = Game::new().scene();
    assert_eq!(
        scene.player,
        Some(Rect {
            position: Vec2 { x: 426_666_666_666_666, y: 360 * PIXEL },
            size: Vec2 { x: 64 * PIXEL, y: 64 * PIXEL },
        })
    );
    assert!(scene.prompt);
    assert!(scene.obstacles.is_empty());
}

#[test]
fn scene_lists_two_rectangles_for_each_pipe() {
    let mut game = started_game();
    game.pipes.push(Pipe::spawn(0));
    game.pipes.push(Pipe::spawn(100 * PIXEL));
    let scene = game.scene();
    assert!(!scene.prompt);
    assert!(scene.player.is_some());
    assert_eq!(scene.obstacles.len(), 4);
    assert_eq!(scene.obstacles[0], game.pipes[0].lower_rect());
    assert_eq!(scene.obstacles[1], game.pipes[0].upper_rect());
    assert_eq!(scene.obstacles[2].position, Vec2 { x: 1344 * PIXEL, y: 380 * PIXEL });
    assert_eq!(scene.obstacles[3].position, Vec2 { x: 1344 * PIXEL, y: -1140 * PIXEL });
}

#[test]
fn scene_of_a_dead_player_is_empty() {
    let mut game = started_game();
    game.pipes.push(Pipe::spawn(0));
    game.player.is_alive = false;
    let scene = game.scene();
    assert_eq!(scene.player, None);
    assert!(!scene.prompt);
    assert!(scene.obstacles.is_empty());
}

#[test]
fn time_spent_waiting_does_not_count_towards_the_first_pipe() {
    let began = std::time::Instant::now();
    let mut game = Game::new();
    game.player.gravity_force = 0;
    game.player.jump_force = 0;
    while began.elapsed() < std::time::Duration::from_millis(1100) {
        game.frame(1000, Input::none());
    }
    assert!(!game.game_started);
    assert!(game.pipes.is_empty());
    game.frame(1000, jump());
    assert!(game.game_started);
    assert!(game.pipes.is_empty());
    let started = std::time::Instant::now();
    while game.pipes.is_empty() {
        game.frame(1000, Input::none());
        assert!(started.elapsed() < std::time::Duration::from_secs(10));
    }
    assert!(started.elapsed() >= std::time::Duration::from_millis(999));
    assert_eq!(game.pipes.len(), 1);
}
