use flappy_core::obstacle::Obstacle;
use flappy_core::player::Player;
use flappy_core::rng::rng_seeded;
use flappy_core::state::{GameKey, GameMode, State, TickEffect};
use flappy_core::{PLAYER_INIT_Y, PLAYER_X_OFFSET, SCREEN_HEIGHT, SCREEN_WIDTH};

fn fresh_state() -> State {
    State::new(99, &Vec::new())
}

#[test]
fn gravity_velocity_never_exceeds_cap() {
    let mut p = Player::new(5, 25);
    for _ in 0..50 {
        p.gravity_and_move();
        assert!(p.velocity <= 5);
    }
    assert_eq!(p.velocity, 5);
}

#[test]
fn flap_spam_is_not_cumulative() {
    let mut p = Player::new(5, 25);
    for _ in 0..10 {
        p.flap();
        assert_eq!(p.velocity, -5);
    }
}

#[test]
fn floor_clamps_to_zero_and_resets_velocity() {
    let mut p = Player::new(5, 3);
    p.flap();
    p.gravity_and_move();
    assert_eq!(p.y, 0);
    assert_eq!(p.velocity, 0);
}

#[test]
fn gravity_moves_and_scrolls() {
    let mut p = Player::new(5, 25);
    p.gravity_and_move();
    assert_eq!((p.x, p.y, p.velocity), (6, 26, 1));
}

#[test]
fn spawn_gap_center_in_range_and_size_floored() {
    let mut rng = rng_seeded(42);
    let ob = Obstacle::new(80, 0, &mut rng);
    assert_eq!(ob.x, 80);
    assert!(ob.gap_y >= 10 && ob.gap_y < 40);
    assert_eq!(ob.size, 20);
    let ob = Obstacle::new(80, 1000, &mut rng);
    assert_eq!(ob.size, 5);
}

#[test]
fn recycle_chains_off_last_obstacle_not_own_x() {
    let mut rng = rng_seeded(1);
    let mut a = Obstacle::new(0, 0, &mut rng);
    let mut b = Obstacle::new(37, 0, &mut rng);
    assert!(a.check_and_reset(100, 0, 300, &mut rng));
    assert_eq!(a.x, 340);
    assert!(b.check_and_reset(100, 0, 340, &mut rng));
    assert_eq!(b.x, 380);
}

#[test]
fn recycle_gap_never_impassable() {
    let mut rng = rng_seeded(7);
    let mut ob = Obstacle::new(0, 0, &mut rng);
    assert!(ob.check_and_reset(50, 1000, 200, &mut rng));
    assert!(ob.size / 2 >= 3);
    assert_eq!(ob.size, 6);
}

#[test]
fn no_recycle_before_the_actor_passes() {
    let mut rng = rng_seeded(7);
    let mut ob = Obstacle::new(500, 0, &mut rng);
    assert!(!ob.check_and_reset(50, 0, 200, &mut rng));
    assert_eq!(ob.x, 500);
}

#[test]
fn collision_only_outside_gap_at_trigger_column() {
    let ob = Obstacle { x: 30, gap_y: 25, size: 10 };
    let inside = Player { x: 25, y: 25, velocity: 0 };
    assert!(!ob.hit_player(&inside));
    let below = Player { x: 25, y: 31, velocity: 0 };
    assert!(ob.hit_player(&below));
    let above = Player { x: 25, y: 19, velocity: 0 };
    assert!(ob.hit_player(&above));
    let edge = Player { x: 25, y: 30, velocity: 0 };
    assert!(!ob.hit_player(&edge));
    let off_column = Player { x: 24, y: 31, velocity: 0 };
    assert!(!ob.hit_player(&off_column));
}

#[test]
fn menu_routes_to_play_scores_and_quit() {
    let mut s = fresh_state();
    let eff = s.tick(Some(GameKey::Letter('H')), 0);
    assert!(matches!(eff, TickEffect::Proceed));
    assert!(matches!(s.mode, GameMode::HighScore));
    s.tick(Some(GameKey::Letter('M')), 0);
    assert!(matches!(s.mode, GameMode::Menu));
    s.tick(Some(GameKey::Letter('S')), 0);
    assert!(matches!(s.mode, GameMode::Playing));
    let mut s = fresh_state();
    let eff = s.tick(Some(GameKey::Letter('Q')), 0);
    assert!(matches!(eff, TickEffect::Quit));
    assert!(matches!(s.mode, GameMode::Menu));
}

#[test]
fn accumulator_discards_remainder_and_steps_once() {
    let mut s = fresh_state();
    s.tick(Some(GameKey::Letter('S')), 0);
    let (x0, y0) = (s.player.x, s.player.y);
    s.tick(None, 40);
    assert_eq!(s.frame_time, 40);
    assert_eq!((s.player.x, s.player.y), (x0, y0));
    s.tick(None, 40);
    assert_eq!(s.frame_time, 0);
    assert_eq!((s.player.x, s.player.y, s.player.velocity), (x0 + 1, y0 + 1, 1));
    s.tick(None, 200);
    assert_eq!((s.player.x, s.player.y, s.player.velocity), (x0 + 2, y0 + 3, 2));
}

#[test]
fn flap_applies_during_play() {
    let mut s = fresh_state();
    s.tick(Some(GameKey::Letter('S')), 0);
    s.tick(Some(GameKey::Space), 0);
    assert_eq!(s.player.velocity, -5);
}

#[test]
fn falling_past_bottom_ends_run() {
    let mut s = fresh_state();
    s.tick(Some(GameKey::Letter('S')), 0);
    s.player.y = SCREEN_HEIGHT + 1;
    s.tick(None, 0);
    assert!(matches!(s.mode, GameMode::End));
}

#[test]
fn collision_ends_run_at_trigger_column() {
    let mut s = fresh_state();
    s.tick(Some(GameKey::Letter('S')), 0);
    s.obstacles[0] = Obstacle { x: 11, gap_y: 10, size: 10 };
    s.tick(Some(GameKey::Space), 100);
    assert!(matches!(s.mode, GameMode::End));
    assert_eq!(s.player.velocity, 1);
}

#[test]
fn passing_an_obstacle_scores_and_recycles() {
    let mut s = fresh_state();
    s.tick(Some(GameKey::Letter('S')), 0);
    s.obstacles[0] = Obstacle { x: 1, gap_y: 20, size: 10 };
    s.tick(None, 75);
    assert_eq!(s.score, 1);
    assert_eq!(s.obstacles[0].x, s.last_obstacle_x);
    assert_eq!(s.obstacles[0].x, 3 * SCREEN_WIDTH + 40);
    assert_eq!(s.obstacles[0].size, 20);
}

#[test]
fn restart_from_end_resets_everything() {
    let mut s = fresh_state();
    s.mode = GameMode::End;
    s.score = 12;
    s.player = Player { x: 400, y: 49, velocity: 5 };
    s.last_obstacle_x = 1000;
    s.obstacles[0].x = 500;
    let eff = s.tick(Some(GameKey::Letter('R')), 0);
    assert!(matches!(eff, TickEffect::Proceed));
    assert!(matches!(s.mode, GameMode::Playing));
    assert_eq!(s.score, 0);
    assert_eq!(
        (s.player.x, s.player.y, s.player.velocity),
        (PLAYER_X_OFFSET, PLAYER_INIT_Y, 0)
    );
    assert_eq!(s.last_obstacle_x, 3 * SCREEN_WIDTH);
    for i in 0..3 {
        assert_eq!(s.obstacles[i].x, SCREEN_WIDTH * (i as i32 + 1));
        assert_eq!(s.obstacles[i].size, 20);
        assert!(s.obstacles[i].gap_y >= 10 && s.obstacles[i].gap_y < 40);
    }
}

#[test]
fn edit_appends_erases_and_confirms() {
    let mut s = fresh_state();
    s.mode = GameMode::End;
    s.tick(Some(GameKey::Letter('E')), 0);
    assert!(matches!(s.mode, GameMode::Edit));
    s.tick(Some(GameKey::Letter('A')), 0);
    s.tick(Some(GameKey::Digit('3')), 0);
    assert_eq!(s.player_name, "PLAYER1A3");
    s.tick(Some(GameKey::Back), 0);
    assert_eq!(s.player_name, "PLAYER1A");
    s.tick(Some(GameKey::Space), 0);
    assert_eq!(s.player_name, "PLAYER1A");
    s.tick(Some(GameKey::Return), 0);
    assert!(matches!(s.mode, GameMode::End));
}

#[test]
fn backspace_on_empty_name_is_harmless() {
    let mut s = fresh_state();
    s.mode = GameMode::Edit;
    for _ in 0..10 {
        s.tick(Some(GameKey::Back), 0);
    }
    assert_eq!(s.player_name, "");
}

#[test]
fn game_over_routes_menu_edit_and_quit() {
    let mut s = fresh_state();
    s.mode = GameMode::End;
    let eff = s.tick(Some(GameKey::Letter('Q')), 0);
    assert!(matches!(eff, TickEffect::Quit));
    assert!(matches!(s.mode, GameMode::End));
    s.tick(Some(GameKey::Letter('M')), 0);
    assert!(matches!(s.mode, GameMode::Menu));
    s.mode = GameMode::End;
    s.tick(Some(GameKey::Letter('E')), 0);
    assert!(matches!(s.mode, GameMode::Edit));
}

#[test]
fn score_screen_routes_back_and_restarts() {
    let mut s = fresh_state();
    s.mode = GameMode::HighScore;
    s.tick(Some(GameKey::Letter('M')), 0);
    assert!(matches!(s.mode, GameMode::Menu));
    s.mode = GameMode::HighScore;
    s.tick(Some(GameKey::Letter('S')), 0);
    assert!(matches!(s.mode, GameMode::Playing));
    assert_eq!(s.score, 0);
}

#[test]
fn new_game_defaults() {
    let s = State::new(1, &Vec::new());
    assert!(matches!(s.mode, GameMode::Menu));
    assert_eq!(s.player_name, "PLAYER1");
    assert_eq!(s.score, 0);
    assert_eq!((s.player.x, s.player.y, s.player.velocity), (5, 25, 0));
    assert_eq!(s.obstacles.len(), 3);
    for i in 0..3 {
        assert_eq!(s.obstacles[i].x, 80 * (i as i32 + 1));
    }
    assert_eq!(s.last_obstacle_x, 240);
    assert_eq!(s.frame_time, 0);
}
