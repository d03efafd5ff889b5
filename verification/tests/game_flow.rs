//! Tests for the session orchestration and the game-flow state machine.

use ladybug_runner::consts::{
    BASE_SPEED, MAX_SPEED, PLAYER_H, SPAWN_LEAD, SPAWN_MAX, SPAWN_MIN, SPEED_GROWTH,
};
use ladybug_runner::game::{Game, GameState};
use ladybug_runner::geom::Vec2i;
use ladybug_runner::obstacle::Obstacle;
use ladybug_runner::session::Session;

const GROUND: i64 = 940_000_000;
const SCREEN_W: i64 = 1_000_000_000;

// an obstacle standing right on top of the freshly placed player
fn obstacle_on_player() -> Obstacle {
    Obstacle::with_size(SCREEN_W / 5, GROUND, BASE_SPEED, 50_000_000, 60_000_000)
}

#[test]
fn session_new_draws_interval_in_range() {
    for _ in 0..50 {
        let s = Session::new(SCREEN_W, GROUND);
        assert!(SPAWN_MIN <= s.next_spawn && s.next_spawn < SPAWN_MAX);
        assert_eq!(s.score, 0);
        assert_eq!(s.speed, BASE_SPEED);
        assert_eq!(s.spawn_timer, 0);
        assert!(s.obstacles.is_empty());
    }
}

#[test]
fn speed_ramp_scenario() {
    // scroll speed 30 px/s, one 1 s frame, far from the cap
    let mut s = Session::with_interval(SCREEN_W, GROUND, 1500);
    let hit = s.tick_with(1000, SCREEN_W, GROUND, false, 40_000_000, 50_000_000, 1000);
    assert!(!hit);
    assert_eq!(s.speed, 38_000);
    assert_eq!(s.speed, BASE_SPEED + SPEED_GROWTH * 1000);
    // the score accrues speed * dt score units at the new speed (3.8 points)
    assert_eq!(s.score, 38_000_000);
}

#[test]
fn speed_is_monotone_and_capped() {
    let mut s = Session::with_interval(SCREEN_W, GROUND, 1000);
    let mut last = s.speed;
    for _ in 0..300 {
        s.tick(100, SCREEN_W, GROUND, false);
        assert!(s.speed >= last);
        assert!(s.speed <= MAX_SPEED);
        last = s.speed;
    }
    // (140 - 30) px/s at 8 px/s^2 takes 13.75 s; 30 s have passed
    assert_eq!(s.speed, MAX_SPEED);
}

#[test]
fn tick_zero_dt_changes_nothing_essential() {
    let mut s = Session::with_interval(SCREEN_W, GROUND, 1000);
    let hit = s.tick_with(0, SCREEN_W, GROUND, false, 40_000_000, 50_000_000, 1000);
    assert!(!hit);
    assert_eq!(s.speed, BASE_SPEED);
    assert_eq!(s.score, 0);
    assert_eq!(s.spawn_timer, 0);
    assert!(s.obstacles.is_empty());
    assert!(s.player.on_ground);
}

#[test]
fn spawn_fires_when_timer_elapses() {
    let mut s = Session::with_interval(SCREEN_W, GROUND, 1000);
    s.spawn_timer = 999;
    let hit = s.tick_with(1, SCREEN_W, GROUND, false, 41_000_000, 52_000_000, 1234);
    assert!(!hit);
    assert_eq!(s.obstacles.len(), 1);
    let o = &s.obstacles[0];
    assert_eq!(o.size.x, 41_000_000);
    assert_eq!(o.size.y, 52_000_000);
    // spawned just past the right edge at the already-advanced speed,
    // then moved by its own first tick
    let speed_after = BASE_SPEED + SPEED_GROWTH;
    assert_eq!(o.speed, speed_after);
    assert_eq!(o.pos.x, SCREEN_W + SPAWN_LEAD - speed_after);
    // the timer resets and the supplied re-roll becomes the new deadline
    assert_eq!(s.spawn_timer, 0);
    assert_eq!(s.next_spawn, 1234);
}

#[test]
fn spawn_waits_for_its_deadline() {
    let mut s = Session::with_interval(SCREEN_W, GROUND, 1500);
    let _ = s.tick_with(1499, SCREEN_W, GROUND, false, 40_000_000, 50_000_000, 1000);
    assert!(s.obstacles.is_empty());
    assert_eq!(s.spawn_timer, 1499);
    assert_eq!(s.next_spawn, 1500);
    let _ = s.tick_with(1, SCREEN_W, GROUND, false, 40_000_000, 50_000_000, 1000);
    assert_eq!(s.obstacles.len(), 1);
}

#[test]
fn offscreen_obstacles_are_evicted_in_order() {
    let mut s = Session::with_interval(SCREEN_W, GROUND, 1500);
    let mut leaving = Obstacle::with_size(0, GROUND, 140_000, 40_000_000, 50_000_000);
    leaving.pos = Vec2i { x: -49_000_000, y: leaving.pos.y };
    let staying = Obstacle::with_size(500_000_000, GROUND, 30_000, 45_000_000, 55_000_000);
    s.obstacles.push(leaving);
    s.obstacles.push(staying);
    // 100 ms moves the first by 14 px: its right edge passes -10 px
    let hit = s.tick_with(100, SCREEN_W, GROUND, false, 40_000_000, 50_000_000, 1000);
    assert!(!hit);
    assert_eq!(s.obstacles.len(), 1);
    assert_eq!(s.obstacles[0].size.x, 45_000_000);
    assert_eq!(s.obstacles[0].pos.x, 500_000_000 - 30_000 * 100);
}

#[test]
fn collision_ends_the_run() {
    let mut s = Session::with_interval(SCREEN_W, GROUND, 1500);
    s.obstacles.push(obstacle_on_player());
    let hit = s.tick_with(0, SCREEN_W, GROUND, false, 40_000_000, 50_000_000, 1000);
    assert!(hit);
    // the obstacle is still there: collision does not evict it
    assert_eq!(s.obstacles.len(), 1);
}

#[test]
fn near_miss_is_not_a_collision() {
    let mut s = Session::with_interval(SCREEN_W, GROUND, 1500);
    // hitboxes are inset by 8 px and 4 px: sprites that overlap by 10 px
    // leave a 2 px gap between hitboxes
    let mut o = obstacle_on_player();
    o.pos = Vec2i { x: SCREEN_W / 5 - o.size.x + 10_000_000, y: o.pos.y };
    s.obstacles.push(o);
    let hit = s.tick_with(0, SCREEN_W, GROUND, false, 40_000_000, 50_000_000, 1000);
    assert!(!hit);
}

#[test]
fn menu_start_scenario() {
    let mut g = Game::new();
    assert!(matches!(g.state, GameState::Menu));
    // a frame without the jump signal stays on the menu
    g.step(16, SCREEN_W, GROUND, false, false);
    assert!(matches!(g.state, GameState::Menu));
    // the jump signal starts a fresh run
    g.step(16, SCREEN_W, GROUND, true, false);
    match &g.state {
        GameState::Playing(s) => {
            assert_eq!(s.speed, BASE_SPEED);
            assert_eq!(s.score, 0);
            assert!(s.obstacles.is_empty());
            assert_eq!(s.player.pos.x, SCREEN_W / 5);
            assert_eq!(s.player.pos.y, GROUND - PLAYER_H);
            assert!(s.player.on_ground);
            assert!(SPAWN_MIN <= s.next_spawn && s.next_spawn < SPAWN_MAX);
        }
        _ => panic!("expected a running game"),
    }
    assert_eq!(g.hi_score, 0);
}

#[test]
fn hi_score_scenario() {
    // a run at 10 points ends by collision while the high score is 5 points
    let mut s = Session::with_interval(SCREEN_W, GROUND, 1500);
    s.score = 100_000_000;
    s.obstacles.push(obstacle_on_player());
    let mut g = Game::new();
    g.state = GameState::Playing(s);
    g.hi_score = 50_000_000;
    g.step_with(0, SCREEN_W, GROUND, false, false, 40_000_000, 50_000_000, 1000);
    assert!(matches!(g.state, GameState::GameOver(_)));
    assert_eq!(g.hi_score, 100_000_000);
    // returning to the menu keeps the high score
    g.step_with(16, SCREEN_W, GROUND, false, true, 40_000_000, 50_000_000, 1000);
    assert!(matches!(g.state, GameState::Menu));
    assert_eq!(g.hi_score, 100_000_000);
    // a fresh run resets the score but not the high score
    g.step_with(16, SCREEN_W, GROUND, true, false, 40_000_000, 50_000_000, 1000);
    match &g.state {
        GameState::Playing(s) => assert_eq!(s.score, 0),
        _ => panic!("expected a running game"),
    }
    assert_eq!(g.hi_score, 100_000_000);
}

#[test]
fn game_over_restart_keeps_hi_score() {
    let mut s = Session::with_interval(SCREEN_W, GROUND, 1500);
    s.score = 70_000_000;
    s.obstacles.push(obstacle_on_player());
    let mut g = Game::new();
    g.state = GameState::Playing(s);
    g.step_with(0, SCREEN_W, GROUND, false, false, 40_000_000, 50_000_000, 1000);
    assert!(matches!(g.state, GameState::GameOver(_)));
    assert_eq!(g.hi_score, 70_000_000);
    // the ended run keeps its data for display
    match &g.state {
        GameState::GameOver(s) => assert_eq!(s.score, 70_000_000),
        _ => unreachable!(),
    }
    // jump restarts directly; return-to-menu wins when both are pressed
    g.step_with(16, SCREEN_W, GROUND, true, true, 40_000_000, 50_000_000, 1000);
    assert!(matches!(g.state, GameState::Menu));
    g.step_with(16, SCREEN_W, GROUND, true, false, 40_000_000, 50_000_000, 1000);
    match &g.state {
        GameState::Playing(s) => {
            assert_eq!(s.score, 0);
            assert_eq!(s.speed, BASE_SPEED);
        }
        _ => panic!("expected a running game"),
    }
    assert_eq!(g.hi_score, 70_000_000);
}

#[test]
fn hi_score_never_decreases() {
    let mut g = Game::new();
    g.hi_score = 300_000_000;
    let mut s = Session::with_interval(SCREEN_W, GROUND, 1500);
    s.score = 10_000_000;
    s.obstacles.push(obstacle_on_player());
    g.state = GameState::Playing(s);
    g.step_with(0, SCREEN_W, GROUND, false, false, 40_000_000, 50_000_000, 1000);
    assert!(matches!(g.state, GameState::GameOver(_)));
    assert_eq!(g.hi_score, 300_000_000);
}
