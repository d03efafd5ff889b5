//! Tests for the geometry, the player physics and the obstacles.

use ladybug_runner::consts::{
    BASE_SPEED, GRAVITY, JUMP_VEL, OBSTACLE_H_MAX, OBSTACLE_H_MIN, OBSTACLE_INSET, OBSTACLE_W_MAX,
    OBSTACLE_W_MIN, PLAYER_H, PLAYER_INSET, PLAYER_W,
};
use ladybug_runner::geom::{Recti, Vec2i};
use ladybug_runner::obstacle::Obstacle;
use ladybug_runner::player::Player;

const GROUND: i64 = 940_000_000;
const SCREEN_W: i64 = 1_000_000_000;

fn rect(x: i64, y: i64, w: i64, h: i64) -> Recti {
    Recti { x, y, w, h }
}

#[test]
fn overlap_disjoint_x_axis() {
    let a = rect(0, 0, 10_000_000, 10_000_000);
    let b = rect(20_000_000, 0, 10_000_000, 10_000_000);
    assert!(!a.overlaps(&b));
    assert!(!b.overlaps(&a));
}

#[test]
fn overlap_disjoint_y_axis() {
    let a = rect(0, 0, 10_000_000, 10_000_000);
    let b = rect(0, 50_000_000, 10_000_000, 10_000_000);
    assert!(!a.overlaps(&b));
    assert!(!b.overlaps(&a));
}

#[test]
fn overlap_touching_edges_is_no_overlap() {
    let a = rect(0, 0, 10_000_000, 10_000_000);
    let b = rect(10_000_000, 0, 10_000_000, 10_000_000);
    assert!(!a.overlaps(&b));
    let c = rect(0, 10_000_000, 10_000_000, 10_000_000);
    assert!(!a.overlaps(&c));
}

#[test]
fn overlap_identical_rects() {
    let a = rect(5, 7, 10_000_000, 12_000_000);
    assert!(a.overlaps(&a));
}

#[test]
fn overlap_partial() {
    let a = rect(0, 0, 10_000_000, 10_000_000);
    let b = rect(5_000_000, 5_000_000, 10_000_000, 10_000_000);
    assert!(a.overlaps(&b));
    assert!(b.overlaps(&a));
}

#[test]
fn player_new_places_on_ground() {
    let p = Player::new(SCREEN_W, GROUND);
    assert_eq!(p.pos.x, SCREEN_W / 5);
    assert_eq!(p.pos.y, GROUND - PLAYER_H);
    assert_eq!(p.vel.y, 0);
    assert!(p.on_ground);
}

#[test]
fn player_jump_scenario() {
    // one 0.1 s frame with the jump signal from grounded rest
    let mut p = Player::new(SCREEN_W, GROUND);
    p.update(100, GROUND, true);
    // JUMP_VEL + GRAVITY * 100 ms = -800_000 + 180_000
    assert_eq!(p.vel.y, -620_000);
    assert_eq!(p.vel.y, JUMP_VEL + GRAVITY * 100);
    assert!(!p.on_ground);
    assert_eq!(p.pos.y, GROUND - PLAYER_H - 62_000_000);
}

#[test]
fn player_never_penetrates_ground() {
    let mut p = Player::new(SCREEN_W, GROUND);
    for frame in 0..400u32 {
        let jump = frame % 37 == 0;
        p.update(16, GROUND, jump);
        assert!(p.pos.y + PLAYER_H <= GROUND);
        if p.vel.y >= 0 {
            // not rising: grounded exactly when the feet are on the line
            assert_eq!(p.on_ground, p.pos.y + PLAYER_H == GROUND);
        }
    }
    // a long stalled frame still lands cleanly
    p.update(16, GROUND, true);
    p.update(1_000_000, GROUND, false);
    assert_eq!(p.pos.y, GROUND - PLAYER_H);
    assert!(p.on_ground);
    assert_eq!(p.vel.y, 0);
}

#[test]
fn player_hitbox_is_inset() {
    let p = Player::new(SCREEN_W, GROUND);
    let r = p.rect();
    assert_eq!(r.x, p.pos.x + PLAYER_INSET);
    assert_eq!(r.y, p.pos.y + PLAYER_INSET);
    assert_eq!(r.w, PLAYER_W - 2 * PLAYER_INSET);
    assert_eq!(r.h, PLAYER_H - 2 * PLAYER_INSET);
}

#[test]
fn obstacle_spawn_dimensions_within_ranges() {
    for _ in 0..100 {
        let o = Obstacle::new(SCREEN_W, GROUND, BASE_SPEED);
        assert!(OBSTACLE_W_MIN <= o.size.x && o.size.x < OBSTACLE_W_MAX);
        assert!(OBSTACLE_H_MIN <= o.size.y && o.size.y < OBSTACLE_H_MAX);
        assert_eq!(o.pos.x, SCREEN_W);
        assert_eq!(o.pos.y, GROUND - o.size.y);
        assert_eq!(o.speed, BASE_SPEED);
    }
}

#[test]
fn obstacle_dimensions_vary() {
    // a draw that always returned the lower bound would fail this
    let mut distinct = false;
    let first = Obstacle::new(SCREEN_W, GROUND, BASE_SPEED);
    for _ in 0..100 {
        let o = Obstacle::new(SCREEN_W, GROUND, BASE_SPEED);
        if o.size.x != first.size.x || o.size.y != first.size.y {
            distinct = true;
        }
    }
    assert!(distinct);
}

#[test]
fn obstacle_movement_scenario() {
    // spawned at x = 1000 px with speed 50 px/s, one 1 s frame
    let mut o = Obstacle::with_size(1_000_000_000, GROUND, 50_000, 40_000_000, 50_000_000);
    o.update(1000);
    assert_eq!(o.pos.x, 950_000_000);
    assert!(!o.offscreen());
}

#[test]
fn obstacle_offscreen_boundary() {
    // right edge exactly 10 px past the left screen edge: still on screen
    let mut o = Obstacle::with_size(0, GROUND, 50_000, 40_000_000, 50_000_000);
    o.pos = Vec2i { x: -50_000_000, y: o.pos.y };
    assert!(!o.offscreen());
    // one more unit and it is gone
    o.pos = Vec2i { x: -50_000_001, y: o.pos.y };
    assert!(o.offscreen());
}

#[test]
fn obstacle_offscreen_test_is_idempotent() {
    let o = Obstacle::with_size(12_345_678, GROUND, 60_000, 41_000_000, 51_000_000);
    assert_eq!(o.offscreen(), o.offscreen());
    let mut far = Obstacle::with_size(0, GROUND, 60_000, 41_000_000, 51_000_000);
    far.pos = Vec2i { x: -900_000_000, y: far.pos.y };
    assert_eq!(far.offscreen(), far.offscreen());
    assert!(far.offscreen());
}

#[test]
fn obstacle_hitbox_is_inset() {
    let o = Obstacle::with_size(300_000_000, GROUND, 40_000, 50_000_000, 70_000_000);
    let r = o.rect();
    assert_eq!(r.x, o.pos.x + OBSTACLE_INSET);
    assert_eq!(r.y, o.pos.y + OBSTACLE_INSET);
    assert_eq!(r.w, o.size.x - 2 * OBSTACLE_INSET);
    assert_eq!(r.h, o.size.y - 2 * OBSTACLE_INSET);
}
