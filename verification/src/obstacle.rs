//! Obstacles: randomly sized rectangles anchored on the ground line that
//! scroll left at the speed the world had when they spawned.

use vstd::prelude::*;

use crate::consts::{
    COORD_LIMIT, MAX_DT, MAX_GROUND_Y, MAX_OBSTACLE_X, MAX_SPEED, OBSTACLE_H_MAX, OBSTACLE_H_MIN,
    OBSTACLE_INSET, OBSTACLE_W_MAX, OBSTACLE_W_MIN, OFFSCREEN_MARGIN,
};
use crate::geom::{RectV, Recti, Vec2V, Vec2i};
use crate::rng::rand_in_range;

verus! {

/// An obstacle the player must jump over. Its size is drawn at random when
/// it spawns; its speed is the scroll speed at spawn time and never changes
/// afterwards, even when the world speeds up.
#[derive(Clone, Copy, PartialEq, Eq, Structural, Debug)]
pub struct Obstacle {
    /// Top-left corner of the sprite, in position units.
    pub pos: Vec2i,
    /// Width (`size.x`) and height (`size.y`), in position units.
    pub size: Vec2i,
    /// Leftward scroll speed fixed at spawn time, in speed units.
    pub speed: i64,
}

/// Mathematical value of an [`Obstacle`].
pub ghost struct ObstacleV {
    pub pos: Vec2V,
    pub size: Vec2V,
    pub speed: int,
}

impl View for Obstacle {
    type V = ObstacleV;

    open spec fn view(&self) -> ObstacleV {
        ObstacleV { pos: self.pos@, size: self.size@, speed: self.speed as int }
    }
}

/// A freshly spawned obstacle of size `w` by `h`: left edge at `x`, bottom
/// edge anchored on the ground line.
pub open spec fn spec_obstacle_new(x: int, ground_y: int, speed: int, w: int, h: int) -> ObstacleV {
    ObstacleV { pos: Vec2V { x, y: ground_y - h }, size: Vec2V { x: w, y: h }, speed }
}

/// One movement step: the obstacle scrolls left by its own spawn-time speed
/// over `dt` milliseconds.
pub open spec fn spec_obstacle_update(o: ObstacleV, dt: int) -> ObstacleV {
    ObstacleV { pos: Vec2V { x: o.pos.x - o.speed * dt, y: o.pos.y }, size: o.size, speed: o.speed }
}

/// An obstacle is off screen once its right edge is more than
/// `OFFSCREEN_MARGIN` past the left screen edge.
pub open spec fn spec_offscreen(o: ObstacleV) -> bool {
    o.pos.x + o.size.x < -OFFSCREEN_MARGIN
}

/// The obstacle's hitbox, inset by `OBSTACLE_INSET` on every side.
pub open spec fn spec_obstacle_rect(o: ObstacleV) -> RectV {
    RectV {
        x: o.pos.x + OBSTACLE_INSET,
        y: o.pos.y + OBSTACLE_INSET,
        w: o.size.x - 2 * OBSTACLE_INSET,
        h: o.size.y - 2 * OBSTACLE_INSET,
    }
}

/// Well-formedness of a live obstacle: its size lies in the spawn ranges,
/// its speed is a scroll speed some run once had, and its position is inside
/// the machine limits.
pub open spec fn obstacle_wf(o: ObstacleV) -> bool {
    &&& OBSTACLE_W_MIN <= o.size.x < OBSTACLE_W_MAX
    &&& OBSTACLE_H_MIN <= o.size.y < OBSTACLE_H_MAX
    &&& 0 <= o.speed <= MAX_SPEED
    &&& -(OFFSCREEN_MARGIN + OBSTACLE_W_MAX) <= o.pos.x <= MAX_OBSTACLE_X
    &&& -OBSTACLE_H_MAX <= o.pos.y <= MAX_GROUND_Y
}

/// The off-screen test is a pure function of the obstacle: two tests of the
/// same obstacle with no update between them give the same answer.
pub proof fn lemma_offscreen_idempotent(o: ObstacleV, first: bool, second: bool)
    requires
        first == spec_offscreen(o),
        second == spec_offscreen(o),
    ensures
        first == second,
{
}

impl Obstacle {
    /// Create an obstacle of the given size, bottom edge on the ground line.
    pub fn with_size(x: i64, ground_y: i64, speed: i64, w: i64, h: i64) -> (o: Obstacle)
        requires
            -(OFFSCREEN_MARGIN + OBSTACLE_W_MAX) <= x <= MAX_OBSTACLE_X,
            0 <= ground_y <= MAX_GROUND_Y,
            0 <= speed <= MAX_SPEED,
            OBSTACLE_W_MIN <= w < OBSTACLE_W_MAX,
            OBSTACLE_H_MIN <= h < OBSTACLE_H_MAX,
        ensures
            o@ == spec_obstacle_new(x as int, ground_y as int, speed as int, w as int, h as int),
            obstacle_wf(o@),
    {
        Obstacle { pos: Vec2i { x, y: ground_y - h }, size: Vec2i { x: w, y: h }, speed }
    }

    /// Create an obstacle with uniformly random width and height, bottom
    /// edge on the ground line. Width lands in
    /// `[OBSTACLE_W_MIN, OBSTACLE_W_MAX)` and height in
    /// `[OBSTACLE_H_MIN, OBSTACLE_H_MAX)`.
    pub fn new(x: i64, ground_y: i64, speed: i64) -> (o: Obstacle)
        requires
            -(OFFSCREEN_MARGIN + OBSTACLE_W_MAX) <= x <= MAX_OBSTACLE_X,
            0 <= ground_y <= MAX_GROUND_Y,
            0 <= speed <= MAX_SPEED,
        ensures
            o@ == spec_obstacle_new(
                x as int,
                ground_y as int,
                speed as int,
                o@.size.x,
                o@.size.y,
            ),
            OBSTACLE_W_MIN <= o@.size.x < OBSTACLE_W_MAX,
            OBSTACLE_H_MIN <= o@.size.y < OBSTACLE_H_MAX,
            obstacle_wf(o@),
    {
        let w = rand_in_range(OBSTACLE_W_MIN, OBSTACLE_W_MAX);
        let h = rand_in_range(OBSTACLE_H_MIN, OBSTACLE_H_MAX);
        Obstacle::with_size(x, ground_y, speed, w, h)
    }

    /// The hitbox: the sprite bounds shrunk by `OBSTACLE_INSET` on every
    /// side, a fairness margin smaller than the player's.
    pub fn rect(&self) -> (r: Recti)
        requires
            -COORD_LIMIT <= self@.pos.x <= COORD_LIMIT,
            -COORD_LIMIT <= self@.pos.y <= COORD_LIMIT,
            2 * OBSTACLE_INSET <= self@.size.x <= COORD_LIMIT,
            2 * OBSTACLE_INSET <= self@.size.y <= COORD_LIMIT,
        ensures
            r@ == spec_obstacle_rect(self@),
    {
        Recti {
            x: self.pos.x + OBSTACLE_INSET,
            y: self.pos.y + OBSTACLE_INSET,
            w: self.size.x - 2 * OBSTACLE_INSET,
            h: self.size.y - 2 * OBSTACLE_INSET,
        }
    }

    /// Scroll left over `dt` milliseconds at the spawn-time speed. The move
    /// covers at most `MAX_SPEED * MAX_DT` position units.
    pub fn update(&mut self, dt: i64)
        requires
            0 <= dt <= MAX_DT,
            0 <= old(self)@.speed <= MAX_SPEED,
            -MAX_OBSTACLE_X <= old(self)@.pos.x <= MAX_OBSTACLE_X,
        ensures
            final(self)@ == spec_obstacle_update(old(self)@, dt as int),
            old(self)@.pos.x - 140_000_000_000 <= final(self)@.pos.x <= old(self)@.pos.x,
    {
        let speed = self.speed;
        proof {
            assert(0 <= speed * dt <= 140_000_000_000) by (nonlinear_arith)
                requires
                    0 <= speed <= 140_000,
                    0 <= dt <= 1_000_000,
            ;
        }
        self.pos.x = self.pos.x - speed * dt;
    }

    /// Whether the obstacle has completely left the screen on the left and
    /// may be evicted.
    pub fn offscreen(&self) -> (r: bool)
        requires
            -COORD_LIMIT <= self@.pos.x <= COORD_LIMIT,
            -COORD_LIMIT <= self@.size.x <= COORD_LIMIT,
        ensures
            r == spec_offscreen(self@),
    {
        self.pos.x + self.size.x < -OFFSCREEN_MARGIN
    }
}

} // verus!
