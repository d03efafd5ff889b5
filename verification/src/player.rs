//! The player avatar: vertical jump physics against a ground line, and the
//! slightly inset hitbox used for collision.

use vstd::prelude::*;

use crate::consts::{
    GRAVITY, JUMP_ENERGY, JUMP_VEL, MAX_DT, MAX_GROUND_Y, MAX_SCREEN_W, PLAYER_H, PLAYER_INSET,
    PLAYER_W, POS_LIMIT, VEL_LIMIT,
};
use crate::geom::{RectV, Recti, Vec2V, Vec2i};

verus! {

/// The player-controlled avatar. The world scrolls past the player, so only
/// the vertical components of position and velocity ever change.
#[derive(Clone, Copy, PartialEq, Eq, Structural, Debug)]
pub struct Player {
    /// Top-left corner of the sprite, in position units.
    pub pos: Vec2i,
    /// Velocity in speed units; only `vel.y` is ever non-zero.
    pub vel: Vec2i,
    /// Whether the player rests on the ground (and so may jump).
    pub on_ground: bool,
}

/// Mathematical value of a [`Player`].
pub ghost struct PlayerV {
    pub pos: Vec2V,
    pub vel: Vec2V,
    pub on_ground: bool,
}

impl View for Player {
    type V = PlayerV;

    open spec fn view(&self) -> PlayerV {
        PlayerV { pos: self.pos@, vel: self.vel@, on_ground: self.on_ground }
    }
}

/// A freshly created player: one fifth of the screen width from the left,
/// feet on the ground line, at rest.
pub open spec fn spec_player_new(screen_w: int, ground_y: int) -> PlayerV {
    PlayerV {
        pos: Vec2V { x: screen_w / 5, y: ground_y - PLAYER_H },
        vel: Vec2V { x: 0, y: 0 },
        on_ground: true,
    }
}

/// One physics step: start a jump if requested and grounded, apply gravity,
/// integrate the position, then clamp to the ground line. Time advances by
/// `dt` milliseconds against the ground line `ground_y`.
pub open spec fn spec_player_update(p: PlayerV, dt: int, ground_y: int, jump: bool) -> PlayerV {
    let vy0 = if jump && p.on_ground {
        JUMP_VEL as int
    } else {
        p.vel.y
    };
    let grounded0 = if jump && p.on_ground {
        false
    } else {
        p.on_ground
    };
    let vy1 = vy0 + GRAVITY * dt;
    let py1 = p.pos.y + vy1 * dt;
    if py1 + PLAYER_H >= ground_y {
        PlayerV {
            pos: Vec2V { x: p.pos.x, y: ground_y - PLAYER_H },
            vel: Vec2V { x: p.vel.x, y: 0 },
            on_ground: true,
        }
    } else {
        PlayerV {
            pos: Vec2V { x: p.pos.x, y: py1 },
            vel: Vec2V { x: p.vel.x, y: vy1 },
            on_ground: grounded0,
        }
    }
}

/// The player's hitbox, inset by `PLAYER_INSET` on every side.
pub open spec fn spec_player_rect(p: PlayerV) -> RectV {
    RectV {
        x: p.pos.x + PLAYER_INSET,
        y: p.pos.y + PLAYER_INSET,
        w: PLAYER_W - 2 * PLAYER_INSET,
        h: PLAYER_H - 2 * PLAYER_INSET,
    }
}

/// Well-formedness of a player between frames. The quadratic clause is an
/// energy bound: a jump starts with `vel.y^2 - 2 * GRAVITY * pos.y` at most
/// `JUMP_ENERGY`, and discrete gravity integration never increases that
/// quantity, so the player's velocity stays bounded by the height it can
/// still fall through and its position by the apex a jump can reach.
pub open spec fn player_wf(p: PlayerV) -> bool {
    &&& JUMP_VEL <= p.vel.y
    &&& p.vel.y * p.vel.y <= JUMP_ENERGY + 2 * GRAVITY * p.pos.y
    &&& p.pos.y <= MAX_GROUND_Y
    &&& (p.on_ground ==> p.vel.y >= 0 && p.pos.y >= -PLAYER_H)
    &&& p.vel.x == 0
    &&& 0 <= p.pos.x <= MAX_SCREEN_W
}

/// Numeric values of the derived constants, spelled out once so that the
/// linear solver can use them.
proof fn lemma_const_numbers()
    ensures
        JUMP_ENERGY == 856_000_000_000,
        VEL_LIMIT * VEL_LIMIT == 400_000_000_000_000,
        (JUMP_VEL as int) * (JUMP_VEL as int) == 640_000_000_000,
{
    assert(GRAVITY == 1800);
    assert(JUMP_ENERGY == 856_000_000_000);
    assert(VEL_LIMIT * VEL_LIMIT == 400_000_000_000_000);
    // the energy constant dominates the squared jump impulse
    assert((JUMP_VEL as int) * (JUMP_VEL as int) == 640_000_000_000) by (nonlinear_arith);
}

/// A square is never negative.
proof fn lemma_square_nonneg(x: int)
    by (nonlinear_arith)
    ensures
        x * x >= 0,
{
}

/// A number whose square is at most `b * b` lies between `-b` and `b`.
proof fn lemma_abs_le_of_sq_le(x: int, b: int)
    by (nonlinear_arith)
    requires
        b >= 0,
        x * x <= b * b,
    ensures
        -b <= x <= b,
{
}

/// Discrete gravity integration changes the energy `vy^2 - 2 g py` by
/// exactly `-(g dt)^2`: a ring identity.
proof fn lemma_energy_step(vy: int, py: int, dt: int, g: int)
    by (nonlinear_arith)
    ensures
        (vy + g * dt) * (vy + g * dt) - 2 * g * (py + (vy + g * dt) * dt) == vy * vy - 2 * g * py
            - (g * dt) * (g * dt),
{
}

/// A well-formed player's vertical velocity is bounded: it cannot fall
/// faster than a drop from `MAX_GROUND_Y` allows, nor rise faster than a
/// jump starts.
pub proof fn lemma_player_vel_bound(p: PlayerV)
    requires
        player_wf(p),
    ensures
        -VEL_LIMIT <= p.vel.y <= VEL_LIMIT,
{
    lemma_const_numbers();
    assert(p.vel.y * p.vel.y <= JUMP_ENERGY + 2 * GRAVITY * p.pos.y);
    assert(2 * GRAVITY * p.pos.y == 3600 * p.pos.y);
    assert(p.vel.y * p.vel.y <= JUMP_ENERGY + 2 * GRAVITY * MAX_GROUND_Y);
    assert(p.vel.y * p.vel.y <= VEL_LIMIT * VEL_LIMIT);
    lemma_abs_le_of_sq_le(p.vel.y, VEL_LIMIT as int);
}

/// A well-formed player sits no higher than the apex a jump can reach.
pub proof fn lemma_player_pos_lower(p: PlayerV)
    requires
        player_wf(p),
    ensures
        p.pos.y >= -POS_LIMIT,
{
    lemma_const_numbers();
    lemma_square_nonneg(p.vel.y);
    assert(p.vel.y * p.vel.y <= JUMP_ENERGY + 2 * GRAVITY * p.pos.y);
    assert(2 * GRAVITY * p.pos.y == 3600 * p.pos.y);
    assert(3600 * p.pos.y >= -JUMP_ENERGY);
}

/// The physics step keeps the player well formed, never leaves it inside
/// the ground, and (when the ground line did not move under a grounded
/// player) reports ground contact exactly when the feet are on the line.
pub proof fn lemma_player_update_props(p: PlayerV, dt: int, ground_y: int, jump: bool)
    requires
        player_wf(p),
        0 <= dt <= MAX_DT,
        0 <= ground_y <= MAX_GROUND_Y,
    ensures
        player_wf(spec_player_update(p, dt, ground_y, jump)),
        spec_player_update(p, dt, ground_y, jump).pos.y + PLAYER_H <= ground_y,
        ({
            let q = spec_player_update(p, dt, ground_y, jump);
            (q.vel.y >= 0 && (p.on_ground ==> p.pos.y + PLAYER_H == ground_y && p.vel.y == 0))
                ==> (q.on_ground <==> q.pos.y + PLAYER_H == ground_y)
        }),
{
    lemma_const_numbers();
    lemma_player_vel_bound(p);
    lemma_player_pos_lower(p);
    let vy0 = if jump && p.on_ground {
        JUMP_VEL as int
    } else {
        p.vel.y
    };
    let vy1 = vy0 + GRAVITY * dt;
    let py1 = p.pos.y + vy1 * dt;
    let q = spec_player_update(p, dt, ground_y, jump);
    assert(2 * GRAVITY * p.pos.y == 3600 * p.pos.y);
    assert(GRAVITY * dt == 1800 * dt);
    if jump && p.on_ground {
        assert(vy0 * vy0 <= 856_000_000_000 + 3600 * p.pos.y) by (nonlinear_arith)
            requires
                vy0 == -800_000,
                p.pos.y >= -60_000_000,
        ;
    }
    assert(vy0 * vy0 <= JUMP_ENERGY + 2 * GRAVITY * p.pos.y);
    lemma_energy_step(vy0, p.pos.y, dt, GRAVITY as int);
    lemma_square_nonneg(GRAVITY * dt);
    assert(vy1 * vy1 <= JUMP_ENERGY + 2 * GRAVITY * py1);
    assert(vy1 >= 0 ==> vy1 * dt >= 0) by (nonlinear_arith)
        requires
            dt >= 0,
    ;
    if py1 + PLAYER_H >= ground_y {
        assert(q.vel.y == 0 && q.pos.y == ground_y - PLAYER_H && q.on_ground);
        assert(q.vel.y * q.vel.y == 0) by (nonlinear_arith)
            requires
                q.vel.y == 0,
        ;
        assert(2 * GRAVITY * q.pos.y == 3600 * q.pos.y);
        assert(player_wf(q));
    } else {
        assert(q.vel.y == vy1 && q.pos.y == py1);
        assert(q.vel.y * q.vel.y == vy1 * vy1);
        assert(2 * GRAVITY * q.pos.y == 2 * GRAVITY * py1);
        assert(player_wf(q));
    }
}

impl Player {
    /// Create a player one fifth of the screen width from the left, standing
    /// on the ground line.
    pub fn new(screen_w: i64, ground_y: i64) -> (p: Player)
        requires
            0 <= screen_w <= MAX_SCREEN_W,
            0 <= ground_y <= MAX_GROUND_Y,
        ensures
            p@ == spec_player_new(screen_w as int, ground_y as int),
            player_wf(p@),
    {
        let p = Player {
            pos: Vec2i { x: screen_w / 5, y: ground_y - PLAYER_H },
            vel: Vec2i { x: 0, y: 0 },
            on_ground: true,
        };
        proof {
            lemma_const_numbers();
            assert(p@.vel.y * p@.vel.y == 0) by (nonlinear_arith)
                requires
                    p@.vel.y == 0,
            ;
            assert(2 * GRAVITY * p@.pos.y == 3600 * p@.pos.y);
        }
        p
    }

    /// The hitbox: the sprite bounds shrunk by `PLAYER_INSET` on every side,
    /// an intentional fairness margin.
    pub fn rect(&self) -> (r: Recti)
        requires
            -POS_LIMIT <= self@.pos.y <= MAX_GROUND_Y,
            0 <= self@.pos.x <= MAX_SCREEN_W,
        ensures
            r@ == spec_player_rect(self@),
    {
        Recti {
            x: self.pos.x + PLAYER_INSET,
            y: self.pos.y + PLAYER_INSET,
            w: PLAYER_W - 2 * PLAYER_INSET,
            h: PLAYER_H - 2 * PLAYER_INSET,
        }
    }

    /// One physics step over `dt` milliseconds: start a jump if `jump` is
    /// set and the player is grounded, apply gravity, integrate, then clamp
    /// to the ground line `ground_y` (landing zeroes the vertical velocity
    /// and restores ground contact). The player never ends below the ground,
    /// and whenever it is not rising, ground contact matches the feet being
    /// exactly on an unmoved ground line.
    pub fn update(&mut self, dt: i64, ground_y: i64, jump: bool)
        requires
            player_wf(old(self)@),
            0 <= dt <= MAX_DT,
            0 <= ground_y <= MAX_GROUND_Y,
        ensures
            final(self)@ == spec_player_update(old(self)@, dt as int, ground_y as int, jump),
            player_wf(final(self)@),
            final(self)@.pos.y + PLAYER_H <= ground_y,
            (final(self)@.vel.y >= 0 && (old(self)@.on_ground ==> old(self)@.pos.y + PLAYER_H
                == ground_y && old(self)@.vel.y == 0))
                ==> (final(self)@.on_ground <==> final(self)@.pos.y + PLAYER_H == ground_y),
    {
        proof {
            lemma_player_vel_bound(old(self)@);
            lemma_player_pos_lower(old(self)@);
            lemma_player_update_props(old(self)@, dt as int, ground_y as int, jump);
            assert(GRAVITY * dt == 1800 * dt);
        }
        let mut vy: i64 = self.vel.y;
        let mut grounded: bool = self.on_ground;
        if jump && grounded {
            vy = JUMP_VEL;
            grounded = false;
        }
        let vy1: i64 = vy + GRAVITY * dt;
        proof {
            assert(-2_000_000_000_000_000 <= vy1 * dt <= 2_000_000_000_000_000)
                by (nonlinear_arith)
                requires
                    -2_000_000_000 <= vy1 <= 2_000_000_000,
                    0 <= dt <= 1_000_000,
            ;
        }
        let py1: i64 = self.pos.y + vy1 * dt;
        if py1 + PLAYER_H >= ground_y {
            self.pos.y = ground_y - PLAYER_H;
            self.vel.y = 0;
            self.on_ground = true;
        } else {
            self.pos.y = py1;
            self.vel.y = vy1;
            self.on_ground = grounded;
        }
    }
}

} // verus!
