//! One run of the game: the player, the live obstacles, the difficulty ramp,
//! the spawn timer and the score, with the per-tick orchestration.

use vstd::prelude::*;

use crate::consts::{
    BASE_SPEED, COORD_LIMIT, MAX_DT, MAX_GROUND_Y, MAX_SCORE, MAX_SCREEN_W, MAX_SPEED,
    OBSTACLE_H_MAX, OBSTACLE_H_MIN, OBSTACLE_W_MAX, OBSTACLE_W_MIN, SPAWN_FLOOR, SPAWN_LEAD,
    SPAWN_MAX, SPAWN_MIN, SPEED_GROWTH,
};
use crate::geom::{rect_wf, spec_overlaps, RectV, Recti};
use crate::obstacle::{
    obstacle_wf, spec_obstacle_new, spec_obstacle_rect, spec_obstacle_update, spec_offscreen,
    Obstacle, ObstacleV,
};
use crate::player::{
    lemma_player_pos_lower, player_wf, spec_player_new, spec_player_rect, spec_player_update,
    Player, PlayerV,
};
use crate::rng::rand_in_range;

verus! {

/// One run of the game, alive from the moment a run starts until the player
/// returns to the menu.
pub struct Session {
    /// Score in score units (`SCORE_UNITS_PER_POINT` units per point).
    pub score: i64,
    /// Current scroll speed, in speed units.
    pub speed: i64,
    /// Milliseconds since the last spawn (or since the run began).
    pub spawn_timer: i64,
    /// Delay that must elapse before the next spawn, in milliseconds.
    pub next_spawn: i64,
    /// Live obstacles, oldest first.
    pub obstacles: Vec<Obstacle>,
    /// The player avatar.
    pub player: Player,
}

/// Mathematical value of a [`Session`].
pub ghost struct SessionV {
    pub score: int,
    pub speed: int,
    pub spawn_timer: int,
    pub next_spawn: int,
    pub obstacles: Seq<ObstacleV>,
    pub player: PlayerV,
}

/// The mathematical values of a vector of obstacles.
pub open spec fn obs_views(v: Vec<Obstacle>) -> Seq<ObstacleV> {
    v@.map_values(|o: Obstacle| o@)
}

/// The view of an obstacle vector has the vector's length and views its
/// elements pointwise.
pub proof fn lemma_obs_views(v: Vec<Obstacle>)
    ensures
        obs_views(v).len() == v@.len(),
        forall|i: int| 0 <= i < v@.len() ==> obs_views(v)[i] == #[trigger] v@[i]@,
{
    assert forall|i: int| 0 <= i < v@.len() implies obs_views(v)[i] == #[trigger] v@[i]@ by {}
}

impl View for Session {
    type V = SessionV;

    open spec fn view(&self) -> SessionV {
        SessionV {
            score: self.score as int,
            speed: self.speed as int,
            spawn_timer: self.spawn_timer as int,
            next_spawn: self.next_spawn as int,
            obstacles: obs_views(self.obstacles),
            player: self.player@,
        }
    }
}

/// Well-formedness of a session between ticks: the player is well formed,
/// the speed sits between the base and the ceiling, the spawn timer has not
/// yet reached its deadline, the score is non-negative, and every live
/// obstacle is well formed and not yet off screen.
pub open spec fn session_wf(s: SessionV) -> bool {
    &&& player_wf(s.player)
    &&& BASE_SPEED <= s.speed <= MAX_SPEED
    &&& 0 <= s.spawn_timer < s.next_spawn
    &&& SPAWN_FLOOR <= s.next_spawn < SPAWN_MAX
    &&& 0 <= s.score
    &&& forall|i: int|
        0 <= i < s.obstacles.len() ==> obstacle_wf(#[trigger] s.obstacles[i]) && !spec_offscreen(
            s.obstacles[i],
        )
}

/// A fresh run: zero score, base speed, no obstacles, spawn timer at zero
/// with the given first spawn delay, and a freshly placed player.
pub open spec fn spec_session_new(screen_w: int, ground_y: int, next_spawn: int) -> SessionV {
    SessionV {
        score: 0,
        speed: BASE_SPEED as int,
        spawn_timer: 0,
        next_spawn,
        obstacles: Seq::empty(),
        player: spec_player_new(screen_w, ground_y),
    }
}

/// The difficulty ramp: the scroll speed grows linearly with time, capped
/// at `MAX_SPEED`.
pub open spec fn spec_advance_speed(speed: int, dt: int) -> int {
    if speed + SPEED_GROWTH * dt <= MAX_SPEED {
        speed + SPEED_GROWTH * dt
    } else {
        MAX_SPEED as int
    }
}

/// The difficulty ramp never lowers the speed and never exceeds the
/// ceiling.
pub proof fn lemma_speed_ramp_monotone_capped(speed: int, dt: int)
    requires
        0 <= dt,
        speed <= MAX_SPEED,
    ensures
        speed <= spec_advance_speed(speed, dt) <= MAX_SPEED,
{
    assert(SPEED_GROWTH * dt == 8 * dt);
}

/// Whether this tick's elapsed time pushes the spawn timer past its
/// deadline, so that one obstacle spawns.
pub open spec fn spec_spawn_due(s: SessionV, dt: int) -> bool {
    s.spawn_timer + dt >= s.next_spawn
}

/// The obstacle list after the spawn phase: when a spawn is due, one new
/// obstacle of size `w` by `h` appears just past the right screen edge, at
/// the already-advanced scroll speed.
pub open spec fn spec_spawned_obstacles(
    s: SessionV,
    dt: int,
    screen_w: int,
    ground_y: int,
    w: int,
    h: int,
) -> Seq<ObstacleV> {
    if spec_spawn_due(s, dt) {
        s.obstacles.push(
            spec_obstacle_new(
                screen_w + SPAWN_LEAD,
                ground_y,
                spec_advance_speed(s.speed, dt),
                w,
                h,
            ),
        )
    } else {
        s.obstacles
    }
}

/// Every live obstacle moved left by its own speed over `dt` milliseconds.
pub open spec fn spec_move_obstacles(obs: Seq<ObstacleV>, dt: int) -> Seq<ObstacleV> {
    obs.map_values(|o: ObstacleV| spec_obstacle_update(o, dt))
}

/// Whether any obstacle's hitbox overlaps the rectangle `r`.
pub open spec fn spec_hits_rect(obs: Seq<ObstacleV>, r: RectV) -> bool {
    exists|i: int|
        0 <= i < obs.len() && spec_overlaps(spec_obstacle_rect(#[trigger] obs[i]), r)
}

/// The obstacle list with the off-screen obstacles evicted; the survivors
/// keep their order.
pub open spec fn spec_evict(obs: Seq<ObstacleV>) -> Seq<ObstacleV>
    decreases obs.len(),
{
    if obs.len() == 0 {
        Seq::empty()
    } else {
        let rest = spec_evict(obs.drop_last());
        if spec_offscreen(obs.last()) {
            rest
        } else {
            rest.push(obs.last())
        }
    }
}

/// Eviction of a list extended by one obstacle keeps the new obstacle
/// exactly when it is still on screen.
proof fn lemma_evict_push(s: Seq<ObstacleV>, x: ObstacleV)
    ensures
        spec_evict(s.push(x)) == if spec_offscreen(x) {
            spec_evict(s)
        } else {
            spec_evict(s).push(x)
        },
{
    assert(s.push(x).drop_last() =~= s);
    assert(s.push(x).last() == x);
}

/// Every survivor of eviction is on screen and is one of the incoming
/// obstacles.
proof fn lemma_evict_elems(s: Seq<ObstacleV>)
    ensures
        forall|k: int|
            0 <= k < spec_evict(s).len() ==> !spec_offscreen(#[trigger] spec_evict(s)[k])
                && exists|j: int| 0 <= j < s.len() && spec_evict(s)[k] == s[j],
    decreases s.len(),
{
    if s.len() == 0 {
    } else {
        let rest = spec_evict(s.drop_last());
        lemma_evict_elems(s.drop_last());
        assert forall|k: int| 0 <= k < spec_evict(s).len() implies !spec_offscreen(
            #[trigger] spec_evict(s)[k],
        ) && exists|j: int| 0 <= j < s.len() && spec_evict(s)[k] == s[j] by {
            if k < rest.len() {
                assert(spec_evict(s)[k] == rest[k]);
                let j = choose|j: int|
                    0 <= j < s.drop_last().len() && rest[k] == s.drop_last()[j];
                assert(s.drop_last()[j] == s[j]);
                assert(spec_evict(s)[k] == s[j]);
            } else {
                assert(spec_evict(s)[k] == s.last());
                assert(spec_evict(s)[k] == s[s.len() - 1]);
            }
        }
    }
}

/// One simulation tick, given the randomness as arguments: the player steps,
/// the speed ramps, a spawn may fire (using the new spawn delay `iv`), every
/// obstacle moves, off-screen obstacles leave, and the score accrues
/// `speed * dt` score units at the new speed.
pub open spec fn spec_tick(
    s: SessionV,
    dt: int,
    screen_w: int,
    ground_y: int,
    jump: bool,
    w: int,
    h: int,
    iv: int,
) -> SessionV {
    let speed = spec_advance_speed(s.speed, dt);
    let moved = spec_move_obstacles(spec_spawned_obstacles(s, dt, screen_w, ground_y, w, h), dt);
    SessionV {
        score: s.score + speed * dt,
        speed,
        spawn_timer: if spec_spawn_due(s, dt) {
            0
        } else {
            s.spawn_timer + dt
        },
        next_spawn: if spec_spawn_due(s, dt) {
            iv
        } else {
            s.next_spawn
        },
        obstacles: spec_evict(moved),
        player: spec_player_update(s.player, dt, ground_y, jump),
    }
}

/// Whether the tick of [`spec_tick`] ends the run: some obstacle's hitbox,
/// after the spawn and movement phases and before eviction, overlaps the
/// updated player's hitbox.
pub open spec fn spec_tick_hit(
    s: SessionV,
    dt: int,
    screen_w: int,
    ground_y: int,
    jump: bool,
    w: int,
    h: int,
) -> bool {
    spec_hits_rect(
        spec_move_obstacles(spec_spawned_obstacles(s, dt, screen_w, ground_y, w, h), dt),
        spec_player_rect(spec_player_update(s.player, dt, ground_y, jump)),
    )
}

/// A well-formed obstacle stays inside the coordinate limits after one
/// movement step.
proof fn lemma_moved_in_coord_range(o: ObstacleV, dt: int)
    requires
        obstacle_wf(o),
        0 <= dt <= MAX_DT,
    ensures
        ({
            let m = spec_obstacle_update(o, dt);
            -COORD_LIMIT <= m.pos.x <= COORD_LIMIT && -COORD_LIMIT <= m.size.x <= COORD_LIMIT
        }),
{
    assert(0 <= o.speed * dt <= 140_000_000_000) by (nonlinear_arith)
        requires
            0 <= o.speed <= 140_000,
            0 <= dt <= 1_000_000,
    ;
}

/// Move every obstacle left by its own speed over `dt` milliseconds, and
/// report whether any moved obstacle's hitbox overlaps `prect`. All
/// obstacles are checked: none is skipped, whatever the outcome.
fn move_and_collide(obstacles: &mut Vec<Obstacle>, dt: i64, prect: &Recti) -> (hit: bool)
    requires
        0 <= dt <= MAX_DT,
        forall|k: int|
            0 <= k < old(obstacles)@.len() ==> obstacle_wf(#[trigger] old(obstacles)@[k]@),
        rect_wf(prect@),
        -COORD_LIMIT <= prect@.x <= COORD_LIMIT,
        -COORD_LIMIT <= prect@.y <= COORD_LIMIT,
        0 <= prect@.w <= COORD_LIMIT,
        0 <= prect@.h <= COORD_LIMIT,
    ensures
        obs_views(*final(obstacles)) == spec_move_obstacles(obs_views(*old(obstacles)), dt as int),
        hit == spec_hits_rect(spec_move_obstacles(obs_views(*old(obstacles)), dt as int), prect@),
{
    let ghost s0 = obs_views(*old(obstacles));
    let ghost moved = spec_move_obstacles(s0, dt as int);
    proof {
        lemma_obs_views(*old(obstacles));
    }
    let mut hit = false;
    let mut i: usize = 0;
    while i < obstacles.len()
        invariant
            0 <= dt <= MAX_DT,
            i <= obstacles@.len() == s0.len(),
            forall|k: int| 0 <= k < s0.len() ==> obstacle_wf(#[trigger] s0[k]),
            forall|k: int| i <= k < s0.len() ==> #[trigger] obstacles@[k]@ == s0[k],
            forall|k: int| 0 <= k < i ==> #[trigger] obstacles@[k]@ == moved[k],
            moved == spec_move_obstacles(s0, dt as int),
            rect_wf(prect@),
            -COORD_LIMIT <= prect@.x <= COORD_LIMIT,
            -COORD_LIMIT <= prect@.y <= COORD_LIMIT,
            0 <= prect@.w <= COORD_LIMIT,
            0 <= prect@.h <= COORD_LIMIT,
            hit <==> exists|k: int|
                0 <= k < i && spec_overlaps(spec_obstacle_rect(#[trigger] moved[k]), prect@),
        decreases obstacles@.len() - i,
    {
        let mut o = obstacles[i];
        proof {
            assert(o@ == s0[i as int]);
            assert(obstacle_wf(s0[i as int]));
            assert(moved[i as int] == spec_obstacle_update(s0[i as int], dt as int));
        }
        o.update(dt);
        obstacles.set(i, o);
        if o.rect().overlaps(prect) {
            hit = true;
            proof {
                assert(spec_overlaps(spec_obstacle_rect(moved[i as int]), prect@));
            }
        }
        i = i + 1;
    }
    proof {
        lemma_obs_views(*obstacles);
        assert(obs_views(*obstacles) =~= moved);
    }
    hit
}

/// Remove every obstacle that has fully left the screen; the survivors keep
/// their order. Each survivor is one of the incoming obstacles.
fn evict_offscreen(obstacles: &mut Vec<Obstacle>)
    requires
        forall|k: int|
            0 <= k < obs_views(*old(obstacles)).len() ==> {
                let o = #[trigger] obs_views(*old(obstacles))[k];
                &&& -COORD_LIMIT <= o.pos.x <= COORD_LIMIT
                &&& -COORD_LIMIT <= o.size.x <= COORD_LIMIT
            },
    ensures
        obs_views(*final(obstacles)) == spec_evict(obs_views(*old(obstacles))),
        forall|k: int|
            0 <= k < obs_views(*final(obstacles)).len() ==> exists|j: int|
                0 <= j < obs_views(*old(obstacles)).len() && #[trigger] obs_views(
                    *final(obstacles),
                )[k] == obs_views(*old(obstacles))[j],
{
    let ghost s0 = obs_views(*old(obstacles));
    let mut kept: Vec<Obstacle> = Vec::new();
    let mut j: usize = 0;
    proof {
        lemma_obs_views(*old(obstacles));
        lemma_obs_views(kept);
        assert(s0.subrange(0, 0) =~= Seq::<ObstacleV>::empty());
        assert(obs_views(kept) =~= Seq::<ObstacleV>::empty());
        assert(spec_evict(s0.subrange(0, 0)) =~= Seq::<ObstacleV>::empty());
    }
    while j < obstacles.len()
        invariant
            j <= obstacles@.len() == s0.len(),
            s0 == obs_views(*old(obstacles)),
            obstacles@ == old(obstacles)@,
            forall|k: int|
                0 <= k < s0.len() ==> {
                    let o = #[trigger] s0[k];
                    &&& -COORD_LIMIT <= o.pos.x <= COORD_LIMIT
                    &&& -COORD_LIMIT <= o.size.x <= COORD_LIMIT
                },
            obs_views(kept) == spec_evict(s0.subrange(0, j as int)),
            forall|k: int|
                0 <= k < obs_views(kept).len() ==> exists|m: int|
                    0 <= m < s0.len() && #[trigger] obs_views(kept)[k] == s0[m],
        decreases obstacles@.len() - j,
    {
        let o = obstacles[j];
        proof {
            lemma_obs_views(*old(obstacles));
            assert(old(obstacles)@[j as int]@ == s0[j as int]);
            assert(o@ == s0[j as int]);
            assert(s0.subrange(0, j as int + 1) =~= s0.subrange(0, j as int).push(s0[j as int]));
            lemma_evict_push(s0.subrange(0, j as int), s0[j as int]);
        }
        let ghost kept_pre = obs_views(kept);
        if !o.offscreen() {
            proof {
                lemma_obs_views(kept);
            }
            kept.push(o);
            proof {
                lemma_obs_views(kept);
                assert(obs_views(kept) =~= kept_pre.push(o@));
                assert forall|k: int| 0 <= k < obs_views(kept).len() implies exists|m: int|
                    0 <= m < s0.len() && #[trigger] obs_views(kept)[k] == s0[m] by {
                    if k < obs_views(kept).len() - 1 {
                        assert(obs_views(kept)[k] == kept_pre[k]);
                    } else {
                        assert(obs_views(kept)[k] == s0[j as int]);
                    }
                }
            }
        }
        j = j + 1;
    }
    proof {
        assert(s0.subrange(0, s0.len() as int) =~= s0);
    }
    *obstacles = kept;
}

/// Draw the delay before the first spawn of a run, from the full
/// `[SPAWN_MIN, SPAWN_MAX)` range.
pub fn roll_first_interval() -> (iv: i64)
    ensures
        SPAWN_MIN <= iv < SPAWN_MAX,
{
    rand_in_range(SPAWN_MIN, SPAWN_MAX)
}

/// Draw the delay until the next spawn, re-rolled after every spawn. The
/// re-roll clamps its lower bound to at least `SPAWN_FLOOR` — inert with
/// the current constants, and deliberately absent from the first roll.
pub fn roll_next_interval() -> (iv: i64)
    ensures
        SPAWN_MIN <= iv < SPAWN_MAX,
{
    let lo = if SPAWN_MIN >= SPAWN_FLOOR {
        SPAWN_MIN
    } else {
        SPAWN_FLOOR
    };
    rand_in_range(lo, SPAWN_MAX)
}

impl Session {
    /// Start a run with the given first spawn delay: zero score, base
    /// speed, no obstacles, the player freshly placed on the ground line.
    pub fn with_interval(screen_w: i64, ground_y: i64, next_spawn: i64) -> (s: Session)
        requires
            0 <= screen_w <= MAX_SCREEN_W,
            0 <= ground_y <= MAX_GROUND_Y,
            SPAWN_MIN <= next_spawn < SPAWN_MAX,
        ensures
            s@ == spec_session_new(screen_w as int, ground_y as int, next_spawn as int),
            session_wf(s@),
    {
        let s = Session {
            score: 0,
            speed: BASE_SPEED,
            spawn_timer: 0,
            next_spawn,
            obstacles: Vec::new(),
            player: Player::new(screen_w, ground_y),
        };
        proof {
            assert(obs_views(s.obstacles) =~= Seq::<ObstacleV>::empty());
        }
        s
    }

    /// Start a run, drawing the first spawn delay from the full
    /// `[SPAWN_MIN, SPAWN_MAX)` range.
    pub fn new(screen_w: i64, ground_y: i64) -> (s: Session)
        requires
            0 <= screen_w <= MAX_SCREEN_W,
            0 <= ground_y <= MAX_GROUND_Y,
        ensures
            SPAWN_MIN <= s@.next_spawn < SPAWN_MAX,
            s@ == spec_session_new(screen_w as int, ground_y as int, s@.next_spawn),
            session_wf(s@),
    {
        let iv = roll_first_interval();
        Session::with_interval(screen_w, ground_y, iv)
    }

    /// One simulation tick with the randomness supplied by the caller:
    /// `w` and `h` are the dimensions the spawn would use and `iv` the next
    /// spawn delay. In order: player physics, difficulty ramp, spawn phase,
    /// obstacle movement, collision test against every obstacle, eviction,
    /// score accrual. Returns whether a collision ended the run. The speed
    /// never drops within a run and never exceeds `MAX_SPEED`.
    pub fn tick_with(
        &mut self,
        dt: i64,
        screen_w: i64,
        ground_y: i64,
        jump: bool,
        w: i64,
        h: i64,
        iv: i64,
    ) -> (hit: bool)
        requires
            session_wf(old(self)@),
            0 <= dt <= MAX_DT,
            0 <= screen_w <= MAX_SCREEN_W,
            0 <= ground_y <= MAX_GROUND_Y,
            old(self)@.score <= MAX_SCORE,
            OBSTACLE_W_MIN <= w < OBSTACLE_W_MAX,
            OBSTACLE_H_MIN <= h < OBSTACLE_H_MAX,
            SPAWN_MIN <= iv < SPAWN_MAX,
        ensures
            final(self)@ == spec_tick(
                old(self)@,
                dt as int,
                screen_w as int,
                ground_y as int,
                jump,
                w as int,
                h as int,
                iv as int,
            ),
            hit == spec_tick_hit(
                old(self)@,
                dt as int,
                screen_w as int,
                ground_y as int,
                jump,
                w as int,
                h as int,
            ),
            session_wf(final(self)@),
            old(self)@.speed <= final(self)@.speed <= MAX_SPEED,
            final(self)@.score == old(self)@.score + final(self)@.speed * dt,
    {
        let ghost s0 = self@;
        // 1. player physics
        self.player.update(dt, ground_y, jump);
        // 2. difficulty ramp
        proof {
            assert(SPEED_GROWTH * dt == 8 * dt);
        }
        let raised = self.speed + SPEED_GROWTH * dt;
        if raised <= MAX_SPEED {
            self.speed = raised;
        } else {
            self.speed = MAX_SPEED;
        }
        // 3. spawn phase
        proof {
            lemma_obs_views(self.obstacles);
        }
        if self.spawn_timer + dt >= self.next_spawn {
            let ob = Obstacle::with_size(screen_w + SPAWN_LEAD, ground_y, self.speed, w, h);
            self.obstacles.push(ob);
            self.spawn_timer = 0;
            self.next_spawn = iv;
            proof {
                lemma_obs_views(self.obstacles);
                assert(obs_views(self.obstacles) =~= s0.obstacles.push(ob@));
            }
        } else {
            self.spawn_timer = self.spawn_timer + dt;
        }
        let ghost spawned = spec_spawned_obstacles(
            s0,
            dt as int,
            screen_w as int,
            ground_y as int,
            w as int,
            h as int,
        );
        proof {
            assert(obs_views(self.obstacles) == spawned);
            lemma_obs_views(self.obstacles);
            assert forall|k: int| 0 <= k < self.obstacles@.len() implies obstacle_wf(
                #[trigger] self.obstacles@[k]@,
            ) by {
                assert(self.obstacles@[k]@ == spawned[k]);
                if k < s0.obstacles.len() {
                    assert(spawned[k] == s0.obstacles[k]);
                }
            }
        }
        // 4 & 5. movement and collision, all obstacles checked before eviction
        proof {
            lemma_player_pos_lower(self.player@);
        }
        let prect = self.player.rect();
        let hit = move_and_collide(&mut self.obstacles, dt, &prect);
        // 6. eviction
        let ghost moved = spec_move_obstacles(spawned, dt as int);
        proof {
            assert(obs_views(self.obstacles) == moved);
            assert forall|k: int| 0 <= k < obs_views(self.obstacles).len() implies {
                let o = #[trigger] obs_views(self.obstacles)[k];
                &&& -COORD_LIMIT <= o.pos.x <= COORD_LIMIT
                &&& -COORD_LIMIT <= o.size.x <= COORD_LIMIT
            } by {
                assert(obs_views(self.obstacles)[k] == moved[k]);
                assert(moved[k] == spec_obstacle_update(spawned[k], dt as int));
                assert(obstacle_wf(spawned[k]));
                lemma_moved_in_coord_range(spawned[k], dt as int);
            }
        }
        evict_offscreen(&mut self.obstacles);
        // 7. score accrual at the new speed
        let speed_now = self.speed;
        proof {
            assert(0 <= speed_now * dt <= 140_000_000_000) by (nonlinear_arith)
                requires
                    0 <= speed_now <= 140_000,
                    0 <= dt <= 1_000_000,
            ;
        }
        let gain = speed_now * dt;
        self.score = self.score + gain;
        proof {
            assert forall|k: int| 0 <= k < self@.obstacles.len() implies obstacle_wf(
                #[trigger] self@.obstacles[k],
            ) && !spec_offscreen(self@.obstacles[k]) by {
                lemma_evict_elems(moved);
                assert(self@.obstacles == spec_evict(moved));
                assert(!spec_offscreen(spec_evict(moved)[k]));
                let j = choose|j: int| 0 <= j < moved.len() && spec_evict(moved)[k] == moved[j];
                assert(0 <= j < moved.len() && self@.obstacles[k] == moved[j]);
                assert(obstacle_wf(spawned[j]));
                assert(moved[j] == spec_obstacle_update(spawned[j], dt as int));
            }
            assert(self@ == spec_tick(
                s0,
                dt as int,
                screen_w as int,
                ground_y as int,
                jump,
                w as int,
                h as int,
                iv as int,
            ));
        }
        hit
    }

    /// One simulation tick, drawing the spawn dimensions and the next spawn
    /// delay at random. The spawned obstacle (if the spawn fired) has its
    /// width in `[OBSTACLE_W_MIN, OBSTACLE_W_MAX)` and its height in
    /// `[OBSTACLE_H_MIN, OBSTACLE_H_MAX)`.
    pub fn tick(&mut self, dt: i64, screen_w: i64, ground_y: i64, jump: bool) -> (hit: bool)
        requires
            session_wf(old(self)@),
            0 <= dt <= MAX_DT,
            0 <= screen_w <= MAX_SCREEN_W,
            0 <= ground_y <= MAX_GROUND_Y,
            old(self)@.score <= MAX_SCORE,
        ensures
            exists|w: int, h: int, iv: int|
                {
                    &&& OBSTACLE_W_MIN <= w < OBSTACLE_W_MAX
                    &&& OBSTACLE_H_MIN <= h < OBSTACLE_H_MAX
                    &&& SPAWN_MIN <= iv < SPAWN_MAX
                    &&& final(self)@ == spec_tick(
                        old(self)@,
                        dt as int,
                        screen_w as int,
                        ground_y as int,
                        jump,
                        w,
                        h,
                        iv,
                    )
                    &&& hit == spec_tick_hit(
                        old(self)@,
                        dt as int,
                        screen_w as int,
                        ground_y as int,
                        jump,
                        w,
                        h,
                    )
                },
            session_wf(final(self)@),
            old(self)@.speed <= final(self)@.speed <= MAX_SPEED,
            final(self)@.score == old(self)@.score + final(self)@.speed * dt,
            final(self)@.player == spec_player_update(
                old(self)@.player,
                dt as int,
                ground_y as int,
                jump,
            ),
    {
        let w = rand_in_range(OBSTACLE_W_MIN, OBSTACLE_W_MAX);
        let h = rand_in_range(OBSTACLE_H_MIN, OBSTACLE_H_MAX);
        let iv = roll_next_interval();
        let hit = self.tick_with(dt, screen_w, ground_y, jump, w, h, iv);
        proof {
            assert(self@ == spec_tick(
                old(self)@,
                dt as int,
                screen_w as int,
                ground_y as int,
                jump,
                w as int,
                h as int,
                iv as int,
            ));
        }
        hit
    }
}

} // verus!
