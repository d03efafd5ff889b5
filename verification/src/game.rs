//! The game-flow state machine: Menu, Playing and GameOver, with the
//! process-wide high score that survives across runs.

use vstd::prelude::*;

use crate::consts::{
    MAX_DT, MAX_GROUND_Y, MAX_SCORE, MAX_SCREEN_W, OBSTACLE_H_MAX, OBSTACLE_H_MIN, OBSTACLE_W_MAX,
    OBSTACLE_W_MIN, SPAWN_MAX, SPAWN_MIN,
};
use crate::rng::rand_in_range;
use crate::session::{
    roll_first_interval, roll_next_interval, session_wf, spec_session_new, spec_tick,
    spec_tick_hit, Session, SessionV,
};

verus! {

/// Where the game currently is. A session exists exactly while the game is
/// in `Playing` or `GameOver`: the variant carries it, so "no player while
/// playing" is unrepresentable.
pub enum GameState {
    /// The title screen; only the high score is meaningful here.
    Menu,
    /// An active run.
    Playing(Session),
    /// A finished run, kept so its score can still be shown.
    GameOver(Session),
}

/// Mathematical value of a [`GameState`].
pub ghost enum GameStateV {
    Menu,
    Playing(SessionV),
    GameOver(SessionV),
}

impl View for GameState {
    type V = GameStateV;

    open spec fn view(&self) -> GameStateV {
        match self {
            GameState::Menu => GameStateV::Menu,
            GameState::Playing(s) => GameStateV::Playing(s@),
            GameState::GameOver(s) => GameStateV::GameOver(s@),
        }
    }
}

/// The whole game: the current flow state and the high score, which lives
/// outside any one run and survives Playing, GameOver and Menu alike.
pub struct Game {
    pub state: GameState,
    /// Best score of any run so far, in score units.
    pub hi_score: i64,
}

/// Mathematical value of a [`Game`].
pub ghost struct GameV {
    pub state: GameStateV,
    pub hi_score: int,
}

impl View for Game {
    type V = GameV;

    open spec fn view(&self) -> GameV {
        GameV { state: self.state@, hi_score: self.hi_score as int }
    }
}

/// Well-formedness of the game: any live session is well formed and the
/// high score is non-negative.
pub open spec fn game_wf(g: GameV) -> bool {
    &&& match g.state {
        GameStateV::Menu => true,
        GameStateV::Playing(s) => session_wf(s),
        GameStateV::GameOver(s) => session_wf(s),
    }
    &&& 0 <= g.hi_score
}

/// The score of a running session has not yet reached the machine limit, so
/// one more tick cannot overflow it.
pub open spec fn game_score_ok(g: GameV) -> bool {
    g.state matches GameStateV::Playing(s) ==> s.score <= MAX_SCORE
}

/// One step of the game-flow state machine, with the randomness as
/// arguments.
///
/// - `Menu`: a jump signal starts a fresh run (base speed, zero score, no
///   obstacles, first spawn delay `iv`); the high score is untouched.
/// - `Playing`: the session ticks; on a collision the high score is raised
///   to the final score if that is higher, exactly once, and the ended
///   session is retained for display.
/// - `GameOver`: a return-to-menu signal wins over a jump signal and
///   discards the session; a jump signal starts a fresh run; the high score
///   is never touched here.
pub open spec fn spec_step(
    g: GameV,
    dt: int,
    screen_w: int,
    ground_y: int,
    jump: bool,
    menu_req: bool,
    w: int,
    h: int,
    iv: int,
) -> GameV {
    match g.state {
        GameStateV::Menu => {
            if jump {
                GameV {
                    state: GameStateV::Playing(spec_session_new(screen_w, ground_y, iv)),
                    hi_score: g.hi_score,
                }
            } else {
                g
            }
        },
        GameStateV::Playing(s) => {
            let s2 = spec_tick(s, dt, screen_w, ground_y, jump, w, h, iv);
            if spec_tick_hit(s, dt, screen_w, ground_y, jump, w, h) {
                GameV {
                    state: GameStateV::GameOver(s2),
                    hi_score: if s2.score > g.hi_score {
                        s2.score
                    } else {
                        g.hi_score
                    },
                }
            } else {
                GameV { state: GameStateV::Playing(s2), hi_score: g.hi_score }
            }
        },
        GameStateV::GameOver(s) => {
            if menu_req {
                GameV { state: GameStateV::Menu, hi_score: g.hi_score }
            } else if jump {
                GameV {
                    state: GameStateV::Playing(spec_session_new(screen_w, ground_y, iv)),
                    hi_score: g.hi_score,
                }
            } else {
                g
            }
        },
    }
}

impl Game {
    /// A fresh game: at the menu, with no high score yet.
    pub fn new() -> (g: Game)
        ensures
            g@.state == GameStateV::Menu,
            g@.hi_score == 0,
            game_wf(g@),
    {
        Game { state: GameState::Menu, hi_score: 0 }
    }

    /// One frame of the state machine with the randomness supplied by the
    /// caller: `jump` and `menu_req` are this frame's edge-triggered input
    /// signals, and `w`, `h`, `iv` are the values a spawn or a fresh run
    /// would draw. The high score never decreases.
    pub fn step_with(
        &mut self,
        dt: i64,
        screen_w: i64,
        ground_y: i64,
        jump: bool,
        menu_req: bool,
        w: i64,
        h: i64,
        iv: i64,
    )
        requires
            game_wf(old(self)@),
            game_score_ok(old(self)@),
            0 <= dt <= MAX_DT,
            0 <= screen_w <= MAX_SCREEN_W,
            0 <= ground_y <= MAX_GROUND_Y,
            OBSTACLE_W_MIN <= w < OBSTACLE_W_MAX,
            OBSTACLE_H_MIN <= h < OBSTACLE_H_MAX,
            SPAWN_MIN <= iv < SPAWN_MAX,
        ensures
            final(self)@ == spec_step(
                old(self)@,
                dt as int,
                screen_w as int,
                ground_y as int,
                jump,
                menu_req,
                w as int,
                h as int,
                iv as int,
            ),
            game_wf(final(self)@),
            old(self)@.hi_score <= final(self)@.hi_score,
    {
        let mut st = GameState::Menu;
        core::mem::swap(&mut st, &mut self.state);
        match st {
            GameState::Menu => {
                if jump {
                    self.state = GameState::Playing(
                        Session::with_interval(screen_w, ground_y, iv),
                    );
                } else {
                    self.state = GameState::Menu;
                }
            },
            GameState::Playing(mut s) => {
                let hit = s.tick_with(dt, screen_w, ground_y, jump, w, h, iv);
                if hit {
                    if s.score > self.hi_score {
                        self.hi_score = s.score;
                    }
                    self.state = GameState::GameOver(s);
                } else {
                    self.state = GameState::Playing(s);
                }
            },
            GameState::GameOver(s) => {
                if menu_req {
                    self.state = GameState::Menu;
                } else if jump {
                    self.state = GameState::Playing(
                        Session::with_interval(screen_w, ground_y, iv),
                    );
                } else {
                    self.state = GameState::GameOver(s);
                }
            },
        }
    }

    /// One frame of the state machine, drawing at random whatever this
    /// frame may need: the dimensions of a spawned obstacle and the next
    /// spawn delay (re-rolled inside a run, rolled fresh when a run
    /// starts).
    pub fn step(&mut self, dt: i64, screen_w: i64, ground_y: i64, jump: bool, menu_req: bool)
        requires
            game_wf(old(self)@),
            game_score_ok(old(self)@),
            0 <= dt <= MAX_DT,
            0 <= screen_w <= MAX_SCREEN_W,
            0 <= ground_y <= MAX_GROUND_Y,
        ensures
            exists|w: int, h: int, iv: int|
                {
                    &&& OBSTACLE_W_MIN <= w < OBSTACLE_W_MAX
                    &&& OBSTACLE_H_MIN <= h < OBSTACLE_H_MAX
                    &&& SPAWN_MIN <= iv < SPAWN_MAX
                    &&& final(self)@ == spec_step(
                        old(self)@,
                        dt as int,
                        screen_w as int,
                        ground_y as int,
                        jump,
                        menu_req,
                        w,
                        h,
                        iv,
                    )
                },
            game_wf(final(self)@),
            old(self)@.hi_score <= final(self)@.hi_score,
    {
        let w = rand_in_range(OBSTACLE_W_MIN, OBSTACLE_W_MAX);
        let h = rand_in_range(OBSTACLE_H_MIN, OBSTACLE_H_MAX);
        let iv = match &self.state {
            GameState::Playing(_) => roll_next_interval(),
            _ => roll_first_interval(),
        };
        self.step_with(dt, screen_w, ground_y, jump, menu_req, w, h, iv);
        proof {
            assert(self@ == spec_step(
                old(self)@,
                dt as int,
                screen_w as int,
                ground_y as int,
                jump,
                menu_req,
                w as int,
                h as int,
                iv as int,
            ));
        }
    }
}

} // verus!
