//! The per-tick state machine: human input, AI, scoring, ball physics.
//!
//! One call to [`GameState::tick`] is one iteration of the fixed-rate loop.
//! Everything the loop decides is specified here; the surrounding binary
//! only polls keys, draws rectangles and sleeps.

use vstd::prelude::*;

use crate::ai::{ai_dir, ai_direction};
use crate::entities::{
    ball_after_walls, ball_collide_one, ball_step, player_after_move, rect_bounded, Ball, BallV,
    Player, PlayerV,
};
use crate::mode::Mode;
use crate::rect::{Rect, RectV};
use crate::{
    BALL_SIZE, BALL_SPEED, FIELD_H, FIELD_W, LEFT_PADDLE_X, MID_X, PADDLE_H, PADDLE_SPAWN_Y,
    PADDLE_STEP, PADDLE_W, RIGHT_PADDLE_X,
};

verus! {

/// The keys held this tick, polled once by the loop. The quit signal is
/// not part of a tick: the loop simply stops running.
#[derive(Clone, Copy, PartialEq, Eq, Structural, Debug)]
pub struct TickInput {
    pub left_down: bool,
    pub left_up: bool,
    pub right_down: bool,
    pub right_up: bool,
}

/// What the scoring check found this tick.
#[derive(Clone, Copy, PartialEq, Eq, Structural, Debug)]
pub enum ScoreEvent {
    NoScore,
    /// The ball left on the left edge: the right paddle scores.
    RightScored,
    /// The ball left on the right edge: the left paddle scores.
    LeftScored,
}

/// The final standing when the loop stops.
#[derive(Clone, Copy, PartialEq, Eq, Structural, Debug)]
pub enum Winner {
    LeftWins,
    RightWins,
    Tie,
}

/// Mathematical model of the whole game state.
pub ghost struct GameStateV {
    pub p_left: PlayerV,
    pub p_right: PlayerV,
    pub ball: BallV,
    pub mode: Mode,
}

/// The whole state the loop owns: both paddles, the ball, and the mode
/// chosen at startup.
#[derive(Clone, Copy, PartialEq, Eq, Debug)]
pub struct GameState {
    pub players: [Player; 2],
    pub ball: Ball,
    pub mode: Mode,
}

impl View for GameState {
    type V = GameStateV;

    open spec fn view(&self) -> GameStateV {
        GameStateV {
            p_left: self.players@[0]@,
            p_right: self.players@[1]@,
            ball: self.ball@,
            mode: self.mode,
        }
    }
}

/// A paddle after one `mv(d)` call.
pub open spec fn player_moved(p: PlayerV, d: int) -> PlayerV {
    PlayerV { texture: player_after_move(p.texture, d), score: p.score }
}

/// The paddles after the human-input step: held keys each issue one move,
/// in the order the key scan reports them (left down, left up, right down,
/// right up). `Multi` steers both paddles, `Single` only the left one,
/// `Bots` none.
pub open spec fn human_phase(s: GameStateV, inp: TickInput) -> GameStateV {
    let human_left = s.mode == Mode::Multi || s.mode == Mode::Single;
    let human_right = s.mode == Mode::Multi;
    let l1 = if human_left && inp.left_down {
        player_moved(s.p_left, PADDLE_STEP as int)
    } else {
        s.p_left
    };
    let l2 = if human_left && inp.left_up {
        player_moved(l1, -PADDLE_STEP as int)
    } else {
        l1
    };
    let r1 = if human_right && inp.right_down {
        player_moved(s.p_right, PADDLE_STEP as int)
    } else {
        s.p_right
    };
    let r2 = if human_right && inp.right_up {
        player_moved(r1, -PADDLE_STEP as int)
    } else {
        r1
    };
    GameStateV { p_left: l2, p_right: r2, ball: s.ball, mode: s.mode }
}

/// The left paddle's AI engages when the ball is on its half of the field
/// or it is losing.
pub open spec fn left_ai_engaged(s: GameStateV) -> bool {
    s.ball.texture.x < MID_X || s.p_left.score < s.p_right.score
}

/// The right paddle's AI engages when the ball is on its half of the field
/// or it is losing. In `Single` mode the half-field test looks at the
/// ball's left edge; in `Bots` mode at its right edge.
pub open spec fn right_ai_engaged(s: GameStateV) -> bool {
    if s.mode == Mode::Single {
        s.ball.texture.x > MID_X || s.p_right.score < s.p_left.score
    } else {
        s.ball.texture.x + s.ball.texture.w > MID_X || s.p_right.score < s.p_left.score
    }
}

/// One AI-controlled paddle's step: move by the controller's direction,
/// or stand still when it issues none.
pub open spec fn ai_step(p: PlayerV, ball: BallV) -> PlayerV {
    let d = ai_dir(p.texture, ball.texture);
    if d != 0 {
        player_moved(p, d)
    } else {
        p
    }
}

/// The paddles after the AI step: in `Single` mode the right paddle is AI
/// driven, in `Bots` mode both are (left first), in `Multi` mode none.
pub open spec fn ai_phase(s: GameStateV) -> GameStateV {
    if s.mode == Mode::Single {
        let r = if right_ai_engaged(s) {
            ai_step(s.p_right, s.ball)
        } else {
            s.p_right
        };
        GameStateV { p_right: r, ..s }
    } else if s.mode == Mode::Bots {
        let l = if left_ai_engaged(s) {
            ai_step(s.p_left, s.ball)
        } else {
            s.p_left
        };
        let s1 = GameStateV { p_left: l, ..s };
        let r = if right_ai_engaged(s1) {
            ai_step(s1.p_right, s1.ball)
        } else {
            s1.p_right
        };
        GameStateV { p_right: r, ..s1 }
    } else {
        s
    }
}

/// Which side scores this tick, read off the ball's x position.
pub open spec fn score_event(s: GameStateV) -> ScoreEvent {
    if s.ball.texture.x <= 0 {
        ScoreEvent::RightScored
    } else if s.ball.texture.x >= FIELD_W - s.ball.texture.w {
        ScoreEvent::LeftScored
    } else {
        ScoreEvent::NoScore
    }
}

/// The state after the scoring check. A score for the right paddle resets
/// the ball to the top of the midline moving down-right; one for the left
/// paddle to the bottom of the midline moving up-left. (The differing
/// reset positions and velocities per side are deliberate asymmetry.)
pub open spec fn score_apply(s: GameStateV) -> GameStateV {
    if s.ball.texture.x <= 0 {
        GameStateV {
            p_right: PlayerV { score: s.p_right.score + 1, ..s.p_right },
            ball: BallV {
                texture: RectV { x: MID_X as int, y: 0, ..s.ball.texture },
                vx: BALL_SPEED as int,
                vy: BALL_SPEED as int,
            },
            ..s
        }
    } else if s.ball.texture.x >= FIELD_W - s.ball.texture.w {
        GameStateV {
            p_left: PlayerV { score: s.p_left.score + 1, ..s.p_left },
            ball: BallV {
                texture: RectV {
                    x: MID_X as int,
                    y: FIELD_H - s.ball.texture.h,
                    ..s.ball.texture
                },
                vx: -BALL_SPEED as int,
                vy: -BALL_SPEED as int,
            },
            ..s
        }
    } else {
        s
    }
}

/// One whole tick: human input, AI, scoring, then ball physics.
pub open spec fn tick_spec(s: GameStateV, inp: TickInput) -> (GameStateV, ScoreEvent) {
    let a = ai_phase(human_phase(s, inp));
    let ev = score_event(a);
    let b = score_apply(a);
    let moved = ball_step(b.ball, b.p_left.texture, b.p_right.texture);
    (GameStateV { ball: moved, ..b }, ev)
}

/// A paddle standing on its spawn column with the standard dimensions,
/// within one step of the field. (A move from just inside a boundary can
/// overshoot it by up to one step before the clamp catches it on the next
/// move, so the resting range is one step wider than the field.)
pub open spec fn paddle_wf(p: PlayerV, column: int) -> bool {
    &&& p.texture.x == column
    &&& p.texture.w == PADDLE_W
    &&& p.texture.h == PADDLE_H
    &&& -PADDLE_STEP <= p.texture.y <= FIELD_H - PADDLE_H + PADDLE_STEP
}

/// The ball's vertical resting band. Beyond the field the ball always
/// oscillates back: above (or below) the wall-bounce band its velocity
/// points back towards the field, or it is about to be flipped, which
/// bounds how far it can stray.
pub open spec fn ball_y_ok(b: BallV) -> bool {
    ||| -45 <= b.texture.y <= 830
    ||| b.vy > 0 && -65 <= b.texture.y <= 840
    ||| b.vy < 0 && -55 <= b.texture.y <= 850
}

/// A well-formed ball: standard size, full diagonal speed, and within the
/// band the simulation can reach.
pub open spec fn ball_wf(b: BallV) -> bool {
    &&& b.texture.w == BALL_SIZE
    &&& b.texture.h == BALL_SIZE
    &&& (b.vx == BALL_SPEED || b.vx == -BALL_SPEED)
    &&& (b.vy == BALL_SPEED || b.vy == -BALL_SPEED)
    &&& -BALL_SPEED <= b.texture.x <= FIELD_W - BALL_SIZE + BALL_SPEED
    &&& ball_y_ok(b)
}

/// Every state the game can reach satisfies this.
pub open spec fn game_wf(s: GameStateV) -> bool {
    &&& paddle_wf(s.p_left, LEFT_PADDLE_X as int)
    &&& paddle_wf(s.p_right, RIGHT_PADDLE_X as int)
    &&& ball_wf(s.ball)
}

/// The state a fresh game starts in.
pub open spec fn initial_state(mode: Mode) -> GameStateV {
    GameStateV {
        p_left: PlayerV {
            texture: RectV {
                x: LEFT_PADDLE_X as int,
                y: PADDLE_SPAWN_Y as int,
                w: PADDLE_W as int,
                h: PADDLE_H as int,
            },
            score: 0,
        },
        p_right: PlayerV {
            texture: RectV {
                x: RIGHT_PADDLE_X as int,
                y: PADDLE_SPAWN_Y as int,
                w: PADDLE_W as int,
                h: PADDLE_H as int,
            },
            score: 0,
        },
        ball: BallV {
            texture: RectV {
                x: (FIELD_W / 2) as int,
                y: (FIELD_H / 2) as int,
                w: BALL_SIZE as int,
                h: BALL_SIZE as int,
            },
            vx: BALL_SPEED as int,
            vy: BALL_SPEED as int,
        },
        mode,
    }
}

/// Who won, given both final scores: the higher score wins, equal scores
/// tie.
pub open spec fn winner_of(left: int, right: int) -> Winner {
    if left > right {
        Winner::LeftWins
    } else if right > left {
        Winner::RightWins
    } else {
        Winner::Tie
    }
}

/// The result line the game reports when the loop stops.
pub fn winner(left_score: u32, right_score: u32) -> (w: Winner)
    ensures
        w == winner_of(left_score as int, right_score as int),
{
    if left_score > right_score {
        Winner::LeftWins
    } else if right_score > left_score {
        Winner::RightWins
    } else {
        Winner::Tie
    }
}

impl GameState {
    /// A fresh game in the given mode: paddles on their spawn columns,
    /// ball in the center moving down-right.
    pub fn new(mode: Mode) -> (s: GameState)
        ensures
            s@ == initial_state(mode),
            game_wf(s@),
    {
        GameState {
            players: [
                Player {
                    texture: Rect::new(LEFT_PADDLE_X, PADDLE_SPAWN_Y, PADDLE_W, PADDLE_H),
                    score: 0,
                },
                Player {
                    texture: Rect::new(RIGHT_PADDLE_X, PADDLE_SPAWN_Y, PADDLE_W, PADDLE_H),
                    score: 0,
                },
            ],
            ball: Ball {
                texture: Rect::new(FIELD_W / 2, FIELD_H / 2, BALL_SIZE, BALL_SIZE),
                velocity: (BALL_SPEED, BALL_SPEED),
            },
            mode,
        }
    }

    /// Whether the state is well formed. The loop can check this before a
    /// tick instead of trusting its own bookkeeping.
    pub fn is_wf(&self) -> (r: bool)
        ensures
            r == game_wf(self@),
    {
        let pl = &self.players[0];
        let pr = &self.players[1];
        let b = &self.ball;
        pl.texture.x == LEFT_PADDLE_X && pl.texture.w == PADDLE_W && pl.texture.h == PADDLE_H
            && -PADDLE_STEP <= pl.texture.y && pl.texture.y <= FIELD_H - PADDLE_H + PADDLE_STEP
            && pr.texture.x == RIGHT_PADDLE_X && pr.texture.w == PADDLE_W
            && pr.texture.h == PADDLE_H && -PADDLE_STEP <= pr.texture.y
            && pr.texture.y <= FIELD_H - PADDLE_H + PADDLE_STEP && b.texture.w == BALL_SIZE
            && b.texture.h == BALL_SIZE
            && (b.velocity.0 == BALL_SPEED || b.velocity.0 == -BALL_SPEED)
            && (b.velocity.1 == BALL_SPEED || b.velocity.1 == -BALL_SPEED)
            && -BALL_SPEED <= b.texture.x && b.texture.x <= FIELD_W - BALL_SIZE + BALL_SPEED
            && ((-45 <= b.texture.y && b.texture.y <= 830)
                || (b.velocity.1 > 0 && -65 <= b.texture.y && b.texture.y <= 840)
                || (b.velocity.1 < 0 && -55 <= b.texture.y && b.texture.y <= 850))
    }

    /// The scoring check: when the ball has reached the left or right edge
    /// the other paddle scores a point and the ball resets. Scoring the
    /// right paddle always resets the ball to `(MID_X, 0)` with velocity
    /// `(BALL_SPEED, BALL_SPEED)`; scoring the left paddle to
    /// `(MID_X, FIELD_H - ball.h)` with velocity
    /// `(-BALL_SPEED, -BALL_SPEED)`.
    pub fn apply_scoring(&mut self) -> (ev: ScoreEvent)
        requires
            rect_bounded(old(self)@.ball.texture),
            old(self)@.p_left.score < u32::MAX,
            old(self)@.p_right.score < u32::MAX,
        ensures
            final(self)@ == score_apply(old(self)@),
            ev == score_event(old(self)@),
            ev == ScoreEvent::RightScored ==> final(self)@.ball.texture.x == MID_X
                && final(self)@.ball.texture.y == 0
                && final(self)@.ball.vx == BALL_SPEED
                && final(self)@.ball.vy == BALL_SPEED
                && final(self)@.p_right.score == old(self)@.p_right.score + 1,
            ev == ScoreEvent::LeftScored ==> final(self)@.ball.texture.x == MID_X
                && final(self)@.ball.texture.y == FIELD_H - old(self)@.ball.texture.h
                && final(self)@.ball.vx == -BALL_SPEED
                && final(self)@.ball.vy == -BALL_SPEED
                && final(self)@.p_left.score == old(self)@.p_left.score + 1,
            ev == ScoreEvent::NoScore ==> *final(self) == *old(self),
    {
        if self.ball.texture.x <= 0 {
            let mut r = self.players[1];
            r.score = r.score + 1;
            self.players = [self.players[0], r];
            self.ball.texture.x = MID_X;
            self.ball.texture.y = 0;
            self.ball.velocity = (BALL_SPEED, BALL_SPEED);
            ScoreEvent::RightScored
        } else if self.ball.texture.x >= FIELD_W - self.ball.texture.w {
            let mut l = self.players[0];
            l.score = l.score + 1;
            self.players = [l, self.players[1]];
            self.ball.texture.x = MID_X;
            self.ball.texture.y = FIELD_H - self.ball.texture.h;
            self.ball.velocity = (-BALL_SPEED, -BALL_SPEED);
            ScoreEvent::LeftScored
        } else {
            ScoreEvent::NoScore
        }
    }

    /// One iteration of the fixed-rate loop: apply the held keys to the
    /// human paddles, run the AI paddles, check scoring, then move the
    /// ball and resolve its collisions. Returns which side scored, so the
    /// caller can announce it. Scores never decrease, and rise by at most
    /// one per tick.
    pub fn tick(&mut self, input: TickInput) -> (ev: ScoreEvent)
        requires
            game_wf(old(self)@),
            old(self)@.p_left.score < u32::MAX,
            old(self)@.p_right.score < u32::MAX,
        ensures
            final(self)@ == tick_spec(old(self)@, input).0,
            ev == tick_spec(old(self)@, input).1,
            game_wf(final(self)@),
            final(self)@.mode == old(self)@.mode,
            old(self)@.p_left.score <= final(self)@.p_left.score <= old(self)@.p_left.score + 1,
            old(self)@.p_right.score <= final(self)@.p_right.score <= old(self)@.p_right.score
                + 1,
    {
        let ghost s0 = self@;
        let mut l = self.players[0];
        let mut r = self.players[1];

        // Human input, in the order the key scan reports held keys.
        match self.mode {
            Mode::Multi => {
                if input.left_down {
                    l.mv(PADDLE_STEP);
                }
                if input.left_up {
                    l.mv(-PADDLE_STEP);
                }
                if input.right_down {
                    r.mv(PADDLE_STEP);
                }
                if input.right_up {
                    r.mv(-PADDLE_STEP);
                }
            },
            Mode::Single => {
                if input.left_down {
                    l.mv(PADDLE_STEP);
                }
                if input.left_up {
                    l.mv(-PADDLE_STEP);
                }
            },
            Mode::Bots => {},
        }

        proof {
            assert(l@ == human_phase(s0, input).p_left);
            assert(r@ == human_phase(s0, input).p_right);
        }

        // AI-controlled paddles.
        match self.mode {
            Mode::Single => {
                if self.ball.texture.x > MID_X || r.score < l.score {
                    let d = ai_direction(&r.texture, &self.ball.texture);
                    if d != 0 {
                        r.mv(d);
                    }
                }
            },
            Mode::Bots => {
                if self.ball.texture.x < MID_X || l.score < r.score {
                    let d = ai_direction(&l.texture, &self.ball.texture);
                    if d != 0 {
                        l.mv(d);
                    }
                }
                if self.ball.texture.x + self.ball.texture.w > MID_X || r.score < l.score {
                    let d = ai_direction(&r.texture, &self.ball.texture);
                    if d != 0 {
                        r.mv(d);
                    }
                }
            },
            Mode::Multi => {},
        }

        self.players = [l, r];

        proof {
            assert(self@ == ai_phase(human_phase(s0, input)));
        }

        // Scoring, then the ball phase.
        let ev = self.apply_scoring();

        proof {
            lemma_ball_step_wf(
                self@.ball,
                self@.p_left.texture,
                self@.p_right.texture,
            );
        }

        self.ball.mv(&self.players);

        ev
    }
}

/// One collision step leaves the ball unchanged, or — because an overlap
/// confines the ball to one paddle width and height around the paddle —
/// within 30 units of the paddle's column and inside the vertical base
/// band; the velocity components are at most negated.
proof fn lemma_collide_one_wf(b: BallV, p: RectV)
    requires
        b.texture.w == BALL_SIZE,
        b.texture.h == BALL_SIZE,
        p.w == PADDLE_W,
        p.h == PADDLE_H,
        -PADDLE_STEP <= p.y <= FIELD_H - PADDLE_H + PADDLE_STEP,
    ensures
        ball_collide_one(b, p).texture.w == b.texture.w,
        ball_collide_one(b, p).texture.h == b.texture.h,
        ball_collide_one(b, p).vx == b.vx || ball_collide_one(b, p).vx == -b.vx,
        ball_collide_one(b, p).vy == b.vy || ball_collide_one(b, p).vy == -b.vy,
        ball_collide_one(b, p) == b || (p.x - 30 < ball_collide_one(b, p).texture.x < p.x + 30
            && -45 <= ball_collide_one(b, p).texture.y <= 830),
{
}

/// The whole ball phase keeps a well-formed ball well formed, provided the
/// scoring check ran first (so the ball starts strictly inside the field
/// horizontally) and both paddles are in their resting ranges.
pub proof fn lemma_ball_step_wf(b: BallV, pl: RectV, pr: RectV)
    requires
        b.texture.w == BALL_SIZE,
        b.texture.h == BALL_SIZE,
        (b.vx == BALL_SPEED || b.vx == -BALL_SPEED),
        (b.vy == BALL_SPEED || b.vy == -BALL_SPEED),
        0 < b.texture.x < FIELD_W - BALL_SIZE,
        ball_y_ok(b),
        pl.x == LEFT_PADDLE_X && pr.x == RIGHT_PADDLE_X,
        pl.w == PADDLE_W && pr.w == PADDLE_W,
        pl.h == PADDLE_H && pr.h == PADDLE_H,
        -PADDLE_STEP <= pl.y <= FIELD_H - PADDLE_H + PADDLE_STEP,
        -PADDLE_STEP <= pr.y <= FIELD_H - PADDLE_H + PADDLE_STEP,
    ensures
        ball_wf(ball_step(b, pl, pr)),
{
    let a = ball_after_walls(b);
    assert(a.texture.w == BALL_SIZE && a.texture.h == BALL_SIZE);
    assert(-9 <= a.texture.x <= 794);
    assert(a.vx == BALL_SPEED || a.vx == -BALL_SPEED);
    assert(a.vy == BALL_SPEED || a.vy == -BALL_SPEED);
    assert(ball_y_ok(a));
    lemma_collide_one_wf(a, pl);
    let c1 = ball_collide_one(a, pl);
    lemma_collide_one_wf(c1, pr);
}

} // verus!
