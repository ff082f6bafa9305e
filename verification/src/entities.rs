//! The two entity kinds of the game: paddles and the ball, with their
//! per-tick motion rules.
//!
//! All motion is specified by spec functions over the rectangle model, so a
//! caller knows the exact post-state of every move.

use vstd::prelude::*;

use crate::rect::{rect_inter, rect_offset, rect_overlaps, rect_pos, Rect, RectV};
use crate::{FIELD_H, FIELD_W};

verus! {

/// Mathematical model of a paddle.
pub ghost struct PlayerV {
    pub texture: RectV,
    pub score: int,
}

/// Mathematical model of the ball.
pub ghost struct BallV {
    pub texture: RectV,
    pub vx: int,
    pub vy: int,
}

/// A paddle: its rectangle and the points it has scored.
#[derive(Clone, Copy, PartialEq, Eq, Structural, Debug)]
pub struct Player {
    pub texture: Rect,
    pub score: u32,
}

/// The ball: its rectangle and its velocity in units per tick.
#[derive(Clone, Copy, PartialEq, Eq, Debug)]
pub struct Ball {
    pub texture: Rect,
    pub velocity: (i32, i32),
}

impl View for Player {
    type V = PlayerV;

    open spec fn view(&self) -> PlayerV {
        PlayerV { texture: self.texture@, score: self.score as int }
    }
}

impl View for Ball {
    type V = BallV;

    open spec fn view(&self) -> BallV {
        BallV { texture: self.texture@, vx: self.velocity.0 as int, vy: self.velocity.1 as int }
    }
}

/// Coordinates and dimensions comfortably inside the `i32` range, so that
/// every quantity a tick computes fits. Far looser than anything the game
/// reaches.
pub open spec fn rect_bounded(r: RectV) -> bool {
    -100000 <= r.x <= 100000 && -100000 <= r.y <= 100000 && 0 < r.w <= 1000 && 0 < r.h <= 1000
}

/// A velocity small enough that no position update can overflow.
pub open spec fn vel_bounded(v: int) -> bool {
    -100000 <= v <= 100000
}

/// Where the paddle stands after `mv(direction)`: offset down by
/// `direction`, then clamped back into the field whenever the boundary
/// check — evaluated against the already-offset position — trips.
pub open spec fn player_after_move(p: RectV, direction: int) -> RectV {
    let moved = rect_offset(p, 0, direction);
    if moved.y <= direction || moved.y >= FIELD_H - moved.h + direction {
        let hi = FIELD_H - moved.h;
        let clamped = if moved.y < 0 {
            0
        } else if moved.y > hi {
            hi
        } else {
            moved.y
        };
        RectV { x: moved.x, y: clamped, w: moved.w, h: moved.h }
    } else {
        moved
    }
}

impl Player {
    /// Moves the paddle vertically by `direction` (positive = down) and
    /// clamps it back into the field when the boundary check trips.
    pub fn mv(&mut self, direction: i32)
        requires
            rect_pos(old(self)@.texture),
            old(self)@.texture.h <= FIELD_H,
            -100000 <= old(self)@.texture.y <= 100000,
            -100000 <= direction <= 100000,
        ensures
            final(self)@.texture == player_after_move(old(self)@.texture, direction as int),
            final(self).score == old(self).score,
    {
        self.texture = self.texture.offset(0, direction);
        if self.texture.y <= direction || self.texture.y >= FIELD_H - self.texture.h + direction {
            let hi = FIELD_H - self.texture.h;
            if self.texture.y < 0 {
                self.texture.y = 0;
            } else if self.texture.y > hi {
                self.texture.y = hi;
            }
        }
    }
}

/// Horizontal center of a rectangle, with the game's truncating halving.
pub open spec fn center_x(r: RectV) -> int {
    r.x + r.w / 2
}

/// Vertical center of a rectangle, with the game's truncating halving.
pub open spec fn center_y(r: RectV) -> int {
    r.y + r.h / 2
}

/// The ball's vertical extent pokes out of the other rectangle's on
/// either side.
pub open spec fn pokes_out_y(ball: RectV, other: RectV) -> bool {
    ball.y + ball.h > other.y + other.h || ball.y < other.y
}

/// Signed x-direction of the ball's center relative to the other center:
/// `+1` right of it, `-1` left of it, `0` on it.
pub open spec fn rel_pos_x(ball: RectV, other: RectV) -> int {
    if center_x(ball) > center_x(other) {
        1
    } else if center_x(ball) < center_x(other) {
        -1
    } else {
        0
    }
}

/// Signed y-direction used by the positional correction. Only non-zero
/// when the ball pokes out vertically, and deliberately inverted relative
/// to the x convention: `-1` when the ball's center is below the other
/// center, `+1` when above.
pub open spec fn rel_pos_y(ball: RectV, other: RectV) -> int {
    if pokes_out_y(ball, other) {
        if center_y(ball) > center_y(other) {
            -1
        } else if center_y(ball) < center_y(other) {
            1
        } else {
            0
        }
    } else {
        0
    }
}

/// The ball after translation, wall bounce and the zero-velocity guard:
/// the first three steps of a ball move, before any paddle is considered.
pub open spec fn ball_after_walls(b: BallV) -> BallV {
    let moved = rect_offset(b.texture, b.vx, b.vy);
    let vx1 = if moved.x <= 0 || moved.x >= FIELD_W - moved.w {
        -b.vx
    } else {
        b.vx
    };
    let vy1 = if moved.y <= 0 || moved.y >= FIELD_H - moved.h {
        -b.vy
    } else {
        b.vy
    };
    let vx2 = if vx1 == 0 || vy1 == 0 {
        10
    } else {
        vx1
    };
    let vy2 = if vx1 == 0 || vy1 == 0 {
        10
    } else {
        vy1
    };
    BallV { texture: moved, vx: vx2, vy: vy2 }
}

/// One paddle's collision step: if the ball overlaps the paddle, push it
/// out by the overlap depth (signed by the relative position), then
/// reflect vertically when the corrected ball still pokes out of the
/// paddle's vertical extent, horizontally otherwise.
pub open spec fn ball_collide_one(b: BallV, pl: RectV) -> BallV {
    if rect_overlaps(b.texture, pl) {
        let inter = rect_inter(b.texture, pl);
        let sx = rel_pos_x(b.texture, pl);
        let sy = rel_pos_y(b.texture, pl);
        let nt = RectV {
            x: b.texture.x + inter.w * sx,
            y: b.texture.y + inter.h * sy,
            w: b.texture.w,
            h: b.texture.h,
        };
        if nt.y + nt.h > pl.y + pl.h || nt.y < pl.y {
            BallV { texture: nt, vx: b.vx, vy: -b.vy }
        } else {
            BallV { texture: nt, vx: -b.vx, vy: b.vy }
        }
    } else {
        b
    }
}

/// A whole ball move: walls first, then each paddle in order.
pub open spec fn ball_step(b: BallV, p0: RectV, p1: RectV) -> BallV {
    ball_collide_one(ball_collide_one(ball_after_walls(b), p0), p1)
}

impl Ball {
    /// Signed relative position of the ball's center to `other`'s center,
    /// per axis; the y component follows the inverted convention of
    /// `rel_pos_y` and is zero while the ball sits vertically inside
    /// `other`.
    pub fn check_rel_pos(&mut self, other: Rect) -> (r: (i32, i32))
        requires
            -300000 <= old(self)@.texture.x <= 300000,
            -300000 <= old(self)@.texture.y <= 300000,
            0 < old(self)@.texture.w <= 1000,
            0 < old(self)@.texture.h <= 1000,
            rect_bounded(other@),
        ensures
            *final(self) == *old(self),
            r.0 as int == rel_pos_x(old(self)@.texture, other@),
            r.1 as int == rel_pos_y(old(self)@.texture, other@),
    {
        let oth_center_point: (i32, i32) = (other.x + other.w / 2, other.y + other.h / 2);
        let bal_center_point: (i32, i32) = (
            self.texture.x + self.texture.w / 2,
            self.texture.y + self.texture.h / 2,
        );

        let mut rel_pos: (i32, i32) = (0, 0);
        if bal_center_point.0 > oth_center_point.0 {
            rel_pos.0 = 1;
        } else if bal_center_point.0 < oth_center_point.0 {
            rel_pos.0 = -1;
        }
        if self.texture.y + self.texture.h > other.y + other.h || self.texture.y < other.y {
            if bal_center_point.1 > oth_center_point.1 {
                rel_pos.1 = -1;
            } else if bal_center_point.1 < oth_center_point.1 {
                rel_pos.1 = 1;
            }
        }
        rel_pos
    }

    /// The collision step against one paddle rectangle.
    fn collide(&mut self, pl_text: Rect)
        requires
            -300000 <= old(self)@.texture.x <= 300000,
            -300000 <= old(self)@.texture.y <= 300000,
            0 < old(self)@.texture.w <= 1000,
            0 < old(self)@.texture.h <= 1000,
            rect_bounded(pl_text@),
            vel_bounded(old(self)@.vx),
            vel_bounded(old(self)@.vy),
        ensures
            final(self)@ == ball_collide_one(old(self)@, pl_text@),
            final(self).texture.w == old(self).texture.w,
            final(self).texture.h == old(self).texture.h,
            old(self)@.texture.x - 1000 <= final(self)@.texture.x <= old(self)@.texture.x + 1000,
            old(self)@.texture.y - 1000 <= final(self)@.texture.y <= old(self)@.texture.y + 1000,
            final(self)@.vx == old(self)@.vx || final(self)@.vx == -old(self)@.vx,
            final(self)@.vy == old(self)@.vy || final(self)@.vy == -old(self)@.vy,
    {
        if self.texture.has_intersection(&pl_text) {
            let intersect = self.texture.intersection(&pl_text);
            let rel_pos = self.check_rel_pos(pl_text);

            proof {
                assert(-1000 <= intersect@.w * (rel_pos.0 as int) <= 1000) by (nonlinear_arith)
                    requires
                        -1 <= rel_pos.0 as int <= 1,
                        0 <= intersect@.w <= 1000,
                ;
                assert(-1000 <= intersect@.h * (rel_pos.1 as int) <= 1000) by (nonlinear_arith)
                    requires
                        -1 <= rel_pos.1 as int <= 1,
                        0 <= intersect@.h <= 1000,
                ;
            }
            self.texture.x = self.texture.x + intersect.w * rel_pos.0;
            self.texture.y = self.texture.y + intersect.h * rel_pos.1;

            if self.texture.y + self.texture.h > pl_text.y + pl_text.h
                || self.texture.y < pl_text.y {
                self.velocity.1 = -self.velocity.1;
            } else {
                self.velocity.0 = -self.velocity.0;
            }
        }
    }

    /// A whole ball move: translate by the velocity, bounce off the field
    /// walls, restore a degenerate velocity to `(10, 10)`, then resolve
    /// collisions against both paddles in order. The velocity never ends
    /// a move with a zero component.
    pub fn mv(&mut self, player: &[Player; 2])
        requires
            rect_bounded(old(self)@.texture),
            vel_bounded(old(self)@.vx),
            vel_bounded(old(self)@.vy),
            rect_bounded(player@[0]@.texture),
            rect_bounded(player@[1]@.texture),
        ensures
            final(self)@ == ball_step(old(self)@, player@[0]@.texture, player@[1]@.texture),
            final(self).velocity.0 != 0 && final(self).velocity.1 != 0,
    {
        self.texture = self.texture.offset(self.velocity.0, self.velocity.1);

        if self.texture.x <= 0 || self.texture.x >= FIELD_W - self.texture.w {
            self.velocity.0 = -self.velocity.0;
        }
        if self.texture.y <= 0 || self.texture.y >= FIELD_H - self.texture.h {
            self.velocity.1 = -self.velocity.1;
        }

        if self.velocity.0 == 0 || self.velocity.1 == 0 {
            self.velocity = (10, 10);
        }

        self.collide(player[0].texture);
        self.collide(player[1].texture);
    }
}

/// When an overlapping ball and paddle have equal widths and distinct x
/// positions, the positional correction separates them: after the
/// collision step the two rectangles no longer intersect. (With equal x
/// the horizontal push is zero, and a ball sitting vertically inside the
/// paddle gets no vertical push either, so such an overlap survives the
/// step; this lemma excludes exactly that configuration.)
pub proof fn lemma_no_post_tick_overlap(b: BallV, pl: RectV)
    requires
        rect_pos(b.texture),
        rect_pos(pl),
        b.texture.w == pl.w,
        b.texture.x != pl.x,
        rect_overlaps(b.texture, pl),
    ensures
        !rect_overlaps(ball_collide_one(b, pl).texture, pl),
{
}

/// A paddle that starts on a field boundary, or whose move does not
/// overshoot the field, is inside the field after the move. (An interior
/// paddle given a step larger than its distance to the boundary can leave
/// the field by the remainder of that step; the boundary check only trips
/// one move later.)
pub proof fn lemma_paddle_clamp(p: RectV, direction: int)
    requires
        rect_pos(p),
        p.h <= FIELD_H,
        0 <= p.y <= FIELD_H - p.h,
        p.y == 0 || p.y == FIELD_H - p.h || 0 <= p.y + direction <= FIELD_H - p.h,
    ensures
        0 <= player_after_move(p, direction).y <= FIELD_H - p.h,
{
}

} // verus!
