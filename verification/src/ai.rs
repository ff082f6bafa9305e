//! Heuristic paddle controller.
//!
//! The controller tracks the ball's vertical center, but keeps still inside
//! a dead zone of a quarter paddle height around its own center, so an
//! aligned paddle does not jitter.

use vstd::prelude::*;

use crate::entities::{center_y, rect_bounded};
use crate::rect::{Rect, RectV};
use crate::PADDLE_STEP;

verus! {

/// The move an AI paddle issues for one tick: `-PADDLE_STEP` (up) when its
/// center sits below the ball's center and outside the dead zone,
/// `PADDLE_STEP` (down) when above and outside it, `0` otherwise.
pub open spec fn ai_dir(paddle: RectV, ball: RectV) -> int {
    let pc = center_y(paddle);
    let bc = center_y(ball);
    let outside_dead_zone = pc + paddle.h / 4 < bc || pc - paddle.h / 4 > bc;
    if outside_dead_zone && pc > bc {
        -PADDLE_STEP as int
    } else if outside_dead_zone && pc < bc {
        PADDLE_STEP as int
    } else {
        0
    }
}

/// Direction an AI-controlled paddle moves this tick, given its own
/// rectangle and the ball's. A paddle whose center is within a quarter of
/// its height of the ball's center issues no movement.
pub fn ai_direction(paddle: &Rect, ball: &Rect) -> (d: i32)
    requires
        rect_bounded(paddle@),
        rect_bounded(ball@),
    ensures
        d as int == ai_dir(paddle@, ball@),
        vstd::math::abs(center_y(paddle@) - center_y(ball@)) <= paddle@.h / 4 ==> d == 0,
{
    let pc = paddle.y + paddle.h / 2;
    let bc = ball.y + ball.h / 2;
    let outside_dead_zone = pc + paddle.h / 4 < bc || pc - paddle.h / 4 > bc;
    if outside_dead_zone && pc > bc {
        -PADDLE_STEP
    } else if outside_dead_zone && pc < bc {
        PADDLE_STEP
    } else {
        0
    }
}

} // verus!
