//! Verified simulation core of a two-paddle ball game.
//!
//! The library holds everything with logic worth proving: the rectangle
//! utility, the entity motion rules, collision resolution, the paddle AI,
//! scoring, mode selection, and the per-tick state machine. Rendering,
//! input polling and frame pacing are left to the surrounding binary.

pub mod ai;
pub mod entities;
pub mod game;
pub mod mode;
pub mod rect;

use vstd::prelude::*;

verus! {

/// Logical field width in game units.
pub const FIELD_W: i32 = 800;

/// Logical field height in game units.
pub const FIELD_H: i32 = 800;

/// Paddle width in game units.
pub const PADDLE_W: i32 = 15;

/// Paddle height in game units.
pub const PADDLE_H: i32 = 100;

/// Side length of the square ball.
pub const BALL_SIZE: i32 = 15;

/// How far a paddle moves in one tick, in game units.
pub const PADDLE_STEP: i32 = 15;

/// Magnitude of each ball velocity component after a reset.
pub const BALL_SPEED: i32 = 10;

/// x coordinate of the field midline.
pub const MID_X: i32 = 400;

/// Spawn x coordinate of the left paddle.
pub const LEFT_PADDLE_X: i32 = 100;

/// Spawn x coordinate of the right paddle.
pub const RIGHT_PADDLE_X: i32 = 700;

/// Spawn y coordinate of both paddles.
pub const PADDLE_SPAWN_Y: i32 = 350;

} // verus!
