//! A side-scrolling "flap through the gates" game, written as a verified
//! state machine. The host loop supplies elapsed time and key presses; the
//! library decides the next state and the draw requests for it.
//!
//! Velocities are held in tenths of a cell per physics step, so all of the
//! game's arithmetic is on integers.

use vstd::prelude::*;

pub mod player;
pub mod obstacle;
pub mod draw;
pub mod game;
pub mod laws;

verus! {

/// Logical screen width in character cells.
pub const SCREEN_WIDTH: i32 = 80;

/// Logical screen height in character cells.
pub const SCREEN_HEIGHT: i32 = 50;

/// Duration of one physics step, in milliseconds.
pub const FRAME_DURATION_MS: u32 = 75;

/// The largest world x the player reaches: one screen further still fits in an `i32`.
pub const MAX_WORLD_X: i32 = 2147483567;

/// `v` held within `[lo, hi]`.
pub open spec fn clamp(v: int, lo: int, hi: int) -> int {
    if v < lo {
        lo
    } else if v > hi {
        hi
    } else {
        v
    }
}

/// Integer division truncating toward zero, as Rust's `/` on integers does.
pub open spec fn trunc_div(a: int, b: int) -> int
    recommends
        b > 0,
{
    if a >= 0 {
        a / b
    } else {
        -((-a) / b)
    }
}

} // verus!
