use vstd::prelude::*;

use crate::{clamp, trunc_div};

verus! {

/// Velocity gained per physics step, in tenths of a cell.
pub const GRAVITY: i32 = 2;

/// Largest downward velocity, in tenths of a cell per step.
pub const TERMINAL_VELOCITY: i32 = 20;

/// Velocity set by a flap, in tenths of a cell per step (negative is upward).
pub const FLAP_VELOCITY: i32 = -20;

/// Horizontal distance covered in one physics step.
pub const STRIDE: i32 = 5;

/// World x at which every run starts.
pub const START_X: i32 = 5;

/// Row at which every run starts.
pub const START_Y: i32 = 25;

/// The falling, flapping entity.
#[derive(Clone, Copy, Debug, PartialEq, Eq, Structural)]
pub struct Player {
    /// World-space column; grows as the player flies forward.
    pub x: i32,
    /// Row; grows downward.
    pub y: i32,
    /// Vertical speed in tenths of a cell per step, positive downward.
    pub velocity: i32,
}

impl Player {
    /// The player after one physics step.
    pub open spec fn integrated(self) -> Player {
        let v = if self.velocity < TERMINAL_VELOCITY - GRAVITY {
            self.velocity + GRAVITY
        } else {
            TERMINAL_VELOCITY as int
        };
        Player {
            x: clamp(self.x + STRIDE, 0, i32::MAX as int) as i32,
            y: clamp(self.y + trunc_div(v, 10), i32::MIN as int, i32::MAX as int) as i32,
            velocity: v as i32,
        }
    }

    /// The player after a flap.
    pub open spec fn flapped(self) -> Player {
        Player { velocity: FLAP_VELOCITY, ..self }
    }

    /// A player at rest at `(x, y)`.
    pub fn new(x: i32, y: i32) -> (r: Player)
        ensures
            r == (Player { x, y, velocity: 0 }),
    {
        Player { x, y, velocity: 0 }
    }

    /// Advances one physics step: gravity raises the velocity up to the
    /// terminal velocity, the row moves by the velocity truncated to whole
    /// cells, and the column moves one stride forward, never below zero.
    /// Both coordinates saturate at the bounds of their type.
    pub fn gravity_and_move(&mut self)
        ensures
            *final(self) == old(self).integrated(),
            final(self).velocity == (if old(self).velocity + GRAVITY < TERMINAL_VELOCITY {
                old(self).velocity + GRAVITY
            } else {
                TERMINAL_VELOCITY as int
            }),
            old(self).x <= i32::MAX - STRIDE ==> final(self).x == clamp(old(self).x + STRIDE, 0, i32::MAX as int),
            i32::MIN + 2 <= old(self).y <= i32::MAX - 2 && old(self).velocity >= FLAP_VELOCITY ==> final(self).y == old(self).y + trunc_div(final(self).velocity as int, 10),
    {
        if self.velocity < TERMINAL_VELOCITY - GRAVITY {
            self.velocity = self.velocity + GRAVITY;
        } else {
            self.velocity = TERMINAL_VELOCITY;
        }
        let cells: i32 = if self.velocity >= 0 {
            self.velocity / 10
        } else {
            -((-(self.velocity as i64)) / 10) as i32
        };
        let y: i64 = self.y as i64 + cells as i64;
        self.y = if y < i32::MIN as i64 {
            i32::MIN
        } else if y > i32::MAX as i64 {
            i32::MAX
        } else {
            y as i32
        };
        let x: i64 = self.x as i64 + STRIDE as i64;
        self.x = if x < 0 {
            0
        } else if x > i32::MAX as i64 {
            i32::MAX
        } else {
            x as i32
        };
    }

    /// Sets the velocity to the upward flap impulse, whatever it was.
    pub fn flap(&mut self)
        ensures
            *final(self) == old(self).flapped(),
    {
        self.velocity = FLAP_VELOCITY;
    }
}

} // verus!
