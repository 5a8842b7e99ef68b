//! Obstacles: columns that enter at the right edge and scroll to the left.
//!
//! A pipe is one position; what is drawn for it are two rectangles, one
//! below and one above a gap of fixed height around that position.

use vstd::prelude::*;
use crate::units::{
    advance, advanced, clamp, saturate, Vec2, PIXEL, PIXEL_PER_SECOND, SCREEN_WIDTH,
};

verus! {

/// Width of a pipe, 64 pixels.
pub const PIPE_WIDTH: i64 = 64_000_000_000_000;

/// Height of each of the two rectangles of a pipe, 1280 pixels.
pub const PIPE_HEIGHT: i64 = 1_280_000_000_000_000;

/// Speed at which pipes scroll to the left, 300 pixels per second.
pub const PIPE_SPEED: i64 = 300_000_000;

/// Half the height of the gap, 120 pixels.
pub const GAP_HALF_HEIGHT: i64 = 120_000_000_000_000;

/// Where pipes enter: one pipe width beyond the right edge.
pub const SPAWN_X: i64 = 1_344_000_000_000_000;

/// The height around which pipes enter: half way down the screen.
pub const SPAWN_Y: i64 = 360_000_000_000_000;

/// How far above or below [`SPAWN_Y`] a pipe may enter, 150 pixels.
pub const SPAWN_SPREAD: i64 = 150_000_000_000_000;

/// An axis-aligned rectangle, given by its top left corner and its extent.
#[derive(Clone, Copy, Debug, PartialEq, Eq, Structural)]
pub struct Rect {
    pub position: Vec2,
    pub size: Vec2,
}

#[derive(Clone, Copy, Debug, PartialEq, Eq, Structural)]
pub struct Pipe {
    pub position: Vec2,
    pub velocity: Vec2,
    pub size: Vec2,
}

/// `offset` is a vertical offset at which a pipe may enter: at least
/// `-SPAWN_SPREAD` and less than `SPAWN_SPREAD`.
pub open spec fn valid_spawn_offset(offset: int) -> bool {
    -SPAWN_SPREAD <= offset < SPAWN_SPREAD
}

impl Pipe {
    /// The pipe that enters `offset` above the spawn height.
    pub open spec fn spawned(offset: int) -> Pipe {
        Pipe {
            position: Vec2 { x: SPAWN_X, y: (SPAWN_Y - offset) as i64 },
            velocity: Vec2 { x: (-PIPE_SPEED) as i64, y: 0 },
            size: Vec2 { x: PIPE_WIDTH, y: PIPE_HEIGHT },
        }
    }

    /// The pipe moves to the left.
    pub open spec fn wf(self) -> bool {
        self.velocity.x < 0
    }

    /// The pipe after scrolling for `dt` microseconds.
    pub open spec fn moved(self, dt: int) -> Pipe {
        Pipe {
            position: Vec2 {
                x: advanced(self.position.x as int, self.velocity.x as int, dt) as i64,
                y: self.position.y,
            },
            ..self
        }
    }

    /// The rectangle below the gap.
    pub open spec fn lower(self) -> Rect {
        Rect {
            position: Vec2 {
                x: self.position.x,
                y: clamp(self.position.y + GAP_HALF_HEIGHT) as i64,
            },
            size: self.size,
        }
    }

    /// The rectangle above the gap.
    pub open spec fn upper(self) -> Rect {
        Rect {
            position: Vec2 {
                x: self.position.x,
                y: clamp(self.position.y - PIPE_HEIGHT - GAP_HALF_HEIGHT) as i64,
            },
            size: self.size,
        }
    }

    /// A pipe entering `offset` above the spawn height.
    pub fn spawn(offset: i64) -> (p: Pipe)
        requires
            valid_spawn_offset(offset as int),
        ensures
            p == Pipe::spawned(offset as int),
            p.wf(),
            p.position.x == SPAWN_X,
            SPAWN_Y - p.position.y == offset,
            p.velocity.x == -PIPE_SPEED,
            p.velocity.y == 0,
    {
        Pipe {
            position: Vec2 { x: SPAWN_X, y: SPAWN_Y - offset },
            velocity: Vec2 { x: -PIPE_SPEED, y: 0 },
            size: Vec2 { x: PIPE_WIDTH, y: PIPE_HEIGHT },
        }
    }

    /// Scrolls the pipe for `dt` microseconds.
    pub fn integrate(&mut self, dt: u32)
        ensures
            *final(self) == old(self).moved(dt as int),
            old(self).wf() ==> final(self).wf() && final(self).position.x <= old(self).position.x,
    {
        proof {
            if self.velocity.x < 0 {
                assert(self.velocity.x * dt <= 0) by (nonlinear_arith)
                    requires
                        self.velocity.x < 0,
                        dt >= 0,
                ;
            }
        }
        self.position.x = advance(self.position.x, self.velocity.x, dt);
    }

    /// The rectangle below the gap.
    pub fn lower_rect(&self) -> (r: Rect)
        ensures
            r == self.lower(),
    {
        Rect {
            position: Vec2 {
                x: self.position.x,
                y: saturate(self.position.y as i128 + GAP_HALF_HEIGHT as i128),
            },
            size: self.size,
        }
    }

    /// The rectangle above the gap.
    pub fn upper_rect(&self) -> (r: Rect)
        ensures
            r == self.upper(),
    {
        Rect {
            position: Vec2 {
                x: self.position.x,
                y: saturate(
                    self.position.y as i128 - PIPE_HEIGHT as i128 - GAP_HALF_HEIGHT as i128,
                ),
            },
            size: self.size,
        }
    }
}

/// A pipe enters one pipe width beyond the right edge, within the spread
/// around the spawn height, and scrolls to the left at the pipe speed.
pub proof fn lemma_spawned_pipe(offset: int)
    requires
        valid_spawn_offset(offset),
    ensures
        Pipe::spawned(offset).position.x == SCREEN_WIDTH + PIPE_WIDTH,
        SPAWN_Y - Pipe::spawned(offset).position.y == offset,
        -150 * PIXEL <= SPAWN_Y - Pipe::spawned(offset).position.y < 150 * PIXEL,
        Pipe::spawned(offset).velocity.x == -300 * PIXEL_PER_SECOND,
        Pipe::spawned(offset).velocity.y == 0,
        Pipe::spawned(offset).size.x == 64 * PIXEL,
        Pipe::spawned(offset).size.y == 1280 * PIXEL,
        Pipe::spawned(offset).wf(),
{
}

} // verus!
