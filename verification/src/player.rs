//! The player: a square that drifts, falls and jumps, and dies at the top
//! and the bottom of the screen.

use vstd::prelude::*;
use crate::units::{advance, advanced, clamp, lemma_rate_times_dt_bounded, saturate, Vec2, SCREEN_HEIGHT};

verus! {

/// Where a new player stands: a third of the screen from the left.
pub const PLAYER_START_X: i64 = 426_666_666_666_666;

/// Where a new player stands: half way down the screen.
pub const PLAYER_START_Y: i64 = 360_000_000_000_000;

/// Side of the player's square, 64 pixels.
pub const PLAYER_SIZE: i64 = 64_000_000_000_000;

/// The nominal gravity of a new player.
pub const PLAYER_GRAVITY: i64 = 17;

/// The speed at which a new player leaves upwards on a jump, 650 pixels per
/// second.
pub const PLAYER_JUMP: i64 = 650_000_000;

/// Turns the nominal gravity into an acceleration in pixels per second
/// squared.
pub const GRAVITY_SCALE: i64 = 110;

#[derive(Clone, Copy, Debug, PartialEq, Eq, Structural)]
pub struct Player {
    pub is_alive: bool,
    pub position: Vec2,
    pub velocity: Vec2,
    pub size: Vec2,
    pub gravity_force: i64,
    pub jump_force: i64,
}

impl Player {
    /// The player as every round starts: alive and at rest.
    pub open spec fn initial() -> Player {
        Player {
            is_alive: true,
            position: Vec2 { x: PLAYER_START_X, y: PLAYER_START_Y },
            velocity: Vec2 { x: 0, y: 0 },
            size: Vec2 { x: PLAYER_SIZE, y: PLAYER_SIZE },
            gravity_force: PLAYER_GRAVITY,
            jump_force: PLAYER_JUMP,
        }
    }

    /// The player after drifting with its velocity for `dt` microseconds.
    pub open spec fn moved(self, dt: int) -> Player {
        Player {
            position: Vec2 {
                x: advanced(self.position.x as int, self.velocity.x as int, dt) as i64,
                y: advanced(self.position.y as int, self.velocity.y as int, dt) as i64,
            },
            ..self
        }
    }

    /// The player after gravity has acted on it for `dt` microseconds.
    pub open spec fn pulled(self, dt: int) -> Player {
        Player {
            velocity: Vec2 {
                x: self.velocity.x,
                y: advanced(
                    self.velocity.y as int,
                    self.gravity_force * GRAVITY_SCALE,
                    dt,
                ) as i64,
            },
            ..self
        }
    }

    /// The player after a jump: it leaves upwards at its jump speed.
    pub open spec fn launched(self) -> Player {
        Player {
            velocity: Vec2 { x: self.velocity.x, y: clamp(-self.jump_force) as i64 },
            ..self
        }
    }

    /// The player touches or has passed the top or the bottom of the screen.
    pub open spec fn out_of_bounds(self) -> bool {
        self.position.y <= 0 || self.position.y + self.size.y >= SCREEN_HEIGHT
    }

    /// One frame of `dt` microseconds in the life of the player: it drifts,
    /// falls if the round has `started`, jumps if `jump` is set, and dies
    /// where that leaves it out of bounds. A dead player stays as it is.
    pub open spec fn stepped(self, started: bool, dt: int, jump: bool) -> Player {
        if !self.is_alive {
            self
        } else {
            let drifted = self.moved(dt);
            let fallen = if started {
                drifted.pulled(dt)
            } else {
                drifted
            };
            let risen = if jump {
                fallen.launched()
            } else {
                fallen
            };
            Player { is_alive: !risen.out_of_bounds(), ..risen }
        }
    }

    /// A player as every round starts.
    pub fn new() -> (p: Player)
        ensures
            p == Player::initial(),
    {
        Player {
            is_alive: true,
            position: Vec2 { x: PLAYER_START_X, y: PLAYER_START_Y },
            velocity: Vec2 { x: 0, y: 0 },
            size: Vec2 { x: PLAYER_SIZE, y: PLAYER_SIZE },
            gravity_force: PLAYER_GRAVITY,
            jump_force: PLAYER_JUMP,
        }
    }

    /// Moves the player by its velocity times `dt` microseconds.
    pub fn integrate(&mut self, dt: u32)
        ensures
            *final(self) == old(self).moved(dt as int),
    {
        self.position.x = advance(self.position.x, self.velocity.x, dt);
        self.position.y = advance(self.position.y, self.velocity.y, dt);
    }

    /// Adds to the downward velocity what gravity gives in `dt` microseconds.
    pub fn apply_gravity(&mut self, dt: u32)
        ensures
            *final(self) == old(self).pulled(dt as int),
    {
        let pull: i128 = (self.gravity_force as i128) * (GRAVITY_SCALE as i128);
        proof {
            assert(pull == self.gravity_force * 110);
            lemma_rate_times_dt_bounded(pull as int, dt as int);
        }
        self.velocity.y = saturate(self.velocity.y as i128 + pull * (dt as i128));
    }

    /// Sets the vertical velocity to the jump speed, upwards.
    pub fn jump(&mut self)
        ensures
            *final(self) == old(self).launched(),
    {
        self.velocity.y = saturate(-(self.jump_force as i128));
    }

    /// Whether the player touches or has passed the top or the bottom of the
    /// screen.
    pub fn is_out_of_bounds(&self) -> (out: bool)
        ensures
            out == self.out_of_bounds(),
    {
        self.position.y <= 0 || self.position.y as i128 + self.size.y as i128
            >= SCREEN_HEIGHT as i128
    }

    /// Plays one frame of `dt` microseconds for a living player; a dead one
    /// is left alone.
    pub fn step(&mut self, started: bool, dt: u32, jump: bool)
        ensures
            *final(self) == old(self).stepped(started, dt as int, jump),
            old(self).is_alive ==> (final(self).is_alive <==> !final(self).out_of_bounds()),
    {
        if self.is_alive {
            self.integrate(dt);
            if started {
                self.apply_gravity(dt);
            }
            if jump {
                self.jump();
            }
            if self.is_out_of_bounds() {
                self.is_alive = false;
            }
        }
    }
}

} // verus!
