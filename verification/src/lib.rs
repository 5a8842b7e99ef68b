//! The simulation core of a one-button arcade game: a square falls under
//! gravity, jumps on input and must stay between the top and the bottom of
//! the screen while obstacle columns scroll past.
//!
//! Everything here is integer arithmetic on fixed-point quantities (see
//! [`units`]), so one frame is an exact function of the state, the frame
//! time, the input and the two values that come from outside: the reading
//! of the clock and the random draw.

pub mod game;
pub mod pipe;
pub mod player;
pub mod spawner;
pub mod timer;
pub mod units;

pub use game::{Game, GameState, Input, Scene, SceneView};
pub use pipe::{Pipe, Rect};
pub use player::Player;
pub use timer::{Timer, TimerState};
pub use units::Vec2;
