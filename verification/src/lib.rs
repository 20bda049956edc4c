//! A two-player pong simulation verified with Verus.
//!
//! The playfield is a fixed rectangle centred on the origin.  Two paddles
//! move vertically under discrete key input, a ball bounces between the
//! walls and the paddles, and a scoreboard counts the balls that leave the
//! field on either side.  Every length is an integer count of subunits,
//! sixty to a display pixel; one tick advances the simulation by a sixtieth
//! of a second, so a speed given in pixels per second is exactly its
//! per-tick displacement in subunits.
//!
//! The rendering front end supplies key states each tick and reads back
//! positions and the score text; it is not part of this library.

pub mod ball;
pub mod geometry;
pub mod paddle;
pub mod rng;
pub mod score;
pub mod state;
pub mod tick;

pub use geometry::Vec2;
pub use state::{Ball, BallSpeed, MatchState, MoveSpeed, Paddle, PositionOfPlayers, Scoreboard,
    WinSize};
pub use tick::TickInput;
