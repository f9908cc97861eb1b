//! A two-paddle ball game: a player paddle driven by held arrow keys, a
//! computer paddle that tracks the ball, and a ball that bounces off the side
//! walls and the paddles inside a 400 x 600 field of play.
//!
//! The per-tick update rules are verified. Rendering is modelled as data: a
//! tick returns the sequence of drawing-surface calls for the frame, and a
//! thin host adapter executes them.

pub mod ball;
pub mod computer;
pub mod draw;
pub mod field;
pub mod game;
pub mod laws;
pub mod paddle;
pub mod player;
