//! A snake game on a fixed square grid, without its window.
//!
//! The crate holds the rules of the game: how held keys steer the snake, what
//! one step of the simulation does to the snake, the target, the score and the
//! pace, and when a session is lost. Drawing and reading the keyboard and the
//! clock are left to the program that drives it, one frame at a time.
//!
//! Times are whole nanoseconds on a clock of the caller's choosing.
pub mod grid;
pub mod clock;
pub mod input;
pub mod pace;
pub mod random;
pub mod model;
pub mod game;
pub mod frame;
pub mod laws;
