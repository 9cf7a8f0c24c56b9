//! Core of a terminal snake game: the board model, the snake's movement and
//! growth, collision detection, food placement, and the per-tick update
//! engine. Everything here is pure with respect to the terminal; rendering
//! and input decoding live outside the library.

pub mod engine;
pub mod food;
pub mod game;
