//! A verified grid snake simulation: a single agent moves on a bounded
//! 10 x 10 arena, grows when it eats food, accelerates as its score rises,
//! and restarts when it hits a wall or its own body.
//!
//! The simulation is a plain state machine over integer grid cells. Rendering,
//! windowing and input devices are left to the embedding program, which feeds
//! the machine directional intents and elapsed wall-clock milliseconds and
//! reads back segment positions, the food cell and the score.

pub mod direction;
pub mod game;
pub mod grid;
mod rng;
pub mod timer;
