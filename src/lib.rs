//! The simulation core of a grid snake game: a snake moves one cell per
//! tick, grows on food, and the run ends when the head leaves the grid or
//! runs into the body.

pub mod game;
pub mod grid;
pub mod laws;
pub mod snake;
