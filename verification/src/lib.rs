//! Core logic of a terminal snake game: a segmented body moves across a
//! wrapped grid, eats periodically spawned fruit to grow, and the game ends
//! when the body self-intersects. This crate holds the verified simulation
//! (movement, wrap-around, collision, fruit lifecycle) and the pure part of
//! rendering (mapping entities to screen cells); terminal I/O lives outside.

pub mod game;
pub mod renderer;
pub mod snake;
