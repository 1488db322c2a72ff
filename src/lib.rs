//! Conway's Game of Life on a toroidal grid: cell storage, neighbour
//! counting, the generation update, pattern stamping and seeding.

pub mod cell;
pub mod grid;
pub mod universe;
pub mod patterns;
pub mod random;
pub mod text;
pub mod laws;
