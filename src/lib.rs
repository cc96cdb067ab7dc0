//! A snake on a discrete grid: motion, growth, food placement and collision
//! rules, with the rendering reduced to a list of colored pixel rectangles.
pub mod grid;
pub mod state;
pub mod snake;
pub mod cherry;
pub mod game;
