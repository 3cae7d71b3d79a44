//! A terminal snake game engine: the board, the snake, the food pellet, the
//! per-tick update rule and the scheduling decisions of the game loop.
pub mod direction;
pub mod food;
pub mod game;
pub mod grid;
pub mod input;
pub mod render;
pub mod session;
pub mod snake;
