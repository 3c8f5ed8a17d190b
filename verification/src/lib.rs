pub mod food;
pub mod game;
pub mod grid;
pub mod render;
pub mod snake;
