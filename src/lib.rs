pub mod point;
pub mod snake;
pub mod game;
