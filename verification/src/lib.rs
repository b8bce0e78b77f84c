pub mod direction;
pub mod fruit;
pub mod game;
pub mod modulo;
pub mod point;
pub mod snake;
