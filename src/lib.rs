//! The simulation core of a grid-based snake game: the snake's body and
//! heading, the movement clock, collision predicates, food placement and the
//! Playing / GameOver state machine, all on integer grid cells.

pub mod grid;
pub mod snake;
pub mod collision;
pub mod clock;
pub mod food;
pub mod game;
pub mod laws;
