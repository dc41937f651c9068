//! Simulation core of a grid-based snake game: directions, the snake's
//! follow-the-leader movement on a toroidal grid, an identity-keyed registry
//! of movable objects, and the engine's per-tick and per-event decisions.
pub mod utils;
pub mod direction;
pub mod entity;
pub mod game_object;
pub mod snake;
pub mod grid;
pub mod game_engine;
