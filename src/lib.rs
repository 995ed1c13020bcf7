//! The simulation core of a two-player bouncing-ball game: scene set-up,
//! paddle input, ball integration and wall collision response, on exact
//! fixed-point values.
pub mod geometry;
pub mod scene;
pub mod physics;
pub mod input;
pub mod frame;
