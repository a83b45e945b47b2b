//! A two-paddle ball game simulated on an integer pixel grid.
//!
//! Every entity is a typed record (ball, paddles, gutters); one tick of the
//! game is an explicit, ordered pipeline of verified steps.
pub mod components;
pub mod movement;
pub mod scoring;
pub mod setup;
pub mod game;
