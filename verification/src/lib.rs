//! Core of a two-player lockstep snake game: the direction and grid model,
//! the snake body simulation, seeded fruit placement, the round state
//! machine, and the byte-level codec of the synchronization protocol.
//!
//! Networking, input polling and rendering live outside this crate; they
//! hand plain values (direction bytes, the seed) in and out.

pub mod config;
pub mod direction;
pub mod fruit;
pub mod protocol;
pub mod rng;
pub mod round;
pub mod snake;
