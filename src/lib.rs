//! A two-player falling-balls arcade game, as a verified simulation core.
//!
//! Every length is an integer count of tenths of a playfield unit, and every
//! time is an integer count of milliseconds, so that each frame of the
//! simulation is exact integer arithmetic.
pub mod config;
pub mod player;
pub mod random;
pub mod ball;
pub mod control;
pub mod game;
