//! Frame-by-frame rules of a small top-down racing game: player controls,
//! patrolling enemies, track-edge and enemy collisions, health and score,
//! the enemy spawn cadence and the placement of the on-screen labels.
//!
//! All quantities are fixed-point integers so that every rule can be stated
//! and checked exactly: time in microseconds, angles in microradians, health
//! in millionths of a point, positions in micropixels.
pub mod collision;
pub mod state;
pub mod scoring;
pub mod player;
pub mod enemy;
pub mod spawn;
pub mod hud;
pub mod frame;
pub mod laws;
