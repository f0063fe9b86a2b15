//! Core simulation of a brick-breaking arcade game: a paddle deflects a ball
//! to break a field of bricks, tracking score and lives until every brick is
//! gone or the lives run out.
//!
//! The crate holds the fixed-timestep physics: motion integration, boundary
//! reflection, paddle and brick collision response, damage and scoring, and
//! the life / game-state transitions. Time is measured in whole milliseconds;
//! all geometry is integer pixels. Windowing, rendering, input and frame
//! pacing are left to the embedding program.

pub mod geometry;
pub mod paddle;
pub mod ball;
pub mod brick;
pub mod rng;
pub mod session;
