//! Core of a brick-breaking arcade game: a deterministic fixed-point physics
//! and collision engine, a frame-delta event deriver, and the round state
//! machine that consumes them.
//!
//! World geometry is measured in microunits (one millionth of a world unit),
//! and the ball direction is a unit vector scaled by a factor of 1000, so that
//! every quantity is an integer and every step of the simulation is exactly
//! reproducible. Rendering, input polling, audio and platform bridging are
//! collaborators that read this state; they are not part of this crate.

pub mod game_model;
pub mod geometry;
pub mod physics;
pub mod sys;
pub mod ui;
