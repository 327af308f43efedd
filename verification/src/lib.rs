//! Locomotion and animation-state core of a playable 3D crab character.
//!
//! The crate owns the discrete animation state machine (current clip and
//! per-clip frame counter) and the per-frame decision logic that maps input
//! and jump-phase facts to animation transitions. Window handling, model
//! loading, camera math and rendering are external collaborators.

pub mod animator;
pub mod laws;
pub mod motion;
