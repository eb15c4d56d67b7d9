//! Core logic of a side-scrolling "flappy"-style arcade game.
//!
//! The library holds everything the game decides: the phase machine
//! (Loading, Start, Playing, GameOver), the periodic obstacle spawner with
//! its randomized gap, the classifier that turns collider-overlap events
//! into fatal hits and scoring passes, the score tracker, and the per-frame
//! session step that ties them together. Rendering, physics integration,
//! audio and input sampling are collaborators: a driver feeds plain values
//! in (elapsed time, input state, overlap events) and carries the returned
//! actions out.

pub mod bird;
pub mod classify;
pub mod phase;
pub mod rng;
pub mod score;
pub mod session;
pub mod spawner;
pub mod timer;
