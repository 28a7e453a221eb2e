//! Pixel-driven key actuation: sample fixed points of a captured window,
//! turn each track's intensity stream into press/release decisions, and
//! keep the shared delay and shutdown registers of the control loop.
use vstd::prelude::*;

pub mod consumer;
pub mod control;
pub mod producer;
pub mod sampling;
pub mod timeline;

verus! {

/// Intensity above which a sampled pixel counts as lit.
pub const PIXEL_THRESHOLD: u8 = 220;

/// Number of monitored tracks in the reference layout.
pub const TRACK_COUNT: usize = 4;

} // verus!
