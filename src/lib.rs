//! Verified building blocks of a block-based audio synthesis engine:
//! pseudo-random generators, trigger and clock detectors, a ring-buffer
//! delay line and the integer side of the simple nodes.
pub mod delay;
pub mod node_amp;
pub mod rng;
pub mod trigger;
