//! Frame selection for sprite animations.
//!
//! An animation is a tree of switches whose leaves list frames. Named integer
//! counters, the drivers, pick one child at every switch and one frame at the
//! leaf. Counters live in two dictionaries: one that a pass reads, and one that
//! collects the writes for the pass after it.

pub mod dictionary;
pub mod driver;
pub mod tree;
pub mod timer;
pub mod animation;
