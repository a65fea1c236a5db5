//! Motion and animation controller for a desktop pet that crawls along the
//! edges of the screen, jumps between them and cycles through idle poses.
//!
//! Everything is integer arithmetic: time is counted in microseconds,
//! positions in pixels and velocities in thousandths of a pixel per second.

pub mod arith;
pub mod clock;
pub mod driver;
pub mod guarantees;
pub mod model;
pub mod motion;
pub mod physics;
pub mod rng;
pub mod scenario;
pub mod sheet;
pub mod visual;
