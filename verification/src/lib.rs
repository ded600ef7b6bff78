//! Control core of a small arcade driving game: the command queue, the
//! force resolver, and the detector that ends a run when the vehicle is
//! stuck or has left the level.
//!
//! Every quantity is a fixed-point number: a signed 64-bit count of
//! millionths (see [`fixed::SCALE`]). Durations are whole microseconds, so
//! one second is also `SCALE`. Arithmetic saturates at the ends of the
//! 64-bit range instead of wrapping.

pub mod buggy;
pub mod camera;
pub mod car;
pub mod fixed;
pub mod input;
pub mod math;
pub mod movement;
pub mod physics;
pub mod scene;
pub mod state;
pub mod theme;
pub mod ui;
