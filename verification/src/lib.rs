//! The per-frame core of an interactive 3D viewer.
//!
//! The crate decides what changes on each tick and what has to be written to
//! the graphics device afterwards. The host owns the window, the device and
//! all numeric work on vectors and matrices; it hands this crate plain
//! values and carries out what the crate returns.

pub mod camera;
pub mod clock;
pub mod cursor_lock;
pub mod object;
pub mod pipeline;
pub mod signal;
