//! Two-player Pong on exact integer arithmetic.
//!
//! Lengths are counted in sub-units, a billionth of a screen unit each, and
//! elapsed time in nanoseconds, so that a speed in units per second moves a
//! point by `speed * nanoseconds` sub-units with no rounding at all. The
//! host converts what its window system reports into these integers and
//! draws what [`scene`] lays out.

pub mod units;
pub mod model;
pub mod paddle;
pub mod chance;
pub mod state;
pub mod scene;
