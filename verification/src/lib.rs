//! A minimal stopwatch library.
//!
//! The core is a small state machine, [`tracker::ElapsedTimeTracker`], that
//! accumulates elapsed running time in response to four events (Start, Stop,
//! Reset and a periodic tick), together with a verified formatter that
//! renders an accumulated duration as `HH:MM:SS.CC`.

pub mod laws;
pub mod render;
pub mod timer;
pub mod tracker;
