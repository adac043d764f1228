//! A live per-core CPU load dashboard: the verified core.
//!
//! The library decides everything that does not touch the outside world:
//! how utilisation readings are bounded, how cores are arranged in a grid
//! of gauges, what each cell of a frame shows, and the order in which the
//! terminal session is set up, driven and restored. The program around it
//! samples the operating system, talks to the terminal and paints.

pub mod dashboard;
pub mod grid;
pub mod ratio;
pub mod session;
