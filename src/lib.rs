//! Scheduling and state-machine core of an IR-driven heater controller.
//!
//! The library keeps a shadow model of a heater that gives no feedback, turns
//! high-level commands into the exact sequence of remote-control button presses
//! that reach the wanted state, decides when the once-a-day morning routine
//! fires, and interprets user key presses. Transmitting the presses, reading the
//! clock and drawing the screen are left to the caller.
pub mod controller;
pub mod heater;
