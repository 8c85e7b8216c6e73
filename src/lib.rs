//! Startup sequencing and heartbeat timing for a sensor board: clock
//! configuration, a toggled output line, a serial bus session towards an
//! absolute-position sensor, and the loop that paces the heartbeat.

pub mod bus;
pub mod clock;
pub mod pin;
pub mod startup;
