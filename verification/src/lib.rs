//! A closed-loop frequency controller: its stored state and its advisory
//! operating mode.

pub mod gearbox;
pub mod laws;
pub mod mode;

pub use gearbox::{GearboxState, HarmonicGearbox, SETPOINT_BITS, ZERO_BITS};
pub use mode::Mode;
