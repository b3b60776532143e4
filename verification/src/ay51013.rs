//! General Instrument AY-5-1013 UART emulation.

pub mod chip;
pub mod pins;

pub use chip::{Ay51013, Parity};
pub use pins::Ay51013Pins;
