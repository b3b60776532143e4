//! RCA CDP1802 microprocessor emulation.

pub mod cpu;
pub mod memory;
pub mod pins;

pub use pins::Cdp1802Pins;

pub use cpu::{Cdp1802, CpuModel, Mode, State};
pub use memory::{Memory, MemoryRange};
