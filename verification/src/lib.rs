//! Cycle-accurate emulation core for the RCA CDP1802 ("COSMAC") microprocessor,
//! the General Instrument AY-5-1013 and RCA CDP1854 UARTs, and the board-level
//! glue of Lee Hart's Membership Card single-board computer.

pub mod ay51013;
pub mod bits;
pub mod board;
pub mod cdp1802;
pub mod cdp1854;
pub mod event;
pub mod instr;
pub mod math;
pub mod rng;
pub mod uart;
