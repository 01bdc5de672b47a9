//! Driver core and device emulator core for the MCP23017, a 16-pin I²C GPIO
//! expander that reports pin changes on two interrupt lines.
//!
//! [`common`] holds the register model that both cores share, [`util`] the
//! packing of eight pin bits into a register byte, [`buffer`] the buffer
//! that carries a bus write, [`controller`] the decisions of the bus-side
//! driver and [`peripheral`] the register file of the emulated device.

pub mod buffer;
pub mod common;
pub mod controller;
pub mod peripheral;
pub mod util;
