//! The emulated device: its register file, the walk of its address pointer,
//! its interrupt rules and the watch on its reset input.

pub mod address;
pub mod mcp23017;
pub mod model;
pub mod reset_pin;
