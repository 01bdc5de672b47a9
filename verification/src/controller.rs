//! The bus-side driver: the slot through which each pin's handle asks for
//! work, the cache of what the device's registers hold, the payloads of the
//! bus transactions, and the runner that decides what happens next.

pub mod coherence;
pub mod error;
pub mod mode;
pub mod registers;
pub mod request;
pub mod runner;
pub mod transfer;
