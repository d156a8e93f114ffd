//! Register-level logic of the DesignWare UART and MMC host controller drivers.
//!
//! The drivers never touch memory-mapped registers themselves. Each operation
//! is a state machine: it asks for one register access (or barrier, cache
//! maintenance, spin hint) at a time and is fed the value that a register read
//! returned. Whoever owns the hardware mapping performs the requests.
pub mod mmio;
pub mod drivers;
