//! Interrupt-driven core of a small kernel: clock, interval timer, interrupt
//! controller pair, vector table, and the PS/2 mouse driver with its button
//! gesture state machine. Port access itself is left to the caller; this
//! crate decides what is written, what is read, and what follows from it.

pub mod assembler;
pub mod handshake;
pub mod interrupts;
pub mod keyboard;
pub mod mouse;
pub mod pic;
pub mod pit;
pub mod ports;
pub mod time;
