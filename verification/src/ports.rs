//! The I/O ports that the drivers use, and the operations that they ask
//! their caller to carry out on them.

use vstd::prelude::*;

verus! {

/// Keyboard and mouse data register.
pub const DATA_PORT: u16 = 0x60;

/// Keyboard and mouse command and status register.
pub const COMMAND_PORT: u16 = 0x64;

/// Timer channel 0 data.
pub const TIMER_CHANNEL0_PORT: u16 = 0x40;

/// Timer command register.
pub const TIMER_COMMAND_PORT: u16 = 0x43;

/// One step of port work.
#[derive(Debug, Clone, Copy, PartialEq, Eq, Structural)]
pub enum PortOp {
    /// Poll the status register until its data-available bit equals `ready`,
    /// or until the poll's budget of reads is used up.
    Wait { ready: bool },
    /// Write `value` to `port`.
    Write { port: u16, value: u8 },
    /// Read one byte from `port`.
    Read { port: u16 },
}

} // verus!
