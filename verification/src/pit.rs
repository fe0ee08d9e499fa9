//! The interval timer: the writes that set its channel 0 to a fixed rate.

use crate::ports::PortOp;
use crate::ports::TIMER_CHANNEL0_PORT;
use crate::ports::TIMER_COMMAND_PORT;
use vstd::prelude::*;

verus! {

/// Command bits: channel 0.
pub const SELECT_CHAN0: u8 = 0;

/// Command bits: the divisor is written low byte first, then high byte.
pub const LOHI: u8 = 0x30;

/// Command bits: the channel runs as a rate generator.
pub const RATE_GENERATOR: u8 = 5;

/// The divisor that `init` programs.
pub const CHAN0_DIVISOR: u16 = 2685;

/// The command byte: channel 0, low byte then high byte, rate generator.
pub open spec fn command_word() -> u8 {
    0x35
}

/// The three writes that program `divisor`: the command, the divisor's low
/// byte, its high byte.
pub open spec fn program_plan(divisor: u16) -> Seq<PortOp> {
    seq![
        PortOp::Write { port: TIMER_COMMAND_PORT, value: command_word() },
        PortOp::Write { port: TIMER_CHANNEL0_PORT, value: (divisor % 256) as u8 },
        PortOp::Write { port: TIMER_CHANNEL0_PORT, value: (divisor / 256) as u8 },
    ]
}

/// The writes that make channel 0 interrupt at the base frequency divided
/// by `divisor`.
pub fn program(divisor: u16) -> (ops: Vec<PortOp>)
    requires
        1 <= divisor,
    ensures
        ops@ == program_plan(divisor),
{
    let command: u8 = SELECT_CHAN0 | LOHI | RATE_GENERATOR;
    let low: u8 = (divisor & 0xFF) as u8;
    let high: u8 = (divisor >> 8) as u8;
    proof {
        assert(command == 0x35) by (bit_vector)
            requires
                command == 0u8 | 0x30u8 | 5u8,
        ;
        assert(divisor & 0xFF == divisor % 256 && divisor >> 8 == divisor / 256) by (bit_vector);
    }
    let mut ops: Vec<PortOp> = Vec::new();
    ops.push(PortOp::Write { port: TIMER_COMMAND_PORT, value: command });
    ops.push(PortOp::Write { port: TIMER_CHANNEL0_PORT, value: low });
    ops.push(PortOp::Write { port: TIMER_CHANNEL0_PORT, value: high });
    proof {
        assert(ops@ =~= program_plan(divisor));
    }
    ops
}

/// The writes that set the timer up with `CHAN0_DIVISOR`.
pub fn init() -> (ops: Vec<PortOp>)
    ensures
        ops@ == program_plan(CHAN0_DIVISOR),
{
    program(CHAN0_DIVISOR)
}

} // verus!
