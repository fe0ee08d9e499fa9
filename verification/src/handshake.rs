//! The handshake that switches the mouse on: which port operations it
//! consists of, in which order, and how long a poll may last.

use crate::ports::PortOp;
use crate::ports::COMMAND_PORT;
use crate::ports::DATA_PORT;
use vstd::prelude::*;

verus! {

/// Controller command: read the configuration byte.
pub const GET_COMPAQ_STATUS_BYTE: u8 = 0x20;

/// Controller command: write the configuration byte.
pub const SET_COMPAQ_STATUS_BYTE: u8 = 0x60;

/// Controller command: enable the auxiliary device.
pub const AUXILIARY_DEVICE_BYTE: u8 = 0xA8;

/// Controller command: hand the next data byte to the auxiliary device.
pub const WRITE: u8 = 0xD4;

/// Device command: set defaults.
pub const SET_DEFAULTS: u8 = 0xF6;

/// Device command: enable data reporting.
pub const ENABLE_REPORTING: u8 = 0xF4;

/// Bit of the configuration byte that lets the auxiliary device raise its
/// interrupt.
pub const IRQ12_BIT_POS: u8 = 1;

/// Bit of the configuration byte that disables the mouse clock.
pub const MOUSE_CLOCK_BIT_POS: u8 = 5;

/// How many reads of the status register one poll may make.
pub const TIMEOUT: u32 = 100000;

/// The configuration byte to write back: interrupt enabled, mouse clock not
/// disabled, every other bit as it was read.
pub open spec fn configured(config: u8) -> u8 {
    (config | 0x02) & 0xDF
}

pub fn configure(config: u8) -> (r: u8)
    ensures
        r == configured(config),
        r & 0x02 == 0x02,
        r & 0x20 == 0,
        r & 0xDD == config & 0xDD,
{
    let with_irq: u8 = config | (1u8 << IRQ12_BIT_POS);
    let r: u8 = with_irq & !(1u8 << MOUSE_CLOCK_BIT_POS);
    proof {
        assert(r == (config | 0x02) & 0xDF && r & 0x02 == 0x02 && r & 0x20 == 0 && r & 0xDD
            == config & 0xDD) by (bit_vector)
            requires
                r == (config | (1u8 << 1u8)) & !(1u8 << 5u8),
        ;
    }
    r
}

/// The operations that send one command byte to the mouse.
pub open spec fn device_command(b: u8) -> Seq<PortOp> {
    seq![
        PortOp::Wait { ready: true },
        PortOp::Write { port: COMMAND_PORT, value: WRITE },
        PortOp::Wait { ready: true },
        PortOp::Write { port: DATA_PORT, value: b },
    ]
}

/// Where the handshake stands.
#[derive(Debug, Clone, Copy, PartialEq, Eq, Structural)]
pub enum HandshakeState {
    Idle,
    AuxEnabled,
    ConfigRead,
    ConfigWritten,
    Streaming,
}

impl HandshakeState {
    pub open spec fn next(self) -> HandshakeState {
        match self {
            HandshakeState::Idle => HandshakeState::AuxEnabled,
            HandshakeState::AuxEnabled => HandshakeState::ConfigRead,
            HandshakeState::ConfigRead => HandshakeState::ConfigWritten,
            HandshakeState::ConfigWritten => HandshakeState::Streaming,
            HandshakeState::Streaming => HandshakeState::Streaming,
        }
    }

    /// The operations of the step that leaves this state. `read` is the byte
    /// that the last `Read` of the step before returned: the step out of
    /// `ConfigRead` takes it as the configuration byte, the others do not
    /// look at it.
    pub open spec fn plan(self, read: u8) -> Seq<PortOp> {
        match self {
            HandshakeState::Idle => seq![
                PortOp::Wait { ready: true },
                PortOp::Write { port: COMMAND_PORT, value: AUXILIARY_DEVICE_BYTE },
            ],
            HandshakeState::AuxEnabled => seq![
                PortOp::Wait { ready: true },
                PortOp::Write { port: COMMAND_PORT, value: GET_COMPAQ_STATUS_BYTE },
                PortOp::Wait { ready: false },
                PortOp::Read { port: DATA_PORT },
            ],
            HandshakeState::ConfigRead => seq![
                PortOp::Wait { ready: true },
                PortOp::Write { port: COMMAND_PORT, value: SET_COMPAQ_STATUS_BYTE },
                PortOp::Wait { ready: true },
                PortOp::Write { port: DATA_PORT, value: configured(read) },
                PortOp::Wait { ready: true },
                PortOp::Read { port: COMMAND_PORT },
            ],
            HandshakeState::ConfigWritten => device_command(SET_DEFAULTS) + device_command(
                ENABLE_REPORTING,
            ),
            HandshakeState::Streaming => Seq::empty(),
        }
    }
}

/// The handshake goes through its states in order and ends: the fourth step
/// from `Idle` reaches `Streaming`, and a step from there hands out no
/// operation and changes nothing, whatever was read on the way.
pub proof fn handshake_ends_streaming(read: u8)
    ensures
        HandshakeState::Idle.next().next().next().next() == HandshakeState::Streaming,
        HandshakeState::Streaming.next() == HandshakeState::Streaming,
        HandshakeState::Streaming.plan(read) == Seq::<PortOp>::empty(),
{
}

/// Appends the operations that send one command byte to the mouse.
pub fn push_device_command(ops: &mut Vec<PortOp>, b: u8)
    ensures
        final(ops)@ == old(ops)@ + device_command(b),
{
    ops.push(PortOp::Wait { ready: true });
    ops.push(PortOp::Write { port: COMMAND_PORT, value: WRITE });
    ops.push(PortOp::Wait { ready: true });
    ops.push(PortOp::Write { port: DATA_PORT, value: b });
    proof {
        assert(ops@ =~= old(ops)@ + device_command(b));
    }
}

/// The handshake as a state machine: each step hands out the operations to
/// carry out and moves on, whatever the device answers.
#[derive(Debug, Clone, Copy, PartialEq, Eq, Structural)]
pub struct Handshake {
    state: HandshakeState,
}

impl Handshake {
    pub closed spec fn state(&self) -> HandshakeState {
        self.state
    }

    pub fn new() -> (h: Handshake)
        ensures
            h.state() == HandshakeState::Idle,
    {
        Handshake { state: HandshakeState::Idle }
    }

    pub fn current(&self) -> (s: HandshakeState)
        ensures
            s == self.state(),
    {
        self.state
    }

    /// Whether the handshake is over and the mouse reports.
    pub fn is_streaming(&self) -> (r: bool)
        ensures
            r == (self.state() == HandshakeState::Streaming),
    {
        self.state == HandshakeState::Streaming
    }

    /// Takes the byte that the step before read, hands out the operations
    /// of the next step, and moves to the next state.
    pub fn step(&mut self, read: u8) -> (ops: Vec<PortOp>)
        ensures
            ops@ == old(self).state().plan(read),
            final(self).state() == old(self).state().next(),
    {
        let mut ops: Vec<PortOp> = Vec::new();
        match self.state {
            HandshakeState::Idle => {
                ops.push(PortOp::Wait { ready: true });
                ops.push(PortOp::Write { port: COMMAND_PORT, value: AUXILIARY_DEVICE_BYTE });
                self.state = HandshakeState::AuxEnabled;
            },
            HandshakeState::AuxEnabled => {
                ops.push(PortOp::Wait { ready: true });
                ops.push(PortOp::Write { port: COMMAND_PORT, value: GET_COMPAQ_STATUS_BYTE });
                ops.push(PortOp::Wait { ready: false });
                ops.push(PortOp::Read { port: DATA_PORT });
                self.state = HandshakeState::ConfigRead;
            },
            HandshakeState::ConfigRead => {
                ops.push(PortOp::Wait { ready: true });
                ops.push(PortOp::Write { port: COMMAND_PORT, value: SET_COMPAQ_STATUS_BYTE });
                ops.push(PortOp::Wait { ready: true });
                ops.push(PortOp::Write { port: DATA_PORT, value: configure(read) });
                ops.push(PortOp::Wait { ready: true });
                ops.push(PortOp::Read { port: COMMAND_PORT });
                self.state = HandshakeState::ConfigWritten;
            },
            HandshakeState::ConfigWritten => {
                push_device_command(&mut ops, SET_DEFAULTS);
                push_device_command(&mut ops, ENABLE_REPORTING);
                self.state = HandshakeState::Streaming;
            },
            HandshakeState::Streaming => {},
        }
        proof {
            assert(ops@ =~= old(self).state().plan(read));
        }
        ops
    }
}

/// One bounded poll of the status register: it ends when the data-available
/// bit is as awaited, or when `TIMEOUT` reads have been made, and says
/// nothing of which it was.
#[derive(Debug, Clone, Copy, PartialEq, Eq, Structural)]
pub struct Poll {
    ready: bool,
    left: u32,
    met: bool,
}

impl Poll {
    /// The bit value that the poll waits for.
    pub closed spec fn ready(&self) -> bool {
        self.ready
    }

    /// How many reads the poll may still make.
    pub closed spec fn left(&self) -> nat {
        self.left as nat
    }

    /// Whether the last status read had the bit as awaited.
    pub closed spec fn met(&self) -> bool {
        self.met
    }

    pub open spec fn finished(&self) -> bool {
        self.met() || self.left() == 0
    }

    pub fn new(ready: bool) -> (p: Poll)
        ensures
            p.ready() == ready,
            p.left() == TIMEOUT,
            !p.met(),
    {
        Poll { ready, left: TIMEOUT, met: false }
    }

    /// Whether the caller stops reading the status register.
    pub fn is_finished(&self) -> (r: bool)
        ensures
            r == self.finished(),
    {
        self.met || self.left == 0
    }

    /// Takes one read of the status register.
    pub fn observe(&mut self, status: u8)
        requires
            !old(self).finished(),
        ensures
            final(self).ready() == old(self).ready(),
            final(self).left() == old(self).left() - 1,
            final(self).met() == ((status & 0x01 != 0) == old(self).ready()),
    {
        self.left = self.left - 1;
        self.met = (status & 0x01 != 0) == self.ready;
    }
}

} // verus!
