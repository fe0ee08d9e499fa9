//! The pair of cascaded interrupt controllers: which vector a hardware line
//! raises, and which controller is told that an interrupt has been served.

use vstd::prelude::*;

verus! {

/// Lines per controller.
pub const LINES: u8 = 8;

#[derive(Debug, Clone, Copy, PartialEq, Eq, Structural)]
pub enum Controller {
    Master,
    Slave,
}

/// The two controllers with the vector offsets they are mapped to.
#[derive(Debug, Clone, Copy, PartialEq, Eq, Structural)]
pub struct ControllerPair {
    master_offset: u8,
    slave_offset: u8,
}

impl ControllerPair {
    pub closed spec fn master_offset(&self) -> u8 {
        self.master_offset
    }

    pub closed spec fn slave_offset(&self) -> u8 {
        self.slave_offset
    }

    /// Both offsets leave room for eight lines below vector 256.
    pub closed spec fn wf(&self) -> bool {
        self.master_offset <= 248 && self.slave_offset <= 248
    }

    /// Whether the controller mapped to `offset` raises `vector`.
    pub open spec fn in_range(offset: u8, vector: u8) -> bool {
        offset <= vector < offset + 8
    }

    /// The vector that hardware line `line` raises.
    pub open spec fn vector_of(&self, line: u8) -> int {
        if line < 8 {
            self.master_offset() + line
        } else {
            self.slave_offset() + (line - 8)
        }
    }

    /// The controllers to tell that `vector` has been served, in the order
    /// in which they are told: for a line of the slave the slave, then the
    /// master; for a line of the master the master alone; for a vector that
    /// neither raises, none.
    pub open spec fn acknowledged(&self, vector: u8) -> Seq<Controller> {
        if Self::in_range(self.slave_offset(), vector) {
            seq![Controller::Slave, Controller::Master]
        } else if Self::in_range(self.master_offset(), vector) {
            seq![Controller::Master]
        } else {
            Seq::empty()
        }
    }

    /// The pair mapped so that line `n` raises `master_offset + n` below 8
    /// and `slave_offset + (n - 8)` from 8 on.
    pub fn remap(master_offset: u8, slave_offset: u8) -> (pair: ControllerPair)
        requires
            master_offset <= 248,
            slave_offset <= 248,
        ensures
            pair.wf(),
            pair.master_offset() == master_offset,
            pair.slave_offset() == slave_offset,
    {
        ControllerPair { master_offset, slave_offset }
    }

    pub fn vector_for_line(&self, line: u8) -> (vector: u8)
        requires
            self.wf(),
            line < 16,
        ensures
            vector == self.vector_of(line),
            line < 8 ==> Self::in_range(self.master_offset(), vector),
            line >= 8 ==> Self::in_range(self.slave_offset(), vector),
    {
        if line < LINES {
            self.master_offset + line
        } else {
            self.slave_offset + (line - LINES)
        }
    }

    /// Whether one of the two controllers raises `vector`.
    pub fn handles_interrupt(&self, vector: u8) -> (r: bool)
        ensures
            r == (Self::in_range(self.master_offset(), vector) || Self::in_range(
                self.slave_offset(),
                vector,
            )),
    {
        Self::handles(self.master_offset, vector) || Self::handles(self.slave_offset, vector)
    }

    fn handles(offset: u8, vector: u8) -> (r: bool)
        ensures
            r == Self::in_range(offset, vector),
    {
        offset <= vector && vector - offset < LINES
    }

    /// The controllers that get an end-of-interrupt for `vector`, in order.
    pub fn acknowledge(&self, vector: u8) -> (told: Vec<Controller>)
        ensures
            told@ == self.acknowledged(vector),
    {
        let mut told: Vec<Controller> = Vec::new();
        if Self::handles(self.slave_offset, vector) {
            told.push(Controller::Slave);
            told.push(Controller::Master);
        } else if Self::handles(self.master_offset, vector) {
            told.push(Controller::Master);
        }
        proof {
            assert(told@ =~= self.acknowledged(vector));
        }
        told
    }
}

/// Every line of the slave is acknowledged to the slave first and then to
/// the master, every line of the master to the master alone.
pub proof fn acknowledge_by_line(pair: ControllerPair, line: u8)
    requires
        pair.wf(),
        line < 16,
        pair.master_offset() + 8 <= pair.slave_offset() || pair.slave_offset() + 8
            <= pair.master_offset(),
    ensures
        line >= 8 ==> pair.acknowledged(pair.vector_of(line) as u8) == seq![
            Controller::Slave,
            Controller::Master,
        ],
        line < 8 ==> pair.acknowledged(pair.vector_of(line) as u8) == seq![Controller::Master],
{
}

} // verus!
