//! Interrupt vectors: where the controllers' lines are mapped, which handler
//! each vector has, and the setup of the mouse's callbacks.

use crate::mouse::data_available;
use crate::mouse::Code;
use crate::mouse::Event;
use crate::mouse::MouseInternal;
use crate::mouse::MOUSE_BIT;
use crate::pic::ControllerPair;
use vstd::prelude::*;

verus! {

/// First vector of the master controller.
pub const PIC_1_OFFSET: u8 = 32;

/// First vector of the slave controller.
pub const PIC_2_OFFSET: u8 = 40;

/// Stack that the double-fault handler runs on.
pub const DOUBLE_FAULT_IST_INDEX: u16 = 0;

/// Vector of the breakpoint exception.
pub const BREAKPOINT_VECTOR: u8 = 3;

/// Vector of the double-fault exception.
pub const DOUBLE_FAULT_VECTOR: u8 = 8;

/// Vector of the page-fault exception.
pub const PAGE_FAULT_VECTOR: u8 = 14;

/// Vectors of the slave controller's lines.
#[derive(Debug, Clone, Copy, PartialEq, Eq, Structural)]
pub enum SecondaryInterruptIndex {
    RTClock,
    ACPI,
    Available1,
    Available2,
    Mouse,
}

impl SecondaryInterruptIndex {
    pub open spec fn vector(self) -> u8 {
        match self {
            SecondaryInterruptIndex::RTClock => 40,
            SecondaryInterruptIndex::ACPI => 41,
            SecondaryInterruptIndex::Available1 => 42,
            SecondaryInterruptIndex::Available2 => 43,
            SecondaryInterruptIndex::Mouse => 44,
        }
    }

    pub fn as_u8(self) -> (v: u8)
        ensures
            v == self.vector(),
            PIC_2_OFFSET <= v < PIC_2_OFFSET + 8,
    {
        match self {
            SecondaryInterruptIndex::RTClock => PIC_2_OFFSET,
            SecondaryInterruptIndex::ACPI => PIC_2_OFFSET + 1,
            SecondaryInterruptIndex::Available1 => PIC_2_OFFSET + 2,
            SecondaryInterruptIndex::Available2 => PIC_2_OFFSET + 3,
            SecondaryInterruptIndex::Mouse => PIC_2_OFFSET + 4,
        }
    }

    pub fn as_usize(self) -> (v: usize)
        ensures
            v == self.vector(),
    {
        self.as_u8() as usize
    }
}

/// Vectors of the master controller's lines.
#[derive(Debug, Clone, Copy, PartialEq, Eq, Structural)]
pub enum InterruptIndex {
    Timer,
    Keyboard,
}

impl InterruptIndex {
    pub open spec fn vector(self) -> u8 {
        match self {
            InterruptIndex::Timer => 32,
            InterruptIndex::Keyboard => 33,
        }
    }

    pub fn as_u8(self) -> (v: u8)
        ensures
            v == self.vector(),
            PIC_1_OFFSET <= v < PIC_1_OFFSET + 8,
    {
        match self {
            InterruptIndex::Timer => PIC_1_OFFSET,
            InterruptIndex::Keyboard => PIC_1_OFFSET + 1,
        }
    }

    pub fn as_usize(self) -> (v: usize)
        ensures
            v == self.vector(),
    {
        self.as_u8() as usize
    }
}

/// The controller pair at the two offsets.
pub fn controllers() -> (pair: ControllerPair)
    ensures
        pair.wf(),
        pair.master_offset() == PIC_1_OFFSET,
        pair.slave_offset() == PIC_2_OFFSET,
{
    ControllerPair::remap(PIC_1_OFFSET, PIC_2_OFFSET)
}

/// Whether the status register reports a waiting byte.
pub fn has_data(b: u8) -> (r: bool)
    ensures
        r == data_available(b),
{
    b & MOUSE_BIT != 0
}

/// What serves a vector.
#[derive(Debug, Clone, Copy, PartialEq, Eq, Structural)]
pub enum Handler {
    /// Logs the stack frame and resumes.
    Breakpoint,
    /// Logs and halts; runs on the stack `DOUBLE_FAULT_IST_INDEX`.
    DoubleFault,
    /// Logs the address and the access flags, then halts.
    PageFault,
    Timer,
    Keyboard,
    Mouse,
}

/// The handler of each vector, if it has one.
pub open spec fn handler_of(vector: int) -> Option<Handler> {
    if vector == 3 {
        Some(Handler::Breakpoint)
    } else if vector == 8 {
        Some(Handler::DoubleFault)
    } else if vector == 14 {
        Some(Handler::PageFault)
    } else if vector == 32 {
        Some(Handler::Timer)
    } else if vector == 33 {
        Some(Handler::Keyboard)
    } else if vector == 44 {
        Some(Handler::Mouse)
    } else {
        None
    }
}

/// The vector table: one entry for each of the 256 vectors.
pub struct VectorTable {
    entries: Vec<Option<Handler>>,
}

impl VectorTable {
    pub closed spec fn view(&self) -> Seq<Option<Handler>> {
        self.entries@
    }

    /// The handler of `vector`, if it has one.
    pub fn get(&self, vector: u8) -> (h: Option<Handler>)
        requires
            self@.len() == 256,
        ensures
            h == self@[vector as int],
    {
        self.entries[vector as usize]
    }
}

/// Looks up the handler of `vector`.
pub fn handler_for(vector: u8) -> (h: Option<Handler>)
    ensures
        h == handler_of(vector as int),
{
    if vector == BREAKPOINT_VECTOR {
        Some(Handler::Breakpoint)
    } else if vector == DOUBLE_FAULT_VECTOR {
        Some(Handler::DoubleFault)
    } else if vector == PAGE_FAULT_VECTOR {
        Some(Handler::PageFault)
    } else if vector == InterruptIndex::Timer.as_u8() {
        Some(Handler::Timer)
    } else if vector == InterruptIndex::Keyboard.as_u8() {
        Some(Handler::Keyboard)
    } else if vector == SecondaryInterruptIndex::Mouse.as_u8() {
        Some(Handler::Mouse)
    } else {
        None
    }
}

/// Builds the vector table: the three exceptions below 32, and the timer,
/// the keyboard and the mouse on their controller lines.
pub fn init_idt() -> (table: VectorTable)
    ensures
        table@.len() == 256,
        forall|v: int| 0 <= v < 256 ==> #[trigger] table@[v] == handler_of(v),
{
    let mut entries: Vec<Option<Handler>> = Vec::new();
    let mut v: u8 = 0;
    while v < 255
        invariant
            v <= 255,
            entries@.len() == v,
            forall|i: int| 0 <= i < v ==> #[trigger] entries@[i] == handler_of(i),
        decreases 255 - v,
    {
        entries.push(handler_for(v));
        v = v + 1;
    }
    entries.push(handler_for(255));
    VectorTable { entries }
}

/// Exceptions lie below vector 32, and each device's handler lies on a line
/// of the controller pair: the timer and the keyboard on the master, the
/// mouse on the slave.
pub proof fn handlers_lie_in_their_ranges(vector: int)
    requires
        0 <= vector < 256,
    ensures
        handler_of(vector) is Some ==> (vector < 32 <==> (handler_of(vector) == Some(
            Handler::Breakpoint,
        ) || handler_of(vector) == Some(Handler::DoubleFault) || handler_of(vector) == Some(
            Handler::PageFault,
        ))),
        handler_of(vector) is Some && vector >= 32 ==> vector < 48,
        handler_of(vector) == Some(Handler::Mouse) ==> ControllerPair::in_range(
            PIC_2_OFFSET,
            vector as u8,
        ),
{
}

/// One step of bringing the interrupt core up.
#[derive(Debug, Clone, Copy, PartialEq, Eq, Structural)]
pub enum BootStep {
    RemapControllers,
    ProgramTimer,
    LoadVectorTable,
    MouseHandshake,
    EnableInterrupts,
}

/// The order of the boot steps: the controllers are remapped before the
/// vector table is loaded, and interrupts are enabled last.
pub open spec fn boot_order() -> Seq<BootStep> {
    seq![
        BootStep::RemapControllers,
        BootStep::ProgramTimer,
        BootStep::LoadVectorTable,
        BootStep::MouseHandshake,
        BootStep::EnableInterrupts,
    ]
}

/// The boot steps in the order in which they are carried out.
pub fn boot_sequence() -> (steps: [BootStep; 5])
    ensures
        steps@ == boot_order(),
{
    let steps = [
        BootStep::RemapControllers,
        BootStep::ProgramTimer,
        BootStep::LoadVectorTable,
        BootStep::MouseHandshake,
        BootStep::EnableInterrupts,
    ];
    proof {
        assert(steps@ =~= boot_order());
    }
    steps
}

/// Registers the mouse's callbacks: on the left button one for a double
/// click and one for a click, on the right button one for a click.
pub fn mouse_init<H: Fn()>(
    mouse: &mut MouseInternal<H>,
    left_doubleclick: H,
    left_click: H,
    right_click: H,
)
    requires
        old(mouse).wf(),
        call_requires(left_doubleclick, ()),
        call_requires(left_click, ()),
        call_requires(right_click, ()),
    ensures
        final(mouse).wf(),
        final(mouse).model() == old(mouse).model(),
        final(mouse).button(Code::Left).handlers(Event::DoubleClick) == old(mouse).button(
            Code::Left,
        ).handlers(Event::DoubleClick).push(left_doubleclick),
        final(mouse).button(Code::Left).handlers(Event::Click) == old(mouse).button(
            Code::Left,
        ).handlers(Event::Click).push(left_click),
        final(mouse).button(Code::Right).handlers(Event::Click) == old(mouse).button(
            Code::Right,
        ).handlers(Event::Click).push(right_click),
        forall|c: Code, e: Event|
            !(c == Code::Left && e != Event::Release) && !(c == Code::Right && e == Event::Click)
                ==> #[trigger] final(mouse).button(c).handlers(e) == old(mouse).button(c).handlers(
                e,
            ),
{
    mouse.on(Code::Left, Event::DoubleClick, left_doubleclick);
    let ghost first = *mouse;
    mouse.on(Code::Left, Event::Click, left_click);
    let ghost second = *mouse;
    mouse.on(Code::Right, Event::Click, right_click);
    proof {
        assert(second.button(Code::Left).handlers(Event::DoubleClick) == first.button(
            Code::Left,
        ).handlers(Event::DoubleClick));
        assert(mouse.button(Code::Left).handlers(Event::DoubleClick) == second.button(
            Code::Left,
        ).handlers(Event::DoubleClick));
        assert(mouse.button(Code::Left).handlers(Event::Click) == second.button(
            Code::Left,
        ).handlers(Event::Click));
        assert(second.button(Code::Right).handlers(Event::Click) == first.button(
            Code::Right,
        ).handlers(Event::Click));
        assert(first.button(Code::Right).handlers(Event::Click) == old(mouse).button(
            Code::Right,
        ).handlers(Event::Click));
        assert(first.button(Code::Left).handlers(Event::Click) == old(mouse).button(
            Code::Left,
        ).handlers(Event::Click));
        assert forall|c: Code, e: Event|
            !(c == Code::Left && e != Event::Release) && !(c == Code::Right && e == Event::Click)
            implies #[trigger] mouse.button(c).handlers(e) == old(mouse).button(c).handlers(e) by {
            assert(first.button(c).handlers(e) == old(mouse).button(c).handlers(e));
            assert(second.button(c).handlers(e) == first.button(c).handlers(e));
        }
    }
}

} // verus!
