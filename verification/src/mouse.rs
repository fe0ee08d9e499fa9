//! PS/2 mouse: buttons with their gesture state machine, and packets.

use crate::assembler::stream_rest;
use crate::assembler::stream_split;
use crate::assembler::PacketAssembler;
use crate::handshake::device_command;
use crate::handshake::push_device_command;
use crate::handshake::Handshake;
use crate::handshake::HandshakeState;
use crate::handshake::Poll;
use crate::handshake::TIMEOUT;
use crate::ports::PortOp;
use crate::time::Timestamp;
use vstd::prelude::*;

verus! {

/// Two clicks at most this many nanoseconds apart make a double click.
pub const DOUBLECLICK_NANOS: u64 = 500_000_000;

/// Which button: each has its own bit in a packet's status byte.
#[derive(Debug, PartialEq, Eq, Copy, Clone, Structural)]
pub enum Code {
    Left,
    Right,
    Middle,
}

impl Code {
    pub open spec fn spec_mask(self) -> u8 {
        match self {
            Code::Left => 0x01u8,
            Code::Right => 0x02u8,
            Code::Middle => 0x04u8,
        }
    }

    /// The button's bit in the status byte.
    #[verifier::when_used_as_spec(spec_mask)]
    pub fn mask(self) -> (m: u8)
        ensures
            m == self.spec_mask(),
    {
        match self {
            Code::Left => 0x01,
            Code::Right => 0x02,
            Code::Middle => 0x04,
        }
    }
}

#[derive(Debug, PartialEq, Eq, Copy, Clone, Structural)]
pub enum State {
    Click,
    Release,
}

impl State {
    /// The state that `byte` reports for the button `code`: clicked exactly
    /// when the button's bit is set.
    pub open spec fn of(byte: u8, code: Code) -> State {
        if byte & code.spec_mask() != 0 {
            State::Click
        } else {
            State::Release
        }
    }

    pub fn get(byte: u8, code: Code) -> (s: State)
        ensures
            s == State::of(byte, code),
    {
        if byte & code.mask() != 0 {
            State::Click
        } else {
            State::Release
        }
    }
}

#[derive(Debug, PartialEq, Eq, Copy, Clone, Structural)]
pub enum Event {
    Click,
    DoubleClick,
    Release,
}

/// What the gesture state machine keeps of one button.
pub struct ButtonModel {
    pub state: State,
    /// When the last packet was applied.
    pub updated: Timestamp,
    /// When the last fresh click was: the epoch after a double click.
    pub clicked: Timestamp,
}

/// A click is a double click when it comes within the window after the last
/// fresh click.
pub open spec fn is_doubleclick(new_state: State, t: Timestamp, clicked_at: Timestamp) -> bool {
    new_state == State::Click && t.as_nanos() - clicked_at.as_nanos() <= DOUBLECLICK_NANOS
}

impl ButtonModel {
    /// The event that a packet at time `t` with state `new_state` fires.
    pub open spec fn fired(self, new_state: State, t: Timestamp) -> Event {
        if is_doubleclick(new_state, t, self.clicked) {
            Event::DoubleClick
        } else if new_state == State::Click {
            Event::Click
        } else {
            Event::Release
        }
    }

    /// The button after a packet at time `t` with state `new_state`.
    pub open spec fn step(self, new_state: State, t: Timestamp) -> ButtonModel {
        ButtonModel {
            state: new_state,
            updated: t,
            clicked: if is_doubleclick(new_state, t, self.clicked) {
                Timestamp { secs: 0, nanos: 0 }
            } else if new_state == State::Click {
                t
            } else {
                self.clicked
            },
        }
    }
}

/// A fresh click followed by a click within the window: the first fires
/// `Click`, the second fires `DoubleClick` and no `Click`, whether or not the
/// button was released in between. The first click is fresh when it comes
/// later than the window after the last fresh click.
pub proof fn click_then_click_is_doubleclick(
    b: ButtonModel,
    t1: Timestamp,
    released_at: Timestamp,
    t2: Timestamp,
)
    requires
        t1.as_nanos() - b.clicked.as_nanos() > DOUBLECLICK_NANOS,
        t2.as_nanos() - t1.as_nanos() <= DOUBLECLICK_NANOS,
    ensures
        b.fired(State::Click, t1) == Event::Click,
        b.step(State::Click, t1).fired(State::Click, t2) == Event::DoubleClick,
        b.step(State::Click, t1).step(State::Release, released_at).fired(State::Click, t2)
            == Event::DoubleClick,
{
}

/// A double click does not chain: the click after it fires a fresh `Click`,
/// however soon it comes, because the double click set the time of the last
/// fresh click back to the epoch. This holds of a click later than the window
/// after the epoch itself.
pub proof fn click_after_doubleclick_is_fresh(b: ButtonModel, t2: Timestamp, t3: Timestamp)
    requires
        b.fired(State::Click, t2) == Event::DoubleClick,
        t3.as_nanos() > DOUBLECLICK_NANOS,
    ensures
        b.step(State::Click, t2).clicked == (Timestamp { secs: 0, nanos: 0 }),
        b.step(State::Click, t2).fired(State::Click, t3) == Event::Click,
        b.step(State::Click, t2).step(State::Click, t3).clicked == t3,
{
}

/// One mouse button: its state, and the callbacks registered for each event.
pub struct Button<H> {
    code: Code,
    state: State,
    click_handlers: Vec<H>,
    doubleclick_handlers: Vec<H>,
    release_handlers: Vec<H>,
    updated: Timestamp,
    clicked: Timestamp,
}

/// Every callback of the list may be called.
pub open spec fn callable<H: Fn()>(handlers: Seq<H>) -> bool {
    forall|i: int| 0 <= i < handlers.len() ==> call_requires(#[trigger] handlers[i], ())
}

/// Calls each callback once, first to last.
fn fire<H: Fn()>(handlers: &Vec<H>)
    requires
        callable(handlers@),
{
    let mut i: usize = 0;
    while i < handlers.len()
        invariant
            callable(handlers@),
        decreases handlers.len() - i,
    {
        let h = &handlers[i];
        h();
        i = i + 1;
    }
}

impl<H: Fn()> Button<H> {
    pub closed spec fn code(&self) -> Code {
        self.code
    }

    pub closed spec fn model(&self) -> ButtonModel {
        ButtonModel { state: self.state, updated: self.updated, clicked: self.clicked }
    }

    /// The callbacks registered for `event`, in the order of registration.
    pub closed spec fn handlers(&self, event: Event) -> Seq<H> {
        match event {
            Event::Click => self.click_handlers@,
            Event::DoubleClick => self.doubleclick_handlers@,
            Event::Release => self.release_handlers@,
        }
    }

    /// A released button with no callbacks that was never clicked.
    pub open spec fn fresh(&self, code: Code) -> bool {
        &&& self.code() == code
        &&& self.model() == (ButtonModel {
            state: State::Release,
            updated: Timestamp { secs: 0, nanos: 0 },
            clicked: Timestamp { secs: 0, nanos: 0 },
        })
        &&& forall|event: Event| #[trigger] self.handlers(event) == Seq::<H>::empty()
    }

    /// Every registered callback may be called.
    pub open spec fn wf(&self) -> bool {
        forall|event: Event| callable(#[trigger] self.handlers(event))
    }

    pub fn new(byte: u8, code: Code) -> (b: Button<H>)
        ensures
            b.wf(),
            b.code() == code,
            b.model() == (ButtonModel {
                state: State::of(byte, code),
                updated: Timestamp { secs: 0, nanos: 0 },
                clicked: Timestamp { secs: 0, nanos: 0 },
            }),
            forall|event: Event| b.handlers(event) == Seq::<H>::empty(),
    {
        Button {
            code,
            state: State::get(byte, code),
            click_handlers: Vec::new(),
            doubleclick_handlers: Vec::new(),
            release_handlers: Vec::new(),
            updated: Timestamp::zero(),
            clicked: Timestamp::zero(),
        }
    }

    /// Registers `f` for `event`, behind the callbacks already there.
    pub fn on(&mut self, event: Event, f: H)
        requires
            old(self).wf(),
            call_requires(f, ()),
        ensures
            final(self).wf(),
            final(self).handlers(event) == old(self).handlers(event).push(f),
            forall|other: Event| other != event ==> final(self).handlers(other) == old(self).handlers(other),
            final(self).model() == old(self).model(),
            final(self).code() == old(self).code(),
    {
        match event {
            Event::Click => self.click_handlers.push(f),
            Event::DoubleClick => self.doubleclick_handlers.push(f),
            Event::Release => self.release_handlers.push(f),
        }
        proof {
            assert forall|e: Event| callable(#[trigger] self.handlers(e)) by {
                assert(callable(old(self).handlers(e)));
                if e == event {
                    assert forall|i: int| 0 <= i < self.handlers(e).len() implies call_requires(
                        #[trigger] self.handlers(e)[i],
                        (),
                    ) by {
                        if i < old(self).handlers(e).len() {
                            assert(self.handlers(e)[i] == old(self).handlers(e)[i]);
                        }
                    }
                } else {
                    assert(self.handlers(e) == old(self).handlers(e));
                }
            }
        }
    }

    pub fn is_doubleclicked(&self, new_state: State, dur: Timestamp, clicked_at: Timestamp) -> (dc: bool)
        ensures
            dc == is_doubleclick(new_state, dur, clicked_at),
    {
        dur.within(&clicked_at, DOUBLECLICK_NANOS) && new_state == State::Click
    }

    /// Applies one packet's state for this button at time `dur`, calls the
    /// callbacks of the event that this fires, and returns that event.
    pub fn trigger_events(&mut self, new_state: State, dur: Timestamp) -> (fired: Event)
        requires
            old(self).wf(),
        ensures
            final(self).wf(),
            fired == old(self).model().fired(new_state, dur),
            final(self).model() == old(self).model().step(new_state, dur),
            final(self).code() == old(self).code(),
            forall|event: Event| final(self).handlers(event) == old(self).handlers(event),
    {
        let dc = self.is_doubleclicked(new_state, dur, self.clicked);
        self.state = new_state;
        self.updated = dur;
        let fired = if dc {
            self.clicked = Timestamp::zero();
            Event::DoubleClick
        } else if new_state == State::Click {
            self.clicked = dur;
            Event::Click
        } else {
            Event::Release
        };
        proof {
            assert forall|e: Event| callable(#[trigger] self.handlers(e)) by {
                assert(self.handlers(e) == old(self).handlers(e));
            }
            assert(callable(self.handlers(Event::Click)));
            assert(callable(self.handlers(Event::DoubleClick)));
            assert(callable(self.handlers(Event::Release)));
        }
        match fired {
            Event::Click => fire(&self.click_handlers),
            Event::DoubleClick => fire(&self.doubleclick_handlers),
            Event::Release => fire(&self.release_handlers),
        }
        fired
    }

    pub fn current_state(&self) -> (s: State)
        ensures
            s == self.model().state,
    {
        self.state
    }

    /// When the last packet was applied.
    pub fn updated_at(&self) -> (t: Timestamp)
        ensures
            t == self.model().updated,
    {
        self.updated
    }

    /// When the last fresh click was.
    pub fn clicked_at(&self) -> (t: Timestamp)
        ensures
            t == self.model().clicked,
    {
        self.clicked
    }

    /// How many callbacks are registered for `event`.
    pub fn handler_count(&self, event: Event) -> (n: usize)
        ensures
            n == self.handlers(event).len(),
    {
        match event {
            Event::Click => self.click_handlers.len(),
            Event::DoubleClick => self.doubleclick_handlers.len(),
            Event::Release => self.release_handlers.len(),
        }
    }
}

/// The value of a byte read as a signed two's-complement number.
pub open spec fn signed(b: u8) -> int {
    if b < 128 {
        b as int
    } else {
        b as int - 256
    }
}

pub fn to_signed(b: u8) -> (r: i8)
    ensures
        r as int == signed(b),
{
    if b < 128 {
        b as i8
    } else {
        (b as i16 - 256) as i8
    }
}

/// Whether a status byte has one of its two overflow bits set.
pub open spec fn has_overflow(status: u8) -> bool {
    status & 0xC0 != 0
}

/// One mouse report: movement, the three buttons, and when it was decoded.
#[derive(Debug, Clone, Copy, PartialEq, Eq, Structural)]
pub struct Packet {
    pub x_difference: i8,
    pub y_difference: i8,
    pub left_button_state: State,
    pub right_button_state: State,
    pub middle_button_state: State,
    pub time: Timestamp,
}

impl Packet {
    pub fn new(x: i8, y: i8, buttons: u8, time: Timestamp) -> (p: Packet)
        ensures
            p == (Packet {
                x_difference: x,
                y_difference: y,
                left_button_state: State::of(buttons, Code::Left),
                right_button_state: State::of(buttons, Code::Right),
                middle_button_state: State::of(buttons, Code::Middle),
                time,
            }),
    {
        Packet {
            x_difference: x,
            y_difference: y,
            left_button_state: State::get(buttons, Code::Left),
            right_button_state: State::get(buttons, Code::Right),
            middle_button_state: State::get(buttons, Code::Middle),
            time,
        }
    }

    /// The packet that the three bytes `status`, `dx`, `dy` stand for.
    pub open spec fn decoded(status: u8, dx: u8, dy: u8, time: Timestamp) -> Packet {
        Packet {
            x_difference: signed(dx) as i8,
            y_difference: signed(dy) as i8,
            left_button_state: State::of(status, Code::Left),
            right_button_state: State::of(status, Code::Right),
            middle_button_state: State::of(status, Code::Middle),
            time,
        }
    }

    /// Decodes three assembled bytes: the status byte, then the two
    /// movements. A packet with an overflow bit in its status byte is
    /// dropped.
    pub fn decode(bytes: &[u8; 3], time: Timestamp) -> (p: Option<Packet>)
        ensures
            has_overflow(bytes[0]) ==> p is None,
            !has_overflow(bytes[0]) ==> p == Some(Packet::decoded(bytes[0], bytes[1], bytes[2], time)),
            p is Some ==> p.unwrap().x_difference as int == signed(bytes[1]),
            p is Some ==> p.unwrap().y_difference as int == signed(bytes[2]),
    {
        if bytes[0] & 0xC0 != 0 {
            None
        } else {
            Some(Packet::new(to_signed(bytes[1]), to_signed(bytes[2]), bytes[0], time))
        }
    }
}

/// The packet that three bytes stand for keeps both movements as signed
/// two's-complement numbers and has each button clicked exactly when its
/// bit of the status byte is set. `Packet::decode` gives this packet for
/// every status byte without an overflow bit.
pub proof fn decoded_keeps_movement_and_buttons(status: u8, dx: u8, dy: u8, time: Timestamp)
    ensures
        Packet::decoded(status, dx, dy, time).x_difference as int == signed(dx),
        Packet::decoded(status, dx, dy, time).y_difference as int == signed(dy),
        (Packet::decoded(status, dx, dy, time).left_button_state == State::Click) == (status & 0x01
            != 0),
        (Packet::decoded(status, dx, dy, time).right_button_state == State::Click) == (status
            & 0x02 != 0),
        (Packet::decoded(status, dx, dy, time).middle_button_state == State::Click) == (status
            & 0x04 != 0),
        Packet::decoded(status, dx, dy, time).time == time,
{
}

/// The events that one packet fired, button by button.
#[derive(Debug, Clone, Copy, PartialEq, Eq, Structural)]
pub struct Fired {
    pub left: Event,
    pub right: Event,
    pub middle: Event,
}

/// What became of one received byte.
#[derive(Debug, Clone, Copy, PartialEq, Eq, Structural)]
pub enum Outcome {
    /// The packet is not complete yet.
    Pending,
    /// The byte completed a packet with an overflow bit: it was dropped.
    Dropped,
    /// The byte completed a packet, which was applied.
    Processed(Fired),
}

/// What to do after one read of the status register while draining.
#[derive(Debug, Clone, Copy, PartialEq, Eq, Structural)]
pub enum DrainStep {
    /// No data is pending: the drain is over.
    Stop,
    /// The pending byte is the keyboard's: it is not taken.
    Skip,
    /// The pending byte is the mouse's: read it and hand it on.
    Read,
}

/// Status bit: a byte waits in the data register.
pub const MOUSE_BIT: u8 = 0x01;

/// Status bit: the waiting byte comes from the auxiliary device.
pub const AUXILIARY_BIT: u8 = 0x20;

pub open spec fn data_available(status: u8) -> bool {
    status & MOUSE_BIT != 0
}

pub open spec fn from_auxiliary(status: u8) -> bool {
    status & AUXILIARY_BIT != 0
}

/// Decides from the status register whether the drain goes on.
pub fn drain_step(status: u8) -> (step: DrainStep)
    ensures
        step == (if !data_available(status) {
            DrainStep::Stop
        } else if !from_auxiliary(status) {
            DrainStep::Skip
        } else {
            DrainStep::Read
        }),
{
    if status & MOUSE_BIT == 0 {
        DrainStep::Stop
    } else if status & AUXILIARY_BIT == 0 {
        DrainStep::Skip
    } else {
        DrainStep::Read
    }
}

/// A coordinate after a movement: the sum, wrapped to 32 bits.
pub open spec fn moved(at: u32, by: i8) -> u32 {
    ((at + by) % 0x1_0000_0000) as u32
}

fn shifted(at: u32, by: i8) -> (r: u32)
    ensures
        r == moved(at, by),
{
    if by >= 0 {
        let m: u32 = by as u32;
        if at <= u32::MAX - m {
            at + m
        } else {
            at - (u32::MAX - m) - 1
        }
    } else {
        let m: u32 = (-(by as i16)) as u32;
        if at >= m {
            at - m
        } else {
            u32::MAX - (m - at) + 1
        }
    }
}

/// The mouse as the contracts see it: position, the three buttons, and the
/// bytes of the unfinished packet.
pub struct MouseModel {
    pub x: u32,
    pub y: u32,
    pub left: ButtonModel,
    pub right: ButtonModel,
    pub middle: ButtonModel,
    pub pending: Seq<u8>,
}

impl MouseModel {
    /// The mouse after a packet: the position moves, each button takes its
    /// state.
    pub open spec fn process(self, p: Packet) -> MouseModel {
        MouseModel {
            x: moved(self.x, p.x_difference),
            y: moved(self.y, p.y_difference),
            left: self.left.step(p.left_button_state, p.time),
            right: self.right.step(p.right_button_state, p.time),
            middle: self.middle.step(p.middle_button_state, p.time),
            pending: self.pending,
        }
    }

    /// The mouse after one byte at time `now`. The third byte of a packet
    /// empties the buffer; the packet is applied unless it has an overflow
    /// bit.
    pub open spec fn receive(self, byte: u8, now: Timestamp) -> MouseModel {
        let bytes = self.pending.push(byte);
        let emptied = MouseModel { pending: Seq::empty(), ..self };
        if bytes.len() < 3 {
            MouseModel { pending: bytes, ..self }
        } else if has_overflow(bytes[0]) {
            emptied
        } else {
            emptied.process(Packet::decoded(bytes[0], bytes[1], bytes[2], now))
        }
    }

    /// The mouse after the bytes of one interrupt, first to last.
    pub open spec fn drain(self, bytes: Seq<u8>, now: Timestamp) -> MouseModel
        decreases bytes.len(),
    {
        if bytes.len() == 0 {
            self
        } else {
            self.drain(bytes.drop_last(), now).receive(bytes.last(), now)
        }
    }
}

/// A packet whose status byte has an overflow bit changes neither a button
/// nor the position, and leaves the cycle at position 0.
pub proof fn overflow_packet_is_dropped(m: MouseModel, status: u8, dx: u8, dy: u8, now: Timestamp)
    requires
        m.pending.len() == 0,
        status & 0x80 != 0 || status & 0x40 != 0,
    ensures
        m.drain(seq![status, dx, dy], now) == (MouseModel { pending: Seq::empty(), ..m }),
{
    assert(has_overflow(status)) by (bit_vector)
        requires
            status & 0x80 != 0 || status & 0x40 != 0,
    ;
    let s3 = seq![status, dx, dy];
    let s2 = seq![status, dx];
    let s1 = seq![status];
    assert(s3.drop_last() =~= s2);
    assert(s2.drop_last() =~= s1);
    assert(s1.drop_last() =~= Seq::<u8>::empty());
    reveal_with_fuel(MouseModel::drain, 4);
    let m1 = m.receive(status, now);
    assert(m.pending.push(status) =~= s1);
    assert(m1.pending =~= s1);
    let m2 = m1.receive(dx, now);
    assert(m1.pending.push(dx) =~= s2);
    assert(m2.pending =~= s2);
    assert(m2.pending.push(dy) =~= s3);
    assert(m.drain(s1, now) == m1);
    assert(m.drain(s2, now) == m2);
}

/// Across interrupts the unfinished packet is the rest of all bytes so far:
/// the position in the cycle is their number modulo 3.
pub proof fn drain_keeps_rest(m: MouseModel, bytes: Seq<u8>, now: Timestamp)
    requires
        m.pending.len() < 3,
    ensures
        m.drain(bytes, now).pending == stream_rest(m.pending + bytes),
        m.drain(bytes, now).pending.len() == (m.pending.len() + bytes.len()) % 3,
    decreases bytes.len(),
{
    if bytes.len() == 0 {
        assert(m.pending + bytes =~= m.pending);
        assert(m.pending.skip(0) =~= m.pending);
    } else {
        let front = bytes.drop_last();
        let b = bytes.last();
        drain_keeps_rest(m, front, now);
        let before = m.drain(front, now);
        stream_split(m.pending + front, seq![b]);
        assert((m.pending + front) + seq![b] =~= m.pending + bytes);
        assert(before.pending + seq![b] =~= before.pending.push(b));
        let s = before.pending.push(b);
        if s.len() < 3 {
            assert(s.skip(0) =~= s);
        } else {
            assert(s.skip(3) =~= Seq::<u8>::empty());
        }
    }
}

/// Bytes drained in two parts leave the mouse as the same bytes drained in
/// one: nothing is lost or used twice where an interrupt ends inside a
/// packet.
pub proof fn drain_in_parts(m: MouseModel, a: Seq<u8>, b: Seq<u8>, now: Timestamp)
    ensures
        m.drain(a + b, now) == m.drain(a, now).drain(b, now),
    decreases b.len(),
{
    if b.len() == 0 {
        assert(a + b =~= a);
    } else {
        drain_in_parts(m, a, b.drop_last(), now);
        assert((a + b).drop_last() =~= a + b.drop_last());
        assert((a + b).last() == b.last());
    }
}

/// The mouse: position, buttons, and the cycle buffer of the packet that is
/// being received.
pub struct MouseInternal<H> {
    x: u32,
    y: u32,
    left_button: Button<H>,
    right_button: Button<H>,
    middle_button: Button<H>,
    assembler: PacketAssembler,
}

impl<H: Fn()> MouseInternal<H> {
    pub closed spec fn left(&self) -> Button<H> {
        self.left_button
    }

    pub closed spec fn right(&self) -> Button<H> {
        self.right_button
    }

    pub closed spec fn middle(&self) -> Button<H> {
        self.middle_button
    }

    /// The button with the given code.
    pub open spec fn button(&self, code: Code) -> Button<H> {
        match code {
            Code::Left => self.left(),
            Code::Right => self.right(),
            Code::Middle => self.middle(),
        }
    }

    pub closed spec fn position(&self) -> (u32, u32) {
        (self.x, self.y)
    }

    pub closed spec fn assembler(&self) -> PacketAssembler {
        self.assembler
    }

    /// The bytes of the unfinished packet.
    pub open spec fn pending(&self) -> Seq<u8> {
        self.assembler().pending()
    }

    /// Every callback may be called, and the cycle position is 0, 1 or 2.
    pub open spec fn wf(&self) -> bool {
        &&& self.left().wf()
        &&& self.right().wf()
        &&& self.middle().wf()
        &&& self.assembler().wf()
    }

    pub open spec fn model(&self) -> MouseModel {
        MouseModel {
            x: self.position().0,
            y: self.position().1,
            left: self.left().model(),
            right: self.right().model(),
            middle: self.middle().model(),
            pending: self.pending(),
        }
    }

    /// The same buttons with the same callbacks, whatever their state.
    pub open spec fn same_callbacks(&self, other: &MouseInternal<H>) -> bool {
        &&& self.left().code() == other.left().code()
        &&& self.right().code() == other.right().code()
        &&& self.middle().code() == other.middle().code()
        &&& forall|e: Event| #[trigger] self.left().handlers(e) == other.left().handlers(e)
        &&& forall|e: Event| #[trigger] self.right().handlers(e) == other.right().handlers(e)
        &&& forall|e: Event| #[trigger] self.middle().handlers(e) == other.middle().handlers(e)
    }

    /// A mouse at the origin, all buttons released, no callbacks, at the
    /// start of a packet.
    pub fn new() -> (m: MouseInternal<H>)
        ensures
            m.wf(),
            m.position() == (0u32, 0u32),
            m.pending() == Seq::<u8>::empty(),
            m.left().fresh(Code::Left),
            m.right().fresh(Code::Right),
            m.middle().fresh(Code::Middle),
    {
        proof {
            assert(0u8 & 0x01u8 == 0 && 0u8 & 0x02u8 == 0 && 0u8 & 0x04u8 == 0) by (bit_vector);
        }
        MouseInternal {
            x: 0,
            y: 0,
            left_button: Button::new(0, Code::Left),
            right_button: Button::new(0, Code::Right),
            middle_button: Button::new(0, Code::Middle),
            assembler: PacketAssembler::new(),
        }
    }
    /// Applies a packet: moves the position, then lets each button take its
    /// state and call its callbacks: left, right, middle.
    pub fn process_packet(&mut self, p: &Packet) -> (fired: Fired)
        requires
            old(self).wf(),
        ensures
            final(self).wf(),
            final(self).model() == old(self).model().process(*p),
            final(self).same_callbacks(old(self)),
            fired == (Fired {
                left: old(self).model().left.fired(p.left_button_state, p.time),
                right: old(self).model().right.fired(p.right_button_state, p.time),
                middle: old(self).model().middle.fired(p.middle_button_state, p.time),
            }),
    {
        self.x = shifted(self.x, p.x_difference);
        self.y = shifted(self.y, p.y_difference);
        let left = self.left_button.trigger_events(p.left_button_state, p.time);
        let right = self.right_button.trigger_events(p.right_button_state, p.time);
        let middle = self.middle_button.trigger_events(p.middle_button_state, p.time);
        Fired { left, right, middle }
    }

    /// Takes one byte read from the mouse at time `now`. The third byte of a
    /// packet completes it: the packet is applied, or dropped if its status
    /// byte has an overflow bit.
    pub fn receive(&mut self, data: u8, now: Timestamp) -> (out: Outcome)
        requires
            old(self).wf(),
        ensures
            final(self).wf(),
            final(self).model() == old(self).model().receive(data, now),
            final(self).same_callbacks(old(self)),
            out == ({
                let bytes = old(self).pending().push(data);
                if bytes.len() < 3 {
                    Outcome::Pending
                } else if has_overflow(bytes[0]) {
                    Outcome::Dropped
                } else {
                    let p = Packet::decoded(bytes[0], bytes[1], bytes[2], now);
                    Outcome::Processed(
                        Fired {
                            left: old(self).model().left.fired(p.left_button_state, now),
                            right: old(self).model().right.fired(p.right_button_state, now),
                            middle: old(self).model().middle.fired(p.middle_button_state, now),
                        },
                    )
                }
            }),
    {
        proof {
            self.pending_is_short();
        }
        match self.assembler.push(data) {
            None => Outcome::Pending,
            Some(bytes) => {
                proof {
                    assert(self.pending() =~= Seq::<u8>::empty());
                    assert(bytes@ == old(self).pending().push(data));
                    assert(bytes[0] == bytes@[0] && bytes[1] == bytes@[1] && bytes[2] == bytes@[2]);
                }
                match Packet::decode(&bytes, now) {
                    None => Outcome::Dropped,
                    Some(packet) => Outcome::Processed(self.process_packet(&packet)),
                }
            },
        }
    }

    /// One mouse interrupt: takes the bytes that were drained from the
    /// device, first to last, all at time `now`.
    pub fn handler(&mut self, bytes: &Vec<u8>, now: Timestamp)
        requires
            old(self).wf(),
        ensures
            final(self).wf(),
            final(self).model() == old(self).model().drain(bytes@, now),
            final(self).same_callbacks(old(self)),
            final(self).pending().len() == (old(self).pending().len() + bytes@.len()) % 3,
    {
        let mut i: usize = 0;
        proof {
            assert(bytes@.take(0) =~= Seq::<u8>::empty());
        }
        while i < bytes.len()
            invariant
                i <= bytes.len(),
                self.wf(),
                self.model() == old(self).model().drain(bytes@.take(i as int), now),
                self.same_callbacks(old(self)),
            decreases bytes.len() - i,
        {
            let _ = self.receive(bytes[i], now);
            proof {
                assert(bytes@.take(i + 1).drop_last() =~= bytes@.take(i as int));
            }
            i = i + 1;
        }
        proof {
            assert(bytes@.take(i as int) =~= bytes@);
            old(self).pending_is_short();
            drain_keeps_rest(old(self).model(), bytes@, now);
        }
    }

    /// Registers `f` for `event` on the button `code`, behind the callbacks
    /// already there.
    pub fn on(&mut self, code: Code, event: Event, f: H)
        requires
            old(self).wf(),
            call_requires(f, ()),
        ensures
            final(self).wf(),
            final(self).model() == old(self).model(),
            final(self).button(code).handlers(event) == old(self).button(code).handlers(event).push(f),
            forall|c: Code, e: Event|
                c != code || e != event ==> #[trigger] final(self).button(c).handlers(e) == old(
                    self,
                ).button(c).handlers(e),
            forall|c: Code| #[trigger] final(self).button(c).code() == old(self).button(c).code(),
    {
        match code {
            Code::Left => self.left_button.on(event, f),
            Code::Right => self.right_button.on(event, f),
            Code::Middle => self.middle_button.on(event, f),
        }
    }

    /// Starts the handshake that switches the mouse on: its steps hand out
    /// the port operations to carry out.
    pub fn init(&self) -> (h: Handshake)
        ensures
            h.state() == HandshakeState::Idle,
    {
        Handshake::new()
    }

    /// The operations that send the command byte `b` to the mouse.
    pub fn write(&self, b: u8) -> (ops: Vec<PortOp>)
        ensures
            ops@ == device_command(b),
    {
        let mut ops: Vec<PortOp> = Vec::new();
        push_device_command(&mut ops, b);
        proof {
            assert(ops@ =~= device_command(b));
        }
        ops
    }

    /// A poll of the status register that waits for the data-available bit
    /// to equal `b`.
    pub fn wait(&self, b: bool) -> (p: Poll)
        ensures
            p.ready() == b,
            p.left() == TIMEOUT,
            !p.met(),
    {
        Poll::new(b)
    }

    /// The unfinished packet has fewer than three bytes.
    pub proof fn pending_is_short(&self)
        requires
            self.wf(),
        ensures
            self.pending().len() < 3,
    {
        self.assembler().pending_is_short();
    }

    /// Whether the status register reports a waiting byte.
    pub fn has_data(&self, b: u8) -> (r: bool)
        ensures
            r == data_available(b),
    {
        b & MOUSE_BIT != 0
    }

    /// The position in the cycle: how many bytes of the next packet are in.
    pub fn cycle(&self) -> (c: u8)
        requires
            self.wf(),
        ensures
            c == self.pending().len(),
            c < 3,
    {
        self.assembler.cycle()
    }

    pub fn coordinates(&self) -> (c: (u32, u32))
        ensures
            c == self.position(),
    {
        (self.x, self.y)
    }

    pub fn left_button(&mut self) -> (b: &mut Button<H>)
        ensures
            *b == old(self).left(),
            final(self).left() == *final(b),
            final(self).right() == old(self).right(),
            final(self).middle() == old(self).middle(),
            final(self).position() == old(self).position(),
            final(self).assembler() == old(self).assembler(),
    {
        &mut self.left_button
    }

    pub fn right_button(&mut self) -> (b: &mut Button<H>)
        ensures
            *b == old(self).right(),
            final(self).right() == *final(b),
            final(self).left() == old(self).left(),
            final(self).middle() == old(self).middle(),
            final(self).position() == old(self).position(),
            final(self).assembler() == old(self).assembler(),
    {
        &mut self.right_button
    }

    pub fn middle_button(&mut self) -> (b: &mut Button<H>)
        ensures
            *b == old(self).middle(),
            final(self).middle() == *final(b),
            final(self).left() == old(self).left(),
            final(self).right() == old(self).right(),
            final(self).position() == old(self).position(),
            final(self).assembler() == old(self).assembler(),
    {
        &mut self.middle_button
    }
}

} // verus!
