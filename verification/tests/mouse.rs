use metal_os::mouse::drain_step;
use metal_os::mouse::to_signed;
use metal_os::mouse::Button;
use metal_os::mouse::Code;
use metal_os::mouse::DrainStep;
use metal_os::mouse::Event;
use metal_os::mouse::Fired;
use metal_os::mouse::MouseInternal;
use metal_os::mouse::Outcome;
use metal_os::mouse::Packet;
use metal_os::mouse::State;
use metal_os::time::Timestamp;
use std::cell::RefCell;
use std::rc::Rc;

type Log = Rc<RefCell<Vec<u32>>>;

fn recorder(log: &Log, id: u32) -> Box<dyn Fn()> {
    let log = log.clone();
    Box::new(move || log.borrow_mut().push(id))
}

fn new_log() -> Log {
    Rc::new(RefCell::new(Vec::new()))
}

fn ms(millis: u64) -> Timestamp {
    Timestamp::from_millis(millis)
}

#[test]
fn code_masks() {
    assert_eq!(Code::Left.mask(), 0x01);
    assert_eq!(Code::Right.mask(), 0x02);
    assert_eq!(Code::Middle.mask(), 0x04);
}

#[test]
fn state_follows_the_buttons_bit() {
    assert_eq!(State::get(0x01, Code::Left), State::Click);
    assert_eq!(State::get(0x02, Code::Left), State::Release);
    assert_eq!(State::get(0x02, Code::Right), State::Click);
    assert_eq!(State::get(0x06, Code::Right), State::Click);
    assert_eq!(State::get(0x04, Code::Middle), State::Click);
    assert_eq!(State::get(0x03, Code::Middle), State::Release);
    assert_eq!(State::get(0x00, Code::Left), State::Release);
    for byte in 0..=255u8 {
        for code in [Code::Left, Code::Right, Code::Middle] {
            let expected = if byte & code.mask() != 0 { State::Click } else { State::Release };
            assert_eq!(State::get(byte, code), expected);
        }
    }
}

#[test]
fn signed_bytes() {
    assert_eq!(to_signed(0), 0);
    assert_eq!(to_signed(5), 5);
    assert_eq!(to_signed(127), 127);
    assert_eq!(to_signed(128), -128);
    assert_eq!(to_signed(0xFB), -5);
    assert_eq!(to_signed(255), -1);
}

#[test]
fn packet_new_keeps_its_arguments() {
    let p = Packet::new(-3, 7, 0x05, ms(1200));
    assert_eq!(p.x_difference, -3);
    assert_eq!(p.y_difference, 7);
    assert_eq!(p.left_button_state, State::Click);
    assert_eq!(p.right_button_state, State::Release);
    assert_eq!(p.middle_button_state, State::Click);
    assert_eq!(p.time, ms(1200));
}

#[test]
fn decode_left_click_with_movement() {
    let p = Packet::decode(&[0x01, 0x05, 0xFB], ms(10)).unwrap();
    assert_eq!(p.x_difference, 5);
    assert_eq!(p.y_difference, -5);
    assert_eq!(p.left_button_state, State::Click);
    assert_eq!(p.right_button_state, State::Release);
    assert_eq!(p.middle_button_state, State::Release);
    assert_eq!(p.time, ms(10));
}

#[test]
fn decode_keeps_movement_and_buttons_of_every_status() {
    for status in 0..=0x3Fu8 {
        for delta in [0u8, 1, 5, 127, 128, 200, 0xFB, 255] {
            let p = Packet::decode(&[status, delta, 255 - delta], ms(3)).unwrap();
            assert_eq!(p.x_difference, delta as i8);
            assert_eq!(p.y_difference, (255 - delta) as i8);
            assert_eq!(p.left_button_state == State::Click, status & 0x01 != 0);
            assert_eq!(p.right_button_state == State::Click, status & 0x02 != 0);
            assert_eq!(p.middle_button_state == State::Click, status & 0x04 != 0);
        }
    }
}

#[test]
fn decode_drops_a_packet_with_an_overflow_bit() {
    assert_eq!(Packet::decode(&[0x80, 1, 1], ms(3)), None);
    assert_eq!(Packet::decode(&[0x40, 1, 1], ms(3)), None);
    assert_eq!(Packet::decode(&[0xC1, 1, 1], ms(3)), None);
    for status in 0x40..=0xFFu8 {
        assert!(Packet::decode(&[status, 0, 0], ms(3)).is_none());
    }
}

#[test]
fn new_button_takes_its_state_from_the_byte() {
    let log = new_log();
    let mut b = Button::new(0x02, Code::Right);
    assert_eq!(b.current_state(), State::Click);
    assert_eq!(b.updated_at(), Timestamp::zero());
    assert_eq!(b.clicked_at(), Timestamp::zero());
    assert_eq!(b.handler_count(Event::Click), 0);
    b.on(Event::Click, recorder(&log, 1));
    let mut released = Button::new(0x02, Code::Left);
    released.on(Event::Click, recorder(&log, 1));
    assert_eq!(released.current_state(), State::Release);
}

#[test]
fn on_appends_to_the_events_own_list() {
    let log = new_log();
    let mut b = Button::new(0, Code::Left);
    b.on(Event::Click, recorder(&log, 1));
    b.on(Event::Click, recorder(&log, 2));
    b.on(Event::Release, recorder(&log, 3));
    assert_eq!(b.handler_count(Event::Click), 2);
    assert_eq!(b.handler_count(Event::DoubleClick), 0);
    assert_eq!(b.handler_count(Event::Release), 1);
}

#[test]
fn callbacks_run_in_registration_order() {
    let log = new_log();
    let mut b = Button::new(0, Code::Left);
    b.on(Event::Click, recorder(&log, 1));
    b.on(Event::Release, recorder(&log, 9));
    b.on(Event::Click, recorder(&log, 2));
    b.on(Event::Click, recorder(&log, 3));
    assert_eq!(b.trigger_events(State::Click, ms(1000)), Event::Click);
    assert_eq!(*log.borrow(), vec![1, 2, 3]);
    assert_eq!(b.trigger_events(State::Release, ms(1100)), Event::Release);
    assert_eq!(*log.borrow(), vec![1, 2, 3, 9]);
}

#[test]
fn callbacks_stay_registered() {
    let log = new_log();
    let mut b = Button::new(0, Code::Left);
    b.on(Event::Click, recorder(&log, 1));
    b.trigger_events(State::Click, ms(1000));
    b.trigger_events(State::Release, ms(1100));
    b.trigger_events(State::Click, ms(3000));
    assert_eq!(*log.borrow(), vec![1, 1]);
    assert_eq!(b.handler_count(Event::Click), 1);
}

#[test]
fn second_click_within_the_window_is_a_double_click() {
    let log = new_log();
    let mut b = Button::new(0, Code::Left);
    b.on(Event::Click, recorder(&log, 1));
    b.on(Event::DoubleClick, recorder(&log, 2));
    b.on(Event::Release, recorder(&log, 3));
    assert_eq!(b.trigger_events(State::Click, ms(1000)), Event::Click);
    assert_eq!(b.clicked_at(), ms(1000));
    assert_eq!(b.trigger_events(State::Click, ms(1400)), Event::DoubleClick);
    assert_eq!(*log.borrow(), vec![1, 2]);
    assert_eq!(b.clicked_at(), Timestamp::zero());
    assert_eq!(b.updated_at(), ms(1400));
    assert_eq!(b.current_state(), State::Click);
}

#[test]
fn release_between_two_clicks_keeps_the_double_click() {
    let log = new_log();
    let mut b = Button::new(0, Code::Left);
    b.on(Event::Click, recorder(&log, 1));
    assert_eq!(b.trigger_events(State::Click, ms(2000)), Event::Click);
    assert_eq!(b.trigger_events(State::Release, ms(2100)), Event::Release);
    assert_eq!(b.clicked_at(), ms(2000));
    assert_eq!(b.current_state(), State::Release);
    assert_eq!(b.trigger_events(State::Click, ms(2300)), Event::DoubleClick);
}

#[test]
fn window_ends_after_half_a_second() {
    let log = new_log();
    let mut b = Button::new(0, Code::Left);
    b.on(Event::Click, recorder(&log, 1));
    assert_eq!(b.trigger_events(State::Click, ms(1000)), Event::Click);
    assert_eq!(b.trigger_events(State::Click, ms(1500)), Event::DoubleClick);
    let mut c = Button::new(0, Code::Left);
    c.on(Event::Click, recorder(&log, 1));
    assert_eq!(c.trigger_events(State::Click, Timestamp::new(1, 0)), Event::Click);
    assert_eq!(c.trigger_events(State::Click, Timestamp::new(1, 500_000_001)), Event::Click);
    assert_eq!(c.clicked_at(), Timestamp::new(1, 500_000_001));
    assert!(b.is_doubleclicked(State::Click, ms(1500), ms(1000)));
    assert!(!b.is_doubleclicked(State::Release, ms(1500), ms(1000)));
    assert!(!b.is_doubleclicked(State::Click, ms(1501), ms(1000)));
}

#[test]
fn click_after_a_double_click_is_fresh() {
    let log = new_log();
    let mut b = Button::new(0, Code::Left);
    b.on(Event::Click, recorder(&log, 1));
    b.on(Event::DoubleClick, recorder(&log, 2));
    assert_eq!(b.trigger_events(State::Click, ms(1000)), Event::Click);
    assert_eq!(b.trigger_events(State::Click, ms(1300)), Event::DoubleClick);
    assert_eq!(b.trigger_events(State::Click, ms(1600)), Event::Click);
    assert_eq!(b.clicked_at(), ms(1600));
    assert_eq!(*log.borrow(), vec![1, 2, 1]);
}

#[test]
fn click_within_the_window_after_boot_counts_as_double() {
    let log = new_log();
    let mut b = Button::new(0, Code::Left);
    b.on(Event::DoubleClick, recorder(&log, 2));
    assert_eq!(b.trigger_events(State::Click, ms(200)), Event::DoubleClick);
    assert_eq!(*log.borrow(), vec![2]);
}

#[test]
fn drain_goes_by_the_status_bits() {
    assert_eq!(drain_step(0x00), DrainStep::Stop);
    assert_eq!(drain_step(0x20), DrainStep::Stop);
    assert_eq!(drain_step(0x01), DrainStep::Skip);
    assert_eq!(drain_step(0x21), DrainStep::Read);
    assert_eq!(drain_step(0xFF), DrainStep::Read);
}

fn mouse_with_log(log: &Log) -> MouseInternal<Box<dyn Fn()>> {
    let mut m = MouseInternal::new();
    m.on(Code::Left, Event::Click, recorder(log, 10));
    m.on(Code::Left, Event::DoubleClick, recorder(log, 11));
    m.on(Code::Left, Event::Release, recorder(log, 12));
    m.on(Code::Right, Event::Click, recorder(log, 20));
    m.on(Code::Right, Event::Release, recorder(log, 22));
    m.on(Code::Middle, Event::Release, recorder(log, 32));
    m
}

#[test]
fn new_mouse_is_at_the_origin() {
    let log = new_log();
    let mut m = mouse_with_log(&log);
    assert_eq!(m.coordinates(), (0, 0));
    assert_eq!(m.cycle(), 0);
    assert_eq!(m.left_button().current_state(), State::Release);
    assert_eq!(m.right_button().current_state(), State::Release);
    assert_eq!(m.middle_button().current_state(), State::Release);
    assert!(!m.has_data(0x20));
    assert!(m.has_data(0x21));
}

#[test]
fn packet_moves_the_position_and_fires_each_button() {
    let log = new_log();
    let mut m = mouse_with_log(&log);
    let fired = m.process_packet(&Packet::new(5, 7, 0x01, ms(1000)));
    assert_eq!(fired, Fired { left: Event::Click, right: Event::Release, middle: Event::Release });
    assert_eq!(m.coordinates(), (5, 7));
    assert_eq!(*log.borrow(), vec![10, 22, 32]);
    let fired = m.process_packet(&Packet::new(-2, -7, 0x03, ms(1200)));
    assert_eq!(fired, Fired { left: Event::DoubleClick, right: Event::Click, middle: Event::Release });
    assert_eq!(m.coordinates(), (3, 0));
}

#[test]
fn position_wraps() {
    let log = new_log();
    let mut m = mouse_with_log(&log);
    m.process_packet(&Packet::new(-1, -128, 0, ms(1)));
    assert_eq!(m.coordinates(), (u32::MAX, u32::MAX - 127));
    m.process_packet(&Packet::new(3, 127, 0, ms(2)));
    assert_eq!(m.coordinates(), (2, u32::MAX));
    m.process_packet(&Packet::new(0, 1, 0, ms(3)));
    assert_eq!(m.coordinates(), (2, 0));
}

#[test]
fn third_byte_completes_the_packet() {
    let log = new_log();
    let mut m = mouse_with_log(&log);
    assert_eq!(m.receive(0x01, ms(1000)), Outcome::Pending);
    assert_eq!(m.cycle(), 1);
    assert_eq!(m.receive(0x05, ms(1000)), Outcome::Pending);
    assert_eq!(m.cycle(), 2);
    assert_eq!(m.coordinates(), (0, 0));
    assert_eq!(
        m.receive(0xFB, ms(1000)),
        Outcome::Processed(Fired {
            left: Event::Click,
            right: Event::Release,
            middle: Event::Release
        })
    );
    assert_eq!(m.cycle(), 0);
    assert_eq!(m.coordinates(), (5, u32::MAX - 4));
    assert_eq!(m.left_button().current_state(), State::Click);
    assert_eq!(m.left_button().updated_at(), ms(1000));
}

#[test]
fn overflow_packet_changes_nothing() {
    let log = new_log();
    let mut m = mouse_with_log(&log);
    m.handler(&vec![0x01, 0x02, 0x03], ms(1000));
    let before = m.coordinates();
    let logged = log.borrow().len();
    assert_eq!(m.receive(0x83, ms(2000)), Outcome::Pending);
    assert_eq!(m.receive(0x10, ms(2000)), Outcome::Pending);
    assert_eq!(m.receive(0x10, ms(2000)), Outcome::Dropped);
    assert_eq!(m.cycle(), 0);
    assert_eq!(m.coordinates(), before);
    assert_eq!(log.borrow().len(), logged);
    assert_eq!(m.left_button().current_state(), State::Click);
    assert_eq!(m.left_button().updated_at(), ms(1000));
    assert_eq!(m.right_button().current_state(), State::Release);
    assert_eq!(m.right_button().updated_at(), ms(1000));
    m.handler(&vec![0x40, 0x7F, 0x7F], ms(3000));
    assert_eq!(m.cycle(), 0);
    assert_eq!(m.coordinates(), before);
    assert_eq!(m.middle_button().updated_at(), ms(1000));
}

#[test]
fn packet_split_over_interrupts_is_put_together() {
    let log = new_log();
    let mut split = mouse_with_log(&log);
    split.handler(&vec![0x01, 0x05], ms(1000));
    assert_eq!(split.cycle(), 2);
    assert_eq!(split.coordinates(), (0, 0));
    split.handler(&vec![], ms(1000));
    assert_eq!(split.cycle(), 2);
    split.handler(&vec![0xFB, 0x00], ms(1000));
    assert_eq!(split.cycle(), 1);
    assert_eq!(split.coordinates(), (5, u32::MAX - 4));
    split.handler(&vec![0x02, 0x02], ms(1000));
    assert_eq!(split.cycle(), 0);

    let other = new_log();
    let mut whole = mouse_with_log(&other);
    whole.handler(&vec![0x01, 0x05, 0xFB, 0x00, 0x02, 0x02], ms(1000));
    assert_eq!(whole.cycle(), 0);
    assert_eq!(whole.coordinates(), split.coordinates());
    assert_eq!(whole.coordinates(), (7, u32::MAX - 2));
    assert_eq!(*log.borrow(), *other.borrow());
    assert_eq!(whole.left_button().current_state(), split.left_button().current_state());
    assert_eq!(whole.left_button().clicked_at(), split.left_button().clicked_at());
}

#[test]
fn button_handed_out_takes_callbacks() {
    let log = new_log();
    let mut m = mouse_with_log(&log);
    m.middle_button().on(Event::Click, recorder(&log, 30));
    assert_eq!(m.middle_button().handler_count(Event::Click), 1);
    m.handler(&vec![0x04, 0, 0], ms(900));
    assert_eq!(*log.borrow(), vec![12, 22, 30]);
}
