//! The keyboard path: scancodes go through the `pc_keyboard` decoder, and
//! what comes out is turned into what the kernel prints.

use vstd::prelude::*;

verus! {

/// The keyboard with its decoder, a `pc_keyboard::Keyboard` for the US
/// 104-key layout and scancode set 1. The decoder keeps the state of a
/// scancode sequence and of the modifier keys; nothing inside it is visible
/// here.
#[verifier::external_body]
pub struct KeyboardInternal {
    decoder: pc_keyboard::Keyboard<pc_keyboard::layouts::Us104Key, pc_keyboard::ScancodeSet1>,
}

/// A key going down or up, as `pc_keyboard` reports it.
#[verifier::external_type_specification]
#[verifier::external_body]
pub struct ExKeyEvent(pc_keyboard::KeyEvent);

/// The decoder's error.
#[verifier::external_type_specification]
#[verifier::external_body]
pub struct ExError(pc_keyboard::Error);

/// The code of a key, as `pc_keyboard` names it.
#[verifier::external_type_specification]
#[verifier::external_body]
pub struct ExKeyCode(pc_keyboard::KeyCode);

/// A decoded key: a character, or a key without one.
pub enum Key {
    RawKey(pc_keyboard::KeyCode),
    Unicode(char),
}

/// What the keyboard interrupt prints for a key.
#[derive(Debug, PartialEq, Eq)]
pub enum KeyOutput {
    /// The character itself.
    Character(char),
    /// The key's name.
    Name(String),
}

/// `pc_keyboard::Keyboard::add_byte`: hands one scancode byte to the
/// decoder. What comes back depends on the bytes before it, which the
/// decoder keeps to itself: nothing is claimed of the result.
#[verifier::external_body]
pub(crate) fn add_byte(kb: &mut KeyboardInternal, byte: u8) -> (added: Result<
    Option<pc_keyboard::KeyEvent>,
    pc_keyboard::Error,
>) {
    kb.decoder.add_byte(byte)
}

/// `pc_keyboard::Keyboard::process_keyevent`: applies a key event to the
/// modifier state and decodes it with the layout. What comes back depends
/// on the modifiers held, which the decoder keeps to itself: nothing is
/// claimed of the result.
#[verifier::external_body]
pub(crate) fn process_keyevent(kb: &mut KeyboardInternal, ev: pc_keyboard::KeyEvent) -> (key:
    Option<Key>) {
    match kb.decoder.process_keyevent(ev) {
        Some(pc_keyboard::DecodedKey::RawKey(code)) => Some(Key::RawKey(code)),
        Some(pc_keyboard::DecodedKey::Unicode(character)) => Some(Key::Unicode(character)),
        None => None,
    }
}

/// The `Debug` form of a `pc_keyboard::KeyCode`: the key's name. Nothing is
/// claimed of the text.
#[verifier::external_body]
pub(crate) fn key_name(code: &pc_keyboard::KeyCode) -> (name: String) {
    format!("{:?}", code)
}

/// The key event in what the decoder answered to a byte, if it holds one: a
/// byte in the middle of a sequence gives none, an error gives none.
pub fn key_event(added: Result<Option<pc_keyboard::KeyEvent>, pc_keyboard::Error>) -> (ev: Option<
    pc_keyboard::KeyEvent,
>)
    ensures
        ev == (match added {
            Ok(Some(e)) => Some(e),
            _ => None,
        }),
{
    match added {
        Ok(Some(e)) => Some(e),
        _ => None,
    }
}

/// What is printed for a decoded key: the character of a key that has one,
/// else the key's name.
pub fn output(key: Key) -> (out: KeyOutput)
    ensures
        match key {
            Key::Unicode(c) => out == KeyOutput::Character(c),
            Key::RawKey(_) => out is Name,
        },
{
    match key {
        Key::Unicode(character) => KeyOutput::Character(character),
        Key::RawKey(code) => KeyOutput::Name(key_name(&code)),
    }
}

/// `pc_keyboard::Keyboard::new`: a decoder at the start of a sequence, with
/// no modifier held. Nothing is claimed of it.
#[verifier::external_body]
pub(crate) fn new_decoder() -> (kb: KeyboardInternal) {
    KeyboardInternal {
        decoder: pc_keyboard::Keyboard::new(
            pc_keyboard::layouts::Us104Key,
            pc_keyboard::ScancodeSet1,
        ),
    }
}

impl KeyboardInternal {
    pub fn new() -> (k: KeyboardInternal) {
        new_decoder()
    }

    /// One keyboard interrupt: takes the scancode that was read from the
    /// data port and returns what to print, if the byte completed a key that
    /// prints.
    pub fn handler(&mut self, scancode: u8) -> (out: Option<KeyOutput>) {
        match key_event(add_byte(self, scancode)) {
            Some(ev) => match process_keyevent(self, ev) {
                Some(key) => Some(output(key)),
                None => None,
            },
            None => None,
        }
    }
}

} // verus!
