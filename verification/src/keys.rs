//! Decoding of what the user did into editor inputs.
//!
//! A front end waits for raw events; this module decides what each one
//! means. The bindings are: control with `c`, `o`, `s`, `n` or `x` for
//! leaving, opening, saving, starting a new file and hiding the message;
//! backspace and enter for themselves; any other character is typed. A wait
//! that ends without a key press is no input at all.

use crate::input::Input;
use vstd::prelude::*;

verus! {

/// The key that was pressed, as far as the editor tells keys apart.
#[derive(Debug, Clone, Copy, PartialEq, Eq, Structural)]
pub enum Key {
    /// The backspace key.
    Backspace,
    /// The enter key.
    Enter,
    /// A key that stands for a character.
    Char(char),
    /// Any key the editor has no use for.
    Other,
}

/// The modifier keys held down during a key press.
#[derive(Debug, Clone, Copy, PartialEq, Eq, Structural)]
pub struct Modifiers {
    pub shift: bool,
    pub control: bool,
    pub alt: bool,
    pub super_key: bool,
    pub hyper: bool,
    pub meta: bool,
}

/// One key press: the key and the modifiers held with it.
#[derive(Debug, Clone, Copy, PartialEq, Eq, Structural)]
pub struct KeyPress {
    pub key: Key,
    pub modifiers: Modifiers,
}

/// What a front end saw when it waited for the user.
#[derive(Debug, Clone, Copy, PartialEq, Eq, Structural)]
pub enum Event {
    /// A key was pressed.
    Key(KeyPress),
    /// Something happened that is no key press: the window was resized,
    /// the mouse was moved.
    Other,
}

/// The failure of a front end to make an input of a keyboard event.
#[derive(Debug, Clone, Copy, PartialEq, Eq, Structural)]
pub struct UnrecognizedInput;

impl Modifiers {
    /// Control is held and no other modifier is.
    pub open spec fn only_control(self) -> bool {
        self.control && !self.shift && !self.alt && !self.super_key && !self.hyper && !self.meta
    }

    /// Tells whether control is held and no other modifier is.
    pub fn is_only_control(&self) -> (only: bool)
        ensures
            only == self.only_control(),
    {
        self.control && !self.shift && !self.alt && !self.super_key && !self.hyper && !self.meta
    }
}

/// The command that a character stands for when typed with control alone.
pub open spec fn command(c: char) -> Option<Input> {
    if c == 'c' {
        Some(Input::Cancel)
    } else if c == 'o' {
        Some(Input::Open)
    } else if c == 's' {
        Some(Input::Save)
    } else if c == 'n' {
        Some(Input::New)
    } else if c == 'x' {
        Some(Input::ClearMessage)
    } else {
        None
    }
}

/// The input that a key press means, if it means any.
pub open spec fn decode(event: KeyPress) -> Option<Input> {
    match event.key {
        Key::Char(c) => if event.modifiers.only_control() && command(c) is Some {
            command(c)
        } else {
            Some(Input::NormalChar(c))
        },
        Key::Backspace => Some(Input::Backspace),
        Key::Enter => Some(Input::Enter),
        Key::Other => None,
    }
}

/// The input that a wait amounts to: what the key means where a key was
/// pressed, nothing where the wait ran out or ended on something else.
pub open spec fn decode_wait(event: Option<Event>) -> Option<Input> {
    match event {
        Some(Event::Key(press)) => decode(press),
        Some(Event::Other) => Some(Input::Idle),
        None => Some(Input::Idle),
    }
}

impl UnrecognizedInput {
    /// The text shown for this failure.
    pub fn message(&self) -> (text: String)
        ensures
            text@ == "unrecognised key event"@,
    {
        "unrecognised key event".to_owned()
    }
}

/// Decodes one key press. Fails exactly on the keys that mean nothing to the
/// editor.
pub fn get_char(event: KeyPress) -> (result: Result<Input, UnrecognizedInput>)
    ensures
        result == match decode(event) {
            Some(input) => Ok::<Input, UnrecognizedInput>(input),
            None => Err(UnrecognizedInput),
        },
{
    match event.key {
        Key::Char(c) => {
            if event.modifiers.is_only_control() {
                if c == 'c' {
                    Ok(Input::Cancel)
                } else if c == 'o' {
                    Ok(Input::Open)
                } else if c == 's' {
                    Ok(Input::Save)
                } else if c == 'n' {
                    Ok(Input::New)
                } else if c == 'x' {
                    Ok(Input::ClearMessage)
                } else {
                    Ok(Input::NormalChar(c))
                }
            } else {
                Ok(Input::NormalChar(c))
            }
        },
        Key::Backspace => Ok(Input::Backspace),
        Key::Enter => Ok(Input::Enter),
        Key::Other => Err(UnrecognizedInput),
    }
}

/// Read backwards, the bindings are these: each command has one key, which
/// is its letter with control alone; backspace and enter have their keys,
/// whatever is held with them; a character is typed by its key, unless that
/// is the key of a command; no key moves the cursor or stands for nothing
/// having happened; and the keys without a meaning are the ones the editor
/// has no use for.
pub proof fn lemma_each_input_has_its_keys(event: KeyPress)
    ensures
        decode(event) == Some(Input::Cancel) <==> event.key == Key::Char('c')
            && event.modifiers.only_control(),
        decode(event) == Some(Input::Open) <==> event.key == Key::Char('o')
            && event.modifiers.only_control(),
        decode(event) == Some(Input::Save) <==> event.key == Key::Char('s')
            && event.modifiers.only_control(),
        decode(event) == Some(Input::New) <==> event.key == Key::Char('n')
            && event.modifiers.only_control(),
        decode(event) == Some(Input::ClearMessage) <==> event.key == Key::Char('x')
            && event.modifiers.only_control(),
        decode(event) == Some(Input::Backspace) <==> event.key == Key::Backspace,
        decode(event) == Some(Input::Enter) <==> event.key == Key::Enter,
        match decode(event) {
            Some(Input::NormalChar(c)) => event.key == Key::Char(c),
            _ => true,
        },
        match event.key {
            Key::Char(c) => decode(event) == Some(Input::NormalChar(c)) <==> !(
            event.modifiers.only_control() && (c == 'c' || c == 'o' || c == 's' || c == 'n' || c
                == 'x')),
            _ => true,
        },
        decode(event) != Some(Input::Idle),
        decode(event) != Some(Input::MoveLeft),
        decode(event) != Some(Input::MoveRight),
        decode(event) is None <==> event.key == Key::Other,
{
}

/// Makes an input of what a wait for the user ended on; `None` stands for a
/// wait that ran out. Fails exactly on the key presses that `get_char`
/// fails on.
pub fn get_input(event: Option<Event>) -> (result: Result<Input, UnrecognizedInput>)
    ensures
        result == match decode_wait(event) {
            Some(input) => Ok::<Input, UnrecognizedInput>(input),
            None => Err(UnrecognizedInput),
        },
{
    match event {
        Some(Event::Key(press)) => get_char(press),
        Some(Event::Other) => Ok(Input::Idle),
        None => Ok(Input::Idle),
    }
}

} // verus!
