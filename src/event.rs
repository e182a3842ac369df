use vstd::prelude::*;

verus! {

/// Event type of key events in the Linux input protocol (`EV_KEY`).
pub const EV_KEY: u16 = 1;

/// Key code of the escape key in the Linux input protocol (`KEY_ESC`).
pub const KEY_ESC: u16 = 1;

/// One raw input event as the kernel reports it: type, code and value.
/// A key event with value 0 is a release; any other value is a press or a repeat.
#[derive(Clone, Copy, Debug, PartialEq, Eq, Structural)]
pub struct InputEvent {
    pub event_type: u16,
    pub code: u16,
    pub value: i32,
}

impl InputEvent {
    /// Whether this is a key event.
    pub open spec fn is_key_spec(self) -> bool {
        self.event_type == EV_KEY
    }

    /// Whether this is the release of a key.
    pub open spec fn is_release_spec(self) -> bool {
        self.is_key_spec() && self.value == 0
    }

    /// Whether this is the release of the escape key.
    pub open spec fn is_escape_release_spec(self) -> bool {
        self.is_release_spec() && self.code == KEY_ESC
    }

    pub fn new(event_type: u16, code: u16, value: i32) -> (r: InputEvent)
        ensures
            r.event_type == event_type,
            r.code == code,
            r.value == value,
    {
        InputEvent { event_type, code, value }
    }

    /// A key event with the given key code and value.
    pub fn key(code: u16, value: i32) -> (r: InputEvent)
        ensures
            r.is_key_spec(),
            r.code == code,
            r.value == value,
    {
        InputEvent { event_type: EV_KEY, code, value }
    }

    pub fn is_key(&self) -> (r: bool)
        ensures
            r == self.is_key_spec(),
    {
        self.event_type == EV_KEY
    }

    pub fn is_release(&self) -> (r: bool)
        ensures
            r == self.is_release_spec(),
    {
        self.is_key() && self.value == 0
    }

    pub fn is_escape_release(&self) -> (r: bool)
        ensures
            r == self.is_escape_release_spec(),
    {
        self.is_release() && self.code == KEY_ESC
    }
}

} // verus!
