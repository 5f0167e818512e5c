use vstd::prelude::*;

verus! {

/// The input backend that serves keyboard requests.
#[derive(Debug, Clone, Copy, PartialEq, Eq, Structural)]
pub enum Keyboard {
    /// Keys are sent through the X11 display connection.
    X11,
    /// Wayland sessions have no keyboard backend yet.
    Wayland,
}

/// A request for the X11 keyboard backend, which performs it on the display.
#[derive(Debug, Clone, PartialEq, Eq)]
pub enum KeyboardRequest {
    /// Look up the keymap entry (key name and whether shift is needed) of a key.
    KeymapKey(String),
    /// Press a key and keep it down.
    KeyDown(String),
    /// Release a key.
    KeyUp(String),
    /// Resolve a key to its X11 keycode and shift flag.
    Keycode(String),
    /// Type one character.
    SendChar(char),
    /// Send a named key such as `return` or `escape`.
    SendCommand(String),
    /// Press two or three keys together, then release them.
    SendMultiKey(String, String, Option<String>),
}

/// Whether `r` asks for `key`'s keymap entry.
pub open spec fn asks_keymap_key(r: KeyboardRequest, key: Seq<char>) -> bool {
    r matches KeyboardRequest::KeymapKey(k) && k@ == key
}

/// Whether `r` asks to press `key`.
pub open spec fn asks_key_down(r: KeyboardRequest, key: Seq<char>) -> bool {
    r matches KeyboardRequest::KeyDown(k) && k@ == key
}

/// Whether `r` asks to release `key`.
pub open spec fn asks_key_up(r: KeyboardRequest, key: Seq<char>) -> bool {
    r matches KeyboardRequest::KeyUp(k) && k@ == key
}

/// Whether `r` asks for `key`'s keycode.
pub open spec fn asks_keycode(r: KeyboardRequest, key: Seq<char>) -> bool {
    r matches KeyboardRequest::Keycode(k) && k@ == key
}

/// Whether `r` asks to send the command `key`.
pub open spec fn asks_command(r: KeyboardRequest, key: Seq<char>) -> bool {
    r matches KeyboardRequest::SendCommand(k) && k@ == key
}

/// Whether `r` asks to press `key_1`, `key_2` and, when given, `key_3` together.
pub open spec fn asks_multi_key(
    r: KeyboardRequest,
    key_1: Seq<char>,
    key_2: Seq<char>,
    key_3: Option<String>,
) -> bool {
    r matches KeyboardRequest::SendMultiKey(k1, k2, k3) && k1@ == key_1 && k2@ == key_2 && k3
        == key_3
}

impl Keyboard {
    /// Requests the keymap entry of `key`.
    pub fn get_keymap_key(&self, key: &str) -> (r: KeyboardRequest)
        requires
            *self == Keyboard::X11,
        ensures
            asks_keymap_key(r, key@),
    {
        KeyboardRequest::KeymapKey(key.to_owned())
    }

    /// Requests that `key` be pressed and held.
    pub fn key_down(&self, key: &str) -> (r: KeyboardRequest)
        requires
            *self == Keyboard::X11,
        ensures
            asks_key_down(r, key@),
    {
        KeyboardRequest::KeyDown(key.to_owned())
    }

    /// Requests that `key` be released.
    pub fn key_up(&self, key: &str) -> (r: KeyboardRequest)
        requires
            *self == Keyboard::X11,
        ensures
            asks_key_up(r, key@),
    {
        KeyboardRequest::KeyUp(key.to_owned())
    }

    /// Requests the keycode and shift flag of `key`: the keymap entry is
    /// looked up, converted to a keysym and then to a keycode by the backend.
    pub fn get_keycode(&self, key: &str) -> (r: KeyboardRequest)
        requires
            *self == Keyboard::X11,
        ensures
            asks_keycode(r, key@),
    {
        KeyboardRequest::Keycode(key.to_owned())
    }

    /// Requests that the character `key` be typed.
    pub fn send_char(&self, key: &char) -> (r: KeyboardRequest)
        requires
            *self == Keyboard::X11,
        ensures
            r == KeyboardRequest::SendChar(*key),
    {
        KeyboardRequest::SendChar(*key)
    }

    /// Requests that a named key such as `return` or `escape` be sent.
    pub fn send_command(&self, key: &str) -> (r: KeyboardRequest)
        requires
            *self == Keyboard::X11,
        ensures
            asks_command(r, key@),
    {
        KeyboardRequest::SendCommand(key.to_owned())
    }

    /// Requests that two or three keys be pressed together.
    pub fn send_multi_key(&self, key_1: &str, key_2: &str, key_3: Option<String>) -> (r:
        KeyboardRequest)
        requires
            *self == Keyboard::X11,
        ensures
            asks_multi_key(r, key_1@, key_2@, key_3),
    {
        KeyboardRequest::SendMultiKey(key_1.to_owned(), key_2.to_owned(), key_3)
    }
}

} // verus!
