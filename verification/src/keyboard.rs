//! Recognition of the global capture hotkey (Alt+Shift+S) and of Escape in the stream of key
//! presses and releases.
use vstd::prelude::*;

verus! {

/// What the keyboard listener reports to the application.
#[derive(Debug, Clone, Copy, PartialEq, Eq, Structural)]
pub enum GlobalKeyboardEvent {
    CaptureHotkeyPressed,
    EscapePressed,
}

/// The listener for global keyboard shortcuts.
#[derive(Debug, Clone, Copy)]
pub struct GlobalKeyboardListener;

impl GlobalKeyboardListener {
    /// A new listener.
    pub fn initialize() -> (listener: Self) {
        Self
    }
}

/// The keys that the hotkey recognizer distinguishes; every other key is `Other`.
#[derive(Debug, Clone, Copy, PartialEq, Eq, Structural)]
pub enum Key {
    Alt,
    ShiftLeft,
    ShiftRight,
    KeyS,
    Escape,
    Other,
}

/// A raw keyboard event.
#[derive(Debug, Clone, Copy, PartialEq, Eq, Structural)]
pub enum KeyEventKind {
    KeyPress(Key),
    KeyRelease(Key),
    Other,
}

/// Which modifiers are currently held.
#[derive(Debug, Clone, Copy, PartialEq, Eq, Structural)]
pub struct KeyboardState {
    pub is_alt_pressed: bool,
    pub is_shift_pressed: bool,
}

/// The modifier state after pressing `key`.
pub open spec fn state_after_press(s: KeyboardState, key: Key) -> KeyboardState {
    match key {
        Key::Alt => KeyboardState { is_alt_pressed: true, ..s },
        Key::ShiftLeft | Key::ShiftRight => KeyboardState { is_shift_pressed: true, ..s },
        _ => s,
    }
}

/// The event reported when `key` is pressed in state `s`.
pub open spec fn event_on_press(s: KeyboardState, key: Key) -> Option<GlobalKeyboardEvent> {
    match key {
        Key::KeyS => if s.is_alt_pressed && s.is_shift_pressed {
            Some(GlobalKeyboardEvent::CaptureHotkeyPressed)
        } else {
            None
        },
        Key::Escape => Some(GlobalKeyboardEvent::EscapePressed),
        _ => None,
    }
}

/// The modifier state after releasing `key`.
pub open spec fn state_after_release(s: KeyboardState, key: Key) -> KeyboardState {
    match key {
        Key::Alt => KeyboardState { is_alt_pressed: false, ..s },
        Key::ShiftLeft | Key::ShiftRight => KeyboardState { is_shift_pressed: false, ..s },
        _ => s,
    }
}

/// The modifier state after an event.
pub open spec fn state_after_event(s: KeyboardState, e: KeyEventKind) -> KeyboardState {
    match e {
        KeyEventKind::KeyPress(k) => state_after_press(s, k),
        KeyEventKind::KeyRelease(k) => state_after_release(s, k),
        KeyEventKind::Other => s,
    }
}

/// The report for an event.
pub open spec fn event_for(s: KeyboardState, e: KeyEventKind) -> Option<GlobalKeyboardEvent> {
    match e {
        KeyEventKind::KeyPress(k) => event_on_press(s, k),
        _ => None,
    }
}

impl Default for KeyboardState {
    /// No modifier held.
    fn default() -> (s: Self)
        ensures
            !s.is_alt_pressed,
            !s.is_shift_pressed,
    {
        Self { is_alt_pressed: false, is_shift_pressed: false }
    }
}

impl KeyboardState {
    /// Updates the modifiers for an event and reports the hotkey or Escape when they occur.
    pub fn process_event(&mut self, event: KeyEventKind) -> (report: Option<GlobalKeyboardEvent>)
        ensures
            *final(self) == state_after_event(*old(self), event),
            report == event_for(*old(self), event),
    {
        match event {
            KeyEventKind::KeyPress(key) => self.handle_key_press(key),
            KeyEventKind::KeyRelease(key) => self.handle_key_release(key),
            KeyEventKind::Other => None,
        }
    }

    /// Records a pressed modifier; reports the hotkey when S is pressed while Alt and Shift are
    /// held, and Escape whenever it is pressed.
    pub fn handle_key_press(&mut self, key: Key) -> (report: Option<GlobalKeyboardEvent>)
        ensures
            *final(self) == state_after_press(*old(self), key),
            report == event_on_press(*old(self), key),
            key == Key::Alt ==> final(self).is_alt_pressed && final(self).is_shift_pressed
                == old(self).is_shift_pressed && report is None,
            (key == Key::ShiftLeft || key == Key::ShiftRight) ==> final(self).is_shift_pressed
                && final(self).is_alt_pressed == old(self).is_alt_pressed && report is None,
            key == Key::KeyS ==> *final(self) == *old(self) && (report == Some(
                GlobalKeyboardEvent::CaptureHotkeyPressed,
            ) <==> (old(self).is_alt_pressed && old(self).is_shift_pressed)) && (report is None
                || report == Some(GlobalKeyboardEvent::CaptureHotkeyPressed)),
            key == Key::Escape ==> *final(self) == *old(self) && report == Some(
                GlobalKeyboardEvent::EscapePressed,
            ),
    {
        match key {
            Key::Alt => {
                self.is_alt_pressed = true;
                None
            },
            Key::ShiftLeft | Key::ShiftRight => {
                self.is_shift_pressed = true;
                None
            },
            Key::KeyS => {
                if self.is_alt_pressed && self.is_shift_pressed {
                    Some(GlobalKeyboardEvent::CaptureHotkeyPressed)
                } else {
                    None
                }
            },
            Key::Escape => Some(GlobalKeyboardEvent::EscapePressed),
            Key::Other => None,
        }
    }

    /// Records a released modifier; a release never reports anything.
    pub fn handle_key_release(&mut self, key: Key) -> (report: Option<GlobalKeyboardEvent>)
        ensures
            *final(self) == state_after_release(*old(self), key),
            report is None,
    {
        match key {
            Key::Alt => {
                self.is_alt_pressed = false;
            },
            Key::ShiftLeft | Key::ShiftRight => {
                self.is_shift_pressed = false;
            },
            _ => {},
        }
        None
    }
}

/// The hotkey is reported exactly when S is pressed while both Alt and a Shift key are held:
/// from any state, pressing Alt, then Shift, then S reports it, and after Alt or Shift has been
/// released again S reports nothing.
pub proof fn law_hotkey_needs_both_modifiers(s: KeyboardState, shift: Key, released: Key)
    requires
        shift == Key::ShiftLeft || shift == Key::ShiftRight,
        released == Key::Alt || released == Key::ShiftLeft || released == Key::ShiftRight,
    ensures
        event_on_press(state_after_press(state_after_press(s, Key::Alt), shift), Key::KeyS)
            == Some(GlobalKeyboardEvent::CaptureHotkeyPressed),
        event_on_press(
            state_after_release(state_after_press(state_after_press(s, Key::Alt), shift), released),
            Key::KeyS,
        ) is None,
{
}

/// Pressing one modifier leaves the other one as it was, so the hotkey does not depend on the
/// order of the modifiers: from any state, Shift then Alt then S reports it just as Alt then
/// Shift then S does.
pub proof fn law_modifiers_are_independent(s: KeyboardState, shift: Key)
    requires
        shift == Key::ShiftLeft || shift == Key::ShiftRight,
    ensures
        state_after_press(s, Key::Alt).is_alt_pressed,
        state_after_press(s, Key::Alt).is_shift_pressed == s.is_shift_pressed,
        state_after_press(s, shift).is_shift_pressed,
        state_after_press(s, shift).is_alt_pressed == s.is_alt_pressed,
        event_on_press(state_after_press(state_after_press(s, shift), Key::Alt), Key::KeyS)
            == Some(GlobalKeyboardEvent::CaptureHotkeyPressed),
        event_on_press(state_after_press(state_after_press(s, Key::Alt), shift), Key::KeyS)
            == Some(GlobalKeyboardEvent::CaptureHotkeyPressed),
{
}

} // verus!
