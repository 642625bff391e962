//! Hotkey recognition.
//!
//! In raw terminal mode every keystroke arrives as an event, and the
//! terminal no longer turns Ctrl+C into an interrupt signal.  The watcher
//! therefore recognizes two keys itself: the configured restart hotkey
//! pressed with no modifiers, and Ctrl+C, which must be converted into a
//! self-delivered interrupt signal.  Reading the terminal and delivering
//! the signal is the runtime's work; the decision is made here.

use vstd::prelude::*;

verus! {

/// Marker event: the configured hotkey was pressed with no modifiers.
#[derive(Debug, Clone, Copy, PartialEq, Eq, Structural)]
pub struct HotkeyPressed;

/// Modifier state of a key event, collapsed to what the watcher
/// distinguishes: no modifiers at all, exactly Control, or anything else.
#[derive(Debug, Clone, Copy, PartialEq, Eq, Structural)]
pub enum KeyModifiers {
    Plain,
    Control,
    Other,
}

/// What the watcher does with one character key.
#[derive(Debug, Clone, Copy, PartialEq, Eq, Structural)]
pub enum KeyAction {
    /// The configured hotkey, unmodified: emit one restart trigger.
    Emit,
    /// Ctrl+C in raw mode: deliver the interrupt signal to the
    /// supervisor's own process and stop watching.
    Interrupt,
    /// Any other key: nothing.
    Ignore,
}

/// How one character key is handled, given the configured hotkey.
pub open spec fn spec_classify_key(c: char, mods: KeyModifiers, hotkey: char) -> KeyAction {
    if mods == KeyModifiers::Plain && c == hotkey {
        KeyAction::Emit
    } else if mods == KeyModifiers::Control && c == 'c' {
        KeyAction::Interrupt
    } else {
        KeyAction::Ignore
    }
}

/// Classify one character key read from the terminal.
pub fn classify_key(c: char, mods: KeyModifiers, hotkey: char) -> (r: KeyAction)
    ensures
        r == spec_classify_key(c, mods, hotkey),
{
    if mods == KeyModifiers::Plain && c == hotkey {
        KeyAction::Emit
    } else if mods == KeyModifiers::Control && c == 'c' {
        KeyAction::Interrupt
    } else {
        KeyAction::Ignore
    }
}

} // verus!
