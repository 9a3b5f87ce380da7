//! Keys and modifiers as a terminal reports them.
//!
//! The types mirror the key events of `crossterm`, variant for variant and
//! bit for bit, so that a host converts without loss.

use vstd::prelude::*;

verus! {

/// A media key.
#[derive(Debug, PartialOrd, PartialEq, Eq, Clone, Copy, Hash, Structural)]
pub enum MediaKeyCode {
    Play,
    Pause,
    PlayPause,
    Reverse,
    Stop,
    FastForward,
    Rewind,
    TrackNext,
    TrackPrevious,
    Record,
    LowerVolume,
    RaiseVolume,
    MuteVolume,
}

/// A modifier key pressed on its own.
#[derive(Debug, PartialOrd, PartialEq, Eq, Clone, Copy, Hash, Structural)]
pub enum ModifierKeyCode {
    LeftShift,
    LeftControl,
    LeftAlt,
    LeftSuper,
    LeftHyper,
    LeftMeta,
    RightShift,
    RightControl,
    RightAlt,
    RightSuper,
    RightHyper,
    RightMeta,
    IsoLevel3Shift,
    IsoLevel5Shift,
}

/// A key.
#[derive(Debug, PartialOrd, PartialEq, Eq, Clone, Copy, Hash, Structural)]
pub enum KeyCode {
    Backspace,
    Enter,
    Left,
    Right,
    Up,
    Down,
    Home,
    End,
    PageUp,
    PageDown,
    Tab,
    BackTab,
    Delete,
    Insert,
    /// A function key, by its number.
    F(u8),
    /// A character key.
    Char(char),
    Null,
    Esc,
    CapsLock,
    ScrollLock,
    NumLock,
    PrintScreen,
    Pause,
    Menu,
    KeypadBegin,
    Media(MediaKeyCode),
    Modifier(ModifierKeyCode),
}

/// Bit of the shift key in [`KeyModifiers`].
pub const SHIFT: u8 = 0b0000_0001;

/// Bit of the control key in [`KeyModifiers`].
pub const CONTROL: u8 = 0b0000_0010;

/// Bit of the alt key in [`KeyModifiers`].
pub const ALT: u8 = 0b0000_0100;

/// Bit of the super key in [`KeyModifiers`].
pub const SUPER: u8 = 0b0000_1000;

/// Bit of the hyper key in [`KeyModifiers`].
pub const HYPER: u8 = 0b0001_0000;

/// Bit of the meta key in [`KeyModifiers`].
pub const META: u8 = 0b0010_0000;

/// No modifier bit.
pub const NONE: u8 = 0b0000_0000;

/// The modifiers held with a key, one bit each.
#[derive(Debug, PartialOrd, PartialEq, Eq, Clone, Copy, Hash, Structural)]
pub struct KeyModifiers {
    pub bits: u8,
}

impl KeyModifiers {
    /// No modifier.
    pub fn empty() -> (r: Self)
        ensures
            r == (KeyModifiers { bits: NONE }),
    {
        KeyModifiers { bits: NONE }
    }

    /// Whether every modifier of `other` is among these.
    pub open spec fn spec_contains(self, other: KeyModifiers) -> bool {
        self.bits & other.bits == other.bits
    }

    /// Whether every modifier of `other` is among these.
    #[verifier::when_used_as_spec(spec_contains)]
    pub fn contains(self, other: KeyModifiers) -> (r: bool)
        ensures
            r == self.spec_contains(other),
    {
        self.bits & other.bits == other.bits
    }

    /// These modifiers and those of `other`.
    pub open spec fn spec_union(self, other: KeyModifiers) -> KeyModifiers {
        KeyModifiers { bits: self.bits | other.bits }
    }

    /// These modifiers and those of `other`.
    #[verifier::when_used_as_spec(spec_union)]
    pub fn union(self, other: KeyModifiers) -> (r: KeyModifiers)
        ensures
            r == self.spec_union(other),
    {
        KeyModifiers { bits: self.bits | other.bits }
    }
}

/// The upper-case form of an ASCII letter; any other character as it is.
pub open spec fn ascii_uppercase(c: char) -> char {
    if 'a' <= c <= 'z' {
        ((c as u8) - 32) as char
    } else {
        c
    }
}

/// The upper-case form of an ASCII letter; any other character as it is.
pub fn to_ascii_uppercase(c: char) -> (r: char)
    ensures
        r == ascii_uppercase(c),
{
    if 'a' <= c && c <= 'z' {
        (((c as u8) - 32) as char)
    } else {
        c
    }
}

} // verus!
