//! Platform-neutral key presses and text input.
use vstd::prelude::*;

verus! {

/// A key, independent of any platform.
#[derive(Debug, Clone, Copy, PartialEq, Eq, Structural)]
pub enum KeyCode {
    /// A character key.  Capital letters arrive as their capital character.
    Char(char),
    /// The Escape key.
    Esc,
    /// The Enter key.
    Enter,
    /// The Backspace key.
    Backspace,
}

/// The modifier keys held during a key press, as a set of bits.
#[derive(Debug, Clone, Copy, PartialEq, Eq, Structural)]
pub struct Modifiers {
    bits: u8,
}

/// The bit of the Shift key.
pub const SHIFT_BIT: u8 = 1;

/// The bit of the Ctrl key.
pub const CTRL_BIT: u8 = 2;

/// The bit of the Alt key.
pub const ALT_BIT: u8 = 4;

/// The bit of the Meta key.
pub const META_BIT: u8 = 8;

/// All four modifier bits.
pub const ALL_BITS: u8 = 15;

impl Modifiers {
    /// The bits of the set.
    pub closed spec fn spec_bits(self) -> u8 {
        self.bits
    }

    /// The empty set.
    pub closed spec fn empty_spec() -> Modifiers {
        Modifiers { bits: 0 }
    }

    /// No modifier held.
    pub fn empty() -> (r: Modifiers)
        ensures
            r == Modifiers::empty_spec(),
    {
        Modifiers { bits: 0 }
    }

    /// Shift alone.
    pub fn shift() -> (r: Modifiers)
        ensures
            r.spec_bits() == SHIFT_BIT,
    {
        Modifiers { bits: SHIFT_BIT }
    }

    /// Ctrl alone.
    pub fn ctrl() -> (r: Modifiers)
        ensures
            r.spec_bits() == CTRL_BIT,
    {
        Modifiers { bits: CTRL_BIT }
    }

    /// Alt alone.
    pub fn alt() -> (r: Modifiers)
        ensures
            r.spec_bits() == ALT_BIT,
    {
        Modifiers { bits: ALT_BIT }
    }

    /// Meta alone.
    pub fn meta() -> (r: Modifiers)
        ensures
            r.spec_bits() == META_BIT,
    {
        Modifiers { bits: META_BIT }
    }

    /// The set whose bits are `bits`, unknown bits dropped.
    pub fn from_bits_truncate(bits: u8) -> (r: Modifiers)
        ensures
            r.spec_bits() == bits & ALL_BITS,
    {
        Modifiers { bits: bits & ALL_BITS }
    }

    /// The bits of the set.
    pub fn bits(&self) -> (r: u8)
        ensures
            r == self.spec_bits(),
    {
        self.bits
    }

    /// Whether no modifier is held.
    pub fn is_empty(&self) -> (r: bool)
        ensures
            r == (self.spec_bits() == 0),
    {
        self.bits == 0
    }

    /// Whether every modifier of `other` is held in `self`.
    pub fn contains(&self, other: Modifiers) -> (r: bool)
        ensures
            r == (self.spec_bits() & other.spec_bits() == other.spec_bits()),
    {
        (self.bits & other.bits) == other.bits
    }

    /// The modifiers held in either set.
    pub fn union(&self, other: Modifiers) -> (r: Modifiers)
        ensures
            r.spec_bits() == self.spec_bits() | other.spec_bits(),
    {
        Modifiers { bits: self.bits | other.bits }
    }
}

impl Default for Modifiers {
    fn default() -> (r: Modifiers)
        ensures
            r.spec_bits() == 0,
    {
        Modifiers { bits: 0 }
    }
}

/// A key press with the modifiers held.
#[derive(Debug, Clone, Copy, PartialEq, Eq, Structural)]
pub struct KeyEvent {
    /// The key pressed.
    pub code: KeyCode,
    /// The modifiers held.
    pub mods: Modifiers,
}

/// An input event: a command key, or text that the host received.
#[derive(Debug, Clone, PartialEq, Eq, Structural)]
pub enum InputEvent {
    /// A key press, used for commands and navigation.
    Key(KeyEvent),
    /// A character of text input (after any input-method composition).
    ReceivedChar(char),
}

} // verus!
