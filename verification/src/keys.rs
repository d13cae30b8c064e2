//! Key chords: one key press together with the modifiers held.

use vstd::prelude::*;
use crossterm::event::KeyModifiers;

verus! {

/// Modifier bit for the shift key.
pub const SHIFT: u8 = 0x01;

/// Modifier bit for the control key.
pub const CONTROL: u8 = 0x02;

/// Modifier bit for the alt key.
pub const ALT: u8 = 0x04;

/// All bits that name a modifier; the others carry no meaning.
pub const KNOWN_MODIFIERS: u8 = 0x3f;

/// The key of a chord.
#[derive(Debug, Clone, Copy, PartialEq, Eq, Hash, Structural)]
pub enum KeyCode {
    Backspace,
    Enter,
    Left,
    Right,
    Up,
    Down,
    Home,
    End,
    PageUp,
    PageDown,
    Tab,
    BackTab,
    Delete,
    Insert,
    F(u8),
    Char(char),
    Null,
    Esc,
    CapsLock,
    ScrollLock,
    NumLock,
    PrintScreen,
    Pause,
    Menu,
    KeypadBegin,
    Media(u8),
    Modifier(u8),
}

/// One key press with the modifier bits held while it was pressed.
#[derive(Debug, Clone, Copy, PartialEq, Eq, Hash, Structural)]
pub struct KeyChord {
    pub code: KeyCode,
    pub modifiers: u8,
}

/// Whether every known modifier named in `flags` is set in `bits`.
pub open spec fn modifiers_hold(bits: u8, flags: u8) -> bool {
    bits & flags & KNOWN_MODIFIERS == flags & KNOWN_MODIFIERS
}

/// Calls `crossterm::event::KeyModifiers::contains` on the two bit sets.
///
/// Trusted: both arguments are read with `from_bits_truncate`, which
/// drops the bits outside the six modifiers crossterm defines, and
/// `contains` answers whether every remaining bit of `flags` is also set
/// in `bits`.
#[verifier::external_body]
fn modifiers_contain(bits: u8, flags: u8) -> (held: bool)
    ensures
        held == modifiers_hold(bits, flags),
{
    KeyModifiers::from_bits_truncate(bits).contains(KeyModifiers::from_bits_truncate(flags))
}

impl KeyChord {
    /// A chord without modifiers.
    pub fn plain(code: KeyCode) -> (chord: KeyChord)
        ensures
            chord == (KeyChord { code, modifiers: 0 }),
    {
        KeyChord { code, modifiers: 0 }
    }

    /// A chord with the given modifier bits.
    pub fn new(code: KeyCode, modifiers: u8) -> (chord: KeyChord)
        ensures
            chord == (KeyChord { code, modifiers }),
    {
        KeyChord { code, modifiers }
    }

    /// Whether shift is part of the chord.
    pub open spec fn shift_held(self) -> bool {
        self.modifiers & SHIFT == SHIFT
    }

    /// Whether control is part of the chord.
    pub open spec fn control_held(self) -> bool {
        self.modifiers & CONTROL == CONTROL
    }

    /// Tests the shift bit.
    pub fn has_shift(&self) -> (held: bool)
        ensures
            held == self.shift_held(),
    {
        let bits: u8 = self.modifiers;
        assert((bits & 0x01 & 0x3f == 0x01u8 & 0x3f) == (bits & 0x01 == 0x01)) by (bit_vector);
        modifiers_contain(bits, SHIFT)
    }

    /// Tests the control bit.
    pub fn has_control(&self) -> (held: bool)
        ensures
            held == self.control_held(),
    {
        let bits: u8 = self.modifiers;
        assert((bits & 0x02 & 0x3f == 0x02u8 & 0x3f) == (bits & 0x02 == 0x02)) by (bit_vector);
        modifiers_contain(bits, CONTROL)
    }
}

/// Compares two chord sequences element by element.
pub fn same_chords(a: &Vec<KeyChord>, b: &Vec<KeyChord>) -> (same: bool)
    ensures
        same == (a@ == b@),
{
    if a.len() != b.len() {
        return false;
    }
    let mut i: usize = 0;
    while i < a.len()
        invariant
            a.len() == b.len(),
            i <= a.len(),
            forall|j: int| 0 <= j < i ==> a@[j] == b@[j],
        decreases a.len() - i,
    {
        if a[i] != b[i] {
            return false;
        }
        i += 1;
    }
    assert(a@ =~= b@);
    true
}

} // verus!
