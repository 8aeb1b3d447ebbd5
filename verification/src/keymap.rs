//! The keys of the host keyboard that stand for the 16 lines of the keypad.
//!
//! The keypad is a 4 by 4 block, and so is the part of the keyboard that
//! plays it: the key at a place in one block presses the line at the same
//! place in the other.
//!
//! ```text
//! keyboard      keypad
//! 1 2 3 4       1 2 3 C
//! Q W E R       4 5 6 D
//! A S D F       7 8 9 E
//! Z X C V       A 0 B F
//! ```

use vstd::prelude::*;

verus! {

/// A key of the host keyboard: one of the 16 that play the keypad, or any
/// other.
#[derive(Clone, Copy, Debug, PartialEq, Eq, Structural)]
pub enum HostKey {
    Key1,
    Key2,
    Key3,
    Key4,
    Q,
    W,
    E,
    R,
    A,
    S,
    D,
    F,
    Z,
    X,
    C,
    V,
    Other,
}

impl HostKey {
    /// The key's place in the keyboard block, counted row by row from the
    /// top left.
    pub open spec fn place(self) -> Option<int> {
        match self {
            HostKey::Key1 => Some(0),
            HostKey::Key2 => Some(1),
            HostKey::Key3 => Some(2),
            HostKey::Key4 => Some(3),
            HostKey::Q => Some(4),
            HostKey::W => Some(5),
            HostKey::E => Some(6),
            HostKey::R => Some(7),
            HostKey::A => Some(8),
            HostKey::S => Some(9),
            HostKey::D => Some(10),
            HostKey::F => Some(11),
            HostKey::Z => Some(12),
            HostKey::X => Some(13),
            HostKey::C => Some(14),
            HostKey::V => Some(15),
            HostKey::Other => None,
        }
    }
}

/// The lines of the keypad by their place in its block, row by row.
pub open spec fn keypad_layout() -> Seq<usize> {
    seq![0x1, 0x2, 0x3, 0xC, 0x4, 0x5, 0x6, 0xD, 0x7, 0x8, 0x9, 0xE, 0xA, 0x0, 0xB, 0xF]
}

/// The keypad line that a key presses, if it presses one.
pub open spec fn keypad_line(key: HostKey) -> Option<usize> {
    match key.place() {
        Some(place) => Some(keypad_layout()[place]),
        None => None,
    }
}

/// The keypad line that `key` presses: the line at the key's place in the
/// block, and none for a key outside it.
pub fn map_key(key: HostKey) -> (line: Option<usize>)
    ensures
        line == keypad_line(key),
        line matches Some(l) ==> l < 16,
{
    match key {
        HostKey::X => Some(0),
        HostKey::Key1 => Some(1),
        HostKey::Key2 => Some(2),
        HostKey::Key3 => Some(3),
        HostKey::Q => Some(4),
        HostKey::W => Some(5),
        HostKey::E => Some(6),
        HostKey::A => Some(7),
        HostKey::S => Some(8),
        HostKey::D => Some(9),
        HostKey::Z => Some(0xA),
        HostKey::C => Some(0xB),
        HostKey::Key4 => Some(0xC),
        HostKey::R => Some(0xD),
        HostKey::F => Some(0xE),
        HostKey::V => Some(0xF),
        HostKey::Other => None,
    }
}

/// No two keys press the same line.
pub proof fn lemma_keys_press_distinct_lines(a: HostKey, b: HostKey)
    requires
        a != b,
        keypad_line(a) is Some,
    ensures
        keypad_line(a) != keypad_line(b),
{
}

/// Every line of the keypad has a key that presses it.
pub proof fn lemma_every_line_has_a_key(line: usize)
    requires
        line < 16,
    ensures
        exists|key: HostKey| keypad_line(key) == Some(line),
{
    let keys = seq![
        HostKey::X,
        HostKey::Key1,
        HostKey::Key2,
        HostKey::Key3,
        HostKey::Q,
        HostKey::W,
        HostKey::E,
        HostKey::A,
        HostKey::S,
        HostKey::D,
        HostKey::Z,
        HostKey::C,
        HostKey::Key4,
        HostKey::R,
        HostKey::F,
        HostKey::V,
    ];
    assert(keypad_line(keys[line as int]) == Some(line));
}

} // verus!
