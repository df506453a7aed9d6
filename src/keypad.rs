//! The sixteen-key hexadecimal keypad.

use vstd::prelude::*;

verus! {

/// The pressed state of keys 0x0 to 0xF.
pub struct Keypad {
    pub keys: [bool; 16],
}

impl View for Keypad {
    type V = Seq<bool>;

    open spec fn view(&self) -> Seq<bool> {
        self.keys@
    }
}

/// Whether key `k` is pressed; indices past 0xF name no key.
pub open spec fn key_down(keys: Seq<bool>, k: int) -> bool {
    0 <= k < 16 && keys[k]
}

impl Keypad {
    /// A keypad with no key pressed.
    pub fn new() -> (r: Keypad)
        ensures
            r@.len() == 16,
            forall|k: int| 0 <= k < 16 ==> !#[trigger] r@[k],
    {
        Keypad { keys: [false; 16] }
    }

    /// Records key `key` as pressed or released.
    pub fn set_key(&mut self, key: u8, pressed: bool)
        requires
            key < 16,
        ensures
            final(self)@ == old(self)@.update(key as int, pressed),
    {
        self.keys[key as usize] = pressed;
    }
}

/// Whether key `key_seek` is pressed; `false` for a value that names no key.
pub fn input_key_seek(input_map: &Keypad, key_seek: u8) -> (r: bool)
    ensures
        r == key_down(input_map@, key_seek as int),
{
    if key_seek < 16 {
        input_map.keys[key_seek as usize]
    } else {
        false
    }
}

/// The keypad key that a physical key stands for, in the usual 4×4 layout
/// `Q W E R / A S D F / Z X C V / U I O P` for `1 2 3 C / 4 5 6 D / 7 8 9 E / A 0 B F`.
pub open spec fn key_of_char(c: char) -> Option<u8> {
    match c {
        'Q' => Some(0x1u8),
        'W' => Some(0x2u8),
        'E' => Some(0x3u8),
        'R' => Some(0xCu8),
        'A' => Some(0x4u8),
        'S' => Some(0x5u8),
        'D' => Some(0x6u8),
        'F' => Some(0xDu8),
        'Z' => Some(0x7u8),
        'X' => Some(0x8u8),
        'C' => Some(0x9u8),
        'V' => Some(0xEu8),
        'U' => Some(0xAu8),
        'I' => Some(0x0u8),
        'O' => Some(0xBu8),
        'P' => Some(0xFu8),
        _ => None,
    }
}

/// Maps a physical key, named by its upper-case letter, to a keypad key.
pub fn physical_key_index(c: char) -> (r: Option<u8>)
    ensures
        r == key_of_char(c),
        r matches Some(k) ==> k < 16,
{
    match c {
        'Q' => Some(0x1),
        'W' => Some(0x2),
        'E' => Some(0x3),
        'R' => Some(0xC),
        'A' => Some(0x4),
        'S' => Some(0x5),
        'D' => Some(0x6),
        'F' => Some(0xD),
        'Z' => Some(0x7),
        'X' => Some(0x8),
        'C' => Some(0x9),
        'V' => Some(0xE),
        'U' => Some(0xA),
        'I' => Some(0x0),
        'O' => Some(0xB),
        'P' => Some(0xF),
        _ => None,
    }
}

} // verus!
