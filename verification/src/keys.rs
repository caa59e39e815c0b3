//! Keys, and which slot each of them stands for.

use vstd::prelude::*;

verus! {

/// The number of slots that have a key.
pub const SLOT_COUNT: usize = 5;

/// A pressed key, without its modifiers.
#[derive(Debug, Clone, Copy, PartialEq, Eq, Structural)]
pub enum BareKey {
    Char(char),
    Down,
    Up,
    Enter,
    Esc,
    /// Any other key.
    Other,
}

/// The keys of the slots, in the order of the slots.
pub open spec fn slot_keys() -> Seq<char> {
    seq!['y', 'u', 'i', 'o', 'p']
}

/// The same keys with shift.
pub open spec fn shifted_slot_keys() -> Seq<char> {
    seq!['Y', 'U', 'I', 'O', 'P']
}

/// The place of `c` in `keys`, which holds [`SLOT_COUNT`] keys.
pub open spec fn key_place(keys: Seq<char>, c: char) -> Option<usize> {
    if c == keys[0] {
        Some(0usize)
    } else if c == keys[1] {
        Some(1usize)
    } else if c == keys[2] {
        Some(2usize)
    } else if c == keys[3] {
        Some(3usize)
    } else if c == keys[4] {
        Some(4usize)
    } else {
        None
    }
}

/// The slot that the letter `c` stands for, in either case.
pub open spec fn slot_of_char(c: char) -> Option<usize> {
    match key_place(slot_keys(), c) {
        Some(index) => Some(index),
        None => key_place(shifted_slot_keys(), c),
    }
}

/// The letter of the slot at `index`, or a question mark where it has none.
pub open spec fn char_of_slot(index: usize) -> char {
    if index < SLOT_COUNT {
        slot_keys()[index as int]
    } else {
        '?'
    }
}

/// The slot that the letter `c` stands for, in either case.
pub fn char_to_slot_index(c: char) -> (r: Option<usize>)
    ensures
        r == slot_of_char(c),
{
    match c {
        'y' | 'Y' => Some(0),
        'u' | 'U' => Some(1),
        'i' | 'I' => Some(2),
        'o' | 'O' => Some(3),
        'p' | 'P' => Some(4),
        _ => None,
    }
}

/// The letter of the slot at `index`, or a question mark where it has none.
pub fn slot_index_to_char(index: usize) -> (r: char)
    ensures
        r == char_of_slot(index),
{
    match index {
        0 => 'y',
        1 => 'u',
        2 => 'i',
        3 => 'o',
        4 => 'p',
        _ => '?',
    }
}

} // verus!
