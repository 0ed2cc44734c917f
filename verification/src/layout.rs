//! The key layout: which key plays which note.
//!
//! The three letter rows form one chromatic keyboard: each column plays
//! three semitones from top to bottom, and the next column goes on where
//! the last one stopped. The number row doubles the note at the bottom of
//! the column to its left, so that a run can go on at the top without
//! reaching down. At both edges of the keyboard the pattern breaks off, so
//! the table is data, not a formula.

use std::collections::HashMap;
use vstd::prelude::*;

use crate::key::KeyId;

verus! {

broadcast use vstd::std_specs::hash::group_hash_axioms;

/// The note that a character key plays, if it plays one.
pub open spec fn char_note(c: char) -> Option<u8> {
    match c {
        '1' => Some(47u8),
        'q' => Some(48u8),
        'a' => Some(49u8),
        'z' => Some(50u8),
        '2' => Some(50u8),
        'w' => Some(51u8),
        's' => Some(52u8),
        'x' => Some(53u8),
        '3' => Some(53u8),
        'e' => Some(54u8),
        'd' => Some(55u8),
        'c' => Some(56u8),
        '4' => Some(56u8),
        'r' => Some(57u8),
        'f' => Some(58u8),
        'v' => Some(59u8),
        '5' => Some(59u8),
        't' => Some(60u8),
        'g' => Some(61u8),
        'b' => Some(62u8),
        '6' => Some(62u8),
        'y' => Some(63u8),
        'h' => Some(64u8),
        'n' => Some(65u8),
        '7' => Some(65u8),
        'u' => Some(66u8),
        'j' => Some(67u8),
        'm' => Some(68u8),
        '8' => Some(68u8),
        'i' => Some(69u8),
        'k' => Some(70u8),
        ',' => Some(71u8),
        '9' => Some(71u8),
        'o' => Some(72u8),
        'l' => Some(73u8),
        '.' => Some(74u8),
        '0' => Some(74u8),
        'p' => Some(75u8),
        ';' => Some(76u8),
        '/' => Some(77u8),
        '-' => Some(77u8),
        '[' => Some(78u8),
        '\'' => Some(79u8),
        '=' => Some(80u8),
        ']' => Some(81u8),
        '\\' => Some(84u8),
        _ => None,
    }
}

/// The note that a key plays, if it takes part in the layout. Only
/// character keys do.
pub open spec fn key_note(id: KeyId) -> Option<u8> {
    match id {
        KeyId::Char(c) => char_note(c),
        _ => None,
    }
}

/// The whole layout, as a map from the keys that play to their notes.
pub open spec fn layout_map() -> Map<KeyId, u8> {
    Map::new(|id: KeyId| key_note(id) is Some, |id: KeyId| key_note(id)->0)
}

/// The layout as a table, built once and then only read.
pub struct Layout {
    /// From the code point of a character to its note.
    table: HashMap<u32, u8>,
}

/// What a table keyed by code points says of a key.
spec fn entry(table: Map<u32, u8>, id: KeyId) -> Option<u8> {
    match id {
        KeyId::Char(c) => if table.contains_key(c as u32) {
            Some(table[c as u32])
        } else {
            None
        },
        _ => None,
    }
}

impl View for Layout {
    type V = Map<KeyId, u8>;

    /// The keys that the table holds, each with its note.
    closed spec fn view(&self) -> Map<KeyId, u8> {
        Map::new(
            |id: KeyId| entry(self.table@, id) is Some,
            |id: KeyId| entry(self.table@, id)->0,
        )
    }
}

impl Layout {
    /// The table holds the layout, no more and no less.
    #[verifier::type_invariant]
    spec fn holds_layout(self) -> bool {
        forall|id: KeyId| entry(self.table@, id) == key_note(id)
    }

    /// Builds the table.
    pub fn new() -> (layout: Layout)
        ensures
            layout@ == layout_map(),
    {
        let mut table: HashMap<u32, u8> = HashMap::new();
        table.insert('1' as u32, 47);
        table.insert('q' as u32, 48);
        table.insert('a' as u32, 49);
        table.insert('z' as u32, 50);
        table.insert('2' as u32, 50);
        table.insert('w' as u32, 51);
        table.insert('s' as u32, 52);
        table.insert('x' as u32, 53);
        table.insert('3' as u32, 53);
        table.insert('e' as u32, 54);
        table.insert('d' as u32, 55);
        table.insert('c' as u32, 56);
        table.insert('4' as u32, 56);
        table.insert('r' as u32, 57);
        table.insert('f' as u32, 58);
        table.insert('v' as u32, 59);
        table.insert('5' as u32, 59);
        table.insert('t' as u32, 60);
        table.insert('g' as u32, 61);
        table.insert('b' as u32, 62);
        table.insert('6' as u32, 62);
        table.insert('y' as u32, 63);
        table.insert('h' as u32, 64);
        table.insert('n' as u32, 65);
        table.insert('7' as u32, 65);
        table.insert('u' as u32, 66);
        table.insert('j' as u32, 67);
        table.insert('m' as u32, 68);
        table.insert('8' as u32, 68);
        table.insert('i' as u32, 69);
        table.insert('k' as u32, 70);
        table.insert(',' as u32, 71);
        table.insert('9' as u32, 71);
        table.insert('o' as u32, 72);
        table.insert('l' as u32, 73);
        table.insert('.' as u32, 74);
        table.insert('0' as u32, 74);
        table.insert('p' as u32, 75);
        table.insert(';' as u32, 76);
        table.insert('/' as u32, 77);
        table.insert('-' as u32, 77);
        table.insert('[' as u32, 78);
        table.insert('\'' as u32, 79);
        table.insert('=' as u32, 80);
        table.insert(']' as u32, 81);
        table.insert('\\' as u32, 84);
        Layout { table }
    }

    /// Looks a key up.
    pub fn note_for(&self, id: KeyId) -> (note: Option<u8>)
        ensures
            note == key_note(id),
            self@ == layout_map(),
    {
        proof {
            use_type_invariant(self);
        }
        match id {
            KeyId::Char(c) => {
                let code: u32 = c as u32;
                match self.table.get(&code) {
                    Some(note) => Some(*note),
                    None => None,
                }
            },
            _ => None,
        }
    }
}

} // verus!
