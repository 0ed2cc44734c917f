//! The vocabulary of the input side: which key, and what happened to it.

use vstd::prelude::*;

verus! {

/// A physical key, as far as this library tells keys apart.
#[derive(Clone, Copy, Debug, PartialEq, Eq, Structural)]
pub enum KeyId {
    /// A key that types the given character.
    Char(char),
    /// The Escape key.
    Escape,
    /// Any other key: arrows, function keys, modifiers and so on.
    Other,
}

/// What happened to a key.
#[derive(Clone, Copy, Debug, PartialEq, Eq, Structural)]
pub enum KeyKind {
    /// The key went down.
    Press,
    /// The key came up.
    Release,
    /// The key is held and the input source reports it again.
    Repeat,
}

/// One event of the input stream.
#[derive(Clone, Copy, Debug, PartialEq, Eq, Structural)]
pub struct KeyEvent {
    pub id: KeyId,
    pub kind: KeyKind,
}

} // verus!
