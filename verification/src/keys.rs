//! The keyboard structure-hint vocabulary.
//!
//! Only a fixed set of physical keys maps to LaTeX structure symbols; every
//! other key is ignored by the keyboard adapter before it reaches the
//! library.

use vstd::prelude::*;

verus! {

/// The physical keys that insert structure symbols during dictation.
#[derive(Clone, Copy, PartialEq, Eq, Structural, Debug)]
pub enum HintKey {
    KeyJ,
    KeyK,
    KeyU,
    KeyI,
    KeyM,
    Comma,
    KeyO,
    KeyL,
    Semicolon,
}

/// The structure symbol each hint key inserts.
pub open spec fn symbol_chars(k: HintKey) -> Seq<char> {
    match k {
        HintKey::KeyJ => ("(")@,
        HintKey::KeyK => (")")@,
        HintKey::KeyU => ("[")@,
        HintKey::KeyI => ("]")@,
        HintKey::KeyM => ("{")@,
        HintKey::Comma => ("}")@,
        HintKey::KeyO => ("^")@,
        HintKey::KeyL => ("_")@,
        HintKey::Semicolon => ("\\\\")@,
    }
}

/// Maps a hint key to the symbol it inserts.
pub fn symbol_for(k: HintKey) -> (r: &'static str)
    ensures
        r@ == symbol_chars(k),
{
    match k {
        HintKey::KeyJ => "(",
        HintKey::KeyK => ")",
        HintKey::KeyU => "[",
        HintKey::KeyI => "]",
        HintKey::KeyM => "{",
        HintKey::Comma => "}",
        HintKey::KeyO => "^",
        HintKey::KeyL => "_",
        HintKey::Semicolon => "\\\\",
    }
}

/// A raw keyboard observation: the symbol a hint key inserts and the
/// centisecond timestamp at which it was observed.
pub struct KeyEvent {
    pub key: String,
    pub timestamp_cs: u64,
}

} // verus!
