//! What a conversion writes for one character of its input.

use vstd::prelude::*;
use crate::unicode::{lowercase_of, to_lowercase, to_uppercase, uppercase_of};

verus! {

/// The character that separates the words of a snake_case name.
pub const SEPARATOR: char = '_';

/// The ways in which a conversion writes one character.
#[derive(Clone, Copy, Debug, PartialEq, Eq, Structural)]
pub enum Piece {
    /// The character is left out.
    Nothing,
    /// The character as it is.
    Same,
    /// The character's uppercase mapping.
    Upper,
    /// The character's lowercase mapping.
    Lower,
    /// A separator followed by the character's lowercase mapping.
    SeparatedLower,
}

impl Piece {
    /// The characters written for `c`.
    pub open spec fn of(self, c: char) -> Seq<char> {
        match self {
            Piece::Nothing => Seq::empty(),
            Piece::Same => seq![c],
            Piece::Upper => uppercase_of(c),
            Piece::Lower => lowercase_of(c),
            Piece::SeparatedLower => seq![SEPARATOR] + lowercase_of(c),
        }
    }

    /// The piece snake_case writes for a character, given whether it is an
    /// uppercase letter.
    pub open spec fn snake(upper: bool) -> Piece {
        if upper {
            Piece::SeparatedLower
        } else {
            Piece::Same
        }
    }

    /// The piece PascalCase (`capital`) or camelCase (not `capital`) writes
    /// for `c`. `first` says that `c` opens the input, `raise` that a
    /// separator inside the input stands directly before it.
    pub open spec fn word(capital: bool, first: bool, c: char, raise: bool) -> Piece {
        if first {
            if capital {
                Piece::Upper
            } else {
                Piece::Lower
            }
        } else if c == SEPARATOR {
            Piece::Nothing
        } else if raise {
            Piece::Upper
        } else {
            Piece::Same
        }
    }

    /// Decides the snake_case piece from the character's class.
    pub fn for_snake(upper: bool) -> (piece: Piece)
        ensures
            piece == Piece::snake(upper),
    {
        if upper {
            Piece::SeparatedLower
        } else {
            Piece::Same
        }
    }

    /// Decides the PascalCase or camelCase piece for `ch`, and whether the
    /// character after it is to be raised.
    pub fn for_word(capital: bool, first: bool, ch: char, raise: bool) -> (step: (Piece, bool))
        ensures
            step.0 == Piece::word(capital, first, ch, raise),
            step.1 == if first {
                raise
            } else {
                ch == SEPARATOR
            },
    {
        if first {
            if capital {
                (Piece::Upper, raise)
            } else {
                (Piece::Lower, raise)
            }
        } else if ch == SEPARATOR {
            (Piece::Nothing, true)
        } else if raise {
            (Piece::Upper, false)
        } else {
            (Piece::Same, false)
        }
    }

    /// Appends to `out` what this piece writes for `ch`.
    pub fn write(self, ch: char, out: &mut Vec<char>)
        ensures
            final(out)@ == old(out)@ + self.of(ch),
    {
        match self {
            Piece::Nothing => {
                assert(out@ =~= old(out)@ + Seq::<char>::empty());
            },
            Piece::Same => {
                out.push(ch);
                assert(out@ =~= old(out)@ + seq![ch]);
            },
            Piece::Upper => {
                let mut mapped = to_uppercase(ch);
                out.append(&mut mapped);
            },
            Piece::Lower => {
                let mut mapped = to_lowercase(ch);
                out.append(&mut mapped);
            },
            Piece::SeparatedLower => {
                out.push(SEPARATOR);
                let mut mapped = to_lowercase(ch);
                out.append(&mut mapped);
                assert(out@ =~= old(out)@ + (seq![SEPARATOR] + lowercase_of(ch)));
            },
        }
    }
}

} // verus!
