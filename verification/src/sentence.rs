//! Sentence case: the first letter of each sentence in uppercase, the first
//! letter of every other word in lowercase, the rest untouched.

use vstd::prelude::*;
use crate::piece::Piece;
use crate::unicode::is_space;

verus! {

/// Where the next character stands relative to the sentences and words
/// read so far.
#[derive(Clone, Copy, Debug, PartialEq, Eq, Structural)]
pub enum SentenceState {
    /// No character of the current sentence has been read.
    StartOfSentence,
    /// White space has ended a word inside a sentence.
    StartOfWord,
    /// Inside a word.
    Other,
}

/// Whether `c` ends a sentence.
pub open spec fn ends_sentence(c: char) -> bool {
    c == '.' || c == '!' || c == '?'
}

impl SentenceState {
    /// The piece written for a character read in this state, given whether
    /// the character is white space.
    pub open spec fn piece(self, space: bool) -> Piece {
        match (self, space) {
            (_, true) => Piece::Same,
            (SentenceState::StartOfSentence, false) => Piece::Upper,
            (SentenceState::StartOfWord, false) => Piece::Lower,
            (SentenceState::Other, false) => Piece::Same,
        }
    }

    /// The state after `c` was read in this state, given whether `c` is
    /// white space.
    pub open spec fn after(self, c: char, space: bool) -> SentenceState {
        match (self, space) {
            (SentenceState::StartOfSentence, true) => SentenceState::StartOfSentence,
            (SentenceState::StartOfWord, true) => SentenceState::StartOfWord,
            (SentenceState::Other, true) => SentenceState::StartOfWord,
            (_, false) => if ends_sentence(c) {
                SentenceState::StartOfSentence
            } else {
                SentenceState::Other
            },
        }
    }

    /// Reads one character: returns the piece to write for it and the state
    /// that follows.
    pub fn step(self, ch: char, space: bool) -> (step: (Piece, SentenceState))
        ensures
            step.0 == self.piece(space),
            step.1 == self.after(ch, space),
    {
        let closing = ch == '.' || ch == '!' || ch == '?';
        let resumed = if closing {
            SentenceState::StartOfSentence
        } else {
            SentenceState::Other
        };
        match self {
            SentenceState::StartOfSentence => if space {
                (Piece::Same, SentenceState::StartOfSentence)
            } else {
                (Piece::Upper, resumed)
            },
            SentenceState::StartOfWord => if space {
                (Piece::Same, SentenceState::StartOfWord)
            } else {
                (Piece::Lower, resumed)
            },
            SentenceState::Other => if space {
                (Piece::Same, SentenceState::StartOfWord)
            } else {
                (Piece::Same, resumed)
            },
        }
    }
}

/// The state in which character `n` of `s` is read.
pub open spec fn sentence_state(s: Seq<char>, n: int) -> SentenceState
    decreases n,
{
    if n <= 0 {
        SentenceState::StartOfSentence
    } else {
        sentence_state(s, n - 1).after(s[n - 1], is_space(s[n - 1]))
    }
}

/// What sentence case writes for character `i` of `s`.
pub open spec fn sentence_piece(s: Seq<char>, i: int) -> Seq<char> {
    sentence_state(s, i).piece(is_space(s[i])).of(s[i])
}

/// What sentence case writes for the first `n` characters of `s`.
pub open spec fn sentence_pieces(s: Seq<char>, n: int) -> Seq<char>
    decreases n,
{
    if n <= 0 {
        Seq::empty()
    } else {
        sentence_pieces(s, n - 1) + sentence_piece(s, n - 1)
    }
}

/// `s` in sentence case.
pub open spec fn sentence_case(s: Seq<char>) -> Seq<char> {
    sentence_pieces(s, s.len() as int)
}

} // verus!
