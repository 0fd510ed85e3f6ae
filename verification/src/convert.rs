//! The naming conventions and the conversion into each.

use vstd::prelude::*;
use crate::piece::{Piece, SEPARATOR};
use crate::sentence::{sentence_case, sentence_pieces, sentence_state, SentenceState};
use crate::unicode::{into_string, is_upper, lowercase_of, uppercase_of};
use crate::laws::transformed_length_bound;

verus! {

/// A naming convention.
#[derive(Clone, Copy, Debug, PartialEq, Eq, Structural)]
pub enum Case {
    /// snake_case
    SnakeCase,
    /// PascalCase
    PascalCase,
    /// camelCase
    CamelCase,
    /// Sentence case.
    Sentence,
}

/// What snake_case writes for one character: an uppercase letter becomes a
/// separator and the letter's lowercase mapping, anything else stays.
pub open spec fn snake_piece(c: char) -> Seq<char> {
    if is_upper(c) {
        seq![SEPARATOR] + lowercase_of(c)
    } else {
        seq![c]
    }
}

/// What snake_case writes for the first `n` characters of `s`.
pub open spec fn snake_pieces(s: Seq<char>, n: int) -> Seq<char>
    decreases n,
{
    if n <= 0 {
        Seq::empty()
    } else {
        snake_pieces(s, n - 1) + snake_piece(s[n - 1])
    }
}

/// `s` without its first character where that is a separator.
pub open spec fn without_leading_separator(s: Seq<char>) -> Seq<char> {
    if s.len() > 0 && s[0] == SEPARATOR {
        s.drop_first()
    } else {
        s
    }
}

/// `s` in snake_case.
pub open spec fn snake_case(s: Seq<char>) -> Seq<char> {
    without_leading_separator(snake_pieces(s, s.len() as int))
}

/// What PascalCase (`capital`) or camelCase (not `capital`) writes for
/// character `i` of `s`. The first character takes the case that the
/// convention opens with. Past it, a separator is left out, a character
/// directly after such a separator is raised, and any other stays.
pub open spec fn word_piece(s: Seq<char>, i: int, capital: bool) -> Seq<char> {
    if i == 0 {
        if capital {
            uppercase_of(s[0])
        } else {
            lowercase_of(s[0])
        }
    } else if s[i] == SEPARATOR {
        Seq::empty()
    } else if i >= 2 && s[i - 1] == SEPARATOR {
        uppercase_of(s[i])
    } else {
        seq![s[i]]
    }
}

/// What PascalCase or camelCase writes for the first `n` characters of `s`.
pub open spec fn word_pieces(s: Seq<char>, n: int, capital: bool) -> Seq<char>
    decreases n,
{
    if n <= 0 {
        Seq::empty()
    } else {
        word_pieces(s, n - 1, capital) + word_piece(s, n - 1, capital)
    }
}

/// `s` in PascalCase.
pub open spec fn pascal_case(s: Seq<char>) -> Seq<char> {
    word_pieces(s, s.len() as int, true)
}

/// `s` in camelCase.
pub open spec fn camel_case(s: Seq<char>) -> Seq<char> {
    word_pieces(s, s.len() as int, false)
}

/// The length of the longest case mapping, lower or upper, of a character
/// of `s`; 0 where `s` is empty.
pub open spec fn longest_mapping(s: Seq<char>) -> nat
    decreases s.len(),
{
    if s.len() == 0 {
        0
    } else {
        let rest = longest_mapping(s.drop_last());
        let lower = lowercase_of(s.last()).len();
        let upper = uppercase_of(s.last()).len();
        if rest >= lower && rest >= upper {
            rest
        } else if lower >= upper {
            lower
        } else {
            upper
        }
    }
}

/// Removes the first character of `chars` where it is a separator.
pub fn strip_leading_separator(chars: &mut Vec<char>)
    ensures
        final(chars)@ == without_leading_separator(old(chars)@),
{
    if chars.len() > 0 && chars[0] == SEPARATOR {
        chars.remove(0);
        assert(chars@ =~= old(chars)@.drop_first());
    }
}

/// The characters of `string` in snake_case.
fn to_snake(string: &str) -> (chars: Vec<char>)
    ensures
        chars@ == snake_case(string@),
{
    let mut chars: Vec<char> = Vec::new();
    for ch in it: string.chars()
        invariant
            it.seq() == string@,
            chars@ == snake_pieces(string@, it.index()),
    {
        Piece::for_snake(ch.is_uppercase()).write(ch, &mut chars);
    }
    strip_leading_separator(&mut chars);
    chars
}

/// The characters of `string` in PascalCase (`capital`) or camelCase.
fn to_words(string: &str, capital: bool) -> (chars: Vec<char>)
    ensures
        chars@ == word_pieces(string@, string@.len() as int, capital),
{
    let mut chars: Vec<char> = Vec::new();
    let mut first = true;
    let mut raise = false;
    for ch in it: string.chars()
        invariant
            it.seq() == string@,
            first == (it.index() == 0),
            raise == (it.index() >= 2 && string@[it.index() - 1] == SEPARATOR),
            chars@ == word_pieces(string@, it.index(), capital),
    {
        let (piece, raise_next) = Piece::for_word(capital, first, ch, raise);
        piece.write(ch, &mut chars);
        raise = raise_next;
        first = false;
    }
    chars
}

/// The characters of `string` in sentence case.
fn to_sentence(string: &str) -> (chars: Vec<char>)
    ensures
        chars@ == sentence_case(string@),
{
    let mut chars: Vec<char> = Vec::new();
    let mut state = SentenceState::StartOfSentence;
    for ch in it: string.chars()
        invariant
            it.seq() == string@,
            state == sentence_state(string@, it.index()),
            chars@ == sentence_pieces(string@, it.index()),
    {
        let (piece, next) = state.step(ch, ch.is_whitespace());
        piece.write(ch, &mut chars);
        state = next;
    }
    chars
}

impl Case {
    /// `s` in this convention.
    pub open spec fn transformed(self, s: Seq<char>) -> Seq<char> {
        match self {
            Case::SnakeCase => snake_case(s),
            Case::PascalCase => pascal_case(s),
            Case::CamelCase => camel_case(s),
            Case::Sentence => sentence_case(s),
        }
    }

    /// Converts `string` into this convention. The result is never longer
    /// than the input's length times one more than its longest case mapping,
    /// and empty where the input is.
    pub fn transform(&self, string: &str) -> (text: String)
        ensures
            text@ == self.transformed(string@),
            text@.len() <= (longest_mapping(string@) + 1) * string@.len(),
            string@.len() == 0 ==> text@.len() == 0,
    {
        let chars = match self {
            Case::SnakeCase => to_snake(string),
            Case::PascalCase => to_words(string, true),
            Case::CamelCase => to_words(string, false),
            Case::Sentence => to_sentence(string),
        };
        proof {
            transformed_length_bound(*self, string@);
        }
        into_string(chars)
    }
}

} // verus!
