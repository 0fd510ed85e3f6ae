//! What holds of the conversions for every input.

use vstd::prelude::*;
use crate::convert::{
    camel_case, longest_mapping, pascal_case, snake_case, snake_piece, snake_pieces, word_piece,
    word_pieces, Case,
};
use crate::piece::SEPARATOR;
use crate::sentence::sentence_pieces;
use crate::unicode::{is_upper, lowercase_of, uppercase_of};

verus! {

/// No case mapping of a character of `s` is longer than `longest_mapping(s)`.
proof fn longest_mapping_bounds(s: Seq<char>, i: int)
    requires
        0 <= i < s.len(),
    ensures
        lowercase_of(s[i]).len() <= longest_mapping(s),
        uppercase_of(s[i]).len() <= longest_mapping(s),
    decreases s.len(),
{
    if i < s.len() - 1 {
        longest_mapping_bounds(s.drop_last(), i);
    }
}

/// One more character adds at most `k + 1` to a bound of `k + 1` for each.
proof fn grows_by_one_factor(k: nat, n: int)
    requires
        n >= 1,
    ensures
        (k + 1) * (n - 1) + (k + 1) == (k + 1) * n,
        (k + 1) * n >= 0,
{
    assert((k + 1) * (n - 1) + (k + 1) == (k + 1) * n) by (nonlinear_arith);
    assert((k + 1) * n >= 0) by (nonlinear_arith)
        requires
            n >= 1,
    ;
}

/// The snake_case pieces of `n` characters are at most `(k + 1) * n` long
/// where no lowercase mapping among them is longer than `k`.
proof fn snake_pieces_length(s: Seq<char>, n: int, k: nat)
    requires
        0 <= n <= s.len(),
        forall|i: int| 0 <= i < n ==> (#[trigger] lowercase_of(s[i])).len() <= k,
    ensures
        snake_pieces(s, n).len() <= (k + 1) * n,
    decreases n,
{
    if n > 0 {
        snake_pieces_length(s, n - 1, k);
        assert(lowercase_of(s[n - 1]).len() <= k);
        grows_by_one_factor(k, n);
    }
}

/// The PascalCase or camelCase pieces of `n` characters are at most
/// `(k + 1) * n` long where no case mapping among them is longer than `k`.
proof fn word_pieces_length(s: Seq<char>, n: int, capital: bool, k: nat)
    requires
        0 <= n <= s.len(),
        forall|i: int| 0 <= i < n ==> (#[trigger] lowercase_of(s[i])).len() <= k,
        forall|i: int| 0 <= i < n ==> (#[trigger] uppercase_of(s[i])).len() <= k,
    ensures
        word_pieces(s, n, capital).len() <= (k + 1) * n,
    decreases n,
{
    if n > 0 {
        word_pieces_length(s, n - 1, capital, k);
        assert(lowercase_of(s[n - 1]).len() <= k);
        assert(uppercase_of(s[n - 1]).len() <= k);
        grows_by_one_factor(k, n);
    }
}

/// The sentence case pieces of `n` characters are at most `(k + 1) * n` long
/// where no case mapping among them is longer than `k`.
proof fn sentence_pieces_length(s: Seq<char>, n: int, k: nat)
    requires
        0 <= n <= s.len(),
        forall|i: int| 0 <= i < n ==> (#[trigger] lowercase_of(s[i])).len() <= k,
        forall|i: int| 0 <= i < n ==> (#[trigger] uppercase_of(s[i])).len() <= k,
    ensures
        sentence_pieces(s, n).len() <= (k + 1) * n,
    decreases n,
{
    if n > 0 {
        sentence_pieces_length(s, n - 1, k);
        assert(lowercase_of(s[n - 1]).len() <= k);
        assert(uppercase_of(s[n - 1]).len() <= k);
        grows_by_one_factor(k, n);
    }
}

/// A converted text is at most as long as its input times one more than the
/// longest case mapping among the input's characters.
pub proof fn transformed_length_bound(kind: Case, s: Seq<char>)
    ensures
        kind.transformed(s).len() <= (longest_mapping(s) + 1) * s.len(),
{
    let n = s.len() as int;
    let k = longest_mapping(s);
    assert forall|i: int| 0 <= i < n implies (#[trigger] lowercase_of(s[i])).len() <= k by {
        longest_mapping_bounds(s, i);
    }
    assert forall|i: int| 0 <= i < n implies (#[trigger] uppercase_of(s[i])).len() <= k by {
        longest_mapping_bounds(s, i);
    }
    match kind {
        Case::SnakeCase => snake_pieces_length(s, n, k),
        Case::PascalCase => word_pieces_length(s, n, true, k),
        Case::CamelCase => word_pieces_length(s, n, false, k),
        Case::Sentence => sentence_pieces_length(s, n, k),
    }
}

/// Every convention turns the empty text into the empty text.
pub proof fn transformed_empty(kind: Case)
    ensures
        kind.transformed(Seq::<char>::empty()) == Seq::<char>::empty(),
{
    transformed_length_bound(kind, Seq::<char>::empty());
    assert(kind.transformed(Seq::<char>::empty()) =~= Seq::<char>::empty());
}

/// Whether `s` is written in snake_case: it holds no uppercase letter and
/// does not open with a separator.
pub open spec fn in_snake_case(s: Seq<char>) -> bool {
    &&& forall|i: int| 0 <= i < s.len() ==> !is_upper(#[trigger] s[i])
    &&& s.len() > 0 ==> s[0] != SEPARATOR
}

/// Whether `s` is written as one PascalCase (`capital`) or camelCase (not
/// `capital`) name: its first character is its own uppercase, respectively
/// lowercase, mapping, and no separator follows it.
pub open spec fn in_word_case(s: Seq<char>, capital: bool) -> bool {
    &&& forall|i: int| 1 <= i < s.len() ==> #[trigger] s[i] != SEPARATOR
    &&& s.len() > 0 ==> if capital {
        uppercase_of(s[0]) == seq![s[0]]
    } else {
        lowercase_of(s[0]) == seq![s[0]]
    }
}

/// Without uppercase letters, snake_case writes each character as it is.
proof fn snake_pieces_keep(s: Seq<char>, n: int)
    requires
        0 <= n <= s.len(),
        forall|i: int| 0 <= i < s.len() ==> !is_upper(#[trigger] s[i]),
    ensures
        snake_pieces(s, n) == s.take(n),
    decreases n,
{
    if n > 0 {
        snake_pieces_keep(s, n - 1);
        assert(!is_upper(s[n - 1]));
        assert(snake_piece(s[n - 1]) == seq![s[n - 1]]);
    }
    assert(snake_pieces(s, n) =~= s.take(n));
}

/// PascalCase and camelCase write each character of a name in their own
/// case as it is.
proof fn word_pieces_keep(s: Seq<char>, n: int, capital: bool)
    requires
        0 <= n <= s.len(),
        in_word_case(s, capital),
    ensures
        word_pieces(s, n, capital) == s.take(n),
    decreases n,
{
    if n > 0 {
        word_pieces_keep(s, n - 1, capital);
        if n - 1 > 0 {
            assert(s[n - 1] != SEPARATOR);
            if n - 1 >= 2 {
                assert(s[n - 2] != SEPARATOR);
            }
        }
        assert(word_piece(s, n - 1, capital) == seq![s[n - 1]]);
    }
    assert(word_pieces(s, n, capital) =~= s.take(n));
}

/// snake_case leaves a text that is in snake_case as it is, so converting
/// such a text twice gives what converting it once gives.
pub proof fn snake_case_is_stable(s: Seq<char>)
    requires
        in_snake_case(s),
    ensures
        snake_case(s) == s,
        snake_case(snake_case(s)) == snake_case(s),
{
    snake_pieces_keep(s, s.len() as int);
    assert(s.take(s.len() as int) =~= s);
}

/// PascalCase leaves a PascalCase name as it is, so converting such a name
/// twice gives what converting it once gives.
pub proof fn pascal_case_is_stable(s: Seq<char>)
    requires
        in_word_case(s, true),
    ensures
        pascal_case(s) == s,
        pascal_case(pascal_case(s)) == pascal_case(s),
{
    word_pieces_keep(s, s.len() as int, true);
    assert(s.take(s.len() as int) =~= s);
}

/// camelCase leaves a camelCase name as it is, so converting such a name
/// twice gives what converting it once gives.
pub proof fn camel_case_is_stable(s: Seq<char>)
    requires
        in_word_case(s, false),
    ensures
        camel_case(s) == s,
        camel_case(camel_case(s)) == camel_case(s),
{
    word_pieces_keep(s, s.len() as int, false);
    assert(s.take(s.len() as int) =~= s);
}

} // verus!
