//! Character-level vocabulary for the `name<dimension>` format: the two
//! separator characters, decimal digits, and ASCII case folding, together
//! with the sequence lemmas the resolver's proofs rest on.

use vstd::prelude::*;

verus! {

/// The two characters that delimit the dimension segment of a specification.
pub open spec fn is_sep(c: char) -> bool {
    c == '<' || c == '>'
}

/// No character of `s` is a separator.
pub open spec fn sep_free(s: Seq<char>) -> bool {
    forall|i: int| 0 <= i < s.len() ==> !is_sep(#[trigger] s[i])
}

/// Index of the first separator in `s`, or `s.len()` if there is none.
pub open spec fn first_sep(s: Seq<char>) -> int
    decreases s.len(),
{
    if s.len() == 0 {
        0
    } else if is_sep(s[0]) {
        0
    } else {
        1 + first_sep(s.drop_first())
    }
}

/// `first_sep` points at the first separator: everything before it is
/// separator-free, and it lies within the sequence unless there is none.
pub proof fn lemma_first_sep_bounds(s: Seq<char>)
    ensures
        0 <= first_sep(s) <= s.len(),
        forall|i: int| 0 <= i < first_sep(s) ==> !is_sep(#[trigger] s[i]),
        first_sep(s) < s.len() ==> is_sep(s[first_sep(s)]),
    decreases s.len(),
{
    if s.len() == 0 {
    } else if is_sep(s[0]) {
    } else {
        lemma_first_sep_bounds(s.drop_first());
        assert forall|i: int| 0 <= i < first_sep(s) implies !is_sep(#[trigger] s[i]) by {
            if i >= 1 {
                assert(s[i] == s.drop_first()[i - 1]);
            }
        }
        if first_sep(s) < s.len() {
            assert(s[first_sep(s)] == s.drop_first()[first_sep(s) - 1]);
        }
    }
}

/// An index below which everything is separator-free and which either is a
/// separator or the end of the sequence is exactly `first_sep`.
pub proof fn lemma_first_sep_at(s: Seq<char>, k: int)
    requires
        0 <= k <= s.len(),
        forall|i: int| 0 <= i < k ==> !is_sep(#[trigger] s[i]),
        k < s.len() ==> is_sep(s[k]),
    ensures
        first_sep(s) == k,
    decreases s.len(),
{
    if s.len() == 0 {
    } else if is_sep(s[0]) {
        assert(k == 0);
    } else {
        assert(k >= 1);
        let t = s.drop_first();
        assert forall|i: int| 0 <= i < k - 1 implies !is_sep(#[trigger] t[i]) by {
            assert(t[i] == s[i + 1]);
        }
        if k - 1 < t.len() {
            assert(t[k - 1] == s[k]);
        }
        lemma_first_sep_at(t, k - 1);
    }
}

/// Prepending a separator-free prefix shifts the first separator by the
/// prefix's length.
pub proof fn lemma_first_sep_concat(a: Seq<char>, b: Seq<char>)
    requires
        sep_free(a),
    ensures
        first_sep(a + b) == a.len() + first_sep(b),
{
    lemma_first_sep_bounds(b);
    let k = a.len() + first_sep(b);
    assert forall|i: int| 0 <= i < k implies !is_sep(#[trigger] (a + b)[i]) by {
        if i < a.len() {
            assert((a + b)[i] == a[i]);
        } else {
            assert((a + b)[i] == b[i - a.len()]);
        }
    }
    if k < a.len() + b.len() {
        assert((a + b)[k] == b[first_sep(b)]);
    }
    lemma_first_sep_at(a + b, k);
}

/// `c` is a decimal digit.
pub open spec fn is_digit(c: char) -> bool {
    48 <= c as u32 <= 57
}

/// The numeric value of a decimal digit.
pub open spec fn digit_val(c: char) -> nat {
    (c as u32 - 48) as nat
}

/// Every character of `s` is a decimal digit.
pub open spec fn all_digits(s: Seq<char>) -> bool {
    forall|i: int| 0 <= i < s.len() ==> is_digit(#[trigger] s[i])
}

/// The value of a sequence of decimal digits, most significant first.
pub open spec fn digits_val(s: Seq<char>) -> nat
    decreases s.len(),
{
    if s.len() == 0 {
        0
    } else {
        digits_val(s.drop_last()) * 10 + digit_val(s.last())
    }
}

/// Digits are not separators.
pub proof fn lemma_digits_sep_free(s: Seq<char>)
    requires
        all_digits(s),
    ensures
        sep_free(s),
{
}

/// Extending a digit string on the right can only increase its value.
pub proof fn lemma_digits_val_prefix(s: Seq<char>, k: int)
    requires
        0 <= k <= s.len(),
    ensures
        digits_val(s.take(k)) <= digits_val(s),
    decreases s.len() - k,
{
    if k == s.len() {
        assert(s.take(k) =~= s);
    } else {
        assert(s.take(k + 1).drop_last() =~= s.take(k));
        assert(s.take(k + 1).last() == s[k]);
        lemma_digits_val_prefix(s, k + 1);
    }
}

/// The character for a single decimal digit.
pub open spec fn digit_char(n: nat) -> char {
    if n == 0 {
        '0'
    } else if n == 1 {
        '1'
    } else if n == 2 {
        '2'
    } else if n == 3 {
        '3'
    } else if n == 4 {
        '4'
    } else if n == 5 {
        '5'
    } else if n == 6 {
        '6'
    } else if n == 7 {
        '7'
    } else if n == 8 {
        '8'
    } else {
        '9'
    }
}

/// The decimal rendering of `n`, most significant digit first.
pub open spec fn dec_digits(n: nat) -> Seq<char>
    decreases n,
{
    if n < 10 {
        seq![digit_char(n)]
    } else {
        dec_digits(n / 10).push(digit_char(n % 10))
    }
}

/// A decimal rendering is a non-empty digit string whose value is the
/// rendered number.
pub proof fn lemma_dec_digits(n: nat)
    ensures
        dec_digits(n).len() >= 1,
        all_digits(dec_digits(n)),
        digits_val(dec_digits(n)) == n,
    decreases n,
{
    if n < 10 {
        assert(dec_digits(n).drop_last() =~= Seq::<char>::empty());
        assert(digits_val(Seq::<char>::empty()) == 0);
        assert(dec_digits(n).last() == digit_char(n));
        assert(digit_val(digit_char(n)) == n);
    } else {
        lemma_dec_digits(n / 10);
        let d = dec_digits(n / 10);
        let c = digit_char(n % 10);
        assert(d.push(c).drop_last() =~= d);
        assert(digit_val(c) == n % 10);
        assert((n / 10) * 10 + n % 10 == n);
        assert forall|i: int| 0 <= i < d.push(c).len() implies is_digit(#[trigger] d.push(c)[i]) by {
            if i < d.len() {
                assert(d.push(c)[i] == d[i]);
            }
        }
    }
}

/// ASCII case folding of a single character: uppercase letters are lowered,
/// everything else is unchanged.
pub open spec fn fold_char(c: char) -> char {
    if c == 'A' {
        'a'
    } else if c == 'B' {
        'b'
    } else if c == 'C' {
        'c'
    } else if c == 'D' {
        'd'
    } else if c == 'E' {
        'e'
    } else if c == 'F' {
        'f'
    } else if c == 'G' {
        'g'
    } else if c == 'H' {
        'h'
    } else if c == 'I' {
        'i'
    } else if c == 'J' {
        'j'
    } else if c == 'K' {
        'k'
    } else if c == 'L' {
        'l'
    } else if c == 'M' {
        'm'
    } else if c == 'N' {
        'n'
    } else if c == 'O' {
        'o'
    } else if c == 'P' {
        'p'
    } else if c == 'Q' {
        'q'
    } else if c == 'R' {
        'r'
    } else if c == 'S' {
        's'
    } else if c == 'T' {
        't'
    } else if c == 'U' {
        'u'
    } else if c == 'V' {
        'v'
    } else if c == 'W' {
        'w'
    } else if c == 'X' {
        'x'
    } else if c == 'Y' {
        'y'
    } else if c == 'Z' {
        'z'
    } else {
        c
    }
}

/// ASCII case folding of a whole character sequence.
pub open spec fn fold_chars(s: Seq<char>) -> Seq<char> {
    s.map_values(|c: char| fold_char(c))
}

/// Case folding distributes over concatenation.
pub proof fn lemma_fold_chars_concat(a: Seq<char>, b: Seq<char>)
    ensures
        fold_chars(a + b) == fold_chars(a) + fold_chars(b),
{
    assert(fold_chars(a + b) =~= fold_chars(a) + fold_chars(b));
}

/// Case folding neither introduces nor removes separators.
pub proof fn lemma_fold_chars_sep(s: Seq<char>)
    ensures
        sep_free(fold_chars(s)) <==> sep_free(s),
{
    assert forall|i: int| 0 <= i < s.len() implies is_sep(#[trigger] fold_chars(s)[i]) == is_sep(
        s[i],
    ) by {
        assert(fold_chars(s)[i] == fold_char(s[i]));
    }
    assert forall|i: int| 0 <= i < s.len() implies is_sep(#[trigger] s[i]) == is_sep(
        fold_chars(s)[i],
    ) by {
        assert(fold_chars(s)[i] == fold_char(s[i]));
    }
}

/// Executable test for the separator characters.
pub fn sep_char(c: char) -> (r: bool)
    ensures
        r == is_sep(c),
{
    c == '<' || c == '>'
}

/// Executable ASCII case folding of a single character.
pub fn fold_char_exec(c: char) -> (r: char)
    ensures
        r == fold_char(c),
{
    if c == 'A' {
        'a'
    } else if c == 'B' {
        'b'
    } else if c == 'C' {
        'c'
    } else if c == 'D' {
        'd'
    } else if c == 'E' {
        'e'
    } else if c == 'F' {
        'f'
    } else if c == 'G' {
        'g'
    } else if c == 'H' {
        'h'
    } else if c == 'I' {
        'i'
    } else if c == 'J' {
        'j'
    } else if c == 'K' {
        'k'
    } else if c == 'L' {
        'l'
    } else if c == 'M' {
        'm'
    } else if c == 'N' {
        'n'
    } else if c == 'O' {
        'o'
    } else if c == 'P' {
        'p'
    } else if c == 'Q' {
        'q'
    } else if c == 'R' {
        'r'
    } else if c == 'S' {
        's'
    } else if c == 'T' {
        't'
    } else if c == 'U' {
        'u'
    } else if c == 'V' {
        'v'
    } else if c == 'W' {
        'w'
    } else if c == 'X' {
        'x'
    } else if c == 'Y' {
        'y'
    } else if c == 'Z' {
        'z'
    } else {
        c
    }
}

} // verus!
