//! The resolver's laws: every catalog family resolves under every dimension,
//! and resolution ignores the letter case of the name segment.

use vstd::prelude::*;

use crate::catalog::{is_family, lemma_family_sep_free};
use crate::text::{
    dec_digits, first_sep, fold_chars, is_sep, lemma_dec_digits, lemma_digits_sep_free,
    lemma_first_sep_bounds, lemma_first_sep_concat, lemma_fold_chars_concat, lemma_fold_chars_sep,
    sep_free,
};
use crate::{after_name, dim_part, has_dim_part, name_part, spec_resolve, Resolution};

verus! {

/// Every supported name resolves: for a name whose ASCII case folding is a
/// catalog family and any dimension, the string `name<dimension>` denotes
/// that family, under its canonical (folded) name, at that dimension.
pub proof fn lemma_resolve_supported(name: Seq<char>, d: usize)
    requires
        is_family(fold_chars(name)),
    ensures
        spec_resolve(name + seq!['<'] + dec_digits(d as nat) + seq!['>'])
            == (Resolution::Resolved { name: fold_chars(name), dimension: d as nat }),
{
    let digits = dec_digits(d as nat);
    let s = name + seq!['<'] + digits + seq!['>'];
    let mid = seq!['<'] + digits + seq!['>'];
    lemma_family_sep_free(fold_chars(name));
    lemma_fold_chars_sep(name);
    lemma_dec_digits(d as nat);
    lemma_digits_sep_free(digits);
    assert(s =~= name + mid);
    assert(is_sep(mid[0]));
    lemma_first_sep_concat(name, mid);
    assert(first_sep(s) == name.len());
    assert(name_part(s) =~= name);
    assert(has_dim_part(s));
    let tail = digits + seq!['>'];
    assert(after_name(s) =~= tail);
    assert(is_sep(seq!['>'][0]));
    lemma_first_sep_concat(digits, seq!['>']);
    assert(first_sep(tail) == digits.len());
    assert(dim_part(s) =~= digits);
    assert(crate::valid_dim(dim_part(s)));
}

/// Resolution is case-insensitive in the name segment: two specification
/// strings that differ only in the ASCII letter case of their name resolve
/// alike — to the same family and dimension on success, and to the same
/// kind of error otherwise (`UnknownFunction` reports each spelling's own
/// name).
pub proof fn lemma_resolve_case_insensitive(n1: Seq<char>, n2: Seq<char>, tail: Seq<char>)
    requires
        sep_free(n1),
        sep_free(n2),
        fold_chars(n1) == fold_chars(n2),
    ensures
        (spec_resolve(n1 + tail) matches Resolution::Resolved { .. }) ==> spec_resolve(n1 + tail)
            == spec_resolve(n2 + tail),
        (spec_resolve(n1 + tail) matches Resolution::Malformed) <==> (spec_resolve(n2 + tail)
            matches Resolution::Malformed),
        (spec_resolve(n1 + tail) matches Resolution::Unknown { .. }) <==> (spec_resolve(n2 + tail)
            matches Resolution::Unknown { .. }),
{
    let s1 = n1 + tail;
    let s2 = n2 + tail;
    assert(fold_chars(n1).len() == n1.len());
    assert(fold_chars(n2).len() == n2.len());
    lemma_first_sep_bounds(tail);
    lemma_first_sep_concat(n1, tail);
    lemma_first_sep_concat(n2, tail);
    if first_sep(tail) == tail.len() {
        assert(!has_dim_part(s1));
        assert(!has_dim_part(s2));
    } else {
        assert(has_dim_part(s1));
        assert(has_dim_part(s2));
        let rest = tail.subrange(first_sep(tail) + 1, tail.len() as int);
        assert(after_name(s1) =~= rest);
        assert(after_name(s2) =~= rest);
        let head = tail.take(first_sep(tail));
        assert(name_part(s1) =~= n1 + head);
        assert(name_part(s2) =~= n2 + head);
        lemma_fold_chars_concat(n1, head);
        lemma_fold_chars_concat(n2, head);
        assert(fold_chars(name_part(s1)) == fold_chars(name_part(s2)));
    }
}

} // verus!
