//! A catalog of classical continuous benchmark functions, addressed by a
//! textual `name<dimension>` specification.
//!
//! The library resolves a specification string such as `"rastrigin<20>"` to a
//! [`BenchmarkFunction`] value carrying the canonical (lowercase) family name
//! and the requested dimension, or reports why the string was rejected.

use vstd::prelude::*;

pub mod catalog;
pub mod laws;
pub mod text;

use crate::catalog::{is_family, lookup};
use crate::text::{
    all_digits, digit_val, digits_val, first_sep, fold_chars, is_digit, is_sep,
    lemma_digits_val_prefix, lemma_first_sep_at, sep_char,
};

verus! {

/// A resolved benchmark function: a canonical family name together with the
/// dimension it was requested at.
///
/// The dimension is taken verbatim from the specification string; the parser
/// accepts `0` even though the classical definitions assume at least one
/// variable, so a caller that needs `dimension >= 1` must check it.
#[derive(Clone, Debug)]
pub struct BenchmarkFunction {
    name: String,
    dimension: usize,
}

/// Why a specification string was rejected.
#[derive(Clone, Debug)]
pub enum ParseError {
    /// The string does not have the shape `name<dimension>` with a decimal
    /// dimension that fits in `usize`.
    MalformedSpec,
    /// The string is well-formed, but its name segment (given here as
    /// written, before case folding) is no catalog family.
    UnknownFunction(String),
}

/// What a specification string denotes: a family at a dimension, a shape
/// error, or an unknown name.
pub enum Resolution {
    Resolved { name: Seq<char>, dimension: nat },
    Malformed,
    Unknown { name: Seq<char> },
}

/// The name segment: everything before the first separator.
pub open spec fn name_part(s: Seq<char>) -> Seq<char> {
    s.take(first_sep(s))
}

/// There is a segment after the name, i.e. the string contains a separator.
pub open spec fn has_dim_part(s: Seq<char>) -> bool {
    first_sep(s) < s.len()
}

/// Everything after the first separator.
pub open spec fn after_name(s: Seq<char>) -> Seq<char> {
    s.subrange(first_sep(s) + 1, s.len() as int)
}

/// The dimension segment: between the first separator and the next one (or
/// the end). Whatever follows a second separator is ignored.
pub open spec fn dim_part(s: Seq<char>) -> Seq<char> {
    name_part(after_name(s))
}

/// The dimension segment is acceptable: a non-empty string of decimal digits
/// whose value fits in `usize`.
pub open spec fn valid_dim(d: Seq<char>) -> bool {
    &&& d.len() > 0
    &&& all_digits(d)
    &&& digits_val(d) <= usize::MAX as nat
}

/// The meaning of a specification string.
///
/// The shape is checked first (`MalformedSpec`), then the ASCII-case-folded
/// name segment is matched against the catalog (`UnknownFunction`); on a
/// match the string denotes that family, under its canonical name, at the
/// dimension the digits spell.
pub open spec fn spec_resolve(s: Seq<char>) -> Resolution {
    if !has_dim_part(s) || !valid_dim(dim_part(s)) {
        Resolution::Malformed
    } else if !is_family(fold_chars(name_part(s))) {
        Resolution::Unknown { name: name_part(s) }
    } else {
        Resolution::Resolved { name: fold_chars(name_part(s)), dimension: digits_val(dim_part(s)) }
    }
}

impl BenchmarkFunction {
    /// The canonical family name, as a sequence of characters.
    pub closed spec fn spec_name(&self) -> Seq<char> {
        self.name@
    }

    /// The dimension the function was resolved at.
    pub closed spec fn spec_dimension(&self) -> nat {
        self.dimension as nat
    }

    /// Well-formedness: the stored name is a canonical catalog family name.
    pub open spec fn wf(&self) -> bool {
        is_family(self.spec_name())
    }

    /// The canonical family name.
    pub fn name(&self) -> (r: &str)
        ensures
            r@ == self.spec_name(),
    {
        self.name.as_str()
    }

    /// The number of input variables.
    pub fn dimension(&self) -> (r: usize)
        ensures
            r as nat == self.spec_dimension(),
    {
        self.dimension
    }

    /// Parses a `name<dimension>` specification and resolves it against the
    /// catalog, ignoring ASCII letter case in the name.
    pub fn resolve(spec: &str) -> (r: Result<BenchmarkFunction, ParseError>)
        ensures
            match r {
                Ok(b) => b.wf() && spec_resolve(spec@) == (Resolution::Resolved {
                    name: b.spec_name(),
                    dimension: b.spec_dimension(),
                }),
                Err(ParseError::MalformedSpec) => spec_resolve(spec@) == Resolution::Malformed,
                Err(ParseError::UnknownFunction(n)) => spec_resolve(spec@) == (Resolution::Unknown {
                    name: n@,
                }),
            },
    {
        let len = spec.unicode_len();

        // The name segment runs up to the first separator.
        let mut i: usize = 0;
        loop
            invariant
                len == spec@.len(),
                i <= len,
                forall|k: int| 0 <= k < i ==> !is_sep(#[trigger] spec@[k]),
            ensures
                i <= len,
                forall|k: int| 0 <= k < i ==> !is_sep(#[trigger] spec@[k]),
                i == len || is_sep(spec@[i as int]),
            decreases len - i,
        {
            if i == len {
                break;
            }
            if sep_char(spec.get_char(i)) {
                break;
            }
            i += 1;
        }
        proof {
            lemma_first_sep_at(spec@, i as int);
        }

        if i == len {
            // No separator at all: there is no dimension segment.
            return Err(ParseError::MalformedSpec);
        }

        // The dimension segment runs up to the next separator (or the end).
        let mut j: usize = i + 1;
        loop
            invariant
                len == spec@.len(),
                i + 1 <= j <= len,
                forall|k: int| i + 1 <= k < j ==> !is_sep(#[trigger] spec@[k]),
            ensures
                i + 1 <= j <= len,
                forall|k: int| i + 1 <= k < j ==> !is_sep(#[trigger] spec@[k]),
                j == len || is_sep(spec@[j as int]),
            decreases len - j,
        {
            if j == len {
                break;
            }
            if sep_char(spec.get_char(j)) {
                break;
            }
            j += 1;
        }
        proof {
            let tail = after_name(spec@);
            assert forall|k: int| 0 <= k < j - i - 1 implies !is_sep(#[trigger] tail[k]) by {
                assert(tail[k] == spec@[k + i + 1]);
            }
            if j < len {
                assert(tail[j - i - 1] == spec@[j as int]);
            }
            lemma_first_sep_at(tail, j - i - 1);
            assert(dim_part(spec@) =~= spec@.subrange(i + 1, j as int));
        }

        if j == i + 1 {
            // Empty dimension segment.
            return Err(ParseError::MalformedSpec);
        }

        // Parse the digits, rejecting anything else and values beyond usize.
        let mut val: usize = 0;
        let mut k: usize = i + 1;
        while k < j
            invariant
                len == spec@.len(),
                i + 1 <= k <= j <= len,
                dim_part(spec@) == spec@.subrange(i + 1, j as int),
                forall|m: int| i + 1 <= m < k ==> is_digit(#[trigger] spec@[m]),
                val as nat == digits_val(spec@.subrange(i + 1, k as int)),
            decreases j - k,
        {
            let c = spec.get_char(k);
            let u = c as u32;
            if !(48 <= u && u <= 57) {
                proof {
                    assert(dim_part(spec@)[k - i - 1] == spec@[k as int]);
                }
                return Err(ParseError::MalformedSpec);
            }
            let d = (u - 48) as usize;
            proof {
                assert(spec@.subrange(i + 1, k + 1).drop_last() =~= spec@.subrange(
                    i + 1,
                    k as int,
                ));
                assert(spec@.subrange(i + 1, k + 1).last() == spec@[k as int]);
            }
            if val > (usize::MAX - d) / 10 {
                proof {
                    assert(((usize::MAX - d) / 10) * 10 + 9 <= usize::MAX - d + 9);
                    assert(val as nat * 10 + digit_val(spec@[k as int]) > usize::MAX as nat);
                    assert(dim_part(spec@).take(k + 1 - (i + 1)) =~= spec@.subrange(i + 1, k + 1));
                    lemma_digits_val_prefix(dim_part(spec@), k + 1 - (i + 1));
                }
                return Err(ParseError::MalformedSpec);
            }
            proof {
                assert(val * 10 <= ((usize::MAX - d) / 10) * 10 <= usize::MAX - d);
            }
            val = val * 10 + d;
            k += 1;
        }

        // The name segment, as written, and its catalog match.
        let name_str = spec.substring_char(0, i);
        proof {
            assert(name_str@ =~= name_part(spec@));
        }
        match lookup(name_str) {
            Some(canon) => Ok(BenchmarkFunction { name: canon.to_owned(), dimension: val }),
            None => Err(ParseError::UnknownFunction(name_str.to_owned())),
        }
    }
}

} // verus!
