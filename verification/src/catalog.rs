//! The fixed catalog of benchmark function families: the predicate that a
//! character sequence is a (canonical, lowercase) family name, and the
//! executable, case-insensitive lookup against it.

use vstd::prelude::*;

use crate::text::{fold_char, fold_char_exec, fold_chars};

verus! {

/// `s` is the canonical (lowercase) name of a catalog family.
///
/// The catalog is fixed: exactly these families are supported.
pub open spec fn is_family(s: Seq<char>) -> bool {
    ||| s == "sphere"@
    ||| s == "rastrigin"@
    ||| s == "ackley"@
    ||| s == "ackley_n4"@
    ||| s == "alpine_n1"@
    ||| s == "alpine_n2"@
    ||| s == "brown"@
    ||| s == "exponential"@
    ||| s == "griewank"@
    ||| s == "happy_cat"@
    ||| s == "periodic"@
    ||| s == "powell_sum"@
    ||| s == "qing"@
    ||| s == "ridge"@
    ||| s == "rosenbrock"@
    ||| s == "salomon"@
    ||| s == "schwefel_220"@
    ||| s == "schwefel_221"@
    ||| s == "schwefel_222"@
    ||| s == "schwefel_223"@
    ||| s == "schwefel"@
    ||| s == "shubert_n3"@
    ||| s == "shubert_n4"@
    ||| s == "shubert"@
    ||| s == "styblinski_tang"@
    ||| s == "sum_squares"@
    ||| s == "yang_n2"@
    ||| s == "yang_n3"@
    ||| s == "yang_n4"@
    ||| s == "zakharov"@
    ||| s == "ackley_n2"@
    ||| s == "ackley_n3"@
    ||| s == "adjiman"@
    ||| s == "bartels_conn"@
    ||| s == "beale"@
    ||| s == "bird"@
    ||| s == "bohachevsky_n1"@
    ||| s == "bohachevsky_n2"@
    ||| s == "booth"@
    ||| s == "brent"@
    ||| s == "bukin_n6"@
    ||| s == "cross_in_tray"@
    ||| s == "deckkers_aarts"@
    ||| s == "drop_wave"@
    ||| s == "easom"@
    ||| s == "egg_crate"@
    ||| s == "goldstein_price"@
    ||| s == "gramacy_lee"@
    ||| s == "himmelblau"@
    ||| s == "holder_table"@
    ||| s == "keane"@
    ||| s == "leon"@
    ||| s == "levi_n13"@
    ||| s == "matyas"@
    ||| s == "mccormick"@
    ||| s == "schaffer_n1"@
    ||| s == "schaffer_n2"@
    ||| s == "schaffer_n3"@
    ||| s == "schaffer_n4"@
    ||| s == "three_hump_camel"@
    ||| s == "wolfe"@
}

/// Compares a name, ASCII-case-folded, against one canonical catalog name.
fn eq_folded(name: &str, canon: &str) -> (r: bool)
    ensures
        r == (fold_chars(name@) == canon@),
{
    let n = name.unicode_len();
    if n != canon.unicode_len() {
        return false;
    }
    let mut i: usize = 0;
    while i < n
        invariant
            n == name@.len(),
            n == canon@.len(),
            i <= n,
            forall|j: int| 0 <= j < i ==> fold_char(#[trigger] name@[j]) == canon@[j],
        decreases n - i,
    {
        let c = name.get_char(i);
        let d = canon.get_char(i);
        if fold_char_exec(c) != d {
            proof {
                assert(fold_chars(name@)[i as int] == fold_char(name@[i as int]));
            }
            return false;
        }
        i += 1;
    }
    proof {
        assert forall|j: int| 0 <= j < n implies fold_chars(name@)[j] == canon@[j] by {
            assert(fold_chars(name@)[j] == fold_char(name@[j]));
        }
        assert(fold_chars(name@) =~= canon@);
    }
    true
}

/// Looks a name up in the catalog, ignoring ASCII letter case.
///
/// Returns the canonical (lowercase) spelling of the family on a match and
/// `None` if the folded name is no catalog family.
pub fn lookup(name: &str) -> (r: Option<&'static str>)
    ensures
        match r {
            Some(canon) => canon@ == fold_chars(name@) && is_family(fold_chars(name@)),
            None => !is_family(fold_chars(name@)),
        },
{
    if eq_folded(name, "sphere") {
        Some("sphere")
    } else if eq_folded(name, "rastrigin") {
        Some("rastrigin")
    } else if eq_folded(name, "ackley") {
        Some("ackley")
    } else if eq_folded(name, "ackley_n4") {
        Some("ackley_n4")
    } else if eq_folded(name, "alpine_n1") {
        Some("alpine_n1")
    } else if eq_folded(name, "alpine_n2") {
        Some("alpine_n2")
    } else if eq_folded(name, "brown") {
        Some("brown")
    } else if eq_folded(name, "exponential") {
        Some("exponential")
    } else if eq_folded(name, "griewank") {
        Some("griewank")
    } else if eq_folded(name, "happy_cat") {
        Some("happy_cat")
    } else if eq_folded(name, "periodic") {
        Some("periodic")
    } else if eq_folded(name, "powell_sum") {
        Some("powell_sum")
    } else if eq_folded(name, "qing") {
        Some("qing")
    } else if eq_folded(name, "ridge") {
        Some("ridge")
    } else if eq_folded(name, "rosenbrock") {
        Some("rosenbrock")
    } else if eq_folded(name, "salomon") {
        Some("salomon")
    } else if eq_folded(name, "schwefel_220") {
        Some("schwefel_220")
    } else if eq_folded(name, "schwefel_221") {
        Some("schwefel_221")
    } else if eq_folded(name, "schwefel_222") {
        Some("schwefel_222")
    } else if eq_folded(name, "schwefel_223") {
        Some("schwefel_223")
    } else if eq_folded(name, "schwefel") {
        Some("schwefel")
    } else if eq_folded(name, "shubert_n3") {
        Some("shubert_n3")
    } else if eq_folded(name, "shubert_n4") {
        Some("shubert_n4")
    } else if eq_folded(name, "shubert") {
        Some("shubert")
    } else if eq_folded(name, "styblinski_tang") {
        Some("styblinski_tang")
    } else if eq_folded(name, "sum_squares") {
        Some("sum_squares")
    } else if eq_folded(name, "yang_n2") {
        Some("yang_n2")
    } else if eq_folded(name, "yang_n3") {
        Some("yang_n3")
    } else if eq_folded(name, "yang_n4") {
        Some("yang_n4")
    } else if eq_folded(name, "zakharov") {
        Some("zakharov")
    } else if eq_folded(name, "ackley_n2") {
        Some("ackley_n2")
    } else if eq_folded(name, "ackley_n3") {
        Some("ackley_n3")
    } else if eq_folded(name, "adjiman") {
        Some("adjiman")
    } else if eq_folded(name, "bartels_conn") {
        Some("bartels_conn")
    } else if eq_folded(name, "beale") {
        Some("beale")
    } else if eq_folded(name, "bird") {
        Some("bird")
    } else if eq_folded(name, "bohachevsky_n1") {
        Some("bohachevsky_n1")
    } else if eq_folded(name, "bohachevsky_n2") {
        Some("bohachevsky_n2")
    } else if eq_folded(name, "booth") {
        Some("booth")
    } else if eq_folded(name, "brent") {
        Some("brent")
    } else if eq_folded(name, "bukin_n6") {
        Some("bukin_n6")
    } else if eq_folded(name, "cross_in_tray") {
        Some("cross_in_tray")
    } else if eq_folded(name, "deckkers_aarts") {
        Some("deckkers_aarts")
    } else if eq_folded(name, "drop_wave") {
        Some("drop_wave")
    } else if eq_folded(name, "easom") {
        Some("easom")
    } else if eq_folded(name, "egg_crate") {
        Some("egg_crate")
    } else if eq_folded(name, "goldstein_price") {
        Some("goldstein_price")
    } else if eq_folded(name, "gramacy_lee") {
        Some("gramacy_lee")
    } else if eq_folded(name, "himmelblau") {
        Some("himmelblau")
    } else if eq_folded(name, "holder_table") {
        Some("holder_table")
    } else if eq_folded(name, "keane") {
        Some("keane")
    } else if eq_folded(name, "leon") {
        Some("leon")
    } else if eq_folded(name, "levi_n13") {
        Some("levi_n13")
    } else if eq_folded(name, "matyas") {
        Some("matyas")
    } else if eq_folded(name, "mccormick") {
        Some("mccormick")
    } else if eq_folded(name, "schaffer_n1") {
        Some("schaffer_n1")
    } else if eq_folded(name, "schaffer_n2") {
        Some("schaffer_n2")
    } else if eq_folded(name, "schaffer_n3") {
        Some("schaffer_n3")
    } else if eq_folded(name, "schaffer_n4") {
        Some("schaffer_n4")
    } else if eq_folded(name, "three_hump_camel") {
        Some("three_hump_camel")
    } else if eq_folded(name, "wolfe") {
        Some("wolfe")
    } else {
        None
    }
}


/// Canonical family names contain no separator character.
pub proof fn lemma_family_sep_free(s: Seq<char>)
    requires
        is_family(s),
    ensures
        crate::text::sep_free(s),
{
    reveal_strlit("sphere");
    reveal_strlit("rastrigin");
    reveal_strlit("ackley");
    reveal_strlit("ackley_n4");
    reveal_strlit("alpine_n1");
    reveal_strlit("alpine_n2");
    reveal_strlit("brown");
    reveal_strlit("exponential");
    reveal_strlit("griewank");
    reveal_strlit("happy_cat");
    reveal_strlit("periodic");
    reveal_strlit("powell_sum");
    reveal_strlit("qing");
    reveal_strlit("ridge");
    reveal_strlit("rosenbrock");
    reveal_strlit("salomon");
    reveal_strlit("schwefel_220");
    reveal_strlit("schwefel_221");
    reveal_strlit("schwefel_222");
    reveal_strlit("schwefel_223");
    reveal_strlit("schwefel");
    reveal_strlit("shubert_n3");
    reveal_strlit("shubert_n4");
    reveal_strlit("shubert");
    reveal_strlit("styblinski_tang");
    reveal_strlit("sum_squares");
    reveal_strlit("yang_n2");
    reveal_strlit("yang_n3");
    reveal_strlit("yang_n4");
    reveal_strlit("zakharov");
    reveal_strlit("ackley_n2");
    reveal_strlit("ackley_n3");
    reveal_strlit("adjiman");
    reveal_strlit("bartels_conn");
    reveal_strlit("beale");
    reveal_strlit("bird");
    reveal_strlit("bohachevsky_n1");
    reveal_strlit("bohachevsky_n2");
    reveal_strlit("booth");
    reveal_strlit("brent");
    reveal_strlit("bukin_n6");
    reveal_strlit("cross_in_tray");
    reveal_strlit("deckkers_aarts");
    reveal_strlit("drop_wave");
    reveal_strlit("easom");
    reveal_strlit("egg_crate");
    reveal_strlit("goldstein_price");
    reveal_strlit("gramacy_lee");
    reveal_strlit("himmelblau");
    reveal_strlit("holder_table");
    reveal_strlit("keane");
    reveal_strlit("leon");
    reveal_strlit("levi_n13");
    reveal_strlit("matyas");
    reveal_strlit("mccormick");
    reveal_strlit("schaffer_n1");
    reveal_strlit("schaffer_n2");
    reveal_strlit("schaffer_n3");
    reveal_strlit("schaffer_n4");
    reveal_strlit("three_hump_camel");
    reveal_strlit("wolfe");
}


/// The canonical names of every supported family, in a fixed order: each
/// listed name is a catalog family, and every catalog family is listed.
pub fn family_names() -> (r: Vec<&'static str>)
    ensures
        r@.len() == 61,
        forall|i: int| 0 <= i < r@.len() ==> is_family(#[trigger] r@[i]@),
        forall|s: Seq<char>| #[trigger] is_family(s) ==> exists|i: int|
            0 <= i < r@.len() && r@[i]@ == s,
{
    let names: Vec<&'static str> = vec![
        "sphere",
        "rastrigin",
        "ackley",
        "ackley_n4",
        "alpine_n1",
        "alpine_n2",
        "brown",
        "exponential",
        "griewank",
        "happy_cat",
        "periodic",
        "powell_sum",
        "qing",
        "ridge",
        "rosenbrock",
        "salomon",
        "schwefel_220",
        "schwefel_221",
        "schwefel_222",
        "schwefel_223",
        "schwefel",
        "shubert_n3",
        "shubert_n4",
        "shubert",
        "styblinski_tang",
        "sum_squares",
        "yang_n2",
        "yang_n3",
        "yang_n4",
        "zakharov",
        "ackley_n2",
        "ackley_n3",
        "adjiman",
        "bartels_conn",
        "beale",
        "bird",
        "bohachevsky_n1",
        "bohachevsky_n2",
        "booth",
        "brent",
        "bukin_n6",
        "cross_in_tray",
        "deckkers_aarts",
        "drop_wave",
        "easom",
        "egg_crate",
        "goldstein_price",
        "gramacy_lee",
        "himmelblau",
        "holder_table",
        "keane",
        "leon",
        "levi_n13",
        "matyas",
        "mccormick",
        "schaffer_n1",
        "schaffer_n2",
        "schaffer_n3",
        "schaffer_n4",
        "three_hump_camel",
        "wolfe",
    ];
    proof {
        assert forall|s: Seq<char>| #[trigger] is_family(s) implies exists|i: int|
            0 <= i < names@.len() && names@[i]@ == s by {
            if s == "sphere"@ {
                assert(names@[0]@ == s);
            }
            if s == "rastrigin"@ {
                assert(names@[1]@ == s);
            }
            if s == "ackley"@ {
                assert(names@[2]@ == s);
            }
            if s == "ackley_n4"@ {
                assert(names@[3]@ == s);
            }
            if s == "alpine_n1"@ {
                assert(names@[4]@ == s);
            }
            if s == "alpine_n2"@ {
                assert(names@[5]@ == s);
            }
            if s == "brown"@ {
                assert(names@[6]@ == s);
            }
            if s == "exponential"@ {
                assert(names@[7]@ == s);
            }
            if s == "griewank"@ {
                assert(names@[8]@ == s);
            }
            if s == "happy_cat"@ {
                assert(names@[9]@ == s);
            }
            if s == "periodic"@ {
                assert(names@[10]@ == s);
            }
            if s == "powell_sum"@ {
                assert(names@[11]@ == s);
            }
            if s == "qing"@ {
                assert(names@[12]@ == s);
            }
            if s == "ridge"@ {
                assert(names@[13]@ == s);
            }
            if s == "rosenbrock"@ {
                assert(names@[14]@ == s);
            }
            if s == "salomon"@ {
                assert(names@[15]@ == s);
            }
            if s == "schwefel_220"@ {
                assert(names@[16]@ == s);
            }
            if s == "schwefel_221"@ {
                assert(names@[17]@ == s);
            }
            if s == "schwefel_222"@ {
                assert(names@[18]@ == s);
            }
            if s == "schwefel_223"@ {
                assert(names@[19]@ == s);
            }
            if s == "schwefel"@ {
                assert(names@[20]@ == s);
            }
            if s == "shubert_n3"@ {
                assert(names@[21]@ == s);
            }
            if s == "shubert_n4"@ {
                assert(names@[22]@ == s);
            }
            if s == "shubert"@ {
                assert(names@[23]@ == s);
            }
            if s == "styblinski_tang"@ {
                assert(names@[24]@ == s);
            }
            if s == "sum_squares"@ {
                assert(names@[25]@ == s);
            }
            if s == "yang_n2"@ {
                assert(names@[26]@ == s);
            }
            if s == "yang_n3"@ {
                assert(names@[27]@ == s);
            }
            if s == "yang_n4"@ {
                assert(names@[28]@ == s);
            }
            if s == "zakharov"@ {
                assert(names@[29]@ == s);
            }
            if s == "ackley_n2"@ {
                assert(names@[30]@ == s);
            }
            if s == "ackley_n3"@ {
                assert(names@[31]@ == s);
            }
            if s == "adjiman"@ {
                assert(names@[32]@ == s);
            }
            if s == "bartels_conn"@ {
                assert(names@[33]@ == s);
            }
            if s == "beale"@ {
                assert(names@[34]@ == s);
            }
            if s == "bird"@ {
                assert(names@[35]@ == s);
            }
            if s == "bohachevsky_n1"@ {
                assert(names@[36]@ == s);
            }
            if s == "bohachevsky_n2"@ {
                assert(names@[37]@ == s);
            }
            if s == "booth"@ {
                assert(names@[38]@ == s);
            }
            if s == "brent"@ {
                assert(names@[39]@ == s);
            }
            if s == "bukin_n6"@ {
                assert(names@[40]@ == s);
            }
            if s == "cross_in_tray"@ {
                assert(names@[41]@ == s);
            }
            if s == "deckkers_aarts"@ {
                assert(names@[42]@ == s);
            }
            if s == "drop_wave"@ {
                assert(names@[43]@ == s);
            }
            if s == "easom"@ {
                assert(names@[44]@ == s);
            }
            if s == "egg_crate"@ {
                assert(names@[45]@ == s);
            }
            if s == "goldstein_price"@ {
                assert(names@[46]@ == s);
            }
            if s == "gramacy_lee"@ {
                assert(names@[47]@ == s);
            }
            if s == "himmelblau"@ {
                assert(names@[48]@ == s);
            }
            if s == "holder_table"@ {
                assert(names@[49]@ == s);
            }
            if s == "keane"@ {
                assert(names@[50]@ == s);
            }
            if s == "leon"@ {
                assert(names@[51]@ == s);
            }
            if s == "levi_n13"@ {
                assert(names@[52]@ == s);
            }
            if s == "matyas"@ {
                assert(names@[53]@ == s);
            }
            if s == "mccormick"@ {
                assert(names@[54]@ == s);
            }
            if s == "schaffer_n1"@ {
                assert(names@[55]@ == s);
            }
            if s == "schaffer_n2"@ {
                assert(names@[56]@ == s);
            }
            if s == "schaffer_n3"@ {
                assert(names@[57]@ == s);
            }
            if s == "schaffer_n4"@ {
                assert(names@[58]@ == s);
            }
            if s == "three_hump_camel"@ {
                assert(names@[59]@ == s);
            }
            if s == "wolfe"@ {
                assert(names@[60]@ == s);
            }
        }
    }
    names
}

} // verus!
