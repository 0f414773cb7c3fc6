//! The function registry: the closed, ordered catalog of every built-in
//! function's canonical upper-case name.

use vstd::prelude::*;

use crate::text::fold_upper;

verus! {

/// The registry's contents, in declaration order. This is the single
/// source of truth the suggestion index is built from: finite, fixed at
/// build time, duplicate-free (see `lemma_registry_distinct`) and already
/// canonical upper-case (see `lemma_registry_canonical`).
pub open spec fn registry() -> Seq<Seq<char>> {
    seq![
        "ABS"@,
        "AND"@,
        "AVERAGE"@,
        "CEILING"@,
        "CONCAT"@,
        "COS"@,
        "COUNT"@,
        "COUNTA"@,
        "COUNTIF"@,
        "FALSE"@,
        "FLOOR"@,
        "IF"@,
        "IFERROR"@,
        "ISBLANK"@,
        "ISNUMBER"@,
        "LEFT"@,
        "LEN"@,
        "LOWER"@,
        "MAX"@,
        "MID"@,
        "MIN"@,
        "MOD"@,
        "NOT"@,
        "OR"@,
        "PI"@,
        "POWER"@,
        "PRODUCT"@,
        "RIGHT"@,
        "ROUND"@,
        "SIN"@,
        "SQRT"@,
        "SUM"@,
        "SUMIF"@,
        "SUMIFS"@,
        "TAN"@,
        "TRIM"@,
        "TRUE"@,
        "UPPER"@,
        "VLOOKUP"@,
    ]
}

/// Enumerates the registry as owned strings, in declaration order.
pub fn all_names() -> (r: Vec<String>)
    ensures
        r.deep_view() == registry(),
{
    let mut r: Vec<String> = Vec::new();
    r.push(String::from_str("ABS"));
    r.push(String::from_str("AND"));
    r.push(String::from_str("AVERAGE"));
    r.push(String::from_str("CEILING"));
    r.push(String::from_str("CONCAT"));
    r.push(String::from_str("COS"));
    r.push(String::from_str("COUNT"));
    r.push(String::from_str("COUNTA"));
    r.push(String::from_str("COUNTIF"));
    r.push(String::from_str("FALSE"));
    r.push(String::from_str("FLOOR"));
    r.push(String::from_str("IF"));
    r.push(String::from_str("IFERROR"));
    r.push(String::from_str("ISBLANK"));
    r.push(String::from_str("ISNUMBER"));
    r.push(String::from_str("LEFT"));
    r.push(String::from_str("LEN"));
    r.push(String::from_str("LOWER"));
    r.push(String::from_str("MAX"));
    r.push(String::from_str("MID"));
    r.push(String::from_str("MIN"));
    r.push(String::from_str("MOD"));
    r.push(String::from_str("NOT"));
    r.push(String::from_str("OR"));
    r.push(String::from_str("PI"));
    r.push(String::from_str("POWER"));
    r.push(String::from_str("PRODUCT"));
    r.push(String::from_str("RIGHT"));
    r.push(String::from_str("ROUND"));
    r.push(String::from_str("SIN"));
    r.push(String::from_str("SQRT"));
    r.push(String::from_str("SUM"));
    r.push(String::from_str("SUMIF"));
    r.push(String::from_str("SUMIFS"));
    r.push(String::from_str("TAN"));
    r.push(String::from_str("TRIM"));
    r.push(String::from_str("TRUE"));
    r.push(String::from_str("UPPER"));
    r.push(String::from_str("VLOOKUP"));
    proof {
        assert(r.deep_view() =~= registry());
    }
    r
}

/// Every registry name is canonical: nonempty and already upper-case, so
/// the query's case fold leaves it unchanged.
pub proof fn lemma_registry_canonical()
    ensures
        forall|i: int| 0 <= i < registry().len() ==> {
            &&& fold_upper(#[trigger] registry()[i]) == registry()[i]
            &&& registry()[i].len() >= 1
        },
{
    reveal_strlit("ABS");
    reveal_strlit("AND");
    reveal_strlit("AVERAGE");
    reveal_strlit("CEILING");
    reveal_strlit("CONCAT");
    reveal_strlit("COS");
    reveal_strlit("COUNT");
    reveal_strlit("COUNTA");
    reveal_strlit("COUNTIF");
    reveal_strlit("FALSE");
    reveal_strlit("FLOOR");
    reveal_strlit("IF");
    reveal_strlit("IFERROR");
    reveal_strlit("ISBLANK");
    reveal_strlit("ISNUMBER");
    reveal_strlit("LEFT");
    reveal_strlit("LEN");
    reveal_strlit("LOWER");
    reveal_strlit("MAX");
    reveal_strlit("MID");
    reveal_strlit("MIN");
    reveal_strlit("MOD");
    reveal_strlit("NOT");
    reveal_strlit("OR");
    reveal_strlit("PI");
    reveal_strlit("POWER");
    reveal_strlit("PRODUCT");
    reveal_strlit("RIGHT");
    reveal_strlit("ROUND");
    reveal_strlit("SIN");
    reveal_strlit("SQRT");
    reveal_strlit("SUM");
    reveal_strlit("SUMIF");
    reveal_strlit("SUMIFS");
    reveal_strlit("TAN");
    reveal_strlit("TRIM");
    reveal_strlit("TRUE");
    reveal_strlit("UPPER");
    reveal_strlit("VLOOKUP");
    assert forall|i: int| 0 <= i < registry().len() implies {
        &&& fold_upper(#[trigger] registry()[i]) == registry()[i]
        &&& registry()[i].len() >= 1
    } by {
        assert(fold_upper(registry()[i]) =~= registry()[i]);
    }
}

/// The registry holds no duplicate: each canonical name is declared once.
pub proof fn lemma_registry_distinct()
    ensures
        forall|i: int, j: int|
            0 <= i < j < registry().len() ==> registry()[i] != registry()[j],
{
    reveal_strlit("ABS");
    reveal_strlit("AND");
    reveal_strlit("AVERAGE");
    reveal_strlit("CEILING");
    reveal_strlit("CONCAT");
    reveal_strlit("COS");
    reveal_strlit("COUNT");
    reveal_strlit("COUNTA");
    reveal_strlit("COUNTIF");
    reveal_strlit("FALSE");
    reveal_strlit("FLOOR");
    reveal_strlit("IF");
    reveal_strlit("IFERROR");
    reveal_strlit("ISBLANK");
    reveal_strlit("ISNUMBER");
    reveal_strlit("LEFT");
    reveal_strlit("LEN");
    reveal_strlit("LOWER");
    reveal_strlit("MAX");
    reveal_strlit("MID");
    reveal_strlit("MIN");
    reveal_strlit("MOD");
    reveal_strlit("NOT");
    reveal_strlit("OR");
    reveal_strlit("PI");
    reveal_strlit("POWER");
    reveal_strlit("PRODUCT");
    reveal_strlit("RIGHT");
    reveal_strlit("ROUND");
    reveal_strlit("SIN");
    reveal_strlit("SQRT");
    reveal_strlit("SUM");
    reveal_strlit("SUMIF");
    reveal_strlit("SUMIFS");
    reveal_strlit("TAN");
    reveal_strlit("TRIM");
    reveal_strlit("TRUE");
    reveal_strlit("UPPER");
    reveal_strlit("VLOOKUP");
    assert forall|i: int, j: int|
        0 <= i < j < registry().len() implies registry()[i] != registry()[j] by {
        let a = registry()[i];
        let b = registry()[j];
        if a.len() == b.len() {
            if a.len() >= 3 {
                assert(a[0] != b[0] || a[1] != b[1] || a[2] != b[2]);
            } else {
                assert(a[0] != b[0]);
            }
        }
    }
}

} // verus!
