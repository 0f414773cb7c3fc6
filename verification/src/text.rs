//! Character-level definitions: the ASCII case fold and prefix matching.

use vstd::prelude::*;

verus! {

/// The ASCII case fold used for queries: lower-case letters map to their
/// upper-case counterparts, every other character is left unchanged.
/// Function names are drawn from `A`-`Z`, digits, `.` and `_`, so no
/// locale-sensitive casing applies.
pub open spec fn upper_char(c: char) -> char {
    if 'a' <= c && c <= 'z' {
        ((c as u32) - 32) as char
    } else {
        c
    }
}

/// Case-folds a whole string, character by character.
pub open spec fn fold_upper(s: Seq<char>) -> Seq<char> {
    s.map_values(|c: char| upper_char(c))
}

/// Two strings are equal up to case when they fold to the same characters.
pub open spec fn eq_ignore_case(p: Seq<char>, q: Seq<char>) -> bool {
    p.len() == q.len() && (forall|i: int| 0 <= i < p.len() ==> upper_char(p[i]) == upper_char(q[i]))
}

/// `p` is a (character-wise, exact) prefix of `s`.
pub open spec fn is_prefix_of(p: Seq<char>, s: Seq<char>) -> bool {
    p.len() <= s.len() && (forall|i: int| 0 <= i < p.len() ==> p[i] == s[i])
}

pub(crate) fn to_upper(c: char) -> (r: char)
    ensures
        r == upper_char(c),
{
    if 'a' <= c && c <= 'z' {
        ((c as u8) - 32) as char
    } else {
        c
    }
}

/// Case-folds a string into its sequence of upper-cased characters.
pub(crate) fn fold_to_upper(input: &str) -> (r: Vec<char>)
    ensures
        r@ == fold_upper(input@),
{
    let n = input.unicode_len();
    let mut r: Vec<char> = Vec::new();
    let mut i: usize = 0;
    while i < n
        invariant
            n == input@.len(),
            i <= n,
            r@.len() == i,
            forall|j: int| 0 <= j < i ==> r@[j] == upper_char(input@[j]),
        decreases n - i,
    {
        let c = input.get_char(i);
        r.push(to_upper(c));
        i += 1;
    }
    proof {
        assert(r@ =~= fold_upper(input@));
    }
    r
}

/// Whether `name` starts with the characters of `p`.
pub(crate) fn starts_with(name: &str, p: &Vec<char>) -> (r: bool)
    ensures
        r == is_prefix_of(p@, name@),
{
    let n = name.unicode_len();
    if p.len() > n {
        return false;
    }
    let mut i: usize = 0;
    while i < p.len()
        invariant
            p@.len() <= name@.len(),
            n == name@.len(),
            i <= p@.len(),
            forall|j: int| 0 <= j < i ==> p@[j] == name@[j],
        decreases p@.len() - i,
    {
        if name.get_char(i) != p[i] {
            return false;
        }
        i += 1;
    }
    true
}

} // verus!
