//! The suggestion index: prefix queries over the canonical name list.

use vstd::prelude::*;

use crate::text::fold_to_upper;
use crate::text::fold_upper;
use crate::text::is_prefix_of;
use crate::text::starts_with;
use crate::text::eq_ignore_case;
use crate::text::upper_char;

verus! {

/// The suggestions owed for prefix `p` over the name list `names`: exactly
/// the names that `p` is a prefix of, kept in their original order.
pub open spec fn suggestions_for(names: Seq<Seq<char>>, p: Seq<char>) -> Seq<Seq<char>>
    decreases names.len(),
{
    if names.len() == 0 {
        Seq::empty()
    } else {
        let rest = suggestions_for(names.drop_last(), p);
        if is_prefix_of(p, names.last()) {
            rest.push(names.last())
        } else {
            rest
        }
    }
}

/// Appending one name to the list extends the suggestions by that name
/// exactly when the prefix matches it.
pub proof fn lemma_suggestions_push(names: Seq<Seq<char>>, x: Seq<char>, p: Seq<char>)
    ensures
        suggestions_for(names.push(x), p) == if is_prefix_of(p, x) {
            suggestions_for(names, p).push(x)
        } else {
            suggestions_for(names, p)
        },
{
    assert(names.push(x).drop_last() =~= names);
    assert(names.push(x).last() == x);
}

/// The autocomplete index. It owns a copy of the registry's name list,
/// taken in registry order at construction, and is never mutated after.
pub struct FunctionSuggester {
    function_names: Vec<String>,
}

impl View for FunctionSuggester {
    type V = Seq<Seq<char>>;

    closed spec fn view(&self) -> Seq<Seq<char>> {
        self.function_names.deep_view()
    }
}

impl FunctionSuggester {
    /// Builds the index from the function registry. Deterministic and
    /// total: the index holds exactly the registry's names, in its order.
    pub fn new() -> (r: Self)
        ensures
            r@ == crate::registry::registry(),
    {
        FunctionSuggester { function_names: crate::registry::all_names() }
    }

    /// Answers a prefix query: case-folds `input` and returns every stored
    /// name that starts with the folded input, in registry order. An empty
    /// input matches every name; an input no name starts with yields an
    /// empty list. The result depends on the index contents and the folded
    /// input alone, so repeated identical queries return identical results.
    pub fn suggest(&self, input: &str) -> (r: Vec<String>)
        ensures
            r.deep_view() == suggestions_for(self@, fold_upper(input@)),
    {
        let folded = fold_to_upper(input);
        let mut r: Vec<String> = Vec::new();
        let mut i: usize = 0;
        while i < self.function_names.len()
            invariant
                i <= self.function_names.len(),
                folded@ == fold_upper(input@),
                r.deep_view() == suggestions_for(self@.subrange(0, i as int), folded@),
            decreases self.function_names.len() - i,
        {
            let name = &self.function_names[i];
            let matched = starts_with(name, &folded);
            proof {
                let prefix = self@.subrange(0, i as int);
                lemma_suggestions_push(prefix, self@[i as int], folded@);
                assert(self@.subrange(0, i as int + 1) =~= prefix.push(self@[i as int]));
            }
            if matched {
                r.push(name.clone());
                proof {
                    assert(r.deep_view() =~= suggestions_for(self@.subrange(0, i as int + 1), folded@));
                }
            }
            i += 1;
        }
        proof {
            assert(self@.subrange(0, self@.len() as int) =~= self@);
        }
        r
    }
}

/// Prefix property, and soundness of membership: every suggested name
/// starts with the queried prefix, and is one of the registered names.
pub proof fn lemma_suggestions_sound(names: Seq<Seq<char>>, p: Seq<char>, k: int)
    requires
        0 <= k < suggestions_for(names, p).len(),
    ensures
        is_prefix_of(p, suggestions_for(names, p)[k]),
        names.contains(suggestions_for(names, p)[k]),
    decreases names.len(),
{
    let rest = suggestions_for(names.drop_last(), p);
    if is_prefix_of(p, names.last()) && k == rest.len() {
        assert(names.contains(names.last()));
    } else {
        lemma_suggestions_sound(names.drop_last(), p, k);
        let x = suggestions_for(names.drop_last(), p)[k];
        let j = choose|j: int| 0 <= j < names.drop_last().len() && names.drop_last()[j] == x;
        assert(names[j] == x);
    }
}

/// Completeness of membership: every registered name the prefix matches
/// is among the suggestions.
pub proof fn lemma_suggestions_complete(names: Seq<Seq<char>>, p: Seq<char>, i: int)
    requires
        0 <= i < names.len(),
        is_prefix_of(p, names[i]),
    ensures
        suggestions_for(names, p).contains(names[i]),
    decreases names.len(),
{
    let rest = suggestions_for(names.drop_last(), p);
    if i == names.len() - 1 {
        assert(suggestions_for(names, p)[rest.len() as int] == names[i]);
        assert(suggestions_for(names, p).contains(names[i]));
    } else {
        assert(names.drop_last()[i] == names[i]);
        lemma_suggestions_complete(names.drop_last(), p, i);
        let k = choose|k: int| 0 <= k < rest.len() && rest[k] == names[i];
        assert(suggestions_for(names, p)[k] == names[i]);
        assert(suggestions_for(names, p).contains(names[i]));
    }
}

/// Every canonical name is reachable through its own first character:
/// querying just that character suggests the name.
pub proof fn lemma_first_char_reaches(names: Seq<Seq<char>>, i: int)
    requires
        0 <= i < names.len(),
        names[i].len() >= 1,
        fold_upper(names[i]) == names[i],
    ensures
        suggestions_for(names, fold_upper(names[i].subrange(0, 1))).contains(names[i]),
{
    let n = names[i];
    let p0 = n.subrange(0, 1);
    assert(fold_upper(n)[0] == upper_char(n[0]));
    assert(fold_upper(p0) =~= p0);
    assert(is_prefix_of(p0, n));
    lemma_suggestions_complete(names, p0, i);
}

/// An empty input matches every name: the whole list comes back, in its
/// original order, with no omissions and nothing added.
pub proof fn lemma_empty_input(names: Seq<Seq<char>>, p: Seq<char>)
    requires
        p.len() == 0,
    ensures
        suggestions_for(names, fold_upper(p)) == names,
    decreases names.len(),
{
    if names.len() == 0 {
        assert(suggestions_for(names, fold_upper(p)) =~= names);
    } else {
        lemma_empty_input(names.drop_last(), p);
        assert(is_prefix_of(fold_upper(p), names.last()));
        assert(names.drop_last().push(names.last()) =~= names);
    }
}

/// Case-insensitivity: two inputs that are equal up to ASCII case fold to
/// the same prefix and therefore receive identical suggestions.
pub proof fn lemma_case_insensitive(names: Seq<Seq<char>>, p: Seq<char>, q: Seq<char>)
    requires
        eq_ignore_case(p, q),
    ensures
        suggestions_for(names, fold_upper(p)) == suggestions_for(names, fold_upper(q)),
{
    assert(fold_upper(p) =~= fold_upper(q));
}

/// No-match property: when no registered name starts with the folded
/// input, the suggestions are empty.
pub proof fn lemma_no_match(names: Seq<Seq<char>>, p: Seq<char>)
    requires
        forall|i: int| 0 <= i < names.len() ==> !is_prefix_of(p, #[trigger] names[i]),
    ensures
        suggestions_for(names, p) == Seq::<Seq<char>>::empty(),
    decreases names.len(),
{
    if names.len() == 0 {
        assert(suggestions_for(names, p) =~= Seq::<Seq<char>>::empty());
    } else {
        assert(forall|i: int|
            0 <= i < names.drop_last().len() ==> names.drop_last()[i] == names[i]);
        lemma_no_match(names.drop_last(), p);
        assert(!is_prefix_of(p, names[names.len() - 1]));
    }
}

/// Determinism: the suggestions are a function of the name list and the
/// folded input alone, so repeated identical queries return identical,
/// identically ordered results.
pub proof fn lemma_deterministic(
    names: Seq<Seq<char>>,
    p: Seq<char>,
    r1: Seq<Seq<char>>,
    r2: Seq<Seq<char>>,
)
    requires
        r1 == suggestions_for(names, fold_upper(p)),
        r2 == suggestions_for(names, fold_upper(p)),
    ensures
        r1 == r2,
{
}

} // verus!

