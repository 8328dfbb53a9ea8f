//! Picking places out of a list by a rule.

use vstd::prelude::*;

verus! {

/// Does the rule hold of the place?
pub open spec fn obeys(rule: spec_fn(int) -> bool, k: usize) -> bool {
    rule(k as int)
}

/// The first place from `k` on, before `n`, that the rule holds of.
pub open spec fn first(rule: spec_fn(int) -> bool, k: int, n: int) -> Option<usize>
    decreases n - k,
{
    if k >= n {
        None
    } else if rule(k) {
        Some(k as usize)
    } else {
        first(rule, k + 1, n)
    }
}

/// The places from `k` on, before `n`, that the rule holds of, in order.
pub open spec fn picked(rule: spec_fn(int) -> bool, k: int, n: int) -> Seq<usize>
    decreases n - k,
{
    if k >= n {
        Seq::empty()
    } else if rule(k) {
        seq![k as usize] + picked(rule, k + 1, n)
    } else {
        picked(rule, k + 1, n)
    }
}

/// What is found is there, and nothing before it would do.
pub proof fn first_is_first(rule: spec_fn(int) -> bool, k: int, n: int)
    requires
        0 <= k,
        n <= usize::MAX,
    ensures
        first(rule, k, n) is None <==> forall|j: int| k <= j < n ==> !#[trigger] rule(j),
        first(rule, k, n) is Some ==> k <= first(rule, k, n)->0 < n && rule(
            first(rule, k, n)->0 as int,
        ) && forall|j: int| k <= j < first(rule, k, n)->0 ==> !#[trigger] rule(j),
    decreases n - k,
{
    if k < n && !rule(k) {
        first_is_first(rule, k + 1, n);
    }
}

/// Rules that agree between the bounds find and pick the same.
pub proof fn like_rules_pick_alike(
    a: spec_fn(int) -> bool,
    b: spec_fn(int) -> bool,
    k: int,
    n: int,
)
    requires
        forall|j: int| k <= j < n ==> #[trigger] a(j) == b(j),
    ensures
        first(a, k, n) == first(b, k, n),
        picked(a, k, n) == picked(b, k, n),
    decreases n - k,
{
    if k < n {
        assert(a(k) == b(k));
        like_rules_pick_alike(a, b, k + 1, n);
    }
}

/// What is picked obeys the rule and lies between the bounds.
pub proof fn picked_obey(rule: spec_fn(int) -> bool, k: int, n: int)
    requires
        0 <= k,
        n <= usize::MAX,
    ensures
        forall|j: int|
            0 <= j < picked(rule, k, n).len() ==> k <= #[trigger] picked(rule, k, n)[j] < n && rule(
                picked(rule, k, n)[j] as int,
            ),
        picked(rule, k, n).len() <= if k < n { n - k } else { 0 },
    decreases n - k,
{
    if k < n {
        picked_obey(rule, k + 1, n);
        assert forall|j: int| 0 <= j < picked(rule, k, n).len() implies k <= #[trigger] picked(
            rule,
            k,
            n,
        )[j] < n && rule(picked(rule, k, n)[j] as int) by {
            if rule(k) {
                if j > 0 {
                    assert(picked(rule, k, n)[j] == picked(rule, k + 1, n)[j - 1]);
                }
            } else {
                assert(picked(rule, k, n)[j] == picked(rule, k + 1, n)[j]);
            }
        }
    }
}

/// The first place below `n` that passes a test, where the test is the rule.
pub fn find<F: Fn(usize) -> bool>(
    n: usize,
    test: F,
    Ghost(rule): Ghost<spec_fn(int) -> bool>,
) -> (found: Option<usize>)
    requires
        forall|k: usize| k < n ==> #[trigger] test.requires((k,)),
        forall|k: usize, yes: bool|
            k < n && #[trigger] test.ensures((k,), yes) ==> yes == obeys(rule, k),
    ensures
        found == first(rule, 0, n as int),
        found is Some ==> found->0 < n && rule(found->0 as int),
{
    let mut k: usize = 0;
    while k < n
        invariant
            k <= n,
            forall|k: usize| k < n ==> #[trigger] test.requires((k,)),
            forall|k: usize, yes: bool|
                k < n && #[trigger] test.ensures((k,), yes) ==> yes == obeys(rule, k),
            first(rule, k as int, n as int) == first(rule, 0, n as int),
        decreases n - k,
    {
        if test(k) {
            return Some(k);
        }
        k = k + 1;
    }
    None
}

/// The places below `n` that pass a test, where the test is the rule.
pub fn pick<F: Fn(usize) -> bool>(
    n: usize,
    test: F,
    Ghost(rule): Ghost<spec_fn(int) -> bool>,
) -> (places: Vec<usize>)
    requires
        forall|k: usize| k < n ==> #[trigger] test.requires((k,)),
        forall|k: usize, yes: bool|
            k < n && #[trigger] test.ensures((k,), yes) ==> yes == obeys(rule, k),
    ensures
        places@ == picked(rule, 0, n as int),
        forall|j: int| 0 <= j < places@.len() ==> #[trigger] places@[j] < n,
{
    let mut places: Vec<usize> = Vec::new();
    let mut k: usize = 0;
    while k < n
        invariant
            k <= n,
            forall|k: usize| k < n ==> #[trigger] test.requires((k,)),
            forall|k: usize, yes: bool|
                k < n && #[trigger] test.ensures((k,), yes) ==> yes == obeys(rule, k),
            places@ + picked(rule, k as int, n as int) == picked(rule, 0, n as int),
            forall|j: int| 0 <= j < places@.len() ==> #[trigger] places@[j] < n,
        decreases n - k,
    {
        if test(k) {
            let ghost before = places@;
            places.push(k);
            assert(before + picked(rule, k as int, n as int) =~= places@ + picked(
                rule,
                k + 1,
                n as int,
            ));
        }
        k = k + 1;
    }
    assert(places@ =~= picked(rule, 0, n as int));
    places
}

} // verus!
