//! Sums over finite sets.

use vstd::prelude::*;

verus! {

/// Sum of `f` over the elements of `s`; zero where `s` is not finite.
pub open spec fn sum_over<A>(s: Set<A>, f: spec_fn(A) -> int) -> int
    decreases s.len(),
{
    if !s.finite() || s.len() == 0 {
        0
    } else {
        let a = s.choose();
        f(a) + sum_over(s.remove(a), f)
    }
}

/// Any element can be taken out of a sum first.
pub proof fn lemma_sum_split<A>(s: Set<A>, f: spec_fn(A) -> int, a: A)
    requires
        s.finite(),
        s.contains(a),
    ensures
        sum_over(s, f) == f(a) + sum_over(s.remove(a), f),
    decreases s.len(),
{
    let b = s.choose();
    if s.len() == 0 {
        vstd::set_lib::lemma_set_empty_equivalency_len(s);
    }
    if a != b {
        lemma_sum_split(s.remove(b), f, a);
        lemma_sum_split(s.remove(a), f, b);
        assert(s.remove(b).remove(a) =~= s.remove(a).remove(b));
    }
}

/// Functions that agree on a set have the same sum over it.
pub proof fn lemma_sum_same<A>(s: Set<A>, f: spec_fn(A) -> int, g: spec_fn(A) -> int)
    requires
        forall|a: A| s.contains(a) ==> #[trigger] f(a) == g(a),
    ensures
        sum_over(s, f) == sum_over(s, g),
    decreases s.len(),
{
    if s.finite() && s.len() > 0 {
        let a = s.choose();
        assert(f(a) == g(a));
        lemma_sum_same(s.remove(a), f, g);
    }
}

/// Changing a function at one element of the set changes the sum by the same.
pub proof fn lemma_sum_update<A>(s: Set<A>, f: spec_fn(A) -> int, g: spec_fn(A) -> int, a: A)
    requires
        s.finite(),
        s.contains(a),
        forall|b: A| s.contains(b) && b != a ==> #[trigger] f(b) == g(b),
    ensures
        sum_over(s, g) == sum_over(s, f) - f(a) + g(a),
{
    lemma_sum_split(s, f, a);
    lemma_sum_split(s, g, a);
    lemma_sum_same(s.remove(a), f, g);
}

/// A common factor can be taken out of a sum, next to a second function.
pub proof fn lemma_sum_linear<A>(
    s: Set<A>,
    f: spec_fn(A) -> int,
    g: spec_fn(A) -> int,
    h: spec_fn(A) -> int,
    c: int,
)
    requires
        forall|a: A| s.contains(a) ==> #[trigger] h(a) == f(a) + c * g(a),
    ensures
        sum_over(s, h) == sum_over(s, f) + c * sum_over(s, g),
    decreases s.len(),
{
    if s.finite() && s.len() > 0 {
        let a = s.choose();
        assert(h(a) == f(a) + c * g(a));
        lemma_sum_linear(s.remove(a), f, g, h, c);
        assert(c * (g(a) + sum_over(s.remove(a), g)) == c * g(a) + c * sum_over(s.remove(a), g))
            by (nonlinear_arith);
    }
}

/// A sum of values that are not negative is at least each of them.
pub proof fn lemma_sum_bounds<A>(s: Set<A>, f: spec_fn(A) -> int, a: A)
    requires
        s.finite(),
        s.contains(a),
        forall|b: A| s.contains(b) ==> #[trigger] f(b) >= 0,
    ensures
        f(a) <= sum_over(s, f),
{
    lemma_sum_split(s, f, a);
    lemma_sum_nonnegative(s.remove(a), f);
}

/// A sum of values that are not negative is not negative.
pub proof fn lemma_sum_nonnegative<A>(s: Set<A>, f: spec_fn(A) -> int)
    requires
        forall|b: A| s.contains(b) ==> #[trigger] f(b) >= 0,
    ensures
        0 <= sum_over(s, f),
    decreases s.len(),
{
    if s.finite() && s.len() > 0 {
        let a = s.choose();
        assert(f(a) >= 0);
        lemma_sum_nonnegative(s.remove(a), f);
    }
}

} // verus!
