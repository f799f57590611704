//! Ordered sets of texts: lists without repeats, in ascending order.

use vstd::prelude::*;

use crate::module_tree_check::scanner;

verus! {

/// How texts are ordered.
#[derive(Clone, Copy, Debug, PartialEq, Eq, Structural)]
pub enum Order {
    /// By characters, as names are.
    Names,
    /// By path components, as paths are: a `/` comes before every character.
    Paths,
}

/// Rank of a character.
pub open spec fn rank(order: Order, c: char) -> int {
    if order is Paths && c == '/' {
        -1
    } else {
        c as int
    }
}

/// Ranks of different characters differ.
proof fn lemma_ranks_differ(order: Order, a: char, b: char)
    requires
        a != b,
    ensures
        rank(order, a) != rank(order, b),
        order is Paths && a == '/' ==> rank(order, a) < rank(order, b),
        order is Paths && b == '/' ==> rank(order, b) < rank(order, a),
{
}

/// `a` comes before `b`: at the first place where they differ `a` has the lower
/// rank, or ends.
pub open spec fn precedes(order: Order, a: Seq<char>, b: Seq<char>) -> bool
    decreases a.len(),
{
    if b.len() == 0 {
        false
    } else if a.len() == 0 {
        true
    } else if a[0] == b[0] {
        precedes(order, a.skip(1), b.skip(1))
    } else {
        rank(order, a[0]) < rank(order, b[0])
    }
}

/// What comes before something that comes before a third comes before it.
pub proof fn lemma_precedes_transitive(order: Order, a: Seq<char>, b: Seq<char>, c: Seq<char>)
    requires
        precedes(order, a, b),
        precedes(order, b, c),
    ensures
        precedes(order, a, c),
    decreases a.len(),
{
    if a.len() > 0 && a[0] == b[0] && b[0] == c[0] {
        lemma_precedes_transitive(order, a.skip(1), b.skip(1), c.skip(1));
    }
}

/// Two different texts come one before the other.
pub proof fn lemma_precedes_total(order: Order, a: Seq<char>, b: Seq<char>)
    requires
        a != b,
    ensures
        precedes(order, a, b) || precedes(order, b, a),
    decreases a.len(),
{
    if a.len() == 0 && b.len() == 0 {
        assert(a =~= b);
    } else if a.len() > 0 && b.len() > 0 && a[0] == b[0] {
        if a.skip(1) == b.skip(1) {
            assert(a =~= seq![a[0]] + a.skip(1));
            assert(b =~= seq![b[0]] + b.skip(1));
        }
        lemma_precedes_total(order, a.skip(1), b.skip(1));
    } else if a.len() > 0 && b.len() > 0 {
        lemma_ranks_differ(order, a[0], b[0]);
    }
}

/// Whether `a` comes before `b`.
fn comes_before(order: Order, a: &String, b: &String) -> (r: bool)
    ensures
        r == precedes(order, a@, b@),
{
    let x: Vec<char> = scanner::chars_of(a.as_str());
    let y: Vec<char> = scanner::chars_of(b.as_str());
    let mut i: usize = 0;
    assert(a@.skip(0) =~= a@ && b@.skip(0) =~= b@);
    while i < x.len() && i < y.len()
        invariant
            i <= x.len(),
            i <= y.len(),
            x@ == a@,
            y@ == b@,
            precedes(order, a@, b@) == precedes(order, a@.skip(i as int), b@.skip(i as int)),
        decreases x.len() - i,
    {
        proof {
            assert(a@.skip(i as int).skip(1) =~= a@.skip(i + 1));
            assert(b@.skip(i as int).skip(1) =~= b@.skip(i + 1));
        }
        if x[i] != y[i] {
            proof {
                lemma_ranks_differ(order, a@[i as int], b@[i as int]);
            }
            if order == Order::Paths && x[i] == '/' {
                return true;
            }
            if order == Order::Paths && y[i] == '/' {
                return false;
            }
            return x[i] < y[i];
        }
        i += 1;
    }
    i < y.len()
}

/// `list` is in ascending order, without repeats.
pub open spec fn ascending(order: Order, list: Seq<String>) -> bool {
    forall|i: int, j: int|
        0 <= i < j < list.len() ==> precedes(
            order,
            (#[trigger] list[i])@,
            (#[trigger] list[j])@,
        )
}

/// `text` is in `list`.
pub open spec fn holds(list: Seq<String>, text: Seq<char>) -> bool {
    exists|i: int| 0 <= i < list.len() && (#[trigger] list[i])@ == text
}

/// Put `text` in its place, unless it is there already.
pub fn insert(order: Order, list: &mut Vec<String>, text: &String)
    requires
        ascending(order, old(list)@),
    ensures
        ascending(order, final(list)@),
        forall|x: Seq<char>| #[trigger]
            holds(final(list)@, x) <==> holds(old(list)@, x) || x == text@,
{
    let ghost before = list@;
    let mut p: usize = 0;
    while p < list.len() && comes_before(order, &list[p], text)
        invariant
            p <= list.len(),
            list@ == before,
            forall|i: int| 0 <= i < p ==> precedes(order, (#[trigger] list@[i])@, text@),
        decreases list.len() - p,
    {
        p += 1;
    }
    if p < list.len() && list[p] == *text {
        assert(holds(before, text@));
        return ;
    }
    proof {
        if p < list.len() {
            lemma_precedes_total(order, list@[p as int]@, text@);
        }
        assert forall|i: int| p <= i < before.len() implies precedes(
            order,
            text@,
            (#[trigger] before[i])@,
        ) by {
            if i > p {
                assert(precedes(order, before[p as int]@, before[i]@));
                lemma_precedes_transitive(order, text@, before[p as int]@, before[i]@);
            }
        }
    }
    list.insert(p, text.clone());
    proof {
        let after = list@;
        assert forall|i: int, j: int| 0 <= i < j < after.len() implies precedes(
            order,
            (#[trigger] after[i])@,
            (#[trigger] after[j])@,
        ) by {
            let i0 = if i < p {
                i
            } else {
                i - 1
            };
            let j0 = if j < p {
                j
            } else {
                j - 1
            };
            if i == p {
                assert(after[j] == before[j0]);
            } else if j == p {
                assert(after[i] == before[i0]);
            } else {
                assert(after[i] == before[i0] && after[j] == before[j0]);
            }
        }
        assert forall|x: Seq<char>| #[trigger] holds(after, x) <==> holds(before, x) || x
            == text@ by {
            if holds(after, x) && x != text@ {
                let i = choose|i: int| 0 <= i < after.len() && (#[trigger] after[i])@ == x;
                if i < p {
                    assert(before[i]@ == x);
                } else {
                    assert(before[i - 1]@ == x);
                }
            }
            if holds(before, x) {
                let i = choose|i: int| 0 <= i < before.len() && (#[trigger] before[i])@ == x;
                if i < p {
                    assert(after[i]@ == x);
                } else {
                    assert(after[i + 1]@ == x);
                }
            }
            assert(after[p as int]@ == text@);
        }
    }
}

} // verus!
