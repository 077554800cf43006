//! Ranks and the stable ordering of ranked items.
//!
//! Every provider that orders its results gives each item a [`Rank`]; the
//! order of the items is then the stable sort of their ranks.

use vstd::prelude::*;
use crate::text::{lex_lt, less_than};

verus! {

/// The place of an item among its peers.  Ranks compare by higher `score`,
/// then higher `uses`, then lower `demerit`, then lower `depth`, then by the
/// lexicographically smaller `label`.
pub struct Rank {
    pub score: i64,
    pub uses: u32,
    pub demerit: u64,
    pub depth: usize,
    pub label: Vec<char>,
}

/// The mathematical value of a [`Rank`].
pub struct RankView {
    pub score: i64,
    pub uses: u32,
    pub demerit: u64,
    pub depth: usize,
    pub label: Seq<char>,
}

impl View for Rank {
    type V = RankView;

    open spec fn view(&self) -> RankView {
        RankView {
            score: self.score,
            uses: self.uses,
            demerit: self.demerit,
            depth: self.depth,
            label: self.label@,
        }
    }
}

/// `a` must be listed before `b`.
pub open spec fn outranks(a: RankView, b: RankView) -> bool {
    if a.score != b.score {
        a.score > b.score
    } else if a.uses != b.uses {
        a.uses > b.uses
    } else if a.demerit != b.demerit {
        a.demerit < b.demerit
    } else if a.depth != b.depth {
        a.depth < b.depth
    } else {
        lex_lt(a.label, b.label)
    }
}

/// The views of a list of ranks.
pub open spec fn rank_views(ranks: Seq<Rank>) -> Seq<RankView> {
    ranks.map_values(|r: Rank| r@)
}

/// A list of indices as mathematical integers.
pub open spec fn ints(s: Seq<usize>) -> Seq<int> {
    s.map_values(|i: usize| i as int)
}

/// Where the index `x` is inserted into the ordered list `order`: before the
/// first index whose rank `x`'s rank outranks, so after all its equals.
pub open spec fn insert_point(order: Seq<int>, ranks: Seq<RankView>, x: int) -> int
    decreases order.len(),
{
    if order.len() == 0 || outranks(ranks[x], ranks[order[0]]) {
        0
    } else {
        1 + insert_point(order.skip(1), ranks, x)
    }
}

/// The stable order of the first `n` indices of `ranks`.
pub open spec fn order_upto(ranks: Seq<RankView>, n: nat) -> Seq<int>
    decreases n,
{
    if n == 0 {
        Seq::<int>::empty()
    } else {
        let before = order_upto(ranks, (n - 1) as nat);
        before.insert(insert_point(before, ranks, n - 1), n - 1)
    }
}

/// The indices of `ranks` in ranked order: an index comes before another if
/// its rank outranks the other's, and equal ranks keep their input order.
pub open spec fn sort_order(ranks: Seq<RankView>) -> Seq<int> {
    order_upto(ranks, ranks.len())
}

/// The items of `items` picked in the order that `order` gives.
pub open spec fn picked<T>(items: Seq<T>, order: Seq<int>) -> Seq<T> {
    Seq::new(order.len(), |i: int| items[order[i]])
}

/// The insert point lies in the list, after the indices that the new one
/// does not outrank and before one that it outranks.
pub proof fn lemma_insert_point_bounds(order: Seq<int>, ranks: Seq<RankView>, x: int)
    ensures
        0 <= insert_point(order, ranks, x) <= order.len(),
        forall|j: int|
            0 <= j < insert_point(order, ranks, x) ==> !outranks(ranks[x], ranks[#[trigger] order[j]]),
        insert_point(order, ranks, x) < order.len() ==> outranks(
            ranks[x],
            ranks[order[insert_point(order, ranks, x)]],
        ),
    decreases order.len(),
{
    if order.len() == 0 || outranks(ranks[x], ranks[order[0]]) {
    } else {
        lemma_insert_point_bounds(order.skip(1), ranks, x);
        let p = insert_point(order.skip(1), ranks, x);
        assert forall|j: int| 0 <= j < p + 1 implies !outranks(ranks[x], ranks[#[trigger] order[j]]) by {
            if j > 0 {
                assert(order[j] == order.skip(1)[j - 1]);
            }
        }
        if p + 1 < order.len() {
            assert(order[p + 1] == order.skip(1)[p]);
        }
    }
}

/// The ranked order lists every index of the input exactly once.
pub proof fn lemma_order_is_permutation(ranks: Seq<RankView>, n: nat)
    ensures
        order_upto(ranks, n).len() == n,
        forall|i: int| 0 <= i < n ==> 0 <= #[trigger] order_upto(ranks, n)[i] < n,
        order_upto(ranks, n).no_duplicates(),
        forall|x: int| 0 <= x < n ==> order_upto(ranks, n).contains(x),
    decreases n,
{
    if n > 0 {
        let before = order_upto(ranks, (n - 1) as nat);
        lemma_order_is_permutation(ranks, (n - 1) as nat);
        let p = insert_point(before, ranks, n - 1);
        lemma_insert_point_bounds(before, ranks, n - 1);
        let after = before.insert(p, n - 1);
        assert(after == order_upto(ranks, n));
        assert forall|x: int| 0 <= x < n implies after.contains(x) by {
            if x == n - 1 {
                assert(after[p] == x);
            } else {
                assert(before.contains(x));
                let j = choose|j: int| 0 <= j < before.len() && before[j] == x;
                if j < p {
                    assert(after[j] == x);
                } else {
                    assert(after[j + 1] == x);
                }
            }
        }
    }
}

/// Whether `order` lists indices of `ranks` so that no later one outranks an
/// earlier one.
pub open spec fn is_ranked(order: Seq<int>, ranks: Seq<RankView>) -> bool {
    forall|i: int, j: int|
        0 <= i < j < order.len() ==> !outranks(ranks[#[trigger] order[j]], ranks[#[trigger] order[i]])
}

/// Whether equal ranks appear in `order` in the order of their indices.
pub open spec fn is_stable(order: Seq<int>, ranks: Seq<RankView>) -> bool {
    forall|i: int, j: int|
        0 <= i < j < order.len() && !outranks(ranks[#[trigger] order[i]], ranks[#[trigger] order[j]])
            ==> order[i] < order[j]
}

/// No string precedes itself.
pub proof fn lemma_lex_lt_irreflexive(a: Seq<char>)
    ensures
        !lex_lt(a, a),
    decreases a.len(),
{
    if a.len() > 0 {
        lemma_lex_lt_irreflexive(a.skip(1));
    }
}

/// The order of strings is transitive.
pub proof fn lemma_lex_lt_transitive(a: Seq<char>, b: Seq<char>, c: Seq<char>)
    requires
        lex_lt(a, b),
        lex_lt(b, c),
    ensures
        lex_lt(a, c),
    decreases a.len(),
{
    if a.len() > 0 && b.len() > 0 && c.len() > 0 {
        if a[0] == b[0] && b[0] == c[0] {
            lemma_lex_lt_transitive(a.skip(1), b.skip(1), c.skip(1));
        }
    }
}

/// Two different strings are ordered one way or the other.
pub proof fn lemma_lex_lt_total(a: Seq<char>, b: Seq<char>)
    ensures
        lex_lt(a, b) || lex_lt(b, a) || a == b,
    decreases a.len(),
{
    if a.len() > 0 && b.len() > 0 {
        if a[0] == b[0] {
            lemma_lex_lt_total(a.skip(1), b.skip(1));
            if a.skip(1) == b.skip(1) {
                assert(a =~= seq![a[0]] + a.skip(1));
                assert(b =~= seq![b[0]] + b.skip(1));
            }
        }
    } else if a.len() == 0 && b.len() == 0 {
        assert(a =~= b);
    }
}

/// `outranks` is a strict order: nothing outranks itself, and it is
/// transitive.
pub proof fn lemma_outranks_strict(a: RankView, b: RankView, c: RankView)
    ensures
        !outranks(a, a),
        outranks(a, b) && outranks(b, c) ==> outranks(a, c),
        !outranks(a, b) && !outranks(b, c) ==> !outranks(a, c),
{
    lemma_lex_lt_irreflexive(a.label);
    if outranks(a, b) && outranks(b, c) {
        if a.score == b.score && b.score == c.score && a.uses == b.uses && b.uses == c.uses
            && a.demerit == b.demerit && b.demerit == c.demerit && a.depth == b.depth && b.depth
            == c.depth {
            lemma_lex_lt_transitive(a.label, b.label, c.label);
        }
    }
    if !outranks(a, b) && !outranks(b, c) && outranks(a, c) {
        if a.score == b.score && b.score == c.score && a.uses == b.uses && b.uses == c.uses
            && a.demerit == b.demerit && b.demerit == c.demerit && a.depth == b.depth && b.depth
            == c.depth {
            lemma_lex_lt_total(a.label, b.label);
            lemma_lex_lt_total(b.label, c.label);
            if lex_lt(b.label, a.label) && lex_lt(c.label, b.label) {
                lemma_lex_lt_transitive(c.label, b.label, a.label);
                lemma_lex_lt_transitive(a.label, c.label, a.label);
            }
        }
    }
}

/// The ranked order is sorted and stable.
pub proof fn lemma_order_is_ranked(ranks: Seq<RankView>, n: nat)
    ensures
        is_ranked(order_upto(ranks, n), ranks),
        is_stable(order_upto(ranks, n), ranks),
    decreases n,
{
    if n > 0 {
        let before = order_upto(ranks, (n - 1) as nat);
        lemma_order_is_ranked(ranks, (n - 1) as nat);
        lemma_order_is_permutation(ranks, (n - 1) as nat);
        let x = n - 1;
        let p = insert_point(before, ranks, x);
        lemma_insert_point_bounds(before, ranks, x);
        let after = before.insert(p, x);
        assert forall|i: int, j: int| 0 <= i < j < after.len() implies !outranks(
            ranks[#[trigger] after[j]],
            ranks[#[trigger] after[i]],
        ) by {
            if j == p {
                assert(after[i] == before[i]);
            } else if i == p {
                // The new index outranks the one at `p`, which no later one outranks.
                assert(after[j] == before[j - 1]);
                if j - 1 > p {
                    assert(!outranks(ranks[before[j - 1]], ranks[before[p]]));
                }
                lemma_outranks_strict(ranks[before[j - 1]], ranks[x], ranks[before[p]]);
                lemma_outranks_strict(ranks[x], ranks[before[p]], ranks[x]);
            } else {
                let bi = if i < p { i } else { i - 1 };
                let bj = if j < p { j } else { j - 1 };
                assert(after[i] == before[bi]);
                assert(after[j] == before[bj]);
            }
        }
        assert forall|i: int, j: int|
            0 <= i < j < after.len() && !outranks(
                ranks[#[trigger] after[i]],
                ranks[#[trigger] after[j]],
            ) implies after[i] < after[j] by {
            if j == p {
                assert(after[i] == before[i]);
            } else if i == p {
                // The new index outranks every index that comes after it.
                assert(after[j] == before[j - 1]);
                if j - 1 > p {
                    assert(!outranks(ranks[before[j - 1]], ranks[before[p]]));
                    lemma_outranks_strict(ranks[x], ranks[before[j - 1]], ranks[before[p]]);
                }
            } else {
                let bi = if i < p { i } else { i - 1 };
                let bj = if j < p { j } else { j - 1 };
                assert(after[i] == before[bi]);
                assert(after[j] == before[bj]);
            }
        }
    }
}

/// The ranked order of a list of ranks is a permutation of its indices in
/// which no item is outranked by a later one and ties keep their input order.
pub proof fn lemma_sort_order(ranks: Seq<RankView>)
    ensures
        sort_order(ranks).len() == ranks.len(),
        sort_order(ranks).no_duplicates(),
        forall|i: int| 0 <= i < ranks.len() ==> 0 <= #[trigger] sort_order(ranks)[i] < ranks.len(),
        forall|x: int| 0 <= x < ranks.len() ==> sort_order(ranks).contains(x),
        is_ranked(sort_order(ranks), ranks),
        is_stable(sort_order(ranks), ranks),
{
    lemma_order_is_permutation(ranks, ranks.len());
    lemma_order_is_ranked(ranks, ranks.len());
}

impl Rank {
    /// Whether `self` must be listed before `other`.
    pub fn precedes(&self, other: &Rank) -> (r: bool)
        ensures
            r == outranks(self@, other@),
    {
        if self.score != other.score {
            self.score > other.score
        } else if self.uses != other.uses {
            self.uses > other.uses
        } else if self.demerit != other.demerit {
            self.demerit < other.demerit
        } else if self.depth != other.depth {
            self.depth < other.depth
        } else {
            less_than(&self.label, &other.label)
        }
    }
}

/// The indices of `ranks` in ranked order.
pub fn order_of(ranks: &Vec<Rank>) -> (order: Vec<usize>)
    ensures
        ints(order@) == sort_order(rank_views(ranks@)),
        order@.len() == ranks@.len(),
        forall|i: int| 0 <= i < order@.len() ==> #[trigger] order@[i] < ranks@.len(),
{
    let ghost rv = rank_views(ranks@);
    let mut order: Vec<usize> = Vec::new();
    let mut i: usize = 0;
    assert(ints(order@) =~= order_upto(rv, 0));
    while i < ranks.len()
        invariant
            i <= ranks.len(),
            rv == rank_views(ranks@),
            ints(order@) == order_upto(rv, i as nat),
            order@.len() == i,
            forall|k: int| 0 <= k < order@.len() ==> #[trigger] order@[k] < i,
        decreases ranks.len() - i,
    {
        let ghost before = ints(order@);
        let mut p: usize = 0;
        assert(before.skip(0) =~= before);
        while p < order.len() && !ranks[i].precedes(&ranks[order[p]])
            invariant
                i < ranks.len(),
                rv == rank_views(ranks@),
                before == ints(order@),
                p <= order.len(),
                order@.len() == i,
                forall|k: int| 0 <= k < order@.len() ==> #[trigger] order@[k] < i,
                insert_point(before, rv, i as int) == p + insert_point(
                    before.skip(p as int),
                    rv,
                    i as int,
                ),
            decreases order.len() - p,
        {
            assert(before.skip(p as int)[0] == order@[p as int]);
            assert(before.skip(p as int).skip(1) =~= before.skip(p + 1));
            p += 1;
        }
        proof {
            if p < order.len() {
                assert(before.skip(p as int)[0] == order@[p as int]);
            }
        }
        order.insert(p, i);
        assert(ints(order@) =~= before.insert(p as int, i as int));
        i += 1;
    }
    proof {
        lemma_order_is_permutation(rv, ranks@.len());
    }
    order
}

} // verus!
