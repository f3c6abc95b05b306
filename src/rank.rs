//! Ordering of fuzzy-scored candidates, shared by both ranking pipelines.
use vstd::prelude::*;
use vstd::relations::{sorted_by, total_ordering};

verus! {

/// A scored candidate: its fuzzy affinity, a secondary key (higher first), and
/// its position among the candidates.
pub type Scored = (i64, i64, usize);

/// `a` may stand before `b`: higher affinity, then higher secondary key, then
/// earlier position.
pub open spec fn scored_le(a: Scored, b: Scored) -> bool {
    a.0 > b.0 || (a.0 == b.0 && (a.1 > b.1 || (a.1 == b.1 && a.2 <= b.2)))
}

/// `scored_le` as a relation.
pub open spec fn scored_order() -> spec_fn(Scored, Scored) -> bool {
    |a: Scored, b: Scored| scored_le(a, b)
}

/// The candidates in ranking order.
pub open spec fn by_rank(s: Seq<Scored>) -> Seq<Scored> {
    s.sort_by(scored_order())
}

/// The ranking order is a total order.
pub proof fn lemma_scored_total()
    ensures
        total_ordering(scored_order()),
{
}

/// Ranking keeps the items: each one of the ranked sequence is one of the input.
pub proof fn lemma_rank_members(s: Seq<Scored>)
    ensures
        by_rank(s).len() == s.len(),
        forall|j: int| 0 <= j < by_rank(s).len() ==> s.contains(#[trigger] by_rank(s)[j]),
{
    broadcast use vstd::seq_lib::group_to_multiset_ensures;

    lemma_scored_total();
    s.lemma_sort_by_ensures(scored_order());
    assert(s.to_multiset().len() == s.len());
    assert(by_rank(s).to_multiset().len() == by_rank(s).len());
    assert forall|j: int| 0 <= j < by_rank(s).len() implies s.contains(#[trigger] by_rank(s)[j]) by {
        assert(by_rank(s).contains(by_rank(s)[j]));
    }
}

/// Whether `a` may stand before `b`.
pub fn scored_le_exec(a: Scored, b: Scored) -> (r: bool)
    ensures
        r == scored_le(a, b),
{
    a.0 > b.0 || (a.0 == b.0 && (a.1 > b.1 || (a.1 == b.1 && a.2 <= b.2)))
}

/// Inserts `x` after every item of the sorted `v` that may stand before it.
fn insert_scored(v: &mut Vec<Scored>, x: Scored)
    requires
        sorted_by(old(v)@, scored_order()),
    ensures
        sorted_by(final(v)@, scored_order()),
        final(v)@.to_multiset() == old(v)@.to_multiset().insert(x),
{
    let mut p: usize = 0;
    while p < v.len() && scored_le_exec(v[p], x)
        invariant
            p <= v@.len(),
            forall|j: int| 0 <= j < p ==> scored_le(#[trigger] v@[j], x),
        decreases v@.len() - p,
    {
        p = p + 1;
    }
    let ghost before = v@;
    proof {
        vstd::seq_lib::to_multiset_insert(before, p as int, x);
    }
    v.insert(p, x);
    assert(v@ == before.insert(p as int, x));
    assert forall|i: int, j: int| 0 <= i < j < v@.len() implies #[trigger] scored_order()(
        v@[i],
        v@[j],
    ) by {
        if i < p && j > p {
            assert(v@[j] == before[j - 1]);
        } else if i > p {
            assert(v@[i] == before[i - 1] && v@[j] == before[j - 1]);
            assert(scored_order()(before[i - 1], before[j - 1]));
        } else if j > p {
            assert(v@[j] == before[j - 1]);
            assert(scored_order()(before[p as int], before[j - 1]));
        } else if j < p {
            assert(scored_order()(before[i], before[j]));
        }
    }
}

/// The items of `v` in ranking order.
pub fn sort_scored(v: &Vec<Scored>) -> (r: Vec<Scored>)
    ensures
        r@ == by_rank(v@),
{
    let mut r: Vec<Scored> = Vec::new();
    let mut i: usize = 0;
    assert(r@ =~= v@.take(0));
    while i < v.len()
        invariant
            i <= v@.len(),
            sorted_by(r@, scored_order()),
            r@.to_multiset() == v@.take(i as int).to_multiset(),
        decreases v@.len() - i,
    {
        insert_scored(&mut r, v[i]);
        proof {
            assert(v@.take(i + 1) =~= v@.take(i as int).push(v@[i as int]));
            vstd::seq_lib::to_multiset_build(v@.take(i as int), v@[i as int]);
        }
        i = i + 1;
    }
    proof {
        assert(v@.take(i as int) =~= v@);
        lemma_scored_total();
        v@.lemma_sort_by_ensures(scored_order());
        vstd::seq_lib::lemma_sorted_unique(r@, by_rank(v@), scored_order());
    }
    r
}

} // verus!
