//! Curve anchors made ready for sampling: counted, sorted and pinned at both ends.
use vstd::arithmetic::power2::pow2;
use vstd::prelude::*;

use crate::float32::{clamped, law_round_is_the_nearest, F32, ONE, ZERO};

verus! {

/// The anchors of a curve. The first `count` slots are in use.
#[derive(Clone, Copy, Debug, PartialEq)]
pub struct CurveNodes {
    pub count: u32,
    pub nodes: [(F32, F32); 20],
}

/// `s` with `n` put in after every anchor that does not lie to the right of it.
pub open spec fn insert_by_x(s: Seq<(F32, F32)>, n: (F32, F32)) -> Seq<(F32, F32)>
    decreases s.len(),
{
    if s.len() > 0 && n.0.ltv(s.last().0) {
        insert_by_x(s.drop_last(), n).push(s.last())
    } else {
        s.push(n)
    }
}

/// The anchors in order of x, those at one x in the order they came in.
pub open spec fn sort_by_x(s: Seq<(F32, F32)>) -> Seq<(F32, F32)>
    decreases s.len(),
{
    if s.len() == 0 {
        s
    } else {
        insert_by_x(sort_by_x(s.drop_last()), s.last())
    }
}

/// How many slots are in use: the stored count, rounded, from 2 to 20.
pub open spec fn node_count(stored: F32) -> int {
    clamped(stored.round(), 2, 20)
}

/// The slots after pinning: those in use sorted, the first at x zero, the last at x one.
pub open spec fn pinned_nodes(n: int, nodes: Seq<(F32, F32)>) -> Seq<(F32, F32)> {
    let sorted = sort_by_x(nodes.take(n));
    let first = sorted.update(0, (F32 { bits: ZERO }, sorted[0].1));
    first.update(n - 1, (F32 { bits: ONE }, first[n - 1].1)) + nodes.skip(n)
}

/// The curve that a stored count and stored slots stand for.
pub open spec fn pinned_curve(stored: F32, nodes: [(F32, F32); 20]) -> CurveNodes {
    choose|c: CurveNodes|
        c.count == node_count(stored) && c.nodes@ =~= pinned_nodes(node_count(stored), nodes@)
}

proof fn lemma_insert_len(s: Seq<(F32, F32)>, n: (F32, F32))
    ensures
        insert_by_x(s, n).len() == s.len() + 1,
    decreases s.len(),
{
    if s.len() > 0 && n.0.ltv(s.last().0) {
        lemma_insert_len(s.drop_last(), n);
    }
}

proof fn lemma_sort_len(s: Seq<(F32, F32)>)
    ensures
        sort_by_x(s).len() == s.len(),
    decreases s.len(),
{
    if s.len() > 0 {
        lemma_sort_len(s.drop_last());
        lemma_insert_len(sort_by_x(s.drop_last()), s.last());
    }
}

/// Sorts the first `n` slots by x, keeping the order of those at one x.
fn sort_nodes(nodes: &mut [(F32, F32); 20], n: usize)
    requires
        n <= 20,
    ensures
        final(nodes)@ == sort_by_x(old(nodes)@.take(n as int)) + old(nodes)@.skip(n as int),
{
    let ghost given = nodes@;
    let mut i: usize = 0;
    assert(nodes@ =~= sort_by_x(given.take(0)) + given.skip(0));
    while i < n
        invariant
            i <= n <= 20,
            given.len() == 20,
            nodes@ == sort_by_x(given.take(i as int)) + given.skip(i as int),
        decreases n - i,
    {
        proof {
            lemma_sort_len(given.take(i as int));
        }
        let node = nodes[i];
        let ghost sorted = sort_by_x(given.take(i as int));
        let ghost rest = given.skip(i + 1);
        assert(given.take(i + 1).drop_last() =~= given.take(i as int));
        assert(given.take(i + 1).last() == node);
        assert(nodes@ =~= sorted.push(node) + rest);
        // Slot `k` is free; what stood above it has moved up by one.
        let mut k: usize = i;
        let ghost mut moved: Seq<(F32, F32)> = seq![];
        assert(sorted.take(k as int) =~= sorted);
        assert(nodes@ =~= sorted.take(k as int).push(nodes@[k as int]) + moved + rest);
        assert(insert_by_x(sorted, node) =~= insert_by_x(sorted.take(k as int), node) + moved);
        while k > 0 && node.0.num_lt(nodes[k - 1].0)
            invariant
                k <= i < n <= 20,
                sorted.len() == i,
                rest.len() == 20 - i - 1,
                moved.len() == i - k,
                nodes@ == sorted.take(k as int).push(nodes@[k as int]) + moved + rest,
                insert_by_x(sorted, node) == insert_by_x(sorted.take(k as int), node) + moved,
            decreases k,
        {
            let up = nodes[k - 1];
            nodes[k] = up;
            proof {
                assert(sorted.take(k as int).last() == up);
                assert(sorted.take(k as int).drop_last() =~= sorted.take(k - 1));
                let longer = seq![up] + moved;
                assert(insert_by_x(sorted.take(k as int), node) + moved =~= insert_by_x(
                    sorted.take(k - 1),
                    node,
                ) + longer);
                moved = longer;
            }
            k = k - 1;
            assert(nodes@ =~= sorted.take(k as int).push(nodes@[k as int]) + moved + rest);
        }
        nodes[k] = node;
        proof {
            let low = sorted.take(k as int);
            assert(k > 0 ==> low.last() == nodes@[k - 1]);
            assert(insert_by_x(low, node) == low.push(node));
            assert(nodes@ =~= low.push(node) + moved + rest);
            assert(nodes@ =~= sort_by_x(given.take(i + 1)) + given.skip(i + 1));
        }
        i = i + 1;
    }
}

/// Makes stored anchors ready: counts, sorts and pins them.
pub fn pin_curve(stored: F32, nodes: [(F32, F32); 20]) -> (r: CurveNodes)
    ensures
        r == pinned_curve(stored, nodes),
        r.count == node_count(stored),
        r.nodes@ == pinned_nodes(node_count(stored), nodes@),
        2 <= r.count <= 20,
        forall|i: int|
            0 <= i < r.count ==> (#[trigger] r.nodes@[i]).1 == sort_by_x(
                nodes@.take(r.count as int),
            )[i].1,
        forall|i: int|
            0 < i < r.count - 1 ==> (#[trigger] r.nodes@[i]).0 == sort_by_x(
                nodes@.take(r.count as int),
            )[i].0,
        r.nodes@[0].0.bits == ZERO,
        r.nodes@[r.count - 1].0.bits == ONE,
        forall|i: int| r.count <= i < 20 ==> #[trigger] r.nodes@[i] == nodes@[i],
{
    let count: u32 = stored.round_clamped(2, 20);
    let n: usize = count as usize;
    let mut slots = nodes;
    sort_nodes(&mut slots, n);
    proof {
        lemma_sort_len(nodes@.take(n as int));
    }
    let first = slots[0];
    slots[0] = (F32 { bits: ZERO }, first.1);
    let last = slots[n - 1];
    slots[n - 1] = (F32 { bits: ONE }, last.1);
    let r = CurveNodes { count, nodes: slots };
    proof {
        assert(r.nodes@ =~= pinned_nodes(n as int, nodes@));
        let c = pinned_curve(stored, nodes);
        assert(c.nodes =~= r.nodes);
        law_pinning_moves_only_the_ends(n as int, nodes@);
    }
    r
}

/// Whether x never falls from one anchor to the next.
pub open spec fn ordered_by_x(s: Seq<(F32, F32)>) -> bool {
    forall|i: int, j: int| 0 <= i < j < s.len() ==> (#[trigger] s[i]).0.lev((#[trigger] s[j]).0)
}

/// Whether every x is a number.
pub open spec fn x_are_numbers(s: Seq<(F32, F32)>) -> bool {
    forall|i: int| 0 <= i < s.len() ==> !(#[trigger] s[i]).0.nan()
}

/// Picks the anchors at one x.
pub open spec fn at_x(x: F32) -> spec_fn((F32, F32)) -> bool {
    |a: (F32, F32)| a.0.eqv(x)
}

proof fn lemma_filter_push(
    s: Seq<(F32, F32)>,
    n: (F32, F32),
    pick: spec_fn((F32, F32)) -> bool,
)
    ensures
        s.push(n).filter(pick) == if pick(n) {
            s.filter(pick).push(n)
        } else {
            s.filter(pick)
        },
{
    reveal(Seq::filter);
    assert(s.push(n).drop_last() =~= s);
}

proof fn lemma_insert(s: Seq<(F32, F32)>, n: (F32, F32), x: F32)
    requires
        x_are_numbers(s),
        !n.0.nan(),
        ordered_by_x(s),
    ensures
        x_are_numbers(insert_by_x(s, n)),
        ordered_by_x(insert_by_x(s, n)),
        insert_by_x(s, n).to_multiset() == s.to_multiset().insert(n),
        insert_by_x(s, n).filter(at_x(x)) == s.push(n).filter(at_x(x)),
        s.len() > 0 ==> n.0.ltv(s.last().0) ==> insert_by_x(s, n).last() == s.last(),
        forall|i: int|
            0 <= i < insert_by_x(s, n).len() ==> (#[trigger] insert_by_x(s, n)[i]).0.units() <= (
            if s.len() > 0 && n.0.ltv(s.last().0) {
                s.last().0.units()
            } else {
                n.0.units()
            }),
    decreases s.len(),
{
    broadcast use vstd::seq_lib::group_to_multiset_ensures;

    reveal(Seq::filter);
    if s.len() > 0 && n.0.ltv(s.last().0) {
        let rest = s.drop_last();
        let last = s.last();
        lemma_insert(rest, n, x);
        let r = insert_by_x(rest, n);
        assert(s =~= rest.push(last));
        assert(s.push(n).drop_last() =~= s);
        assert(rest.push(n).drop_last() =~= rest);
        assert(r.push(last).drop_last() =~= r);
        assert(s.to_multiset() =~= rest.to_multiset().insert(last));
        assert(insert_by_x(s, n).to_multiset() =~= s.to_multiset().insert(n));
        assert(insert_by_x(s, n).filter(at_x(x)) =~= s.push(n).filter(at_x(x))) by {
            let pick = at_x(x);
            assert(!(pick(n) && pick(last)));
            lemma_filter_push(rest, last, pick);
            lemma_filter_push(s, n, pick);
            lemma_filter_push(rest, n, pick);
            lemma_filter_push(r, last, pick);
        }
    } else {
        assert(s.push(n).drop_last() =~= s);
    }
}

/// Sorting puts anchors in order of x, loses and adds none, and keeps those at one x in
/// the order they came in.
pub proof fn law_sort_is_a_stable_sort(s: Seq<(F32, F32)>, x: F32)
    requires
        x_are_numbers(s),
    ensures
        ordered_by_x(sort_by_x(s)),
        x_are_numbers(sort_by_x(s)),
        sort_by_x(s).to_multiset() == s.to_multiset(),
        sort_by_x(s).filter(at_x(x)) == s.filter(at_x(x)),
    decreases s.len(),
{
    broadcast use vstd::seq_lib::group_to_multiset_ensures;

    reveal(Seq::filter);
    if s.len() > 0 {
        let rest = s.drop_last();
        law_sort_is_a_stable_sort(rest, x);
        lemma_insert(sort_by_x(rest), s.last(), x);
        assert(s =~= rest.push(s.last()));
        assert(sort_by_x(rest).push(s.last()).drop_last() =~= sort_by_x(rest));
    }
}

/// Sorting loses and adds no anchor, whatever their x are.
pub proof fn law_sort_keeps_the_anchors(s: Seq<(F32, F32)>)
    ensures
        sort_by_x(s).to_multiset() == s.to_multiset(),
    decreases s.len(),
{
    broadcast use vstd::seq_lib::group_to_multiset_ensures;

    if s.len() > 0 {
        law_sort_keeps_the_anchors(s.drop_last());
        lemma_insert_keeps(sort_by_x(s.drop_last()), s.last());
        assert(s =~= s.drop_last().push(s.last()));
    }
}

proof fn lemma_insert_keeps(s: Seq<(F32, F32)>, n: (F32, F32))
    ensures
        insert_by_x(s, n).to_multiset() == s.to_multiset().insert(n),
    decreases s.len(),
{
    broadcast use vstd::seq_lib::group_to_multiset_ensures;

    if s.len() > 0 && n.0.ltv(s.last().0) {
        lemma_insert_keeps(s.drop_last(), n);
        assert(s =~= s.drop_last().push(s.last()));
        assert(insert_by_x(s, n).to_multiset() =~= s.to_multiset().insert(n));
    }
}

/// Anchors that are in order of x already are left as they are.
pub proof fn law_sort_leaves_what_is_in_order(s: Seq<(F32, F32)>)
    requires
        forall|i: int, j: int|
            0 <= i < j < s.len() ==> (#[trigger] s[i]).0.units() <= (#[trigger] s[j]).0.units(),
    ensures
        sort_by_x(s) == s,
    decreases s.len(),
{
    if s.len() > 0 {
        let rest = s.drop_last();
        law_sort_leaves_what_is_in_order(rest);
        assert(rest.len() > 0 ==> rest.last() == s[s.len() - 2]);
        assert(rest.push(s.last()) =~= s);
    }
}

/// Pinning moves the ends of a curve along x and nothing else: the heights of the anchors in
/// use are those of the sorted anchors, and so is every x between the ends; the slots that
/// are not in use stay.
pub proof fn law_pinning_moves_only_the_ends(n: int, nodes: Seq<(F32, F32)>)
    requires
        2 <= n <= nodes.len(),
    ensures
        pinned_nodes(n, nodes).len() == nodes.len(),
        forall|i: int|
            0 <= i < n ==> (#[trigger] pinned_nodes(n, nodes)[i]).1 == sort_by_x(
                nodes.take(n),
            )[i].1,
        forall|i: int|
            0 < i < n - 1 ==> (#[trigger] pinned_nodes(n, nodes)[i]).0 == sort_by_x(
                nodes.take(n),
            )[i].0,
        pinned_nodes(n, nodes)[0].0.bits == ZERO,
        pinned_nodes(n, nodes)[n - 1].0.bits == ONE,
        forall|i: int| n <= i < nodes.len() ==> #[trigger] pinned_nodes(n, nodes)[i] == nodes[i],
{
    lemma_sort_len(nodes.take(n));
}

/// A curve whose anchors are in order and end at zero and one is left as it is.
pub proof fn law_pinned_curve_is_left_alone(n: int, nodes: Seq<(F32, F32)>)
    requires
        2 <= n <= nodes.len(),
        forall|i: int, j: int|
            0 <= i < j < n ==> (#[trigger] nodes[i]).0.units() <= (#[trigger] nodes[j]).0.units(),
        nodes[0].0.bits == ZERO,
        nodes[n - 1].0.bits == ONE,
    ensures
        pinned_nodes(n, nodes) == nodes,
{
    law_sort_leaves_what_is_in_order(nodes.take(n));
    law_pinning_moves_only_the_ends(n, nodes);
    let q = pinned_nodes(n, nodes);
    assert forall|i: int| 0 <= i < nodes.len() implies q[i] == nodes[i] by {}
    assert(q =~= nodes);
}

/// How many anchors are in use: between the smallest and the largest count, the integer
/// nearest to the stored number; two or twenty outside; two if it is no number.
pub proof fn law_node_count_is_the_nearest(stored: F32)
    ensures
        2 <= node_count(stored) <= 20,
        stored.nan() ==> node_count(stored) == 2,
        !stored.nan() && stored.units() <= 2 * pow2(149) ==> node_count(stored) == 2,
        !stored.nan() && stored.units() >= 20 * pow2(149) ==> node_count(stored) == 20,
        !stored.nan() && 2 * pow2(149) <= stored.units() <= 20 * pow2(149) ==> {
            &&& 2 * (node_count(stored) * pow2(149) - stored.units()) <= pow2(149)
            &&& 2 * (stored.units() - node_count(stored) * pow2(149)) < pow2(149)
        },
{
    law_round_is_the_nearest(stored);
    if !stored.nan() {
        let (n, u, p) = (stored.round(), stored.units(), pow2(149) as int);
        assert(p > 0);
        assert(u <= 2 * p ==> n <= 2) by (nonlinear_arith)
            requires
                2 * (n * p - u) <= p,
                p > 0,
        ;
        assert(u >= 20 * p ==> n >= 20) by (nonlinear_arith)
            requires
                u >= 0 ==> 2 * (u - n * p) < p,
                p > 0,
        ;
        assert(2 * p <= u <= 20 * p ==> 2 <= n <= 20) by (nonlinear_arith)
            requires
                2 * (n * p - u) <= p,
                u >= 0 ==> 2 * (u - n * p) < p,
                p > 0,
        ;
    }
}

} // verus!
