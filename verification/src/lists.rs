//! Lists of texts: their order, sorting and copying.
use vstd::prelude::*;
use vstd::relations::{sorted_by, total_ordering};
use vstd::seq_lib::lemma_sorted_unique;

use crate::text::{
    ascending, lemma_text_order, lemma_text_order_transitive, same_text, sorted_texts, text_before,
    text_lt, texts,
};

verus! {

/// The order of lists of texts: by the first text in which they differ, a list before one
/// that goes on where it ends.
pub open spec fn list_lt(a: Seq<Seq<char>>, b: Seq<Seq<char>>) -> bool
    decreases a.len(),
{
    if b.len() == 0 {
        false
    } else if a.len() == 0 {
        true
    } else if a[0] != b[0] {
        text_lt(a[0], b[0])
    } else {
        list_lt(a.drop_first(), b.drop_first())
    }
}

/// The order of lists is total and strict.
pub proof fn lemma_list_order(a: Seq<Seq<char>>, b: Seq<Seq<char>>)
    ensures
        !(list_lt(a, b) && list_lt(b, a)),
        !list_lt(a, b) && !list_lt(b, a) <==> a == b,
    decreases a.len(),
{
    if a.len() > 0 && b.len() > 0 {
        lemma_text_order(a[0], b[0]);
        if a[0] == b[0] {
            lemma_list_order(a.drop_first(), b.drop_first());
            if a.drop_first() == b.drop_first() {
                assert(a =~= seq![a[0]] + a.drop_first());
                assert(b =~= seq![b[0]] + b.drop_first());
            }
        }
    } else if a.len() == 0 && b.len() == 0 {
        assert(a =~= b);
    }
}

pub proof fn lemma_list_order_transitive(a: Seq<Seq<char>>, b: Seq<Seq<char>>, c: Seq<Seq<char>>)
    requires
        list_lt(a, b),
        list_lt(b, c),
    ensures
        list_lt(a, c),
    decreases a.len(),
{
    if a.len() > 0 && b.len() > 0 && c.len() > 0 {
        lemma_text_order(a[0], b[0]);
        lemma_text_order(b[0], c[0]);
        lemma_text_order_transitive(a[0], b[0], c[0]);
        lemma_text_order(a[0], c[0]);
        if a[0] == b[0] && b[0] == c[0] {
            lemma_list_order_transitive(a.drop_first(), b.drop_first(), c.drop_first());
        }
    }
}

/// Whether `a` stands before the first `n` texts of `b`.
pub fn list_before(a: &Vec<String>, b: &Vec<String>, n: usize) -> (r: bool)
    requires
        n <= b@.len(),
    ensures
        r == list_lt(texts(a@), texts(b@).take(n as int)),
{
    let ghost (x, y) = (texts(a@), texts(b@).take(n as int));
    let mut i: usize = 0;
    assert(x.skip(0) =~= x && y.skip(0) =~= y);
    while i < a.len() && i < n
        invariant
            i <= a@.len(),
            i <= n <= b@.len(),
            x == texts(a@),
            y == texts(b@).take(n as int),
            list_lt(x, y) == list_lt(x.skip(i as int), y.skip(i as int)),
        decreases n - i,
    {
        assert(x.skip(i as int)[0] == a@[i as int]@ && y.skip(i as int)[0] == b@[i as int]@);
        if !same_text(a[i].as_str(), b[i].as_str()) {
            return text_before(a[i].as_str(), b[i].as_str());
        }
        assert(x.skip(i as int).drop_first() =~= x.skip(i + 1));
        assert(y.skip(i as int).drop_first() =~= y.skip(i + 1));
        i = i + 1;
    }
    i < n
}

/// Whether `a` is the first `n` texts of `b`.
pub fn same_list(a: &Vec<String>, b: &Vec<String>, n: usize) -> (r: bool)
    requires
        n <= b@.len(),
    ensures
        r == (texts(a@) == texts(b@).take(n as int)),
{
    let ghost (x, y) = (texts(a@), texts(b@).take(n as int));
    if a.len() != n {
        assert(x.len() != y.len());
        return false;
    }
    let mut i: usize = 0;
    while i < n
        invariant
            i <= n == a@.len(),
            n <= b@.len(),
            x == texts(a@),
            y == texts(b@).take(n as int),
            forall|j: int| 0 <= j < i ==> x[j] == y[j],
        decreases n - i,
    {
        assert(x[i as int] == a@[i as int]@ && y[i as int] == b@[i as int]@);
        if !same_text(a[i].as_str(), b[i].as_str()) {
            return false;
        }
        i = i + 1;
    }
    assert(x =~= y);
    true
}

/// The first `n` texts of a list.
pub fn list_prefix(b: &Vec<String>, n: usize) -> (r: Vec<String>)
    requires
        n <= b@.len(),
    ensures
        texts(r@) == texts(b@).take(n as int),
        r@.len() == n,
{
    let mut v: Vec<String> = Vec::new();
    let mut i: usize = 0;
    while i < n
        invariant
            i <= n <= b@.len(),
            v@.len() == i,
            texts(v@) =~= texts(b@).take(i as int),
        decreases n - i,
    {
        v.push(b[i].clone());
        i = i + 1;
    }
    v
}

/// The texts of a list from the least to the greatest.
pub open spec fn sorted_list(list: Seq<Seq<char>>) -> Seq<Seq<char>> {
    list.sort_by(text_le())
}

/// The order in which a list is sorted.
pub open spec fn text_le() -> spec_fn(Seq<char>, Seq<char>) -> bool {
    |a: Seq<char>, b: Seq<char>| !text_lt(b, a)
}

proof fn lemma_text_le_is_total()
    ensures
        total_ordering(text_le()),
{
    let le = text_le();
    assert forall|x: Seq<char>| #[trigger] le(x, x) by {
        lemma_text_order(x, x);
    }
    assert forall|x: Seq<char>, y: Seq<char>| #[trigger] le(x, y) && #[trigger] le(y, x) implies x
        == y by {
        lemma_text_order(x, y);
    }
    assert forall|x: Seq<char>, y: Seq<char>, z: Seq<char>| #[trigger]
        le(x, y) && #[trigger] le(y, z) implies le(x, z) by {
        lemma_text_order(x, y);
        lemma_text_order(y, z);
        lemma_text_order(x, z);
        if text_lt(z, x) {
            if x != y {
                lemma_text_order_transitive(z, x, y);
            }
        }
    }
    assert forall|x: Seq<char>, y: Seq<char>| #[trigger] le(x, y) || #[trigger] le(y, x) by {
        lemma_text_order(x, y);
    }
}

/// The texts of a list from the least to the greatest.
pub fn sort_list(list: &Vec<String>) -> (r: Vec<String>)
    ensures
        texts(r@) == sorted_list(texts(list@)),
        r@.len() == list@.len(),
{
    let r: Vec<String> = sorted_texts(list);
    proof {
        lemma_text_le_is_total();
        texts(list@).lemma_sort_by_ensures(text_le());
        assert(sorted_by(texts(r@), text_le())) by {
            assert(ascending(texts(r@)));
        }
        lemma_sorted_unique(texts(r@), sorted_list(texts(list@)), text_le());
    }
    r
}

/// Two lists that hold the same texts, each as often, are the same list when sorted.
pub proof fn law_sorting_forgets_the_order(a: Seq<Seq<char>>, b: Seq<Seq<char>>)
    requires
        a.to_multiset() == b.to_multiset(),
    ensures
        sorted_list(a) == sorted_list(b),
{
    lemma_text_le_is_total();
    a.lemma_sort_by_ensures(text_le());
    b.lemma_sort_by_ensures(text_le());
    lemma_sorted_unique(sorted_list(a), sorted_list(b), text_le());
}

/// A copy of a list.
pub fn copy_list(list: &Vec<String>) -> (r: Vec<String>)
    ensures
        texts(r@) == texts(list@),
        r@.len() == list@.len(),
{
    let r: Vec<String> = list_prefix(list, list.len());
    assert(texts(list@).take(list@.len() as int) =~= texts(list@));
    r
}

/// Two lists that are the same up to place `k` stand in the order of their texts there; one
/// that ends there stands before one that goes on.
pub proof fn law_list_order_is_by_the_first_difference(
    a: Seq<Seq<char>>,
    b: Seq<Seq<char>>,
    k: int,
)
    requires
        0 <= k <= a.len(),
        k <= b.len(),
        forall|i: int| 0 <= i < k ==> a[i] == b[i],
    ensures
        k < a.len() && k < b.len() && a[k] != b[k] ==> (list_lt(a, b) <==> text_lt(a[k], b[k])),
        k == a.len() && k < b.len() ==> list_lt(a, b),
        k == b.len() ==> !list_lt(a, b),
    decreases k,
{
    if k > 0 {
        let (x, y) = (a.drop_first(), b.drop_first());
        assert forall|i: int| 0 <= i < k - 1 implies x[i] == y[i] by {
            assert(x[i] == a[i + 1] && y[i] == b[i + 1]);
        }
        law_list_order_is_by_the_first_difference(x, y, k - 1);
    }
}

/// Sorting a list neither loses nor adds a text, and none stands before one it follows.
pub proof fn law_sorted_list_ascends(list: Seq<Seq<char>>)
    ensures
        sorted_list(list).to_multiset() == list.to_multiset(),
        forall|i: int, j: int|
            0 <= i < j < list.len() ==> !text_lt(
                #[trigger] sorted_list(list)[j],
                #[trigger] sorted_list(list)[i],
            ),
{
    lemma_text_le_is_total();
    list.lemma_sort_by_ensures(text_le());
    let r = sorted_list(list);
    assert(r.len() == list.len()) by {
        broadcast use vstd::seq_lib::group_to_multiset_ensures;

        assert(r.to_multiset().len() == r.len());
    }
    assert forall|i: int, j: int| 0 <= i < j < list.len() implies !text_lt(
        #[trigger] r[j],
        #[trigger] r[i],
    ) by {
        let le = text_le();
        assert(le(r[i], r[j]));
    }
}

} // verus!
