//! Tables with one row per key: by image id, or by name.
use vstd::prelude::*;

use crate::text::same_text;

verus! {

/// A table with at most one row per image.
pub struct IdTable<V> {
    rows: Vec<(i32, V)>,
}

/// The rows as a map; of two rows with one key the later counts.
pub open spec fn id_map<V>(rows: Seq<(i32, V)>) -> Map<i32, V>
    decreases rows.len(),
{
    if rows.len() == 0 {
        Map::empty()
    } else {
        id_map(rows.drop_last()).insert(rows.last().0, rows.last().1)
    }
}

/// Whether no key occurs twice.
pub open spec fn ids_are_unique<V>(rows: Seq<(i32, V)>) -> bool {
    forall|i: int, j: int|
        0 <= i < j < rows.len() ==> (#[trigger] rows[i]).0 != (#[trigger] rows[j]).0
}

proof fn lemma_id_map<V>(rows: Seq<(i32, V)>)
    requires
        ids_are_unique(rows),
    ensures
        forall|i: int|
            0 <= i < rows.len() ==> id_map(rows).contains_pair(
                (#[trigger] rows[i]).0,
                rows[i].1,
            ),
        forall|k: i32| #[trigger]
            id_map(rows).contains_key(k) ==> exists|i: int| 0 <= i < rows.len() && rows[i].0 == k,
        id_map(rows).dom().finite(),
        id_map(rows).len() == rows.len(),
    decreases rows.len(),
{
    if rows.len() > 0 {
        let rest = rows.drop_last();
        assert forall|i: int, j: int| 0 <= i < j < rest.len() implies (#[trigger] rest[i]).0 != (
        #[trigger] rest[j]).0 by {
            assert(rows[i].0 != rows[j].0);
        }
        lemma_id_map(rest);
        let last = rows.last();
        assert forall|i: int| 0 <= i < rows.len() implies id_map(rows).contains_pair(
            (#[trigger] rows[i]).0,
            rows[i].1,
        ) by {
            if i < rest.len() {
                assert(rest[i] == rows[i]);
                assert(rows[i].0 != rows[rows.len() - 1].0);
            }
        }
        assert forall|k: i32| #[trigger] id_map(rows).contains_key(k) implies exists|i: int|
            0 <= i < rows.len() && rows[i].0 == k by {
            if k == last.0 {
                assert(rows[rows.len() - 1].0 == k);
            } else {
                assert(id_map(rest).contains_key(k));
                let i = choose|i: int| 0 <= i < rest.len() && rest[i].0 == k;
                assert(rows[i].0 == k);
            }
        }
        assert(!id_map(rest).contains_key(last.0)) by {
            if id_map(rest).contains_key(last.0) {
                let i = choose|i: int| 0 <= i < rest.len() && rest[i].0 == last.0;
                assert(rows[i].0 != rows[rows.len() - 1].0);
            }
        }
    }
}

impl<V> IdTable<V> {
    /// The table as a map from image id to row.
    pub closed spec fn view(&self) -> Map<i32, V> {
        id_map(self.rows@)
    }

    /// Whether no image has two rows.
    pub closed spec fn wf(&self) -> bool {
        ids_are_unique(self.rows@)
    }

    /// A table without rows.
    pub fn new() -> (r: IdTable<V>)
        ensures
            r.wf(),
            r@ == Map::<i32, V>::empty(),
    {
        IdTable { rows: Vec::new() }
    }

    /// How many rows there are.
    pub fn len(&self) -> (n: usize)
        requires
            self.wf(),
        ensures
            n == self@.len(),
            self@.dom().finite(),
    {
        proof {
            lemma_id_map(self.rows@);
        }
        self.rows.len()
    }

    fn find(&self, id: i32) -> (r: Option<usize>)
        requires
            self.wf(),
        ensures
            match r {
                Some(i) => i < self.rows@.len() && self.rows@[i as int].0 == id
                    && self@.contains_pair(id, self.rows@[i as int].1),
                None => !self@.contains_key(id) && forall|i: int|
                    0 <= i < self.rows@.len() ==> (#[trigger] self.rows@[i]).0 != id,
            },
    {
        proof {
            lemma_id_map(self.rows@);
        }
        let mut i: usize = 0;
        while i < self.rows.len()
            invariant
                i <= self.rows@.len(),
                forall|j: int| 0 <= j < i ==> (#[trigger] self.rows@[j]).0 != id,
                forall|j: int|
                    0 <= j < self.rows@.len() ==> id_map(self.rows@).contains_pair(
                        (#[trigger] self.rows@[j]).0,
                        self.rows@[j].1,
                    ),
            decreases self.rows@.len() - i,
        {
            if self.rows[i].0 == id {
                return Some(i);
            }
            i = i + 1;
        }
        None
    }

    /// The row of an image.
    pub fn get(&self, id: i32) -> (r: Option<&V>)
        requires
            self.wf(),
        ensures
            match r {
                Some(v) => self@.contains_pair(id, *v),
                None => !self@.contains_key(id),
            },
    {
        match self.find(id) {
            Some(i) => Some(&self.rows[i].1),
            None => None,
        }
    }

    /// Gives an image a row, in place of the one it had.
    pub fn put(&mut self, id: i32, value: V)
        requires
            old(self).wf(),
        ensures
            final(self).wf(),
            final(self)@ == old(self)@.insert(id, value),
    {
        self.remove(id);
        let ghost before = self.rows@;
        proof {
            lemma_id_map(before);
        }
        self.rows.push((id, value));
        proof {
            assert(self.rows@.drop_last() =~= before);
            assert forall|i: int, j: int| 0 <= i < j < self.rows@.len() implies (
            #[trigger] self.rows@[i]).0 != (#[trigger] self.rows@[j]).0 by {
                assert(id_map(before).contains_pair(before[i].0, before[i].1));
            }
            assert(old(self)@.remove(id).insert(id, value) =~= old(self)@.insert(id, value));
        }
    }

    /// Takes the row of an image out. Returns whether there was one.
    pub fn remove(&mut self, id: i32) -> (r: bool)
        requires
            old(self).wf(),
        ensures
            final(self).wf(),
            r == old(self)@.contains_key(id),
            final(self)@ == old(self)@.remove(id),
    {
        let ghost before = self.rows@;
        match self.find(id) {
            Some(i) => {
                self.rows.remove(i);
                proof {
                    let after = self.rows@;
                    assert forall|a: int, b: int| 0 <= a < b < after.len() implies (
                    #[trigger] after[a]).0 != (#[trigger] after[b]).0 by {
                        let (x, y) = (
                            if a < i { a } else { a + 1 },
                            if b < i { b } else { b + 1 },
                        );
                        assert(before[x].0 != before[y].0);
                    }
                    lemma_remove(before, i as int);
                }
                true
            },
            None => {
                assert(old(self)@.remove(id) =~= old(self)@);
                false
            },
        }
    }
}

proof fn lemma_remove<V>(rows: Seq<(i32, V)>, at: int)
    requires
        ids_are_unique(rows),
        0 <= at < rows.len(),
        ids_are_unique(rows.remove(at)),
    ensures
        id_map(rows.remove(at)) == id_map(rows).remove(rows[at].0),
{
    let after = rows.remove(at);
    let k = rows[at].0;
    lemma_id_map(rows);
    lemma_id_map(after);
    assert forall|x: i32|
        id_map(after).contains_key(x) <==> #[trigger] id_map(rows).remove(k).contains_key(x) by {
        if id_map(after).contains_key(x) {
            let i = choose|i: int| 0 <= i < after.len() && after[i].0 == x;
            let j = if i < at { i } else { i + 1 };
            assert(rows[j] == after[i]);
            assert(id_map(rows).contains_pair(rows[j].0, rows[j].1));
            if j < at {
                assert(rows[j].0 != rows[at].0);
            } else {
                assert(rows[at].0 != rows[j].0);
            }
        }
        if id_map(rows).remove(k).contains_key(x) {
            let j = choose|j: int| 0 <= j < rows.len() && rows[j].0 == x;
            let i = if j < at { j } else { j - 1 };
            assert(after[i] == rows[j]);
            assert(id_map(after).contains_pair(after[i].0, after[i].1));
        }
    }
    assert forall|x: i32| #[trigger] id_map(after).contains_key(x) implies id_map(after)[x] == id_map(
        rows,
    ).remove(k)[x] by {
        let i = choose|i: int| 0 <= i < after.len() && after[i].0 == x;
        let j = if i < at { i } else { i + 1 };
        assert(rows[j] == after[i]);
        assert(id_map(rows).contains_pair(rows[j].0, rows[j].1));
        assert(id_map(after).contains_pair(after[i].0, after[i].1));
    }
    assert(id_map(after) =~= id_map(rows).remove(k));
}

/// A table with at most one row per name.
pub struct TextTable<V> {
    rows: Vec<(String, V)>,
}

/// The rows as a map; of two rows with one key the later counts.
pub open spec fn text_map<V>(rows: Seq<(Seq<char>, V)>) -> Map<Seq<char>, V>
    decreases rows.len(),
{
    if rows.len() == 0 {
        Map::empty()
    } else {
        text_map(rows.drop_last()).insert(rows.last().0, rows.last().1)
    }
}

/// Whether no key occurs twice.
pub open spec fn names_are_unique<V>(rows: Seq<(Seq<char>, V)>) -> bool {
    forall|i: int, j: int|
        0 <= i < j < rows.len() ==> (#[trigger] rows[i]).0 != (#[trigger] rows[j]).0
}

/// What the map holds is what the rows hold.
pub proof fn lemma_text_map<V>(rows: Seq<(Seq<char>, V)>)
    requires
        names_are_unique(rows),
    ensures
        forall|i: int|
            0 <= i < rows.len() ==> text_map(rows).contains_pair(
                (#[trigger] rows[i]).0,
                rows[i].1,
            ),
        forall|k: Seq<char>| #[trigger]
            text_map(rows).contains_key(k) ==> exists|i: int| 0 <= i < rows.len() && rows[i].0 == k,
        text_map(rows).dom().finite(),
        text_map(rows).len() == rows.len(),
    decreases rows.len(),
{
    if rows.len() > 0 {
        let rest = rows.drop_last();
        assert forall|i: int, j: int| 0 <= i < j < rest.len() implies (#[trigger] rest[i]).0 != (
        #[trigger] rest[j]).0 by {
            assert(rows[i].0 != rows[j].0);
        }
        lemma_text_map(rest);
        let last = rows.last();
        assert forall|i: int| 0 <= i < rows.len() implies text_map(rows).contains_pair(
            (#[trigger] rows[i]).0,
            rows[i].1,
        ) by {
            if i < rest.len() {
                assert(rest[i] == rows[i]);
                assert(rows[i].0 != rows[rows.len() - 1].0);
            }
        }
        assert forall|k: Seq<char>| #[trigger] text_map(rows).contains_key(k) implies exists|i: int|
            0 <= i < rows.len() && rows[i].0 == k by {
            if k == last.0 {
                assert(rows[rows.len() - 1].0 == k);
            } else {
                assert(text_map(rest).contains_key(k));
                let i = choose|i: int| 0 <= i < rest.len() && rest[i].0 == k;
                assert(rows[i].0 == k);
            }
        }
        assert(!text_map(rest).contains_key(last.0)) by {
            if text_map(rest).contains_key(last.0) {
                let i = choose|i: int| 0 <= i < rest.len() && rest[i].0 == last.0;
                assert(rows[i].0 != rows[rows.len() - 1].0);
            }
        }
    }
}

impl<V> TextTable<V> {
    /// The rows, in the order in which they were stored.
    pub closed spec fn entries(&self) -> Seq<(Seq<char>, V)> {
        self.rows@.map_values(|r: (String, V)| (r.0@, r.1))
    }

    /// The table as a map from name to row.
    pub open spec fn view(&self) -> Map<Seq<char>, V> {
        text_map(self.entries())
    }

    /// Whether no name has two rows.
    pub open spec fn wf(&self) -> bool {
        names_are_unique(self.entries())
    }

    /// A table without rows.
    pub fn new() -> (r: TextTable<V>)
        ensures
            r.wf(),
            r@ == Map::<Seq<char>, V>::empty(),
    {
        let r: TextTable<V> = TextTable { rows: Vec::new() };
        assert(r.entries() =~= Seq::<(Seq<char>, V)>::empty());
        r
    }

    /// How many rows there are.
    pub fn len(&self) -> (n: usize)
        requires
            self.wf(),
        ensures
            n == self@.len(),
            n == self.entries().len(),
            self@.dom().finite(),
    {
        proof {
            lemma_text_map(self.entries());
        }
        self.rows.len()
    }

    /// The row at a place, in stored order.
    pub fn entry(&self, i: usize) -> (r: (&String, &V))
        requires
            i < self.entries().len(),
        ensures
            self.entries()[i as int] == (r.0@, *r.1),
    {
        (&self.rows[i].0, &self.rows[i].1)
    }

    fn find(&self, name: &str) -> (r: Option<usize>)
        requires
            self.wf(),
        ensures
            match r {
                Some(i) => i < self.rows@.len() && self.rows@[i as int].0@ == name@
                    && self@.contains_pair(name@, self.rows@[i as int].1),
                None => !self@.contains_key(name@) && forall|i: int|
                    0 <= i < self.entries().len() ==> (#[trigger] self.entries()[i]).0 != name@,
            },
    {
        proof {
            lemma_text_map(self.entries());
        }
        let mut i: usize = 0;
        while i < self.rows.len()
            invariant
                i <= self.rows@.len(),
                forall|j: int| 0 <= j < i ==> (#[trigger] self.entries()[j]).0 != name@,
                forall|j: int|
                    0 <= j < self.entries().len() ==> self@.contains_pair(
                        (#[trigger] self.entries()[j]).0,
                        self.entries()[j].1,
                    ),
            decreases self.rows@.len() - i,
        {
            assert(self.entries()[i as int] == (self.rows@[i as int].0@, self.rows@[i as int].1));
            if same_text(self.rows[i].0.as_str(), name) {
                return Some(i);
            }
            i = i + 1;
        }
        None
    }

    /// The row with a name.
    pub fn get(&self, name: &str) -> (r: Option<&V>)
        requires
            self.wf(),
        ensures
            match r {
                Some(v) => self@.contains_pair(name@, *v),
                None => !self@.contains_key(name@),
            },
    {
        match self.find(name) {
            Some(i) => Some(&self.rows[i].1),
            None => None,
        }
    }

    /// Stores a row under a name, in place of the one it had.
    pub fn put(&mut self, name: String, value: V)
        requires
            old(self).wf(),
        ensures
            final(self).wf(),
            final(self)@ == old(self)@.insert(name@, value),
    {
        self.remove(name.as_str());
        let ghost before = self.entries();
        let ghost key = name@;
        proof {
            lemma_text_map(before);
        }
        self.rows.push((name, value));
        proof {
            let after = self.entries();
            assert(after =~= before.push((key, value)));
            assert(after.drop_last() =~= before);
            assert forall|i: int, j: int| 0 <= i < j < after.len() implies (#[trigger] after[i]).0 != (
            #[trigger] after[j]).0 by {
                assert(text_map(before).contains_pair(before[i].0, before[i].1));
            }
            assert(old(self)@.remove(key).insert(key, value) =~= old(self)@.insert(key, value));
        }
    }

    /// Takes the row with a name out. Returns whether there was one.
    pub fn remove(&mut self, name: &str) -> (r: bool)
        requires
            old(self).wf(),
        ensures
            final(self).wf(),
            r == old(self)@.contains_key(name@),
            final(self)@ == old(self)@.remove(name@),
    {
        let ghost before = self.entries();
        match self.find(name) {
            Some(i) => {
                self.rows.remove(i);
                proof {
                    let after = self.entries();
                    assert(after =~= before.remove(i as int));
                    assert forall|a: int, b: int| 0 <= a < b < after.len() implies (
                    #[trigger] after[a]).0 != (#[trigger] after[b]).0 by {
                        let (x, y) = (
                            if a < i { a } else { a + 1 },
                            if b < i { b } else { b + 1 },
                        );
                        assert(before[x].0 != before[y].0);
                    }
                    lemma_text_remove(before, i as int);
                }
                true
            },
            None => {
                assert(old(self)@.remove(name@) =~= old(self)@);
                false
            },
        }
    }
}

proof fn lemma_text_remove<V>(rows: Seq<(Seq<char>, V)>, at: int)
    requires
        names_are_unique(rows),
        0 <= at < rows.len(),
        names_are_unique(rows.remove(at)),
    ensures
        text_map(rows.remove(at)) == text_map(rows).remove(rows[at].0),
{
    let after = rows.remove(at);
    let k = rows[at].0;
    lemma_text_map(rows);
    lemma_text_map(after);
    assert forall|x: Seq<char>|
        text_map(after).contains_key(x) <==> #[trigger] text_map(rows).remove(k).contains_key(x) by {
        if text_map(after).contains_key(x) {
            let i = choose|i: int| 0 <= i < after.len() && after[i].0 == x;
            let j = if i < at { i } else { i + 1 };
            assert(rows[j] == after[i]);
            assert(text_map(rows).contains_pair(rows[j].0, rows[j].1));
            if j < at {
                assert(rows[j].0 != rows[at].0);
            } else {
                assert(rows[at].0 != rows[j].0);
            }
        }
        if text_map(rows).remove(k).contains_key(x) {
            let j = choose|j: int| 0 <= j < rows.len() && rows[j].0 == x;
            let i = if j < at { j } else { j - 1 };
            assert(after[i] == rows[j]);
            assert(text_map(after).contains_pair(after[i].0, after[i].1));
        }
    }
    assert forall|x: Seq<char>| #[trigger] text_map(after).contains_key(x) implies text_map(after)[x] == text_map(
        rows,
    ).remove(k)[x] by {
        let i = choose|i: int| 0 <= i < after.len() && after[i].0 == x;
        let j = if i < at { i } else { i + 1 };
        assert(rows[j] == after[i]);
        assert(text_map(rows).contains_pair(rows[j].0, rows[j].1));
        assert(text_map(after).contains_pair(after[i].0, after[i].1));
    }
    assert(text_map(after) =~= text_map(rows).remove(k));
}

} // verus!
