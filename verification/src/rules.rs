//! The rule stack of the collections panel: rules joined by combinators, and the rows of
//! controls that edit them.
//!
//! Properties, combinators and comparators are known by their places in the lists that the
//! controls offer. A property is textual or numeric, and each of the two has comparators of
//! its own; a row has a control for either, of which it shows the one that fits.
use vstd::prelude::*;

use crate::text::same_text;

verus! {

/// A rule.
#[derive(Clone, Debug, PartialEq)]
pub struct Rule {
    pub comb: u32,
    pub property: u32,
    /// Whether the property is numeric.
    pub numeric: bool,
    /// The place of the comparator among those for the property's kind.
    pub comparator: u32,
    pub value: String,
}

/// What the controls of a row show.
#[derive(Clone, Debug, PartialEq)]
pub struct RuleRow {
    pub comb: u32,
    pub property: u32,
    pub numeric: bool,
    pub text_comparator: u32,
    pub numeric_comparator: u32,
    pub value: String,
}

/// How many comparators there are for text and for numbers.
#[derive(Clone, Copy, Debug, PartialEq, Eq)]
pub struct Comparators {
    pub text: u32,
    pub numeric: u32,
}

/// A rule by its contents.
pub open spec fn rule_parts(r: Rule) -> (u32, u32, bool, u32, Seq<char>) {
    (r.comb, r.property, r.numeric, r.comparator, r.value@)
}

/// Some rules by their contents.
pub open spec fn rules_parts(rules: Seq<Rule>) -> Seq<(u32, u32, bool, u32, Seq<char>)> {
    rules.map_values(|r: Rule| rule_parts(r))
}

/// The rule that a row shows. The comparator is that of the control which fits the
/// property, and the first one if that control shows none.
pub open spec fn row_rule(row: RuleRow, set: Comparators) -> (u32, u32, bool, u32, Seq<char>) {
    let shown = if row.numeric { row.numeric_comparator } else { row.text_comparator };
    let count = if row.numeric { set.numeric } else { set.text };
    (row.comb, row.property, row.numeric, if shown < count { shown } else { 0 }, row.value@)
}

/// The rules that some rows show.
pub open spec fn rows_rules(rows: Seq<RuleRow>, set: Comparators) -> Seq<
    (u32, u32, bool, u32, Seq<char>),
> {
    rows.map_values(|r: RuleRow| row_rule(r, set))
}

/// Whether a row is the one that is made for a rule: the control that does not fit shows
/// its first comparator.
pub open spec fn row_for(row: RuleRow, rule: Rule) -> bool {
    &&& row.comb == rule.comb
    &&& row.property == rule.property
    &&& row.numeric == rule.numeric
    &&& row.text_comparator == if rule.numeric { 0 } else { rule.comparator }
    &&& row.numeric_comparator == if rule.numeric { rule.comparator } else { 0 }
    &&& row.value@ == rule.value@
}

/// Whether the comparator of a rule is one of those that are offered.
pub open spec fn rule_fits(rule: Rule, set: Comparators) -> bool {
    rule.comparator < if rule.numeric { set.numeric } else { set.text }
}

/// The hint in the value entry of a row.
pub fn rule_placeholder(numeric: bool) -> (r: &'static str)
    ensures
        r@ == if numeric {
            "e.g. 1/60, 2.8, 1600\u{2026}"@
        } else {
            "substring\u{2026}"@
        },
{
    if numeric {
        "e.g. 1/60, 2.8, 1600\u{2026}"
    } else {
        "substring\u{2026}"
    }
}

fn new_row(rule: &Rule) -> (r: RuleRow)
    ensures
        row_for(r, *rule),
{
    RuleRow {
        comb: rule.comb,
        property: rule.property,
        numeric: rule.numeric,
        text_comparator: if rule.numeric {
            0
        } else {
            rule.comparator
        },
        numeric_comparator: if rule.numeric {
            rule.comparator
        } else {
            0
        },
        value: rule.value.clone(),
    }
}

fn same_rule(a: &Rule, b: &Rule) -> (r: bool)
    ensures
        r == (rule_parts(*a) == rule_parts(*b)),
{
    a.comb == b.comb && a.property == b.property && a.numeric == b.numeric && a.comparator
        == b.comparator && same_text(a.value.as_str(), b.value.as_str())
}

fn same_rules(a: &Vec<Rule>, b: &Vec<Rule>) -> (r: bool)
    ensures
        r == (rules_parts(a@) == rules_parts(b@)),
{
    if a.len() != b.len() {
        assert(rules_parts(a@).len() != rules_parts(b@).len());
        return false;
    }
    let mut i: usize = 0;
    while i < a.len()
        invariant
            i <= a@.len() == b@.len(),
            forall|k: int| 0 <= k < i ==> rule_parts(#[trigger] a@[k]) == rule_parts(b@[k]),
        decreases a@.len() - i,
    {
        if !same_rule(&a[i], &b[i]) {
            assert(rules_parts(a@)[i as int] != rules_parts(b@)[i as int]);
            return false;
        }
        i = i + 1;
    }
    assert(rules_parts(a@) =~= rules_parts(b@));
    true
}

/// The rows of the rule stack.
pub struct RuleEditor {
    pub rows: Vec<RuleRow>,
    /// How many rules there may be.
    pub limit: usize,
}

impl RuleEditor {
    /// An editor without rules.
    pub fn new(limit: usize) -> (r: RuleEditor)
        ensures
            r.rows@.len() == 0,
            r.limit == limit,
    {
        RuleEditor { rows: Vec::new(), limit }
    }

    /// Whether there is room for another rule.
    pub fn can_add(&self) -> (r: bool)
        ensures
            r == (self.rows@.len() < self.limit),
    {
        self.rows.len() < self.limit
    }

    /// Adds a blank rule at the end, on the first property, if there is room. Returns
    /// whether one was added.
    pub fn add_rule(&mut self, first_is_numeric: bool) -> (r: bool)
        ensures
            final(self).limit == old(self).limit,
            r == (old(self).rows@.len() < old(self).limit),
            !r ==> final(self).rows == old(self).rows,
            r ==> {
                &&& final(self).rows@.drop_last() == old(self).rows@
                &&& final(self).rows@.len() == old(self).rows@.len() + 1
                &&& final(self).rows@.last().comb == 0
                &&& final(self).rows@.last().property == 0
                &&& final(self).rows@.last().numeric == first_is_numeric
                &&& final(self).rows@.last().text_comparator == 0
                &&& final(self).rows@.last().numeric_comparator == 0
                &&& final(self).rows@.last().value@.len() == 0
            },
    {
        if self.rows.len() >= self.limit {
            return false;
        }
        let ghost before = self.rows@;
        self.rows.push(
            RuleRow {
                comb: 0,
                property: 0,
                numeric: first_is_numeric,
                text_comparator: 0,
                numeric_comparator: 0,
                value: String::new(),
            },
        );
        assert(self.rows@.drop_last() =~= before);
        true
    }

    /// Deletes a rule. Returns whether there was one at that place.
    pub fn delete_rule(&mut self, i: usize) -> (r: bool)
        ensures
            final(self).limit == old(self).limit,
            r == (i < old(self).rows@.len()),
            final(self).rows@ == if r {
                old(self).rows@.remove(i as int)
            } else {
                old(self).rows@
            },
    {
        if i < self.rows.len() {
            self.rows.remove(i);
            true
        } else {
            false
        }
    }

    /// Whether the combinator of a rule is shown: the first rule has nothing before it.
    pub fn combinator_shown(&self, i: usize) -> (r: bool)
        ensures
            r == (i > 0),
    {
        i > 0
    }

    /// The rules that the controls show. A rule without a value is one too.
    pub fn collect(&self, set: Comparators) -> (r: Vec<Rule>)
        ensures
            rules_parts(r@) == rows_rules(self.rows@, set),
            r@.len() == self.rows@.len(),
            forall|i: int|
                0 <= i < r@.len() ==> {
                    let row = self.rows@[i];
                    &&& (#[trigger] r@[i]).comb == row.comb
                    &&& r@[i].property == row.property
                    &&& r@[i].numeric == row.numeric
                    &&& row.numeric && row.numeric_comparator < set.numeric ==> r@[i].comparator
                        == row.numeric_comparator
                    &&& row.numeric && row.numeric_comparator >= set.numeric ==> r@[i].comparator
                        == 0
                    &&& !row.numeric && row.text_comparator < set.text ==> r@[i].comparator
                        == row.text_comparator
                    &&& !row.numeric && row.text_comparator >= set.text ==> r@[i].comparator == 0
                    &&& r@[i].value@ == row.value@
                },
    {
        let mut out: Vec<Rule> = Vec::new();
        let ghost all = rows_rules(self.rows@, set);
        let mut i: usize = 0;
        assert(rules_parts(out@) =~= all.take(0));
        while i < self.rows.len()
            invariant
                i <= self.rows@.len(),
                all == rows_rules(self.rows@, set),
                rules_parts(out@) == all.take(i as int),
            decreases self.rows@.len() - i,
        {
            let row = &self.rows[i];
            let (shown, count): (u32, u32) = if row.numeric {
                (row.numeric_comparator, set.numeric)
            } else {
                (row.text_comparator, set.text)
            };
            let rule = Rule {
                comb: row.comb,
                property: row.property,
                numeric: row.numeric,
                comparator: if shown < count {
                    shown
                } else {
                    0
                },
                value: row.value.clone(),
            };
            let ghost before = out@;
            assert(rule_parts(rule) == all[i as int]);
            out.push(rule);
            assert(rules_parts(out@) =~= rules_parts(before).push(all[i as int]));
            assert(all.take(i + 1) =~= all.take(i as int).push(all[i as int]));
            i = i + 1;
        }
        assert(all.take(i as int) =~= all);
        assert(rules_parts(out@).len() == out@.len());
        assert forall|k: int| 0 <= k < out@.len() implies rule_parts(#[trigger] out@[k])
            == row_rule(self.rows@[k], set) by {
            assert(rules_parts(out@)[k] == all[k]);
        }
        out
    }

    /// Brings the rows in line with the rules in force. Rows that show them already are
    /// left alone, so that an entry which is being typed in stays. Returns whether the
    /// rows were replaced.
    pub fn follow(&mut self, rules: &Vec<Rule>, set: Comparators) -> (replaced: bool)
        ensures
            final(self).limit == old(self).limit,
            replaced == (rows_rules(old(self).rows@, set) != rules_parts(rules@)),
            !replaced <==> old(self).rows@.len() == rules@.len() && forall|i: int|
                0 <= i < rules@.len() ==> {
                    let row = old(self).rows@[i];
                    let rule = #[trigger] rules@[i];
                    let shown = if row.numeric {
                        row.numeric_comparator
                    } else {
                        row.text_comparator
                    };
                    let count = if row.numeric {
                        set.numeric
                    } else {
                        set.text
                    };
                    &&& row.comb == rule.comb
                    &&& row.property == rule.property
                    &&& row.numeric == rule.numeric
                    &&& row.value@ == rule.value@
                    &&& rule.comparator == if shown < count {
                        shown
                    } else {
                        0
                    }
                },
            !replaced ==> final(self).rows == old(self).rows,
            replaced ==> {
                &&& final(self).rows@.len() == rules@.len()
                &&& forall|i: int|
                    0 <= i < rules@.len() ==> row_for(#[trigger] final(self).rows@[i], rules@[i])
                &&& forall|i: int|
                    0 <= i < rules@.len() ==> {
                        let row = #[trigger] final(self).rows@[i];
                        &&& row.comb == rules@[i].comb
                        &&& row.property == rules@[i].property
                        &&& row.numeric == rules@[i].numeric
                        &&& rules@[i].numeric ==> row.numeric_comparator == rules@[i].comparator
                            && row.text_comparator == 0
                        &&& !rules@[i].numeric ==> row.text_comparator == rules@[i].comparator
                            && row.numeric_comparator == 0
                        &&& row.value@ == rules@[i].value@
                    }
            },
    {
        let shown: Vec<Rule> = self.collect(set);
        proof {
            let (a, b) = (rows_rules(self.rows@, set), rules_parts(rules@));
            if a == b {
                assert(a.len() == b.len());
                assert forall|i: int| 0 <= i < rules@.len() implies row_rule(self.rows@[i], set)
                    == rule_parts(#[trigger] rules@[i]) by {
                    assert(a[i] == b[i]);
                }
            } else if self.rows@.len() == rules@.len() {
                assert(exists|i: int| 0 <= i < a.len() && a[i] != b[i]) by {
                    if forall|i: int| 0 <= i < a.len() ==> a[i] == b[i] {
                        assert(a =~= b);
                    }
                }
                let i = choose|i: int| 0 <= i < a.len() && a[i] != b[i];
                assert(row_rule(self.rows@[i], set) != rule_parts(rules@[i]));
            }
        }
        if same_rules(&shown, rules) {
            return false;
        }
        let mut rows: Vec<RuleRow> = Vec::new();
        let mut i: usize = 0;
        while i < rules.len()
            invariant
                i <= rules@.len(),
                rows@.len() == i,
                forall|k: int| 0 <= k < i ==> row_for(#[trigger] rows@[k], rules@[k]),
            decreases rules@.len() - i,
        {
            rows.push(new_row(&rules[i]));
            i = i + 1;
        }
        self.rows = rows;
        true
    }
}

/// The row of a rule shows that rule, if its comparator is one that is offered.
pub proof fn law_row_shows_its_rule(row: RuleRow, rule: Rule, set: Comparators)
    requires
        row_for(row, rule),
        rule_fits(rule, set),
    ensures
        row_rule(row, set) == rule_parts(rule),
{
}

/// Rows that were made for some rules show them, so following the same rules again
/// replaces nothing.
pub proof fn law_rows_settle(rows: Seq<RuleRow>, rules: Seq<Rule>, set: Comparators)
    requires
        rows.len() == rules.len(),
        forall|i: int| 0 <= i < rules.len() ==> row_for(#[trigger] rows[i], rules[i]),
        forall|i: int| 0 <= i < rules.len() ==> rule_fits(#[trigger] rules[i], set),
    ensures
        rows_rules(rows, set) == rules_parts(rules),
{
    assert forall|i: int| 0 <= i < rules.len() implies rows_rules(rows, set)[i] == rules_parts(
        rules,
    )[i] by {
        assert(row_for(rows[i], rules[i]) && rule_fits(rules[i], set));
    }
    assert(rows_rules(rows, set) =~= rules_parts(rules));
}

/// The control that does not fit the property of a row has no say in the rule.
pub proof fn law_hidden_comparator_has_no_say(row: RuleRow, other: RuleRow, set: Comparators)
    requires
        row.comb == other.comb,
        row.property == other.property,
        row.numeric == other.numeric,
        row.value@ == other.value@,
        row.numeric ==> row.numeric_comparator == other.numeric_comparator,
        !row.numeric ==> row.text_comparator == other.text_comparator,
    ensures
        row_rule(row, set) == row_rule(other, set),
{
}

} // verus!
