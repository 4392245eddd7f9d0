//! The metadata editor: which images an edit lands on, when an entry is written, and what
//! is said about it.
//!
//! An entry remembers the images it was shown for and the text it was shown with. Only an
//! entry whose text has changed is ever written, and only to those images.
use vstd::prelude::*;

use crate::catalogue::Catalogue;
use crate::lists::{
    copy_list, law_sorted_list_ascends, law_sorting_forgets_the_order, lemma_list_order,
    lemma_list_order_transitive, list_before, list_lt, same_list, sort_list, sorted_list,
};
use crate::metadata::{
    images_written, lists_fields, meta_rows, save_metadata_many, shown_value, Meta, MetaField,
};
use crate::text::{
    decimal, holds_text, join_texts, joined, lower_text, lowered, push_decimal, same_text, texts,
};

verus! {

// ── Targets and texts ───────────────────────────────────────────────────────
/// The images that an edit lands on: the selection, if the image that is shown is in it,
/// and else that image alone.
pub open spec fn targets(selection: Seq<Seq<char>>, shown: Seq<char>) -> Seq<Seq<char>> {
    if shown.len() == 0 {
        Seq::empty()
    } else if selection.contains(shown) {
        selection
    } else {
        seq![shown]
    }
}

/// The images that an edit lands on.
pub fn metadata_target_paths(selection: &Vec<String>, cursor_path: &str) -> (r: Vec<String>)
    ensures
        texts(r@) == targets(texts(selection@), cursor_path@),
        cursor_path@.len() == 0 ==> r@.len() == 0,
        cursor_path@.len() > 0 && texts(selection@).contains(cursor_path@) ==> texts(r@) == texts(
            selection@,
        ),
        cursor_path@.len() > 0 && !texts(selection@).contains(cursor_path@) ==> texts(r@)
            == seq![cursor_path@],
{
    let mut out: Vec<String> = Vec::new();
    if cursor_path.is_empty() {
        assert(texts(out@) =~= Seq::empty());
        return out;
    }
    if holds_text(selection, cursor_path) {
        return copy_list(selection);
    }
    out.push(cursor_path.to_owned());
    assert(texts(out@) =~= seq![cursor_path@]);
    out
}

/// An edit never passes by the image that is shown.
pub proof fn law_edit_reaches_the_shown_image(selection: Seq<Seq<char>>, shown: Seq<char>)
    requires
        shown.len() > 0,
    ensures
        targets(selection, shown).contains(shown),
{
    assert(seq![shown][0] == shown);
}

/// The line that tells how many images an edit lands on. One image needs no line.
pub fn meta_scope_hint_text(n: usize) -> (r: Option<String>)
    ensures
        r is Some <==> n > 1,
        r is Some ==> r->0@ == "Edits apply to all "@ + decimal(n as nat) + " selected images"@,
{
    if n <= 1 {
        return None;
    }
    let mut s = "Edits apply to all ".to_owned();
    push_decimal(&mut s, n as u64);
    s.append(" selected images");
    Some(s)
}

/// What is said after a write: nothing, if all of it landed.
pub open spec fn commit_line(what: Seq<char>, written: nat, total: nat, failed: nat) -> Seq<char> {
    let partly = "Saved "@ + what + " for "@ + decimal(written) + " of "@ + decimal(total)
        + " images"@;
    let sidecars = "ould not update "@ + decimal(failed) + " XMP sidecar(s)"@;
    if written == 0 {
        "Could not save "@ + what
    } else if written < total && failed > 0 {
        partly + "; c"@ + sidecars
    } else if written < total {
        partly
    } else if failed > 0 {
        "C"@ + sidecars
    } else {
        Seq::empty()
    }
}

fn push_sidecars(s: &mut String, failed: usize)
    ensures
        final(s)@ == old(s)@ + ("ould not update "@ + decimal(failed as nat)
            + " XMP sidecar(s)"@),
{
    s.append("ould not update ");
    push_decimal(s, failed as u64);
    s.append(" XMP sidecar(s)");
    assert(s@ =~= old(s)@ + ("ould not update "@ + decimal(failed as nat) + " XMP sidecar(s)"@));
}

/// What is said after a write to `total` images, of which `written` were written and
/// `failed` sidecars were not: `None` if all of it landed.
pub fn metadata_commit_report(
    what: &str,
    written: usize,
    total: usize,
    failed: usize,
) -> (r: Option<String>)
    ensures
        r is None <==> written > 0 && written >= total && failed == 0,
        r is Some ==> r->0@ == commit_line(what@, written as nat, total as nat, failed as nat),
        written == 0 ==> r is Some && r->0@ == "Could not save "@ + what@,
        0 < written < total && failed == 0 ==> r is Some && r->0@ == "Saved "@ + what@ + " for "@
            + decimal(written as nat) + " of "@ + decimal(total as nat) + " images"@,
        0 < written < total && failed > 0 ==> r is Some && r->0@ == "Saved "@ + what@ + " for "@
            + decimal(written as nat) + " of "@ + decimal(total as nat) + " images"@ + "; c"@ + (
        "ould not update "@ + decimal(failed as nat) + " XMP sidecar(s)"@),
        0 < written && written >= total && failed > 0 ==> r is Some && r->0@ == "C"@ + (
        "ould not update "@ + decimal(failed as nat) + " XMP sidecar(s)"@),
{
    if written == 0 {
        let mut s = "Could not save ".to_owned();
        s.append(what);
        return Some(s);
    }
    if written < total {
        let mut s = "Saved ".to_owned();
        s.append(what);
        s.append(" for ");
        push_decimal(&mut s, written as u64);
        s.append(" of ");
        push_decimal(&mut s, total as u64);
        s.append(" images");
        if failed > 0 {
            s.append("; c");
            push_sidecars(&mut s, failed);
        }
        return Some(s);
    }
    if failed > 0 {
        let mut s = "C".to_owned();
        push_sidecars(&mut s, failed);
        return Some(s);
    }
    None
}

// ── Entries ─────────────────────────────────────────────────────────────────
/// An entry of the editor.
#[derive(Clone, Debug, PartialEq)]
pub struct MetaEntry {
    /// The field that the entry edits.
    pub field: MetaField,
    /// The images that it was shown for.
    pub paths: Vec<String>,
    /// The catalogue that it was shown from.
    pub db: String,
    /// The text that it was shown with.
    pub original: String,
    /// The text in it.
    pub text: String,
}

impl MetaEntry {
    /// Whether there is something to write.
    pub open spec fn dirty(self) -> bool {
        self.paths@.len() > 0 && self.db@.len() > 0 && self.text@ != self.original@
    }

    /// Whether there is something to write.
    pub fn is_dirty(&self) -> (r: bool)
        ensures
            r == self.dirty(),
            r <==> self.paths@.len() > 0 && self.db@.len() > 0 && self.text@ != self.original@,
    {
        self.paths.len() > 0 && !self.db.as_str().is_empty() && !same_text(
            self.text.as_str(),
            self.original.as_str(),
        )
    }

    /// Editing begins: the images, the catalogue and the text are remembered.
    pub fn focus(&mut self, targets: Vec<String>, db: String)
        ensures
            *final(self) == (MetaEntry {
                paths: targets,
                db,
                original: old(self).text,
                ..*old(self)
            }),
    {
        self.paths = targets;
        self.db = db;
        self.original = self.text.clone();
    }

    /// The text that was typed is dropped.
    pub fn revert(&mut self)
        ensures
            *final(self) == (MetaEntry { text: old(self).original, ..*old(self) }),
            !final(self).dirty(),
    {
        self.text = self.original.clone();
    }

    /// The paths that a write reached are known: if there is one, the entry counts as
    /// unchanged. A path whose write failed makes no difference to the others.
    pub fn settle(&mut self, written: &Vec<String>)
        ensures
            *final(self) == if written@.len() > 0 {
                MetaEntry { original: old(self).text, ..*old(self) }
            } else {
                *old(self)
            },
    {
        if written.len() > 0 {
            self.original = self.text.clone();
        }
    }

    /// Writes the entry, if there is something to write, to the images that it was shown
    /// for, and returns the paths that were written. `committed` tells of each image whether
    /// its write committed. Once something is written the entry counts as unchanged; where
    /// every write failed it stays as it was.
    pub fn commit(&mut self, catalogue: &mut Catalogue, committed: &Vec<bool>) -> (r: Option<
        Vec<String>,
    >)
        requires
            committed@.len() == old(self).paths@.len(),
        ensures
            r is Some <==> old(self).dirty(),
            r is Some <==> old(self).paths@.len() > 0 && old(self).db@.len() > 0
                && old(self).text@ != old(self).original@,
            *final(catalogue) == (Catalogue {
                metadata: final(catalogue).metadata,
                ..*old(catalogue)
            }),
            r is Some && old(catalogue).open ==> (
                meta_rows(final(catalogue).metadata@),
                texts(r->0@),
            ) == images_written(
                *old(catalogue),
                meta_rows(old(catalogue).metadata@),
                texts(old(self).paths@),
                seq![(old(self).field, old(self).text)],
                committed@,
            ),
            r is Some && !old(catalogue).open ==> r->0@.len() == 0,
            !(r is Some && old(catalogue).open) ==> final(catalogue).metadata
                == old(catalogue).metadata,
            *final(self) == if r is Some && r->0@.len() > 0 {
                MetaEntry { original: old(self).text, ..*old(self) }
            } else {
                *old(self)
            },
    {
        if !self.is_dirty() {
            return None;
        }
        let mut fields: Vec<(MetaField, String)> = Vec::new();
        fields.push((self.field, self.text.clone()));
        assert(fields@ =~= seq![(self.field, self.text)]);
        let written: Vec<String> = save_metadata_many(
            catalogue,
            self.paths.as_slice(),
            fields.as_slice(),
            committed.as_slice(),
        );
        self.settle(&written);
        Some(written)
    }
}

/// An entry counts as changed only while its text differs from the one it was shown with:
/// after a write, a second one has nothing to do.
pub proof fn law_written_entry_is_clean(entry: MetaEntry)
    ensures
        !(MetaEntry { original: entry.text, ..entry }).dirty(),
{
}

/// The text of a field in a list of fields: blank, if it is not there.
pub open spec fn field_text(meta: Seq<(MetaField, String)>, field: MetaField) -> Seq<char>
    decreases meta.len(),
{
    if meta.len() == 0 {
        Seq::empty()
    } else if meta[0].0 == field {
        meta[0].1@
    } else {
        field_text(meta.drop_first(), field)
    }
}

fn find_text(meta: &Vec<(MetaField, String)>, field: MetaField) -> (r: String)
    ensures
        r@ == field_text(meta@, field),
{
    let mut i: usize = 0;
    assert(meta@.skip(0) =~= meta@);
    while i < meta.len()
        invariant
            i <= meta@.len(),
            field_text(meta@, field) == field_text(meta@.skip(i as int), field),
        decreases meta@.len() - i,
    {
        if meta[i].0 == field {
            return meta[i].1.clone();
        }
        assert(meta@.skip(i as int).drop_first() =~= meta@.skip(i + 1));
        i = i + 1;
    }
    String::new()
}

/// The entries for an image, one per field in their order, with its values as their texts.
pub fn show_metadata(meta: &Vec<(MetaField, String)>, targets: &Vec<String>, db: &str) -> (r: Vec<
    MetaEntry,
>)
    ensures
        r@.len() == 5,
        forall|i: int|
            0 <= i < 5 ==> {
                &&& (#[trigger] r@[i]).field == MetaField::ALL@[i]
                &&& texts(r@[i].paths@) == texts(targets@)
                &&& r@[i].db@ == db@
                &&& r@[i].text@ == field_text(meta@, MetaField::ALL@[i])
                &&& r@[i].original@ == r@[i].text@
            },
{
    let mut out: Vec<MetaEntry> = Vec::new();
    let mut i: usize = 0;
    while i < 5
        invariant
            i <= 5,
            out@.len() == i,
            forall|k: int|
                0 <= k < i ==> {
                    &&& (#[trigger] out@[k]).field == MetaField::ALL@[k]
                    &&& texts(out@[k].paths@) == texts(targets@)
                    &&& out@[k].db@ == db@
                    &&& out@[k].text@ == field_text(meta@, MetaField::ALL@[k])
                    &&& out@[k].original@ == out@[k].text@
                },
        decreases 5 - i,
    {
        let field: MetaField = MetaField::ALL[i];
        let text: String = find_text(meta, field);
        out.push(
            MetaEntry {
                field,
                paths: copy_list(targets),
                db: db.to_owned(),
                original: text.clone(),
                text,
            },
        );
        i = i + 1;
    }
    out
}

/// The entries show what the catalogue holds.
pub proof fn law_entries_show_the_catalogue(
    meta: Seq<(MetaField, String)>,
    rows: Seq<Meta>,
    id: i32,
    i: int,
)
    requires
        lists_fields(meta, rows, id),
        0 <= i < 5,
    ensures
        field_text(meta, MetaField::ALL@[i]) == shown_value(
            rows,
            id,
            MetaField::ALL@[i].stored_key(),
        ),
{
    lemma_field_text(meta, rows, id, i, 0);
    assert(meta.skip(0) =~= meta);
}

proof fn lemma_field_text(
    meta: Seq<(MetaField, String)>,
    rows: Seq<Meta>,
    id: i32,
    i: int,
    from: int,
)
    requires
        lists_fields(meta, rows, id),
        0 <= from <= i < 5,
    ensures
        field_text(meta.skip(from), MetaField::ALL@[i]) == meta[i].1@,
    decreases i - from,
{
    let rest = meta.skip(from);
    assert(rest[0] == meta[from]);
    crate::metadata::law_field_keys_are_distinct(MetaField::ALL@[i], MetaField::ALL@[from]);
    if from < i {
        assert(MetaField::ALL@[from] != MetaField::ALL@[i]);
        assert(rest.drop_first() =~= meta.skip(from + 1));
        lemma_field_text(meta, rows, id, i, from + 1);
    }
}

// ── Flushing ────────────────────────────────────────────────────────────────
/// What entries must share to be written together: the catalogue and the images, in
/// whatever order they were selected.
pub open spec fn flush_key(entry: MetaEntry) -> Seq<Seq<char>> {
    seq![entry.db@] + sorted_list(texts(entry.paths@))
}

/// Entries that are written together.
#[derive(Clone, Debug, PartialEq)]
pub struct FlushGroup {
    /// The catalogue, followed by the images in order.
    pub key: Vec<String>,
    /// The places of the entries.
    pub members: Vec<usize>,
}

/// Whether a group is that of its key among the first `n` entries: it holds the places of
/// the entries with that key which have something to write, in their order.
pub open spec fn is_group(entries: Seq<MetaEntry>, n: int, group: FlushGroup) -> bool {
    &&& group.members@.len() > 0
    &&& forall|a: int, b: int|
        0 <= a < b < group.members@.len() ==> #[trigger] group.members@[a]
            < #[trigger] group.members@[b]
    &&& forall|i: usize| #[trigger]
        group.members@.contains(i) <==> i < n && entries[i as int].dirty() && flush_key(
            entries[i as int],
        ) == texts(group.key@)
}

/// Whether groups cover the first `n` entries that have something to write, each once, and
/// follow one another by their keys.
pub open spec fn is_plan(entries: Seq<MetaEntry>, n: int, groups: Seq<FlushGroup>) -> bool {
    &&& forall|a: int, b: int|
        0 <= a < b < groups.len() ==> list_lt(
            texts((#[trigger] groups[a]).key@),
            texts((#[trigger] groups[b]).key@),
        )
    &&& forall|a: int| 0 <= a < groups.len() ==> is_group(entries, n, #[trigger] groups[a])
    &&& forall|i: int|
        0 <= i < n && (#[trigger] entries[i]).dirty() ==> exists|a: int|
            0 <= a < groups.len() && texts((#[trigger] groups[a]).key@) == flush_key(entries[i])
}

fn entry_key(entry: &MetaEntry) -> (r: Vec<String>)
    ensures
        texts(r@) == flush_key(*entry),
{
    let sorted: Vec<String> = sort_list(&entry.paths);
    let mut key: Vec<String> = Vec::new();
    key.push(entry.db.clone());
    let ghost all = texts(sorted@);
    let mut i: usize = 0;
    assert(texts(key@) =~= seq![entry.db@] + all.take(0));
    while i < sorted.len()
        invariant
            i <= sorted@.len(),
            all == texts(sorted@),
            texts(key@) == seq![entry.db@] + all.take(i as int),
        decreases sorted@.len() - i,
    {
        let ghost before = key@;
        key.push(sorted[i].clone());
        assert(texts(key@) =~= texts(before).push(all[i as int]));
        assert(seq![entry.db@] + all.take(i + 1) =~= (seq![entry.db@] + all.take(i as int)).push(
            all[i as int],
        ));
        i = i + 1;
    }
    assert(all.take(i as int) =~= all);
    key
}

/// The plan of a flush: the entries that have something to write, in groups that are
/// written together.
pub fn flush_plan(entries: &Vec<MetaEntry>) -> (groups: Vec<FlushGroup>)
    ensures
        is_plan(entries@, entries@.len() as int, groups@),
{
    let mut groups: Vec<FlushGroup> = Vec::new();
    let mut i: usize = 0;
    while i < entries.len()
        invariant
            i <= entries@.len(),
            is_plan(entries@, i as int, groups@),
        decreases entries@.len() - i,
    {
        if entries[i].is_dirty() {
            add_to_plan(&mut groups, entries, i);
        } else {
            proof {
                let g = groups@;
                assert forall|a: int| 0 <= a < g.len() implies is_group(
                    entries@,
                    i + 1,
                    #[trigger] g[a],
                ) by {
                    assert(is_group(entries@, i as int, g[a]));
                }
            }
        }
        i = i + 1;
    }
    groups
}

fn add_to_plan(groups: &mut Vec<FlushGroup>, entries: &Vec<MetaEntry>, i: usize)
    requires
        i < entries@.len(),
        entries@[i as int].dirty(),
        is_plan(entries@, i as int, old(groups)@),
    ensures
        is_plan(entries@, i + 1, final(groups)@),
{
    let key: Vec<String> = entry_key(&entries[i]);
    let ghost k = texts(key@);
    let ghost all = entries@;
    let ghost before = groups@;
    let n: usize = key.len();
    assert(k.take(n as int) =~= k);
    let mut at: usize = 0;
    while at < groups.len() && list_before(&groups[at].key, &key, n)
        invariant
            at <= groups@.len(),
            groups@ == before,
            n == key@.len(),
            k == texts(key@),
            k.take(n as int) == k,
            forall|a: int| 0 <= a < at ==> list_lt(texts((#[trigger] before[a]).key@), k),
        decreases groups@.len() - at,
    {
        at = at + 1;
    }
    let found: bool = at < groups.len() && same_list(&groups[at].key, &key, n);
    proof {
        assert forall|a: int| at <= a < before.len() implies (texts((#[trigger] before[a]).key@)
            == k <==> found && a == at) && (texts(before[a].key@) != k ==> list_lt(
            k,
            texts(before[a].key@),
        )) by {
            lemma_list_order(texts(before[at as int].key@), k);
            lemma_list_order(texts(before[a].key@), k);
            if a > at {
                assert(list_lt(texts(before[at as int].key@), texts(before[a].key@)));
                if !found {
                    lemma_list_order_transitive(
                        k,
                        texts(before[at as int].key@),
                        texts(before[a].key@),
                    );
                }
            }
        }
        assert forall|a: int| 0 <= a < at implies texts((#[trigger] before[a]).key@) != k by {
            lemma_list_order(texts(before[a].key@), k);
        }
    }
    if found {
        let old_group: FlushGroup = groups.remove(at);
        assert(old_group == before[at as int]);
        let FlushGroup { key: old_key, members: mut members } = old_group;
        let ghost was = members@;
        members.push(i);
        let group = FlushGroup { key: old_key, members };
        groups.insert(at, group);
        proof {
            assert(groups@ =~= before.update(at as int, group));
            assert(is_group(all, i as int, before[at as int]));
            lemma_member_added(all, i, before[at as int], group);
            assert forall|a: int| 0 <= a < groups@.len() implies is_group(
                all,
                i + 1,
                #[trigger] groups@[a],
            ) by {
                assert(is_group(all, i as int, before[a]));
                if a != at {
                    assert(texts(before[a].key@) != k);
                }
            }
            assert forall|j: int| 0 <= j < i + 1 && (#[trigger] all[j]).dirty() implies exists|a: int|
                0 <= a < groups@.len() && texts((#[trigger] groups@[a]).key@) == flush_key(all[j]) by {
                if j == i {
                    assert(texts(groups@[at as int].key@) == flush_key(all[j]));
                } else {
                    let a = choose|a: int|
                        0 <= a < before.len() && texts((#[trigger] before[a]).key@) == flush_key(
                            all[j],
                        );
                    assert(texts(groups@[a].key@) == flush_key(all[j]));
                }
            }
        }
    } else {
        let mut members: Vec<usize> = Vec::new();
        members.push(i);
        let group = FlushGroup { key, members };
        groups.insert(at, group);
        proof {
            assert(groups@ =~= before.insert(at as int, group));
            assert forall|a: int, b: int| 0 <= a < b < groups@.len() implies list_lt(
                texts((#[trigger] groups@[a]).key@),
                texts((#[trigger] groups@[b]).key@),
            ) by {
                let x = if a < at { a } else { a - 1 };
                let y = if b < at { b } else { b - 1 };
                if a == at {
                    assert(groups@[b] == before[y]);
                } else if b == at {
                    assert(groups@[a] == before[x]);
                } else {
                    assert(groups@[a] == before[x] && groups@[b] == before[y]);
                }
            }
            assert(group.members@ =~= seq![i]);
            assert(is_group(all, i + 1, group)) by {
                assert forall|j: usize| #[trigger]
                    group.members@.contains(j) <==> j < i + 1 && all[j as int].dirty()
                        && flush_key(all[j as int]) == k by {
                    if group.members@.contains(j) {
                        assert(j == i);
                    }
                    if j == i {
                        assert(group.members@[0] == i);
                    }
                    if j < i && all[j as int].dirty() && flush_key(all[j as int]) == k {
                        let a = choose|a: int|
                            0 <= a < before.len() && texts((#[trigger] before[a]).key@)
                                == flush_key(all[j as int]);
                        assert(texts(before[a].key@) == k);
                        assert(false);
                    }
                }
            }
            assert forall|a: int| 0 <= a < groups@.len() implies is_group(
                all,
                i + 1,
                #[trigger] groups@[a],
            ) by {
                if a != at {
                    let x = if a < at { a } else { a - 1 };
                    assert(groups@[a] == before[x]);
                    assert(is_group(all, i as int, before[x]));
                    assert(texts(before[x].key@) != k);
                }
            }
            assert forall|j: int| 0 <= j < i + 1 && (#[trigger] all[j]).dirty() implies exists|a: int|
                0 <= a < groups@.len() && texts((#[trigger] groups@[a]).key@) == flush_key(all[j]) by {
                if j == i {
                    assert(texts(groups@[at as int].key@) == flush_key(all[j]));
                } else {
                    let a = choose|a: int|
                        0 <= a < before.len() && texts((#[trigger] before[a]).key@) == flush_key(
                            all[j],
                        );
                    let b = if a < at { a } else { a + 1 };
                    assert(groups@[b] == before[a]);
                    assert(texts(groups@[b].key@) == flush_key(all[j]));
                }
            }
        }
    }
}

proof fn lemma_member_added(
    entries: Seq<MetaEntry>,
    i: usize,
    before: FlushGroup,
    after: FlushGroup,
)
    requires
        i < entries.len(),
        is_group(entries, i as int, before),
        entries[i as int].dirty(),
        flush_key(entries[i as int]) == texts(before.key@),
        after.key == before.key,
        after.members@ == before.members@.push(i),
    ensures
        is_group(entries, i + 1, after),
{
    let was = before.members@;
    let now = after.members@;
    assert forall|a: int, b: int| 0 <= a < b < now.len() implies #[trigger] now[a]
        < #[trigger] now[b] by {
        assert(was.contains(was[a]));
        if b == was.len() {
            assert(now[b] == i);
        }
    }
    assert forall|j: usize| #[trigger]
        now.contains(j) <==> j < i + 1 && entries[j as int].dirty() && flush_key(entries[j as int])
            == texts(after.key@) by {
        if now.contains(j) {
            let a = choose|a: int| 0 <= a < now.len() && now[a] == j;
            if a < was.len() {
                assert(was.contains(was[a]));
            }
        }
        if was.contains(j) {
            let a = choose|a: int| 0 <= a < was.len() && was[a] == j;
            assert(now[a] == j);
        }
        if j == i {
            assert(now[was.len() as int] == i);
        }
    }
}

/// Entries for the same images are written together, in whatever order the images were
/// selected.
pub proof fn law_same_targets_share_a_group(a: MetaEntry, b: MetaEntry)
    requires
        a.db@ == b.db@,
        texts(a.paths@).to_multiset() == texts(b.paths@).to_multiset(),
    ensures
        flush_key(a) == flush_key(b),
{
    law_sorting_forgets_the_order(texts(a.paths@), texts(b.paths@));
}

/// The fields of a group, with their texts.
pub open spec fn group_fields(entries: Seq<MetaEntry>, members: Seq<usize>) -> Seq<
    (MetaField, String),
> {
    members.map_values(|i: usize| (entries[i as int].field, entries[i as int].text))
}

/// The entries after a group was written: its members count as unchanged.
pub open spec fn settled(
    before: Seq<MetaEntry>,
    after: Seq<MetaEntry>,
    members: Seq<usize>,
) -> bool {
    &&& after.len() == before.len()
    &&& forall|i: int|
        0 <= i < before.len() ==> #[trigger] after[i] == if members.contains(i as usize) {
            MetaEntry { original: before[i].text, ..before[i] }
        } else {
            before[i]
        }
}

/// Writes a group to the images of its entries, and returns the paths that were written.
/// `committed` tells of each image whether its write committed. Once something is written
/// the entries of the group count as unchanged; where every write failed they stay as they
/// were.
pub fn flush_group(
    entries: &mut Vec<MetaEntry>,
    members: &Vec<usize>,
    catalogue: &mut Catalogue,
    committed: &Vec<bool>,
) -> (written: Vec<String>)
    requires
        members@.len() > 0,
        members@[0] < old(entries)@.len() ==> old(entries)@[members@[0] as int].paths@.len()
            == committed@.len(),
        forall|a: int| 0 <= a < members@.len() ==> #[trigger] members@[a] < old(entries)@.len(),
    ensures
        *final(catalogue) == (Catalogue { metadata: final(catalogue).metadata, ..*old(catalogue) }),
        old(catalogue).open ==> (meta_rows(final(catalogue).metadata@), texts(written@))
            == images_written(
            *old(catalogue),
            meta_rows(old(catalogue).metadata@),
            texts(old(entries)@[members@[0] as int].paths@),
            group_fields(old(entries)@, members@),
            committed@,
        ),
        !old(catalogue).open ==> written@.len() == 0 && final(catalogue).metadata
            == old(catalogue).metadata,
        written@.len() > 0 ==> settled(old(entries)@, final(entries)@, members@),
        final(entries)@.len() == old(entries)@.len(),
        forall|i: int|
            0 <= i < old(entries)@.len() ==> {
                &&& (#[trigger] final(entries)@[i]).text == old(entries)@[i].text
                &&& final(entries)@[i].field == old(entries)@[i].field
                &&& final(entries)@[i].paths == old(entries)@[i].paths
                &&& final(entries)@[i].db == old(entries)@[i].db
                &&& final(entries)@[i].original == if written@.len() > 0 && members@.contains(
                    i as usize,
                ) {
                    old(entries)@[i].text
                } else {
                    old(entries)@[i].original
                }
            },
        group_fields(old(entries)@, members@).len() == members@.len(),
        forall|a: int|
            0 <= a < members@.len() ==> (#[trigger] group_fields(old(entries)@, members@)[a]) == (
                old(entries)@[members@[a] as int].field,
                old(entries)@[members@[a] as int].text,
            ),
        written@.len() == 0 ==> final(entries)@ == old(entries)@,
{
    let ghost before = entries@;
    let mut fields: Vec<(MetaField, String)> = Vec::new();
    let ghost all = group_fields(before, members@);
    let mut a: usize = 0;
    while a < members.len()
        invariant
            a <= members@.len(),
            entries@ == before,
            all == group_fields(before, members@),
            forall|b: int| 0 <= b < members@.len() ==> #[trigger] members@[b] < before.len(),
            fields@ =~= all.take(a as int),
        decreases members@.len() - a,
    {
        let i: usize = members[a];
        fields.push((entries[i].field, entries[i].text.clone()));
        a = a + 1;
    }
    assert(fields@ =~= all);
    let first: usize = members[0];
    let written: Vec<String> = save_metadata_many(
        catalogue,
        entries[first].paths.as_slice(),
        fields.as_slice(),
        committed.as_slice(),
    );
    if written.len() > 0 {
        let total: usize = entries.len();
        let mut b: usize = 0;
        while b < members.len()
            invariant
                b <= members@.len(),
                entries@.len() == before.len() == total,
                written@.len() > 0,
                forall|c: int| 0 <= c < members@.len() ==> #[trigger] members@[c] < before.len(),
                forall|i: int|
                    0 <= i < before.len() ==> #[trigger] entries@[i] == if members@.take(
                        b as int,
                    ).contains(i as usize) {
                        MetaEntry { original: before[i].text, ..before[i] }
                    } else {
                        before[i]
                    },
            decreases members@.len() - b,
        {
            let i: usize = members[b];
            let ghost now = entries@;
            entries[i].settle(&written);
            proof {
                let t = members@.take(b as int);
                assert(members@.take(b + 1) =~= t.push(i));
                assert forall|j: int| 0 <= j < before.len() implies #[trigger] entries@[j]
                    == if members@.take(b + 1).contains(j as usize) {
                    MetaEntry { original: before[j].text, ..before[j] }
                } else {
                    before[j]
                } by {
                    assert(now[j] == if t.contains(j as usize) {
                        MetaEntry { original: before[j].text, ..before[j] }
                    } else {
                        before[j]
                    });
                    if j == i {
                        assert(t.push(i)[b as int] == i);
                    } else {
                        assert(entries@[j] == now[j]);
                        if t.contains(j as usize) {
                            let c = choose|c: int| 0 <= c < t.len() && t[c] == j as usize;
                            assert(t.push(i)[c] == j as usize);
                        }
                        if t.push(i).contains(j as usize) {
                            let c = choose|c: int|
                                0 <= c < t.push(i).len() && t.push(i)[c] == j as usize;
                            assert(c < b && t[c] == j as usize);
                        }
                    }
                }
            }
            b = b + 1;
        }
        assert(members@.take(b as int) =~= members@);
    }
    written
}

/// The labels of some fields.
pub open spec fn group_labels(entries: Seq<MetaEntry>, members: Seq<usize>) -> Seq<Seq<char>> {
    members.map_values(|i: usize| entries[i as int].field.label_text())
}

/// What a group is called in a report: the labels of its fields in small letters.
pub fn group_name(entries: &Vec<MetaEntry>, members: &Vec<usize>) -> (r: String)
    requires
        forall|a: int| 0 <= a < members@.len() ==> #[trigger] members@[a] < entries@.len(),
    ensures
        r@ == lowered(joined(group_labels(entries@, members@), ", "@)),
{
    let mut labels: Vec<String> = Vec::new();
    let ghost all = group_labels(entries@, members@);
    let mut a: usize = 0;
    assert(texts(labels@) =~= all.take(0));
    while a < members.len()
        invariant
            a <= members@.len(),
            all == group_labels(entries@, members@),
            forall|b: int| 0 <= b < members@.len() ==> #[trigger] members@[b] < entries@.len(),
            texts(labels@) == all.take(a as int),
        decreases members@.len() - a,
    {
        let ghost before = labels@;
        labels.push(entries[members[a]].field.label().to_owned());
        assert(texts(labels@) =~= texts(before).push(all[a as int]));
        assert(all.take(a + 1) =~= all.take(a as int).push(all[a as int]));
        a = a + 1;
    }
    assert(all.take(a as int) =~= all);
    lower_text(join_texts(&labels, ", ").as_str())
}

/// Whether an entry is in some group.
pub open spec fn is_member(groups: Seq<FlushGroup>, i: int) -> bool {
    exists|a: int| 0 <= a < groups.len() && (#[trigger] groups[a]).members@.contains(i as usize)
}

/// A flush that writes all its groups leaves nothing to write: a second one does nothing.
pub proof fn law_flush_leaves_nothing(
    before: Seq<MetaEntry>,
    groups: Seq<FlushGroup>,
    after: Seq<MetaEntry>,
)
    requires
        before.len() <= usize::MAX,
        is_plan(before, before.len() as int, groups),
        after.len() == before.len(),
        forall|i: int|
            0 <= i < before.len() ==> #[trigger] after[i] == if is_member(groups, i) {
                MetaEntry { original: before[i].text, ..before[i] }
            } else {
                before[i]
            },
    ensures
        forall|i: int| 0 <= i < after.len() ==> !(#[trigger] after[i]).dirty(),
{
    assert forall|i: int| 0 <= i < after.len() implies !(#[trigger] after[i]).dirty() by {
        if before[i].dirty() {
            let a = choose|a: int|
                0 <= a < groups.len() && texts((#[trigger] groups[a]).key@) == flush_key(before[i]);
            assert(is_group(before, before.len() as int, groups[a]));
            assert(groups[a].members@.contains(i as usize));
            assert(is_member(groups, i));
        }
    }
}

/// Entries in one group write to the same catalogue, and to the same images, each as often.
pub proof fn law_group_has_one_target(a: MetaEntry, b: MetaEntry)
    requires
        flush_key(a) == flush_key(b),
    ensures
        a.db@ == b.db@,
        texts(a.paths@).to_multiset() == texts(b.paths@).to_multiset(),
{
    law_sorted_list_ascends(texts(a.paths@));
    law_sorted_list_ascends(texts(b.paths@));
    assert(flush_key(a)[0] == a.db@ && flush_key(b)[0] == b.db@);
    assert(flush_key(a).drop_first() =~= sorted_list(texts(a.paths@)));
    assert(flush_key(b).drop_first() =~= sorted_list(texts(b.paths@)));
}

/// A plan takes up every entry that has changed, once, and no other; the entries of a group
/// have one key, and those of two groups have two.
pub proof fn law_plan_takes_up_what_changed(entries: Seq<MetaEntry>, groups: Seq<FlushGroup>, i: int)
    requires
        entries.len() <= usize::MAX,
        is_plan(entries, entries.len() as int, groups),
        0 <= i < entries.len(),
    ensures
        entries[i].paths@.len() > 0 && entries[i].db@.len() > 0 && entries[i].text@
            != entries[i].original@ <==> exists|a: int|
            0 <= a < groups.len() && (#[trigger] groups[a]).members@.contains(i as usize),
        forall|a: int, b: int|
            0 <= a < b < groups.len() && (#[trigger] groups[a]).members@.contains(i as usize)
                ==> !(#[trigger] groups[b]).members@.contains(i as usize),
        forall|a: int, j: usize|
            0 <= a < groups.len() && groups[a].members@.contains(i as usize)
                && #[trigger] groups[a].members@.contains(j) ==> flush_key(entries[i]) == flush_key(
                entries[j as int],
            ),
{
    if entries[i].dirty() {
        let a = choose|a: int|
            0 <= a < groups.len() && texts((#[trigger] groups[a]).key@) == flush_key(entries[i]);
        assert(is_group(entries, entries.len() as int, groups[a]));
        assert(groups[a].members@.contains(i as usize));
    }
    assert forall|a: int| 0 <= a < groups.len() && (#[trigger] groups[a]).members@.contains(
        i as usize,
    ) implies entries[i].dirty() && flush_key(entries[i]) == texts(groups[a].key@) by {
        assert(is_group(entries, entries.len() as int, groups[a]));
    }
    assert forall|a: int, b: int|
        0 <= a < b < groups.len() && (#[trigger] groups[a]).members@.contains(
            i as usize,
        ) implies !(#[trigger] groups[b]).members@.contains(i as usize) by {
        lemma_list_order(texts(groups[a].key@), texts(groups[b].key@));
        assert(list_lt(texts(groups[a].key@), texts(groups[b].key@)));
    }
    assert forall|a: int, j: usize|
        0 <= a < groups.len() && groups[a].members@.contains(i as usize)
            && #[trigger] groups[a].members@.contains(j) implies flush_key(entries[i])
        == flush_key(entries[j as int]) by {
        assert(is_group(entries, entries.len() as int, groups[a]));
    }
}

/// The names of the fields of a group are those of its entries, in their order.
pub proof fn law_group_is_named_by_its_fields(entries: Seq<MetaEntry>, members: Seq<usize>, a: int)
    requires
        0 <= a < members.len(),
    ensures
        group_labels(entries, members).len() == members.len(),
        group_labels(entries, members)[a] == entries[members[a] as int].field.label_text(),
{
}

} // verus!
