//! Styles and named collection filters: saving, listing, deleting and applying them.
use vstd::prelude::*;

use crate::catalogue::{bytes_of, imgid_for_path, texts_of, Catalogue};
use crate::codec::{decoded, law_decode_undoes_encode};
use crate::params::PreviewParams;
use crate::stylelaws::{law_group_names_hold_no_comma, law_merging_again_changes_nothing};
use crate::stylemodules::{copy_module_group, merged, ModuleGroup};
use crate::tables::{lemma_text_map, text_map};
use crate::text::{
    join_texts, joined, law_split_undoes_join, lemma_text_order, lemma_text_order_transitive,
    lower_text, lowered, pieces, split_text, text_before, text_lt, texts, trim_text, trimmed,
};

verus! {

/// A stored style. A style without a module list stands for the whole edit.
#[derive(Clone, Debug)]
pub struct StyleRow {
    pub description: String,
    pub params: Vec<u8>,
    pub modules: Option<String>,
}

/// A style: an edit under a name. With a module list only those modules are carried.
#[derive(Clone, Debug, PartialEq)]
pub struct Style {
    pub name: String,
    pub description: String,
    pub params: PreviewParams,
    pub modules: Option<Vec<String>>,
}

/// What a stored style holds.
pub open spec fn row_contents(row: StyleRow) -> (Seq<char>, Seq<u8>, Option<Seq<char>>) {
    (
        row.description@,
        row.params@,
        match row.modules {
            Some(m) => Some(m@),
            None => None,
        },
    )
}

/// The stored styles by what they hold.
pub open spec fn style_rows(m: Map<Seq<char>, StyleRow>) -> Map<
    Seq<char>,
    (Seq<char>, Seq<u8>, Option<Seq<char>>),
> {
    m.map_values(|r: StyleRow| row_contents(r))
}

/// The stored form of a module list: the names with commas between.
pub open spec fn stored_modules(modules: Option<Seq<Seq<char>>>) -> Option<Seq<char>> {
    match modules {
        Some(names) => Some(joined(names, seq![','])),
        None => None,
    }
}

/// The texts of a list.
pub open spec fn views(list: Seq<&str>) -> Seq<Seq<char>> {
    list.map_values(|s: &str| s@)
}

fn owned_texts(list: &[&str]) -> (r: Vec<String>)
    ensures
        texts(r@) == views(list@),
{
    let mut v: Vec<String> = Vec::new();
    let mut i: usize = 0;
    while i < list.len()
        invariant
            i <= list@.len(),
            texts(v@) =~= views(list@).take(i as int),
        decreases list@.len() - i,
    {
        let s: &str = list[i];
        let ghost before = v@;
        v.push(s.to_owned());
        assert(texts(v@) =~= texts(before).push(s@));
        assert(views(list@).take(i + 1) =~= views(list@).take(i as int).push(views(list@)[i as int]));
        i = i + 1;
    }
    assert(views(list@).take(i as int) =~= views(list@));
    v
}

/// Saves a style under its trimmed name, in place of one of that name. Returns false, and
/// saves nothing, if the name is blank or there is no catalogue.
pub fn save_style(
    catalogue: &mut Catalogue,
    name: &str,
    description: &str,
    params: &PreviewParams,
    modules: Option<&[&str]>,
) -> (r: bool)
    requires
        old(catalogue).wf(),
    ensures
        final(catalogue).wf(),
        *final(catalogue) == (Catalogue { styles: final(catalogue).styles, ..*old(catalogue) }),
        r == (old(catalogue).open && trimmed(name@, false).len() > 0),
        r ==> {
            let row = final(catalogue).styles@[trimmed(name@, false)];
            &&& final(catalogue).styles@.contains_key(trimmed(name@, false))
            &&& row.description@ == description@
            &&& row.params@ == params.encoded()
            &&& row.modules is Some <==> modules is Some
            &&& modules is Some ==> row.modules->0@ == joined(views(modules->0@), seq![','])
        },
        forall|other: Seq<char>|
            !r || other != trimmed(name@, false) ==> {
                &&& #[trigger] final(catalogue).styles@.contains_key(other)
                    <==> old(catalogue).styles@.contains_key(other)
                &&& old(catalogue).styles@.contains_key(other) ==> final(catalogue).styles@[other]
                    == old(catalogue).styles@[other]
            },
        style_rows(final(catalogue).styles@) == if r {
            style_rows(old(catalogue).styles@).insert(
                trimmed(name@, false),
                (
                    description@,
                    params.encoded(),
                    stored_modules(
                        match modules {
                            Some(m) => Some(views(m@)),
                            None => None,
                        },
                    ),
                ),
            )
        } else {
            style_rows(old(catalogue).styles@)
        },
{
    let name: String = trim_text(name, false);
    if !catalogue.open || name.as_str().is_empty() {
        return false;
    }
    let stored: Option<String> = match modules {
        Some(m) => {
            proof {
                reveal_strlit(",");
                assert(","@ =~= seq![',']);
            }
            Some(join_texts(&owned_texts(m), ","))
        },
        None => None,
    };
    let row = StyleRow {
        description: description.to_owned(),
        params: params.encode(),
        modules: stored,
    };
    let ghost before = catalogue.styles@;
    let ghost key = name@;
    catalogue.styles.put(name, row);
    assert(style_rows(before.insert(key, row)) =~= style_rows(before).insert(
        key,
        row_contents(row),
    ));
    true
}

/// Whether a style is what a stored row stands for.
pub open spec fn style_is(style: Style, name: Seq<char>, row: StyleRow) -> bool {
    &&& style.name@ == name
    &&& style.description@ == row.description@
    &&& decoded(row.params@) == Some(style.params)
    &&& match row.modules {
        Some(m) => style.modules is Some && texts(style.modules->0@) == pieces(m@, ','),
        None => style.modules is None,
    }
}

/// Whether names never fall, capitals and small letters counting as one, and none occurs
/// twice.
pub open spec fn listed_by_name(names: Seq<Seq<char>>) -> bool {
    forall|i: int, j: int|
        #![trigger names[i], names[j]]
        0 <= i < j < names.len() ==> names[i] != names[j] && !text_lt(
            lowered(names[j]),
            lowered(names[i]),
        )
}

/// The names of some styles.
pub open spec fn style_names(styles: Seq<Style>) -> Seq<Seq<char>> {
    styles.map_values(|s: Style| s.name@)
}

/// Where a name belongs in a list: after all that do not stand behind it.
proof fn lemma_list_insert(names: Seq<Seq<char>>, name: Seq<char>, at: int)
    requires
        listed_by_name(names),
        0 <= at <= names.len(),
        forall|i: int| 0 <= i < at ==> !text_lt(lowered(name), lowered(#[trigger] names[i])),
        at < names.len() ==> text_lt(lowered(name), lowered(names[at])),
        forall|i: int| 0 <= i < names.len() ==> #[trigger] names[i] != name,
    ensures
        listed_by_name(names.insert(at, name)),
{
    let all = names.insert(at, name);
    assert forall|i: int, j: int|
        #![trigger all[i], all[j]]
        0 <= i < j < all.len() implies all[i] != all[j] && !text_lt(
        lowered(all[j]),
        lowered(all[i]),
    ) by {
        let (a, b) = (if i < at { i } else { i - 1 }, if j < at { j } else { j - 1 });
        if i == at {
            lemma_text_order(lowered(name), lowered(names[at]));
            if b > at {
                assert(!text_lt(lowered(names[b]), lowered(names[at])));
            }
            lemma_text_order_transitive(lowered(name), lowered(names[at]), lowered(names[b]));
            assert(all[j] == names[b]);
        } else if j == at {
            assert(all[i] == names[i]);
        } else {
            assert(all[i] == names[a] && all[j] == names[b]);
        }
    }
}

/// All styles that decode, in the order of their names.
pub fn load_styles(catalogue: &Catalogue) -> (r: Vec<Style>)
    requires
        catalogue.wf(),
    ensures
        !catalogue.open ==> r@.len() == 0,
        listed_by_name(style_names(r@)),
        forall|i: int, j: int|
            0 <= i < j < r@.len() ==> (#[trigger] r@[i]).name@ != (#[trigger] r@[j]).name@
                && !text_lt(lowered(r@[j].name@), lowered(r@[i].name@)),
        forall|i: int|
            0 <= i < r@.len() ==> {
                let row = catalogue.styles@[(#[trigger] r@[i]).name@];
                &&& r@[i].description@ == row.description@
                &&& decoded(row.params@) == Some(r@[i].params)
                &&& r@[i].modules is Some <==> row.modules is Some
                &&& r@[i].modules is Some ==> texts(r@[i].modules->0@) == pieces(
                    row.modules->0@,
                    ',',
                )
            },
        forall|i: int|
            0 <= i < r@.len() ==> catalogue.styles@.contains_key((#[trigger] r@[i]).name@)
                && style_is(r@[i], r@[i].name@, catalogue.styles@[r@[i].name@]),
        forall|name: Seq<char>| #[trigger]
            catalogue.styles@.contains_key(name) && catalogue.open && decoded(
                catalogue.styles@[name].params@,
            ) is Some ==> style_names(r@).contains(name),
{
    let mut out: Vec<Style> = Vec::new();
    if !catalogue.open {
        return out;
    }
    let ghost rows = catalogue.styles.entries();
    proof {
        lemma_text_map(rows);
    }
    let n: usize = catalogue.styles.len();
    let mut i: usize = 0;
    while i < n
        invariant
            i <= n == rows.len(),
            rows == catalogue.styles.entries(),
            catalogue.wf(),
            forall|k: int|
                0 <= k < rows.len() ==> text_map(rows).contains_pair(
                    (#[trigger] rows[k]).0,
                    rows[k].1,
                ),
            listed_by_name(style_names(out@)),
            forall|k: int|
                0 <= k < out@.len() ==> (exists|m: int|
                    0 <= m < i && style_is(#[trigger] out@[k], rows[m].0, rows[m].1)),
            forall|m: int|
                0 <= m < i && decoded((#[trigger] rows[m]).1.params@) is Some ==> style_names(
                    out@,
                ).contains(rows[m].0),
        decreases n - i,
    {
        let (name, row) = catalogue.styles.entry(i);
        let ghost before = out@;
        match PreviewParams::decode(row.params.as_slice()) {
            Some(params) => {
                let modules: Option<Vec<String>> = match &row.modules {
                    Some(m) => Some(split_text(m.as_str(), ',')),
                    None => None,
                };
                let style = Style {
                    name: name.clone(),
                    description: row.description.clone(),
                    params,
                    modules,
                };
                assert(style_is(style, rows[i as int].0, rows[i as int].1));
                let k: usize = style_place(&out, name.as_str());
                proof {
                    let names = style_names(before);
                    assert forall|a: int| 0 <= a < names.len() implies #[trigger] names[a] != name@ by {
                        let m = choose|m: int|
                            0 <= m < i && style_is(before[a], rows[m].0, rows[m].1);
                        assert(rows[m].0 != rows[i as int].0);
                    }
                    lemma_list_insert(names, name@, k as int);
                }
                out.insert(k, style);
                proof {
                    let names = style_names(before);
                    assert(style_names(out@) =~= names.insert(k as int, name@));
                    assert forall|a: int| 0 <= a < out@.len() implies exists|m: int|
                        0 <= m < i + 1 && style_is(#[trigger] out@[a], rows[m].0, rows[m].1) by {
                        if a == k {
                            assert(style_is(out@[a], rows[i as int].0, rows[i as int].1));
                        } else {
                            let b = if a < k { a } else { a - 1 };
                            assert(out@[a] == before[b]);
                            let m = choose|m: int|
                                0 <= m < i && style_is(before[b], rows[m].0, rows[m].1);
                            assert(style_is(out@[a], rows[m].0, rows[m].1));
                        }
                    }
                    assert forall|m: int|
                        0 <= m < i + 1 && decoded((#[trigger] rows[m]).1.params@) is Some implies style_names(
                        out@,
                    ).contains(rows[m].0) by {
                        if m == i {
                            assert(style_names(out@)[k as int] == rows[m].0);
                        } else {
                            let a = choose|a: int|
                                0 <= a < names.len() && names[a] == rows[m].0;
                            assert(style_names(out@)[if a < k { a } else { a + 1 }] == rows[m].0);
                        }
                    }
                }
            },
            None => {},
        }
        i = i + 1;
    }
    proof {
        assert forall|k: int| 0 <= k < out@.len() implies catalogue.styles@.contains_key(
            (#[trigger] out@[k]).name@,
        ) && style_is(out@[k], out@[k].name@, catalogue.styles@[out@[k].name@]) by {
            let m = choose|m: int| 0 <= m < i && style_is(out@[k], rows[m].0, rows[m].1);
            assert(text_map(rows).contains_pair(rows[m].0, rows[m].1));
        }
        assert forall|name: Seq<char>| #[trigger]
            catalogue.styles@.contains_key(name) && catalogue.open && decoded(
                catalogue.styles@[name].params@,
            ) is Some implies style_names(out@).contains(name) by {
            let m = choose|m: int| 0 <= m < rows.len() && rows[m].0 == name;
            assert(text_map(rows).contains_pair(rows[m].0, rows[m].1));
        }
    }
    assert forall|i: int, j: int| 0 <= i < j < out@.len() implies (#[trigger] out@[i]).name@ != (
    #[trigger] out@[j]).name@ && !text_lt(lowered(out@[j].name@), lowered(out@[i].name@)) by {
        let names = style_names(out@);
        assert(names[i] == out@[i].name@ && names[j] == out@[j].name@);
    }
    out
}

fn style_place(list: &Vec<Style>, name: &str) -> (k: usize)
    ensures
        k <= list@.len(),
        forall|i: int|
            0 <= i < k ==> !text_lt(lowered(name@), lowered(#[trigger] style_names(list@)[i])),
        k < list@.len() ==> text_lt(lowered(name@), lowered(style_names(list@)[k as int])),
{
    let low = lower_text(name);
    let mut k: usize = 0;
    while k < list.len()
        invariant
            k <= list@.len(),
            low@ == lowered(name@),
            forall|i: int|
                0 <= i < k ==> !text_lt(lowered(name@), lowered(#[trigger] style_names(list@)[i])),
        decreases list@.len() - k,
    {
        assert(style_names(list@)[k as int] == list@[k as int].name@);
        if text_before(low.as_str(), lower_text(list[k].name.as_str()).as_str()) {
            return k;
        }
        k = k + 1;
    }
    k
}

/// Deletes a style. Returns whether there was one of that name.
pub fn delete_style(catalogue: &mut Catalogue, name: &str) -> (r: bool)
    requires
        old(catalogue).wf(),
    ensures
        final(catalogue).wf(),
        *final(catalogue) == (Catalogue { styles: final(catalogue).styles, ..*old(catalogue) }),
        r == (old(catalogue).open && old(catalogue).styles@.contains_key(name@)),
        final(catalogue).styles@ == if old(catalogue).open {
            old(catalogue).styles@.remove(name@)
        } else {
            old(catalogue).styles@
        },
{
    if !catalogue.open {
        return false;
    }
    catalogue.styles.remove(name)
}

/// A style that was saved is what a listing shows under its name: the same description
/// and edit, and the same modules if none of their names is empty or holds a comma.
pub proof fn law_saved_style_is_listed(
    row: StyleRow,
    style: Style,
    description: Seq<char>,
    params: PreviewParams,
    modules: Option<Seq<Seq<char>>>,
)
    requires
        row_contents(row) == (description, params.encoded(), stored_modules(modules)),
        style_is(style, style.name@, row),
        modules is Some ==> forall|i: int|
            0 <= i < modules->0.len() ==> (#[trigger] modules->0[i]).len() > 0
                && !modules->0[i].contains(','),
    ensures
        style.description@ == description,
        style.params == params,
        modules is None ==> style.modules is None,
        modules is Some ==> style.modules is Some && texts(style.modules->0@) == modules->0,
{
    law_decode_undoes_encode(params);
    if modules is Some {
        law_split_undoes_join(modules->0, ',');
    }
}

/// A list of groups is read back as it was stored.
pub proof fn law_modules_are_read_back(groups: Seq<ModuleGroup>)
    ensures
        ({
            let names = groups.map_values(|g: ModuleGroup| g.label());
            pieces(stored_modules(Some(names))->0, ',') == names
        }),
{
    let names = groups.map_values(|g: ModuleGroup| g.label());
    assert forall|i: int| 0 <= i < names.len() implies (#[trigger] names[i]).len() > 0
        && !names[i].contains(',') by {
        law_group_names_hold_no_comma(groups[i]);
    }
    law_split_undoes_join(names, ',');
}

/// A saved style always decodes, so it is always listed.
pub proof fn law_saved_style_decodes(row: StyleRow, params: PreviewParams)
    requires
        row.params@ == params.encoded(),
    ensures
        decoded(row.params@) == Some(params),
{
    law_decode_undoes_encode(params);
}

// ── Applying ────────────────────────────────────────────────────────────────
/// An edit after a style is applied to it: the style's whole edit, or the edit with the
/// style's modules taken over.
pub open spec fn styled(current: PreviewParams, style: Style) -> PreviewParams {
    match style.modules {
        Some(groups) => merged(current, style.params, texts(groups@)),
        None => style.params,
    }
}

/// Applies a style to an edit. A style of the whole edit replaces it; one with a module
/// list takes over those modules. Names of no module are passed over.
pub fn apply_style(current: &PreviewParams, style: &Style) -> (r: PreviewParams)
    ensures
        r == styled(*current, *style),
        style.modules is None ==> r == style.params,
        style.modules is Some ==> r == merged(*current, style.params, texts(style.modules->0@)),
{
    match &style.modules {
        None => style.params,
        Some(groups) => {
            let mut result = *current;
            let ghost names = texts(groups@);
            let mut i: usize = 0;
            while i < groups.len()
                invariant
                    i <= groups@.len(),
                    names == texts(groups@),
                    result == merged(*current, style.params, names.take(i as int)),
                decreases groups@.len() - i,
            {
                copy_module_group(&mut result, &style.params, groups[i].as_str());
                assert(names.take(i + 1).drop_last() =~= names.take(i as int));
                assert(names.take(i + 1).last() == groups@[i as int]@);
                i = i + 1;
            }
            assert(names.take(i as int) =~= names);
            result
        },
    }
}

/// The edit of an image: the default one, if none is stored that decodes.
pub open spec fn edit_or_default(edits: Map<i32, Seq<u8>>, id: i32) -> PreviewParams {
    if edits.contains_key(id) && decoded(edits[id]) is Some {
        decoded(edits[id])->0
    } else {
        PreviewParams::defaults()
    }
}

/// The stored edits after a style is applied to some images one after the other, and how
/// many were written. An image without an edit starts from the default one.
pub open spec fn style_applied(
    catalogue: Catalogue,
    edits: Map<i32, Seq<u8>>,
    paths: Seq<String>,
    style: Style,
) -> (Map<i32, Seq<u8>>, int)
    decreases paths.len(),
{
    if paths.len() == 0 {
        (edits, 0)
    } else {
        let (before, n) = style_applied(catalogue, edits, paths.drop_last(), style);
        match catalogue.image_id(paths.last()@) {
            Some(id) => {
                (before.insert(id, styled(edit_or_default(before, id), style).encoded()), n + 1)
            },
            None => (before, n),
        }
    }
}

/// Applies a style to every image that the catalogue knows. Returns how many edits were
/// written: an unknown path is not counted.
pub fn apply_style_to(catalogue: &mut Catalogue, full_paths: &[String], style: &Style) -> (r: usize)
    requires
        old(catalogue).wf(),
    ensures
        final(catalogue).wf(),
        *final(catalogue) == (Catalogue { params: final(catalogue).params, ..*old(catalogue) }),
        (bytes_of(final(catalogue).params@), r as int) == style_applied(
            *old(catalogue),
            bytes_of(old(catalogue).params@),
            full_paths@,
            *style,
        ),
{
    let ghost start = bytes_of(catalogue.params@);
    let mut written: usize = 0;
    let mut i: usize = 0;
    while i < full_paths.len()
        invariant
            i <= full_paths@.len(),
            written <= i,
            catalogue.wf(),
            *catalogue == (Catalogue { params: catalogue.params, ..*old(catalogue) }),
            start == bytes_of(old(catalogue).params@),
            (bytes_of(catalogue.params@), written as int) == style_applied(
                *old(catalogue),
                start,
                full_paths@.take(i as int),
                *style,
            ),
        decreases full_paths@.len() - i,
    {
        assert(full_paths@.take(i + 1).drop_last() =~= full_paths@.take(i as int));
        assert(full_paths@.take(i + 1).last() == full_paths@[i as int]);
        assert(catalogue.image_id(full_paths@[i as int]@) == old(catalogue).image_id(
            full_paths@[i as int]@,
        ));
        match imgid_for_path(catalogue, full_paths[i].as_str()) {
            Some(id) => {
                let ghost before = catalogue.params@;
                assert(bytes_of(before).contains_key(id) <==> before.contains_key(id));
                let stored: Option<PreviewParams> = match catalogue.params.get(id) {
                    Some(blob) => PreviewParams::decode(blob.as_slice()),
                    None => None,
                };
                let current: PreviewParams = match stored {
                    Some(p) => p,
                    None => PreviewParams::default(),
                };
                let blob = apply_style(&current, style).encode();
                catalogue.params.put(id, blob);
                assert(bytes_of(before.insert(id, blob)) =~= bytes_of(before).insert(id, blob@));
                written = written + 1;
            },
            None => {},
        }
        i = i + 1;
    }
    assert(full_paths@.take(i as int) =~= full_paths@);
    written
}

/// A style reaches every image that the catalogue knows: afterwards each of them has the
/// style applied to the edit that it had, or to the default one if it had none. An image
/// that is named twice is no different.
pub proof fn law_style_reaches_every_image(
    catalogue: Catalogue,
    edits: Map<i32, Seq<u8>>,
    paths: Seq<String>,
    style: Style,
    i: int,
)
    requires
        0 <= i < paths.len(),
        catalogue.image_id(paths[i]@) is Some,
    ensures
        ({
            let after = style_applied(catalogue, edits, paths, style).0;
            let id = catalogue.image_id(paths[i]@)->0;
            after.contains_key(id) && decoded(after[id]) == Some(
                styled(edit_or_default(edits, id), style),
            )
        }),
    decreases paths.len(),
{
    let id = catalogue.image_id(paths[i]@)->0;
    let rest = paths.drop_last();
    let before = style_applied(catalogue, edits, rest, style).0;
    let base = edit_or_default(edits, id);
    law_decode_undoes_encode(styled(base, style));
    law_decode_undoes_encode(styled(styled(base, style), style));
    lemma_styled_again(base, style);
    if exists|j: int| 0 <= j < rest.len() && catalogue.image_id((#[trigger] rest[j])@) == Some(id) {
        let j = choose|j: int|
            0 <= j < rest.len() && catalogue.image_id((#[trigger] rest[j])@) == Some(id);
        law_style_reaches_every_image(catalogue, edits, rest, style, j);
    } else {
        law_style_leaves_other_images(catalogue, edits, rest, style, id);
        assert(i < rest.len() ==> rest[i] == paths[i]);
    }
}

proof fn lemma_styled_again(current: PreviewParams, style: Style)
    ensures
        styled(styled(current, style), style) == styled(current, style),
{
    if style.modules is Some {
        law_merging_again_changes_nothing(current, style.params, texts(style.modules->0@));
    }
}

/// A style of the whole edit reaches every image that the catalogue knows: afterwards
/// each of them has the style's edit.
pub proof fn law_whole_style_reaches_every_image(
    catalogue: Catalogue,
    edits: Map<i32, Seq<u8>>,
    paths: Seq<String>,
    style: Style,
    i: int,
)
    requires
        style.modules is None,
        0 <= i < paths.len(),
        catalogue.image_id(paths[i]@) is Some,
    ensures
        ({
            let after = style_applied(catalogue, edits, paths, style).0;
            let id = catalogue.image_id(paths[i]@)->0;
            after.contains_key(id) && decoded(after[id]) == Some(style.params)
        }),
    decreases paths.len(),
{
    law_decode_undoes_encode(style.params);
    if i < paths.len() - 1 {
        law_whole_style_reaches_every_image(catalogue, edits, paths.drop_last(), style, i);
    }
}

/// An image that is no target keeps the edit it had.
pub proof fn law_style_leaves_other_images(
    catalogue: Catalogue,
    edits: Map<i32, Seq<u8>>,
    paths: Seq<String>,
    style: Style,
    id: i32,
)
    requires
        forall|i: int| 0 <= i < paths.len() ==> catalogue.image_id((#[trigger] paths[i])@) != Some(id),
    ensures
        style_applied(catalogue, edits, paths, style).0.contains_key(id) == edits.contains_key(id),
        edits.contains_key(id) ==> style_applied(catalogue, edits, paths, style).0[id]
            == edits[id],
    decreases paths.len(),
{
    if paths.len() > 0 {
        let rest = paths.drop_last();
        assert forall|i: int| 0 <= i < rest.len() implies catalogue.image_id(
            (#[trigger] rest[i])@,
        ) != Some(id) by {
            assert(rest[i] == paths[i]);
        }
        assert(catalogue.image_id(paths[paths.len() - 1]@) != Some(id));
        law_style_leaves_other_images(catalogue, edits, rest, style, id);
    }
}

// ── Named collection filters ────────────────────────────────────────────────
/// Saves a collection filter under its trimmed name, in place of one of that name. A name
/// or a filter that is blank is refused; the filter itself is stored as it is.
pub fn save_collection_preset(catalogue: &mut Catalogue, name: &str, payload: &str) -> (r: bool)
    requires
        old(catalogue).wf(),
    ensures
        final(catalogue).wf(),
        *final(catalogue) == (Catalogue { presets: final(catalogue).presets, ..*old(catalogue) }),
        r == (old(catalogue).open && trimmed(name@, false).len() > 0 && trimmed(
            payload@,
            false,
        ).len() > 0),
        r ==> final(catalogue).presets@.contains_key(trimmed(name@, false))
            && final(catalogue).presets@[trimmed(name@, false)]@ == payload@,
        forall|other: Seq<char>|
            !(r) || other != trimmed(name@, false) ==> {
                &&& #[trigger] final(catalogue).presets@.contains_key(other)
                    <==> old(catalogue).presets@.contains_key(other)
                &&& old(catalogue).presets@.contains_key(other) ==> final(catalogue).presets@[other]@
                    == old(catalogue).presets@[other]@
            },
        texts_of(final(catalogue).presets@) == if r {
            texts_of(old(catalogue).presets@).insert(trimmed(name@, false), payload@)
        } else {
            texts_of(old(catalogue).presets@)
        },
{
    let name: String = trim_text(name, false);
    let content: String = trim_text(payload, false);
    if !catalogue.open || name.as_str().is_empty() || content.as_str().is_empty() {
        return false;
    }
    let value: String = payload.to_owned();
    let ghost before = catalogue.presets@;
    let ghost key = name@;
    catalogue.presets.put(name, value);
    assert(texts_of(before.insert(key, value)) =~= texts_of(before).insert(key, value@));
    true
}

/// The names of some collection filters.
pub open spec fn preset_names(list: Seq<(String, String)>) -> Seq<Seq<char>> {
    list.map_values(|p: (String, String)| p.0@)
}

fn preset_place(list: &Vec<(String, String)>, name: &str) -> (k: usize)
    ensures
        k <= list@.len(),
        forall|i: int|
            0 <= i < k ==> !text_lt(lowered(name@), lowered(#[trigger] preset_names(list@)[i])),
        k < list@.len() ==> text_lt(lowered(name@), lowered(preset_names(list@)[k as int])),
{
    let low = lower_text(name);
    let mut k: usize = 0;
    while k < list.len()
        invariant
            k <= list@.len(),
            low@ == lowered(name@),
            forall|i: int|
                0 <= i < k ==> !text_lt(lowered(name@), lowered(#[trigger] preset_names(list@)[i])),
        decreases list@.len() - k,
    {
        assert(preset_names(list@)[k as int] == list@[k as int].0@);
        if text_before(low.as_str(), lower_text(list[k].0.as_str()).as_str()) {
            return k;
        }
        k = k + 1;
    }
    k
}

/// All collection filters, in the order of their names.
pub fn load_collection_presets(catalogue: &Catalogue) -> (r: Vec<(String, String)>)
    requires
        catalogue.wf(),
    ensures
        !catalogue.open ==> r@.len() == 0,
        listed_by_name(preset_names(r@)),
        forall|i: int, j: int|
            0 <= i < j < r@.len() ==> (#[trigger] r@[i]).0@ != (#[trigger] r@[j]).0@ && !text_lt(
                lowered(r@[j].0@),
                lowered(r@[i].0@),
            ),
        forall|i: int|
            0 <= i < r@.len() ==> catalogue.presets@.contains_key((#[trigger] r@[i]).0@)
                && catalogue.presets@[r@[i].0@]@ == r@[i].1@,
        forall|name: Seq<char>| #[trigger]
            catalogue.presets@.contains_key(name) && catalogue.open ==> preset_names(r@).contains(
                name,
            ),
{
    let mut out: Vec<(String, String)> = Vec::new();
    if !catalogue.open {
        return out;
    }
    let ghost rows = catalogue.presets.entries();
    proof {
        lemma_text_map(rows);
    }
    let n: usize = catalogue.presets.len();
    let mut i: usize = 0;
    while i < n
        invariant
            i <= n == rows.len(),
            rows == catalogue.presets.entries(),
            catalogue.wf(),
            listed_by_name(preset_names(out@)),
            out@.len() == i,
            forall|k: int|
                0 <= k < out@.len() ==> (exists|m: int|
                    0 <= m < i && (#[trigger] out@[k]).0@ == rows[m].0 && out@[k].1@
                        == rows[m].1@),
            forall|m: int| 0 <= m < i ==> preset_names(out@).contains((#[trigger] rows[m]).0),
        decreases n - i,
    {
        let (name, payload) = catalogue.presets.entry(i);
        let ghost before = out@;
        let k: usize = preset_place(&out, name.as_str());
        proof {
            let names = preset_names(before);
            assert forall|a: int| 0 <= a < names.len() implies #[trigger] names[a] != name@ by {
                let m = choose|m: int|
                    0 <= m < i && before[a].0@ == rows[m].0 && before[a].1@ == rows[m].1@;
                assert(rows[m].0 != rows[i as int].0);
            }
            lemma_list_insert(names, name@, k as int);
        }
        out.insert(k, (name.clone(), payload.clone()));
        proof {
            let names = preset_names(before);
            assert(preset_names(out@) =~= names.insert(k as int, name@));
            assert forall|a: int| 0 <= a < out@.len() implies exists|m: int|
                0 <= m < i + 1 && (#[trigger] out@[a]).0@ == rows[m].0 && out@[a].1@ == rows[m].1@ by {
                if a == k {
                    assert(out@[a].0@ == rows[i as int].0 && out@[a].1@ == rows[i as int].1@);
                } else {
                    let b = if a < k { a } else { a - 1 };
                    assert(out@[a] == before[b]);
                    let m = choose|m: int|
                        0 <= m < i && before[b].0@ == rows[m].0 && before[b].1@ == rows[m].1@;
                    assert(out@[a].0@ == rows[m].0 && out@[a].1@ == rows[m].1@);
                }
            }
            assert forall|m: int| 0 <= m < i + 1 implies preset_names(out@).contains(
                (#[trigger] rows[m]).0,
            ) by {
                if m == i {
                    assert(preset_names(out@)[k as int] == rows[m].0);
                } else {
                    let a = choose|a: int| 0 <= a < names.len() && names[a] == rows[m].0;
                    assert(preset_names(out@)[if a < k { a } else { a + 1 }] == rows[m].0);
                }
            }
        }
        i = i + 1;
    }
    proof {
        assert forall|k: int| 0 <= k < out@.len() implies catalogue.presets@.contains_key(
            (#[trigger] out@[k]).0@,
        ) && catalogue.presets@[out@[k].0@]@ == out@[k].1@ by {
            let m = choose|m: int|
                0 <= m < i && out@[k].0@ == rows[m].0 && out@[k].1@ == rows[m].1@;
            assert(text_map(rows).contains_pair(rows[m].0, rows[m].1));
        }
        assert forall|name: Seq<char>| #[trigger]
            catalogue.presets@.contains_key(name) && catalogue.open implies preset_names(
            out@,
        ).contains(name) by {
            let m = choose|m: int| 0 <= m < rows.len() && rows[m].0 == name;
            assert(preset_names(out@).contains(rows[m].0));
        }
    }
    assert forall|i: int, j: int| 0 <= i < j < out@.len() implies (#[trigger] out@[i]).0@ != (
    #[trigger] out@[j]).0@ && !text_lt(lowered(out@[j].0@), lowered(out@[i].0@)) by {
        let names = preset_names(out@);
        assert(names[i] == out@[i].0@ && names[j] == out@[j].0@);
    }
    out
}

/// Deletes a collection filter. Returns whether there was one of that name.
pub fn delete_collection_preset(catalogue: &mut Catalogue, name: &str) -> (r: bool)
    requires
        old(catalogue).wf(),
    ensures
        final(catalogue).wf(),
        *final(catalogue) == (Catalogue { presets: final(catalogue).presets, ..*old(catalogue) }),
        r == (old(catalogue).open && old(catalogue).presets@.contains_key(name@)),
        final(catalogue).presets@ == if old(catalogue).open {
            old(catalogue).presets@.remove(name@)
        } else {
            old(catalogue).presets@
        },
{
    if !catalogue.open {
        return false;
    }
    catalogue.presets.remove(name)
}

/// The edit that a style changes is the one that is saved, where one that can be read is, and
/// a fresh one where not.
pub proof fn law_style_changes_the_saved_edit(edits: Map<i32, Seq<u8>>, id: i32, p: PreviewParams)
    ensures
        edits.contains_key(id) && decoded(edits[id]) == Some(p) ==> edit_or_default(edits, id) == p,
        !edits.contains_key(id) ==> edit_or_default(edits, id) == PreviewParams::defaults(),
        edits.contains_key(id) && decoded(edits[id]) is None ==> edit_or_default(edits, id)
            == PreviewParams::defaults(),
{
}

/// Applying a style counts every path whose image is known.
pub proof fn law_style_counts_the_known_images(
    catalogue: Catalogue,
    edits: Map<i32, Seq<u8>>,
    paths: Seq<String>,
    style: Style,
)
    ensures
        style_applied(catalogue, edits, paths, style).1 == paths.filter(
            |path: String| catalogue.image_id(path@) is Some,
        ).len(),
    decreases paths.len(),
{
    reveal(Seq::filter);
    if paths.len() > 0 {
        law_style_counts_the_known_images(catalogue, edits, paths.drop_last(), style);
    }
}

/// A row of a style keeps the names of its groups with a comma between each two, and none if
/// the style is a whole edit.
pub proof fn law_stored_groups(names: Seq<Seq<char>>)
    ensures
        stored_modules(None) is None,
        stored_modules(Some(names)) == Some(joined(names, seq![','])),
{
}

} // verus!
