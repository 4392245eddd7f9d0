//! Image metadata: the five editable fields, and how they are stored.
use vstd::prelude::*;

use crate::catalogue::{imgid_for_path, Catalogue};
use crate::text::{texts, trim_text, trimmed};

verus! {

/// A stored metadata value.
#[derive(Clone, Debug)]
pub struct MetaRow {
    pub id: i32,
    pub key: i32,
    pub value: String,
}

/// An editable metadata field.
#[derive(Clone, Copy, Debug, PartialEq, Eq, Structural)]
pub enum MetaField {
    Title,
    Description,
    Creator,
    Publisher,
    Rights,
}

impl MetaField {
    /// The fields in the order in which they are shown.
    pub const ALL: [MetaField; 5] = [
        MetaField::Title,
        MetaField::Description,
        MetaField::Creator,
        MetaField::Publisher,
        MetaField::Rights,
    ];

    /// The stored key.
    pub open spec fn stored_key(self) -> i32 {
        match self {
            MetaField::Title => 2,
            MetaField::Description => 3,
            MetaField::Creator => 0,
            MetaField::Publisher => 1,
            MetaField::Rights => 4,
        }
    }

    /// The key under which the field is stored.
    pub fn key(self) -> (r: i32)
        ensures
            r == self.stored_key(),
            self is Creator ==> r == 0,
            self is Publisher ==> r == 1,
            self is Title ==> r == 2,
            self is Description ==> r == 3,
            self is Rights ==> r == 4,
    {
        match self {
            MetaField::Title => 2,
            MetaField::Description => 3,
            MetaField::Creator => 0,
            MetaField::Publisher => 1,
            MetaField::Rights => 4,
        }
    }

    /// The label beside the field.
    pub open spec fn label_text(self) -> Seq<char> {
        match self {
            MetaField::Title => "Title"@,
            MetaField::Description => "Description"@,
            MetaField::Creator => "Creator"@,
            MetaField::Publisher => "Publisher"@,
            MetaField::Rights => "Rights"@,
        }
    }

    /// The label beside the field.
    pub fn label(self) -> (r: &'static str)
        ensures
            r@ == self.label_text(),
            self is Title ==> r@ == "Title"@,
            self is Description ==> r@ == "Description"@,
            self is Creator ==> r@ == "Creator"@,
            self is Publisher ==> r@ == "Publisher"@,
            self is Rights ==> r@ == "Rights"@,
    {
        match self {
            MetaField::Title => "Title",
            MetaField::Description => "Description",
            MetaField::Creator => "Creator",
            MetaField::Publisher => "Publisher",
            MetaField::Rights => "Rights",
        }
    }
}

/// No two fields are stored under one key, and every field is listed once.
pub proof fn law_field_keys_are_distinct(a: MetaField, b: MetaField)
    ensures
        a.stored_key() == b.stored_key() ==> a == b,
        MetaField::ALL@.contains(a),
        forall|i: int, j: int|
            0 <= i < j < 5 ==> #[trigger] MetaField::ALL@[i] != #[trigger] MetaField::ALL@[j],
{
    let all = MetaField::ALL@;
    assert(all[0] == MetaField::Title && all[1] == MetaField::Description && all[2]
        == MetaField::Creator && all[3] == MetaField::Publisher && all[4] == MetaField::Rights);
}

// ── The rows ────────────────────────────────────────────────────────────────
/// What a row holds: the image, the key and the value.
pub type Meta = (i32, i32, Seq<char>);

/// What the rows hold.
pub open spec fn meta_rows(rows: Seq<MetaRow>) -> Seq<Meta> {
    rows.map_values(|r: MetaRow| (r.id, r.key, r.value@))
}

/// Whether a row is an image's value for a key.
pub open spec fn is_value(row: Meta, id: i32, key: i32) -> bool {
    row.0 == id && row.1 == key
}

/// The value of an image for a key: the first that is stored.
pub open spec fn stored_value(rows: Seq<Meta>, id: i32, key: i32) -> Option<Seq<char>>
    decreases rows.len(),
{
    if rows.len() == 0 {
        None
    } else {
        match stored_value(rows.drop_last(), id, key) {
            Some(v) => Some(v),
            None => if is_value(rows.last(), id, key) {
                Some(rows.last().2)
            } else {
                None
            },
        }
    }
}

/// The value of a field as it is shown: blank if nothing is stored.
pub open spec fn shown_value(rows: Seq<Meta>, id: i32, key: i32) -> Seq<char> {
    match stored_value(rows, id, key) {
        Some(v) => v,
        None => Seq::empty(),
    }
}

/// The rows without an image's values for a key.
pub open spec fn without_value(rows: Seq<Meta>, id: i32, key: i32) -> Seq<Meta>
    decreases rows.len(),
{
    if rows.len() == 0 {
        Seq::empty()
    } else {
        let rest = without_value(rows.drop_last(), id, key);
        if is_value(rows.last(), id, key) {
            rest
        } else {
            rest.push(rows.last())
        }
    }
}

/// The rows after a value is written: it replaces all that were stored for its key, and
/// a blank one is not stored. Spaces around it do not count.
pub open spec fn value_written(
    rows: Seq<Meta>,
    id: i32,
    key: i32,
    value: Seq<char>,
) -> Seq<Meta> {
    let rest = without_value(rows, id, key);
    if trimmed(value, true).len() == 0 {
        rest
    } else {
        rest.push((id, key, trimmed(value, true)))
    }
}

/// The rows after some fields of an image are written one after the other.
pub open spec fn fields_written(
    rows: Seq<Meta>,
    id: i32,
    fields: Seq<(MetaField, String)>,
) -> Seq<Meta>
    decreases fields.len(),
{
    if fields.len() == 0 {
        rows
    } else {
        value_written(
            fields_written(rows, id, fields.drop_last()),
            id,
            fields.last().0.stored_key(),
            fields.last().1@,
        )
    }
}

/// Whether the write to the image at place `i` takes effect: the image is known, and the
/// write committed.
pub open spec fn takes_effect(
    catalogue: Catalogue,
    paths: Seq<Seq<char>>,
    committed: Seq<bool>,
    i: int,
) -> bool {
    catalogue.image_id(paths[i]) is Some && committed[i]
}

/// The rows after some fields are written to every image that is known and whose write
/// committed, and the paths of those images.
pub open spec fn images_written(
    catalogue: Catalogue,
    rows: Seq<Meta>,
    paths: Seq<Seq<char>>,
    fields: Seq<(MetaField, String)>,
    committed: Seq<bool>,
) -> (Seq<Meta>, Seq<Seq<char>>)
    decreases paths.len(),
{
    if paths.len() == 0 {
        (rows, Seq::empty())
    } else {
        let last = paths.len() - 1;
        let (before, done) = images_written(
            catalogue,
            rows,
            paths.drop_last(),
            fields,
            committed.drop_last(),
        );
        if takes_effect(catalogue, paths, committed, last) {
            (
                fields_written(before, catalogue.image_id(paths[last])->0, fields),
                done.push(paths[last]),
            )
        } else {
            (before, done)
        }
    }
}

fn remove_values(rows: &Vec<MetaRow>, id: i32, key: i32) -> (r: Vec<MetaRow>)
    ensures
        meta_rows(r@) == without_value(meta_rows(rows@), id, key),
{
    let mut kept: Vec<MetaRow> = Vec::new();
    let ghost all = meta_rows(rows@);
    let mut i: usize = 0;
    while i < rows.len()
        invariant
            i <= rows@.len(),
            all == meta_rows(rows@),
            meta_rows(kept@) == without_value(all.take(i as int), id, key),
        decreases rows@.len() - i,
    {
        assert(all.take(i + 1).drop_last() =~= all.take(i as int));
        let row = &rows[i];
        let ghost before = kept@;
        if !(row.id == id && row.key == key) {
            kept.push(MetaRow { id: row.id, key: row.key, value: row.value.clone() });
            assert(meta_rows(kept@) =~= meta_rows(before).push(all[i as int]));
        }
        i = i + 1;
    }
    assert(all.take(i as int) =~= all);
    assert(meta_rows(kept@) == without_value(meta_rows(rows@), id, key));
    kept
}

fn find_value(rows: &Vec<MetaRow>, id: i32, key: i32) -> (r: String)
    ensures
        r@ == shown_value(meta_rows(rows@), id, key),
{
    let ghost all = meta_rows(rows@);
    let mut i: usize = 0;
    while i < rows.len()
        invariant
            i <= rows@.len(),
            all == meta_rows(rows@),
            stored_value(all.take(i as int), id, key) is None,
        decreases rows@.len() - i,
    {
        assert(all.take(i + 1).drop_last() =~= all.take(i as int));
        if rows[i].id == id && rows[i].key == key {
            proof {
                lemma_first_value_stays(all, id, key, i + 1);
            }
            return rows[i].value.clone();
        }
        i = i + 1;
    }
    assert(all.take(i as int) =~= all);
    String::new()
}

proof fn lemma_first_value_stays(rows: Seq<Meta>, id: i32, key: i32, n: int)
    requires
        0 <= n <= rows.len(),
        stored_value(rows.take(n), id, key) is Some,
    ensures
        stored_value(rows, id, key) == stored_value(rows.take(n), id, key),
    decreases rows.len() - n,
{
    if n == rows.len() {
        assert(rows.take(n) =~= rows);
    } else {
        assert(rows.take(n + 1).drop_last() =~= rows.take(n));
        lemma_first_value_stays(rows, id, key, n + 1);
    }
}

// ── Reading ─────────────────────────────────────────────────────────────────
/// Whether a list is the five fields of an image, in their order.
pub open spec fn lists_fields(list: Seq<(MetaField, String)>, rows: Seq<Meta>, id: i32) -> bool {
    &&& list.len() == 5
    &&& forall|i: int|
        0 <= i < 5 ==> (#[trigger] list[i]).0 == MetaField::ALL@[i] && list[i].1@ == shown_value(
            rows,
            id,
            MetaField::ALL@[i].stored_key(),
        )
}

/// The five fields of an image, or `None` if there is no catalogue, it does not know the
/// image, or the stored values could not be read. A read that failed never looks like five
/// blank fields.
pub fn try_load_metadata(catalogue: &Catalogue, full_path: &str) -> (r: Option<
    Vec<(MetaField, String)>,
>)
    ensures
        r is Some <==> catalogue.image_id(full_path@) is Some && catalogue.metadata_read,
        r is Some ==> lists_fields(
            r->0@,
            meta_rows(catalogue.metadata@),
            catalogue.image_id(full_path@)->0,
        ),
        r is Some ==> {
            let rows = meta_rows(catalogue.metadata@);
            let id = catalogue.image_id(full_path@)->0;
            &&& r->0@.len() == 5
            &&& r->0@[0].0 is Title && r->0@[0].1@ == shown_value(rows, id, 2)
            &&& r->0@[1].0 is Description && r->0@[1].1@ == shown_value(rows, id, 3)
            &&& r->0@[2].0 is Creator && r->0@[2].1@ == shown_value(rows, id, 0)
            &&& r->0@[3].0 is Publisher && r->0@[3].1@ == shown_value(rows, id, 1)
            &&& r->0@[4].0 is Rights && r->0@[4].1@ == shown_value(rows, id, 4)
        },
{
    if !catalogue.metadata_read {
        return None;
    }
    match imgid_for_path(catalogue, full_path) {
        Some(id) => {
            let ghost rows = meta_rows(catalogue.metadata@);
            let mut out: Vec<(MetaField, String)> = Vec::new();
            let mut i: usize = 0;
            while i < 5
                invariant
                    i <= 5,
                    out@.len() == i,
                    rows == meta_rows(catalogue.metadata@),
                    forall|k: int|
                        0 <= k < i ==> (#[trigger] out@[k]).0 == MetaField::ALL@[k] && out@[k].1@
                            == shown_value(rows, id, MetaField::ALL@[k].stored_key()),
                decreases 5 - i,
            {
                let field: MetaField = MetaField::ALL[i];
                out.push((field, find_value(&catalogue.metadata, id, field.key())));
                i = i + 1;
            }
            Some(out)
        },
        None => None,
    }
}

/// The five fields of an image. A field without a stored value is blank. The list is
/// empty if there is no catalogue, it does not know the image, or the stored values could
/// not be read.
pub fn load_metadata(catalogue: &Catalogue, full_path: &str) -> (r: Vec<(MetaField, String)>)
    ensures
        if catalogue.image_id(full_path@) is Some && catalogue.metadata_read {
            lists_fields(r@, meta_rows(catalogue.metadata@), catalogue.image_id(full_path@)->0)
        } else {
            r@.len() == 0
        },
{
    match try_load_metadata(catalogue, full_path) {
        Some(list) => list,
        None => Vec::new(),
    }
}

// ── Writing ─────────────────────────────────────────────────────────────────
/// What a write of a field does: the key, and the value that replaces all that are stored
/// for it. There is no value where the field is blank; spaces around it do not count.
pub fn field_write(field: MetaField, value: &str) -> (r: (i32, Option<String>))
    ensures
        r.0 == field.stored_key(),
        field is Creator ==> r.0 == 0,
        field is Publisher ==> r.0 == 1,
        field is Title ==> r.0 == 2,
        field is Description ==> r.0 == 3,
        field is Rights ==> r.0 == 4,
        match r.1 {
            Some(v) => v@ == trimmed(value@, true) && v@.len() > 0,
            None => trimmed(value@, true).len() == 0,
        },
{
    let text: String = trim_text(value, true);
    if text.as_str().is_empty() {
        (field.key(), None)
    } else {
        (field.key(), Some(text))
    }
}

fn write_fields(catalogue: &mut Catalogue, id: i32, fields: &[(MetaField, String)])
    ensures
        *final(catalogue) == (Catalogue { metadata: final(catalogue).metadata, ..*old(catalogue) }),
        meta_rows(final(catalogue).metadata@) == fields_written(
            meta_rows(old(catalogue).metadata@),
            id,
            fields@,
        ),
{
    let ghost start = meta_rows(catalogue.metadata@);
    let mut i: usize = 0;
    while i < fields.len()
        invariant
            i <= fields@.len(),
            start == meta_rows(old(catalogue).metadata@),
            *catalogue == (Catalogue { metadata: catalogue.metadata, ..*old(catalogue) }),
            meta_rows(catalogue.metadata@) == fields_written(start, id, fields@.take(i as int)),
        decreases fields@.len() - i,
    {
        assert(fields@.take(i + 1).drop_last() =~= fields@.take(i as int));
        let (key, written): (i32, Option<String>) = field_write(fields[i].0, fields[i].1.as_str());
        let mut rows: Vec<MetaRow> = remove_values(&catalogue.metadata, id, key);
        let ghost before = rows@;
        match written {
            Some(value) => {
                let ghost text = value@;
                rows.push(MetaRow { id, key, value });
                assert(meta_rows(rows@) =~= meta_rows(before).push((id, key, text)));
            },
            None => {},
        }
        catalogue.metadata = rows;
        i = i + 1;
    }
    assert(fields@.take(i as int) =~= fields@);
}

/// Writes some fields to every image in a list, and returns the paths that were written,
/// in their order. Each image is a write of its own: `committed` tells of each path whether
/// its write committed. A path that the catalogue does not know, or whose write failed, is
/// passed over, and is missing in the result. Fields that are not named are left as they
/// are. Nothing is written if there is no catalogue or no field is named.
pub fn save_metadata_many(
    catalogue: &mut Catalogue,
    full_paths: &[String],
    fields: &[(MetaField, String)],
    committed: &[bool],
) -> (r: Vec<String>)
    requires
        committed@.len() == full_paths@.len(),
    ensures
        *final(catalogue) == (Catalogue { metadata: final(catalogue).metadata, ..*old(catalogue) }),
        old(catalogue).open && fields@.len() > 0 ==> (
            meta_rows(final(catalogue).metadata@),
            texts(r@),
        ) == images_written(
            *old(catalogue),
            meta_rows(old(catalogue).metadata@),
            texts(full_paths@),
            fields@,
            committed@,
        ),
        !(old(catalogue).open && fields@.len() > 0) ==> r@.len() == 0 && final(catalogue).metadata
            == old(catalogue).metadata,
{
    let mut written: Vec<String> = Vec::new();
    if !catalogue.open || fields.len() == 0 {
        return written;
    }
    let ghost start = meta_rows(catalogue.metadata@);
    let ghost paths = texts(full_paths@);
    let mut i: usize = 0;
    assert(texts(written@) =~= Seq::empty());
    while i < full_paths.len()
        invariant
            i <= full_paths@.len(),
            committed@.len() == full_paths@.len(),
            start == meta_rows(old(catalogue).metadata@),
            paths == texts(full_paths@),
            *catalogue == (Catalogue { metadata: catalogue.metadata, ..*old(catalogue) }),
            (meta_rows(catalogue.metadata@), texts(written@)) == images_written(
                *old(catalogue),
                start,
                paths.take(i as int),
                fields@,
                committed@.take(i as int),
            ),
        decreases full_paths@.len() - i,
    {
        assert(paths.take(i + 1).drop_last() =~= paths.take(i as int));
        assert(committed@.take(i + 1).drop_last() =~= committed@.take(i as int));
        assert(catalogue.image_id(paths[i as int]) == old(catalogue).image_id(paths[i as int]));
        match imgid_for_path(catalogue, full_paths[i].as_str()) {
            Some(id) => {
                if committed[i] {
                    write_fields(catalogue, id, fields);
                    let ghost before = written@;
                    written.push(full_paths[i].clone());
                    assert(texts(written@) =~= texts(before).push(paths[i as int]));
                }
            },
            None => {},
        }
        i = i + 1;
    }
    assert(paths.take(i as int) =~= paths);
    assert(committed@.take(i as int) =~= committed@);
    written
}

/// Writes some fields of one image. `committed` tells whether the write committed. Returns
/// whether they were written: there is a catalogue that knows the image, a field is named,
/// and the write committed.
pub fn save_metadata(
    catalogue: &mut Catalogue,
    full_path: &str,
    fields: &[(MetaField, String)],
    committed: bool,
) -> (r: bool)
    ensures
        *final(catalogue) == (Catalogue { metadata: final(catalogue).metadata, ..*old(catalogue) }),
        r == (old(catalogue).image_id(full_path@) is Some && fields@.len() > 0 && committed),
        r ==> meta_rows(final(catalogue).metadata@) == fields_written(
            meta_rows(old(catalogue).metadata@),
            old(catalogue).image_id(full_path@)->0,
            fields@,
        ),
        !r ==> final(catalogue).metadata == old(catalogue).metadata,
{
    if fields.len() == 0 || !committed {
        return false;
    }
    match imgid_for_path(catalogue, full_path) {
        Some(id) => {
            write_fields(catalogue, id, fields);
            true
        },
        None => false,
    }
}

// ── Laws ────────────────────────────────────────────────────────────────────
proof fn lemma_without(rows: Seq<Meta>, id: i32, key: i32, other: i32, other_key: i32)
    ensures
        stored_value(without_value(rows, id, key), id, key) is None,
        !(other == id && other_key == key) ==> stored_value(
            without_value(rows, id, key),
            other,
            other_key,
        ) == stored_value(rows, other, other_key),
    decreases rows.len(),
{
    if rows.len() > 0 {
        lemma_without(rows.drop_last(), id, key, other, other_key);
        let rest = without_value(rows.drop_last(), id, key);
        assert(rest.push(rows.last()).drop_last() =~= rest);
    }
}

/// Reading a field after writing it gives the value back, without the spaces around it.
pub proof fn law_read_gives_the_written_value(
    rows: Seq<Meta>,
    id: i32,
    key: i32,
    value: Seq<char>,
)
    ensures
        shown_value(value_written(rows, id, key, value), id, key) == trimmed(value, true),
{
    lemma_without(rows, id, key, id, key);
    let rest = without_value(rows, id, key);
    let v = trimmed(value, true);
    assert(rest.push((id, key, v)).drop_last() =~= rest);
    if v.len() == 0 {
        assert(v =~= Seq::empty());
    }
}

/// Writing a field changes no other field, and no other image.
pub proof fn law_write_leaves_the_rest(
    rows: Seq<Meta>,
    id: i32,
    key: i32,
    value: Seq<char>,
    other: i32,
    other_key: i32,
)
    requires
        !(other == id && other_key == key),
    ensures
        stored_value(value_written(rows, id, key, value), other, other_key) == stored_value(
            rows,
            other,
            other_key,
        ),
{
    lemma_without(rows, id, key, other, other_key);
    let rest = without_value(rows, id, key);
    assert(rest.push((id, key, trimmed(value, true))).drop_last() =~= rest);
}

/// How many values an image has for a key.
pub open spec fn value_count(rows: Seq<Meta>, id: i32, key: i32) -> nat
    decreases rows.len(),
{
    if rows.len() == 0 {
        0
    } else {
        value_count(rows.drop_last(), id, key) + if is_value(rows.last(), id, key) {
            1nat
        } else {
            0nat
        }
    }
}

proof fn lemma_without_counts_none(rows: Seq<Meta>, id: i32, key: i32)
    ensures
        value_count(without_value(rows, id, key), id, key) == 0,
    decreases rows.len(),
{
    if rows.len() > 0 {
        lemma_without_counts_none(rows.drop_last(), id, key);
        let rest = without_value(rows.drop_last(), id, key);
        assert(rest.push(rows.last()).drop_last() =~= rest);
    }
}

/// After a write there is exactly one value for the key, and none at all if the value is
/// blank.
pub proof fn law_write_keeps_one_value(rows: Seq<Meta>, id: i32, key: i32, value: Seq<char>)
    ensures
        value_count(value_written(rows, id, key, value), id, key) == if trimmed(value, true).len()
            == 0 {
            0nat
        } else {
            1nat
        },
{
    lemma_without_counts_none(rows, id, key);
    let rest = without_value(rows, id, key);
    assert(rest.push((id, key, trimmed(value, true))).drop_last() =~= rest);
}

/// Writing one image is writing a list of that image alone.
pub proof fn law_one_image_is_a_list_of_one(
    catalogue: Catalogue,
    rows: Seq<Meta>,
    path: Seq<char>,
    fields: Seq<(MetaField, String)>,
    committed: bool,
)
    ensures
        images_written(catalogue, rows, seq![path], fields, seq![committed])
            == if catalogue.image_id(path) is Some && committed {
            (fields_written(rows, catalogue.image_id(path)->0, fields), seq![path])
        } else {
            (rows, Seq::empty())
        },
{
    let one = seq![path];
    let outcome = seq![committed];
    assert(one.drop_last() =~= Seq::empty());
    assert(images_written(catalogue, rows, one.drop_last(), fields, outcome.drop_last()) == (
        rows,
        Seq::<Seq<char>>::empty(),
    ));
    assert(Seq::<Seq<char>>::empty().push(path) =~= one);
}

/// The places of the paths that were written, in their order.
pub open spec fn written_places(
    catalogue: Catalogue,
    paths: Seq<Seq<char>>,
    committed: Seq<bool>,
) -> Seq<int> {
    Seq::new(paths.len(), |i: int| i).filter(
        |i: int| takes_effect(catalogue, paths, committed, i),
    )
}

/// The paths that were written are those of the known images whose write committed, in
/// their order.
pub proof fn law_written_paths_are_the_committed_ones(
    catalogue: Catalogue,
    rows: Seq<Meta>,
    paths: Seq<Seq<char>>,
    fields: Seq<(MetaField, String)>,
    committed: Seq<bool>,
)
    requires
        committed.len() == paths.len(),
    ensures
        images_written(catalogue, rows, paths, fields, committed).1 == written_places(
            catalogue,
            paths,
            committed,
        ).map_values(|i: int| paths[i]),
    decreases paths.len(),
{
    let all = Seq::new(paths.len(), |i: int| i);
    let effect = |i: int| takes_effect(catalogue, paths, committed, i);
    if paths.len() > 0 {
        let rest = paths.drop_last();
        let done = committed.drop_last();
        law_written_paths_are_the_committed_ones(catalogue, rows, rest, fields, done);
        let before = Seq::new(rest.len(), |i: int| i);
        let earlier = |i: int| takes_effect(catalogue, rest, done, i);
        assert(all.drop_last() =~= before);
        lemma_same_filter(before, effect, earlier);
        reveal(Seq::filter);
        let places = written_places(catalogue, rest, done);
        assert forall|k: int| 0 <= k < places.len() implies 0 <= #[trigger] places[k]
            < rest.len() by {
            lemma_filtered_are_members(before, earlier, k);
        }
        assert(places.map_values(|i: int| rest[i]) =~= places.map_values(|i: int| paths[i]));
        assert(places.push(paths.len() - 1).map_values(|i: int| paths[i]) =~= places.map_values(
            |i: int| paths[i],
        ).push(paths[paths.len() - 1]));
    } else {
        reveal(Seq::filter);
        assert(written_places(catalogue, paths, committed).map_values(|i: int| paths[i])
            =~= Seq::empty());
    }
}

proof fn lemma_same_filter(list: Seq<int>, f: spec_fn(int) -> bool, g: spec_fn(int) -> bool)
    requires
        forall|k: int| 0 <= k < list.len() ==> f(#[trigger] list[k]) == g(list[k]),
    ensures
        list.filter(f) == list.filter(g),
    decreases list.len(),
{
    reveal(Seq::filter);
    if list.len() > 0 {
        let rest = list.drop_last();
        assert forall|k: int| 0 <= k < rest.len() implies f(#[trigger] rest[k]) == g(rest[k]) by {
            assert(rest[k] == list[k]);
        }
        lemma_same_filter(rest, f, g);
        assert(f(list[list.len() - 1]) == g(list[list.len() - 1]));
    }
}

proof fn lemma_filtered_are_members(list: Seq<int>, f: spec_fn(int) -> bool, k: int)
    requires
        0 <= k < list.filter(f).len(),
    ensures
        list.contains(list.filter(f)[k]),
    decreases list.len(),
{
    reveal(Seq::filter);
    if list.len() > 0 {
        let rest = list.drop_last();
        if k < rest.filter(f).len() {
            lemma_filtered_are_members(rest, f, k);
            let i = choose|i: int| 0 <= i < rest.len() && rest[i] == rest.filter(f)[k];
            assert(list[i] == list.filter(f)[k]);
        } else {
            assert(list[list.len() - 1] == list.filter(f)[k]);
        }
    }
}

/// A write that fails leaves out its own path alone: the rest goes as if that path had not
/// been in the list.
pub proof fn law_failed_write_leaves_the_rest(
    catalogue: Catalogue,
    rows: Seq<Meta>,
    paths: Seq<Seq<char>>,
    fields: Seq<(MetaField, String)>,
    committed: Seq<bool>,
    i: int,
)
    requires
        committed.len() == paths.len(),
        0 <= i < paths.len(),
        !committed[i],
    ensures
        images_written(catalogue, rows, paths, fields, committed) == images_written(
            catalogue,
            rows,
            paths.remove(i),
            fields,
            committed.remove(i),
        ),
    decreases paths.len(),
{
    if i == paths.len() - 1 {
        assert(paths.remove(i) =~= paths.drop_last());
        assert(committed.remove(i) =~= committed.drop_last());
    } else {
        law_failed_write_leaves_the_rest(
            catalogue,
            rows,
            paths.drop_last(),
            fields,
            committed.drop_last(),
            i,
        );
        assert(paths.remove(i).drop_last() =~= paths.drop_last().remove(i));
        assert(committed.remove(i).drop_last() =~= committed.drop_last().remove(i));
        let last = paths.len() - 2;
        assert(paths.remove(i)[last] == paths[last + 1]);
        assert(committed.remove(i)[last] == committed[last + 1]);
    }
}

/// An image to which no write took effect keeps its metadata.
pub proof fn law_image_left_out_is_unchanged(
    catalogue: Catalogue,
    rows: Seq<Meta>,
    paths: Seq<Seq<char>>,
    fields: Seq<(MetaField, String)>,
    committed: Seq<bool>,
    id: i32,
    key: i32,
)
    requires
        committed.len() == paths.len(),
        forall|i: int|
            0 <= i < paths.len() && #[trigger] committed[i] ==> catalogue.image_id(paths[i])
                != Some(id),
    ensures
        stored_value(images_written(catalogue, rows, paths, fields, committed).0, id, key)
            == stored_value(rows, id, key),
    decreases paths.len(),
{
    if paths.len() > 0 {
        let rest = paths.drop_last();
        let done = committed.drop_last();
        assert forall|i: int| 0 <= i < rest.len() && #[trigger] done[i] implies catalogue.image_id(
            rest[i],
        ) != Some(id) by {
            assert(committed[i]);
        }
        law_image_left_out_is_unchanged(catalogue, rows, rest, fields, done, id, key);
        let last = paths.len() - 1;
        if takes_effect(catalogue, paths, committed, last) {
            law_unnamed_fields_are_kept(
                images_written(catalogue, rows, rest, fields, done).0,
                catalogue.image_id(paths[last])->0,
                fields,
                id,
                key,
            );
        }
    }
}

/// A write of some fields leaves the fields that it does not name, and every other image.
pub proof fn law_unnamed_fields_are_kept(
    rows: Seq<Meta>,
    id: i32,
    fields: Seq<(MetaField, String)>,
    other: i32,
    other_key: i32,
)
    requires
        other == id ==> forall|i: int|
            0 <= i < fields.len() ==> (#[trigger] fields[i]).0.stored_key() != other_key,
    ensures
        stored_value(fields_written(rows, id, fields), other, other_key) == stored_value(
            rows,
            other,
            other_key,
        ),
    decreases fields.len(),
{
    if fields.len() > 0 {
        let rest = fields.drop_last();
        if other == id {
            assert forall|i: int| 0 <= i < rest.len() implies (#[trigger] rest[i]).0.stored_key()
                != other_key by {
                assert(rest[i] == fields[i]);
            }
            assert(fields[fields.len() - 1].0.stored_key() != other_key);
        }
        law_unnamed_fields_are_kept(rows, id, rest, other, other_key);
        law_write_leaves_the_rest(
            fields_written(rows, id, rest),
            id,
            fields.last().0.stored_key(),
            fields.last().1@,
            other,
            other_key,
        );
    }
}

/// A field that is named shows the value it was given last, without the spaces around it.
pub proof fn law_named_field_is_shown(
    rows: Seq<Meta>,
    id: i32,
    fields: Seq<(MetaField, String)>,
    i: int,
)
    requires
        0 <= i < fields.len(),
        forall|j: int| i < j < fields.len() ==> (#[trigger] fields[j]).0 != fields[i].0,
    ensures
        shown_value(fields_written(rows, id, fields), id, fields[i].0.stored_key()) == trimmed(
            fields[i].1@,
            true,
        ),
    decreases fields.len(),
{
    let rest = fields.drop_last();
    let last = fields.last();
    let before = fields_written(rows, id, rest);
    if i == fields.len() - 1 {
        law_read_gives_the_written_value(before, id, last.0.stored_key(), last.1@);
    } else {
        assert forall|j: int| i < j < rest.len() implies (#[trigger] rest[j]).0 != rest[i].0 by {
            assert(rest[j] == fields[j]);
        }
        law_named_field_is_shown(rows, id, rest, i);
        assert(fields[fields.len() - 1].0 != fields[i].0);
        law_field_keys_are_distinct(last.0, fields[i].0);
        law_write_leaves_the_rest(
            before,
            id,
            last.0.stored_key(),
            last.1@,
            id,
            fields[i].0.stored_key(),
        );
    }
}

/// A write to a list of images reaches every one of them that the catalogue knows and whose
/// write committed.
pub proof fn law_every_known_image_is_written(
    catalogue: Catalogue,
    rows: Seq<Meta>,
    paths: Seq<Seq<char>>,
    fields: Seq<(MetaField, String)>,
    committed: Seq<bool>,
    n: int,
    i: int,
)
    requires
        committed.len() == paths.len(),
        0 <= n < paths.len(),
        catalogue.image_id(paths[n]) is Some,
        committed[n],
        0 <= i < fields.len(),
        forall|j: int| i < j < fields.len() ==> (#[trigger] fields[j]).0 != fields[i].0,
    ensures
        shown_value(
            images_written(catalogue, rows, paths, fields, committed).0,
            catalogue.image_id(paths[n])->0,
            fields[i].0.stored_key(),
        ) == trimmed(fields[i].1@, true),
    decreases paths.len(),
{
    let id = catalogue.image_id(paths[n])->0;
    let rest = paths.drop_last();
    let done = committed.drop_last();
    let before = images_written(catalogue, rows, rest, fields, done).0;
    if n < paths.len() - 1 {
        law_every_known_image_is_written(catalogue, rows, rest, fields, done, n, i);
    }
    if takes_effect(catalogue, paths, committed, paths.len() - 1) {
        let last = catalogue.image_id(paths.last())->0;
        if last == id {
            law_named_field_is_shown(before, id, fields, i);
        } else {
            law_unnamed_fields_are_kept(before, last, fields, id, fields[i].0.stored_key());
        }
    }
}

/// The value that is shown is that of the first row with the image and the key, and blank if
/// there is none.
pub proof fn law_first_value_is_shown(rows: Seq<Meta>, id: i32, key: i32, i: int)
    ensures
        0 <= i < rows.len() && rows[i].0 == id && rows[i].1 == key && (forall|j: int|
            0 <= j < i ==> !((#[trigger] rows[j]).0 == id && rows[j].1 == key)) ==> stored_value(
            rows,
            id,
            key,
        ) == Some(rows[i].2) && shown_value(rows, id, key) == rows[i].2,
        (forall|j: int|
            0 <= j < rows.len() ==> !((#[trigger] rows[j]).0 == id && rows[j].1 == key))
            ==> stored_value(rows, id, key) is None && shown_value(rows, id, key).len() == 0,
    decreases rows.len(),
{
    if rows.len() > 0 {
        let rest = rows.drop_last();
        law_first_value_is_shown(rest, id, key, i);
        assert(forall|j: int| 0 <= j < rest.len() ==> #[trigger] rest[j] == rows[j]);
        assert(rows.last() == rows[rows.len() - 1]);
        if i == rows.len() - 1 {
            law_first_value_is_shown(rest, id, key, 0);
        }
    }
}

/// Writing a field takes every row with the image and the key away, keeps the others in their
/// order, and adds one at the end unless the value is blank.
pub proof fn law_write_replaces_the_rows(rows: Seq<Meta>, id: i32, key: i32, value: Seq<char>)
    ensures
        trimmed(value, true).len() == 0 ==> value_written(rows, id, key, value) == rows.filter(
            |row: Meta| !(row.0 == id && row.1 == key),
        ),
        trimmed(value, true).len() > 0 ==> value_written(rows, id, key, value) == rows.filter(
            |row: Meta| !(row.0 == id && row.1 == key),
        ).push((id, key, trimmed(value, true))),
{
    lemma_without_is_a_filter(rows, id, key);
}

proof fn lemma_without_is_a_filter(rows: Seq<Meta>, id: i32, key: i32)
    ensures
        without_value(rows, id, key) == rows.filter(
            |row: Meta| !(row.0 == id && row.1 == key),
        ),
    decreases rows.len(),
{
    reveal(Seq::filter);
    if rows.len() > 0 {
        lemma_without_is_a_filter(rows.drop_last(), id, key);
    } else {
        assert(rows.filter(|row: Meta| !(row.0 == id && row.1 == key)) =~= Seq::empty());
    }
}

/// The stored rows are seen whole: the image, the key and the value of each.
pub proof fn law_rows_by_index(rows: Seq<MetaRow>, i: int)
    ensures
        meta_rows(rows).len() == rows.len(),
        0 <= i < rows.len() ==> meta_rows(rows)[i] == (rows[i].id, rows[i].key, rows[i].value@),
{
}

/// The paths that are reported are those whose image is known and whose write committed, in
/// their order.
pub proof fn law_reported_paths_by_outcome(
    catalogue: Catalogue,
    rows: Seq<Meta>,
    paths: Seq<Seq<char>>,
    fields: Seq<(MetaField, String)>,
    committed: Seq<bool>,
)
    requires
        committed.len() == paths.len(),
    ensures
        images_written(catalogue, rows, paths, fields, committed).1 == paths.zip_with(
            committed,
        ).filter(
            |t: (Seq<char>, bool)| catalogue.image_id(t.0) is Some && t.1,
        ).map_values(|t: (Seq<char>, bool)| t.0),
    decreases paths.len(),
{
    reveal(Seq::filter);
    let keep = |t: (Seq<char>, bool)| catalogue.image_id(t.0) is Some && t.1;
    let path = |t: (Seq<char>, bool)| t.0;
    let all = paths.zip_with(committed);
    if paths.len() > 0 {
        let (p, c) = (paths.drop_last(), committed.drop_last());
        law_reported_paths_by_outcome(catalogue, rows, p, fields, c);
        assert(all.drop_last() =~= p.zip_with(c));
        let kept = all.drop_last().filter(keep);
        if keep(all.last()) {
            assert(kept.push(all.last()).map_values(path) =~= kept.map_values(path).push(
                paths.last(),
            ));
        }
    } else {
        assert(all.filter(keep).map_values(path) =~= Seq::empty());
    }
}

} // verus!
