//! The catalogue: the images it knows, and what is kept for each of them.
//!
//! A `Catalogue` holds the rows that an operation works on. Whoever owns the database
//! reads them from it and writes them back; what is stored, replaced, removed and found
//! is decided here. A catalogue that could not be opened knows no image and keeps
//! nothing.
use vstd::prelude::*;

use crate::codec::decoded;
use crate::metadata::MetaRow;
use crate::params::PreviewParams;
use crate::paths::{file_name, folder_of, name_of, parent_folder};
use crate::styles::StyleRow;
use crate::tables::{IdTable, TextTable};
use crate::text::same_text;

verus! {

/// An image of the catalogue.
#[derive(Clone, Debug)]
pub struct ImageRow {
    pub id: i32,
    pub folder: String,
    pub filename: String,
}

/// The gear chosen for lens correction, as the lens database spells it.
#[derive(Clone, Debug, PartialEq)]
pub struct LensChoice {
    pub camera_maker: String,
    pub camera_model: String,
    pub lens_maker: String,
    pub lens_model: String,
}

impl LensChoice {
    /// The four names.
    pub open spec fn names(self) -> (Seq<char>, Seq<char>, Seq<char>, Seq<char>) {
        (self.camera_maker@, self.camera_model@, self.lens_maker@, self.lens_model@)
    }

    /// Whether nothing is chosen: there is no camera and no lens.
    pub fn is_empty(&self) -> (r: bool)
        ensures
            r == (self.camera_model@.len() == 0 && self.lens_model@.len() == 0),
    {
        self.camera_model.as_str().is_empty() && self.lens_model.as_str().is_empty()
    }

    /// Whether a lens is chosen, so that gear can be looked up.
    pub fn names_a_lens(&self) -> (r: bool)
        ensures
            r == (self.lens_model@.len() > 0),
    {
        !self.lens_model.as_str().is_empty()
    }

    /// A copy.
    pub fn copied(&self) -> (r: LensChoice)
        ensures
            r == *self,
    {
        LensChoice {
            camera_maker: self.camera_maker.clone(),
            camera_model: self.camera_model.clone(),
            lens_maker: self.lens_maker.clone(),
            lens_model: self.lens_model.clone(),
        }
    }
}

impl Default for LensChoice {
    fn default() -> (r: LensChoice)
        ensures
            r.names() == (Seq::<char>::empty(), Seq::<char>::empty(), Seq::<char>::empty(), Seq::<
                char,
            >::empty()),
    {
        LensChoice {
            camera_maker: String::new(),
            camera_model: String::new(),
            lens_maker: String::new(),
            lens_model: String::new(),
        }
    }
}

/// The rows of a catalogue.
pub struct Catalogue {
    /// Whether there is a catalogue at all.
    pub open: bool,
    /// The images.
    pub images: Vec<ImageRow>,
    /// The stored edit of each image.
    pub params: IdTable<Vec<u8>>,
    /// The stored undo stack of each image.
    pub history: IdTable<Vec<u8>>,
    /// The stored crop and rotation of each image.
    pub geometry: IdTable<Vec<u8>>,
    /// The stored demosaic method of each image.
    pub demosaic: IdTable<i64>,
    /// The lens gear of each image.
    pub lens: IdTable<LensChoice>,
    /// Interface preferences.
    pub prefs: TextTable<String>,
    /// Styles.
    pub styles: TextTable<StyleRow>,
    /// Named collection filters.
    pub presets: TextTable<String>,
    /// Metadata values. An image may have several rows for one key.
    pub metadata: Vec<MetaRow>,
    /// Whether the metadata values could be read. Where they could not, no rows says nothing
    /// about what is stored.
    pub metadata_read: bool,
}

/// A table of blobs, by their bytes.
pub open spec fn bytes_of(m: Map<i32, Vec<u8>>) -> Map<i32, Seq<u8>> {
    m.map_values(|v: Vec<u8>| v@)
}

/// A table of texts, by their characters.
pub open spec fn texts_of(m: Map<Seq<char>, String>) -> Map<Seq<char>, Seq<char>> {
    m.map_values(|s: String| s@)
}

/// The least id of the images with this folder and file name.
pub open spec fn least_id(
    images: Seq<ImageRow>,
    folder: Seq<char>,
    filename: Seq<char>,
) -> Option<i32>
    decreases images.len(),
{
    if images.len() == 0 {
        None
    } else {
        let before = least_id(images.drop_last(), folder, filename);
        let last = images.last();
        if last.folder@ == folder && last.filename@ == filename && (before is None || last.id
            < before->0) {
            Some(last.id)
        } else {
            before
        }
    }
}

impl Catalogue {
    /// Whether every table has at most one row per key.
    pub open spec fn wf(&self) -> bool {
        &&& self.params.wf()
        &&& self.history.wf()
        &&& self.geometry.wf()
        &&& self.demosaic.wf()
        &&& self.lens.wf()
        &&& self.prefs.wf()
        &&& self.styles.wf()
        &&& self.presets.wf()
    }

    /// The id of the image at a path, if the catalogue is open and knows it.
    pub open spec fn image_id(&self, path: Seq<char>) -> Option<i32> {
        if !self.open || name_of(path) is None || folder_of(path) is None {
            None
        } else {
            least_id(self.images@, folder_of(path)->0, name_of(path)->0)
        }
    }

    /// The stored edit of an image, if there is one that decodes.
    pub open spec fn saved_edit(&self, path: Seq<char>) -> Option<PreviewParams> {
        match self.image_id(path) {
            Some(id) => if self.params@.contains_key(id) {
                decoded(self.params@[id]@)
            } else {
                None
            },
            None => None,
        }
    }

    /// Whether all but the edit and the undo stack of images is as in `other`.
    pub open spec fn same_but_edits(&self, other: Catalogue) -> bool {
        &&& self.open == other.open
        &&& self.images == other.images
        &&& self.geometry == other.geometry
        &&& self.demosaic == other.demosaic
        &&& self.lens == other.lens
        &&& self.prefs == other.prefs
        &&& self.styles == other.styles
        &&& self.presets == other.presets
        &&& self.metadata == other.metadata
        &&& self.metadata_read == other.metadata_read
    }

    /// A catalogue without rows.
    pub fn new(open: bool) -> (r: Catalogue)
        ensures
            r.wf(),
            r.open == open,
            r.images@.len() == 0,
            r.params@ == Map::<i32, Vec<u8>>::empty(),
            r.history@ == Map::<i32, Vec<u8>>::empty(),
            r.geometry@ == Map::<i32, Vec<u8>>::empty(),
            r.demosaic@ == Map::<i32, i64>::empty(),
            r.lens@ == Map::<i32, LensChoice>::empty(),
            r.prefs@ == Map::<Seq<char>, String>::empty(),
            r.styles@ == Map::<Seq<char>, StyleRow>::empty(),
            r.presets@ == Map::<Seq<char>, String>::empty(),
            r.metadata@.len() == 0,
            r.metadata_read,
    {
        Catalogue {
            open,
            images: Vec::new(),
            params: IdTable::new(),
            history: IdTable::new(),
            geometry: IdTable::new(),
            demosaic: IdTable::new(),
            lens: IdTable::new(),
            prefs: TextTable::new(),
            styles: TextTable::new(),
            presets: TextTable::new(),
            metadata: Vec::new(),
            metadata_read: true,
        }
    }
}

/// The id of the image at a path: the least one, if several rows have its folder and
/// file name.
pub fn imgid_for_path(catalogue: &Catalogue, full_path: &str) -> (r: Option<i32>)
    ensures
        r == catalogue.image_id(full_path@),
        r is Some ==> {
            &&& catalogue.open
            &&& name_of(full_path@) is Some
            &&& folder_of(full_path@) is Some
            &&& exists|i: int|
                0 <= i < catalogue.images@.len() && (#[trigger] catalogue.images@[i]).id == r->0
                    && catalogue.images@[i].folder@ == folder_of(full_path@)->0
                    && catalogue.images@[i].filename@ == name_of(full_path@)->0
        },
        catalogue.open && name_of(full_path@) is Some && folder_of(full_path@) is Some
            ==> forall|i: int|
            0 <= i < catalogue.images@.len() && (#[trigger] catalogue.images@[i]).folder@
                == folder_of(full_path@)->0 && catalogue.images@[i].filename@ == name_of(
                full_path@,
            )->0 ==> r is Some && r->0 <= catalogue.images@[i].id,
{
    proof {
        if name_of(full_path@) is Some && folder_of(full_path@) is Some {
            law_image_lookup(
                catalogue.images@,
                folder_of(full_path@)->0,
                name_of(full_path@)->0,
            );
        }
    }
    if !catalogue.open {
        return None;
    }
    let (name, folder): (String, String) = match (file_name(full_path), parent_folder(full_path)) {
        (Some(n), Some(f)) => (n, f),
        _ => {
            return None;
        },
    };
    let images = &catalogue.images;
    let mut best: Option<i32> = None;
    let mut i: usize = 0;
    while i < images.len()
        invariant
            i <= images@.len(),
            best == least_id(images@.take(i as int), folder@, name@),
        decreases images@.len() - i,
    {
        assert(images@.take(i + 1).drop_last() =~= images@.take(i as int));
        if same_text(images[i].folder.as_str(), folder.as_str()) && same_text(
            images[i].filename.as_str(),
            name.as_str(),
        ) {
            let id: i32 = images[i].id;
            best = match best {
                Some(b) => if id < b {
                    Some(id)
                } else {
                    Some(b)
                },
                None => Some(id),
            };
        }
        i = i + 1;
    }
    assert(images@.take(i as int) =~= images@);
    best
}

/// An image that is found has the path's folder and file name, and no image with them
/// has a lesser id; none is found only if there is none.
pub proof fn law_image_lookup(images: Seq<ImageRow>, folder: Seq<char>, filename: Seq<char>)
    ensures
        match least_id(images, folder, filename) {
            Some(id) => {
                &&& exists|i: int|
                    0 <= i < images.len() && (#[trigger] images[i]).id == id && images[i].folder@
                        == folder && images[i].filename@ == filename
                &&& forall|i: int|
                    0 <= i < images.len() && (#[trigger] images[i]).folder@ == folder
                        && images[i].filename@ == filename ==> id <= images[i].id
            },
            None => forall|i: int|
                0 <= i < images.len() ==> !((#[trigger] images[i]).folder@ == folder
                    && images[i].filename@ == filename),
        },
    decreases images.len(),
{
    if images.len() > 0 {
        let rest = images.drop_last();
        law_image_lookup(rest, folder, filename);
        assert forall|i: int| 0 <= i < rest.len() implies rest[i] == #[trigger] images[i] by {}
        match least_id(images, folder, filename) {
            Some(id) => {
                if least_id(rest, folder, filename) == Some(id) {
                    let i = choose|i: int|
                        0 <= i < rest.len() && (#[trigger] rest[i]).id == id && rest[i].folder@
                            == folder && rest[i].filename@ == filename;
                    assert(images[i].id == id);
                } else {
                    assert(images[images.len() - 1].id == id);
                }
            },
            None => {},
        }
    }
}

// ── The edit ────────────────────────────────────────────────────────────────
/// The stored edit of an image, or `None` when there is none that decodes.
pub fn load_saved(catalogue: &Catalogue, full_path: &str) -> (r: Option<PreviewParams>)
    requires
        catalogue.wf(),
    ensures
        r == catalogue.saved_edit(full_path@),
        catalogue.image_id(full_path@) is None ==> r is None,
        catalogue.image_id(full_path@) is Some && !catalogue.params@.contains_key(
            catalogue.image_id(full_path@)->0,
        ) ==> r is None,
        catalogue.image_id(full_path@) is Some && catalogue.params@.contains_key(
            catalogue.image_id(full_path@)->0,
        ) ==> r == decoded(catalogue.params@[catalogue.image_id(full_path@)->0]@),
{
    match imgid_for_path(catalogue, full_path) {
        Some(id) => match catalogue.params.get(id) {
            Some(blob) => PreviewParams::decode(blob.as_slice()),
            None => None,
        },
        None => None,
    }
}

/// The stored edit of an image, or the default one.
pub fn load_params(catalogue: &Catalogue, full_path: &str) -> (r: PreviewParams)
    requires
        catalogue.wf(),
    ensures
        r == match catalogue.saved_edit(full_path@) {
            Some(p) => p,
            None => PreviewParams::defaults(),
        },
{
    match load_saved(catalogue, full_path) {
        Some(p) => p,
        None => PreviewParams::default(),
    }
}

/// Stores the edit of an image. An image that the catalogue does not know is passed over.
pub fn save_params(catalogue: &mut Catalogue, full_path: &str, params: &PreviewParams)
    requires
        old(catalogue).wf(),
    ensures
        final(catalogue).wf(),
        final(catalogue).same_but_edits(*old(catalogue)),
        *final(catalogue) == (Catalogue { params: final(catalogue).params, ..*old(catalogue) }),
        final(catalogue).history == old(catalogue).history,
        old(catalogue).image_id(full_path@) is Some ==> final(catalogue).params@.contains_key(
            old(catalogue).image_id(full_path@)->0,
        )
            && final(catalogue).params@[old(catalogue).image_id(full_path@)->0]@ == params.encoded(),
        forall|other: i32|
            old(catalogue).image_id(full_path@) != Some(other) ==> {
                &&& #[trigger] final(catalogue).params@.contains_key(other)
                    <==> old(catalogue).params@.contains_key(other)
                &&& old(catalogue).params@.contains_key(other) ==> final(catalogue).params@[other]@
                    == old(catalogue).params@[other]@
            },
        bytes_of(final(catalogue).params@) == match old(catalogue).image_id(full_path@) {
            Some(id) => bytes_of(old(catalogue).params@).insert(id, params.encoded()),
            None => bytes_of(old(catalogue).params@),
        },
{
    match imgid_for_path(catalogue, full_path) {
        Some(id) => {
            let blob = params.encode();
            let ghost before = catalogue.params@;
            catalogue.params.put(id, blob);
            assert(bytes_of(before.insert(id, blob)) =~= bytes_of(before).insert(id, blob@));
        },
        None => {},
    }
}

/// Storing the edit of a known image and loading it gives the same edit.
pub proof fn law_load_undoes_save(before: Catalogue, after: Catalogue, path: Seq<char>, p: PreviewParams)
    requires
        before.image_id(path) is Some,
        after.same_but_edits(before),
        bytes_of(after.params@) == bytes_of(before.params@).insert(
            before.image_id(path)->0,
            p.encoded(),
        ),
    ensures
        after.saved_edit(path) == Some(p),
{
    let id = before.image_id(path)->0;
    assert(after.image_id(path) == Some(id));
    assert(bytes_of(after.params@).contains_key(id));
    assert(bytes_of(after.params@)[id] == p.encoded());
    crate::codec::law_decode_undoes_encode(p);
}

/// Storing the edit of one image leaves what is loaded for any other as it was.
pub proof fn law_save_leaves_other_images(
    before: Catalogue,
    after: Catalogue,
    path: Seq<char>,
    other: Seq<char>,
    p: PreviewParams,
)
    requires
        before.image_id(path) is Some,
        before.image_id(other) != before.image_id(path),
        after.same_but_edits(before),
        bytes_of(after.params@) == bytes_of(before.params@).insert(
            before.image_id(path)->0,
            p.encoded(),
        ),
    ensures
        after.saved_edit(other) == before.saved_edit(other),
{
    assert(after.image_id(other) == before.image_id(other));
    if before.image_id(other) is Some {
        let id = before.image_id(other)->0;
        assert(bytes_of(after.params@).contains_key(id) <==> bytes_of(before.params@).contains_key(id));
        if before.params@.contains_key(id) {
            assert(bytes_of(after.params@)[id] == bytes_of(before.params@)[id]);
        }
    }
}

// ── The undo stack ──────────────────────────────────────────────────────────
/// The stored undo stack of an image.
pub open spec fn saved_stack(catalogue: Catalogue, path: Seq<char>) -> Option<Seq<u8>> {
    match catalogue.image_id(path) {
        Some(id) => if catalogue.history@.contains_key(id) {
            Some(catalogue.history@[id]@)
        } else {
            None
        },
        None => None,
    }
}

/// The bytes of the stored undo stack of an image.
pub fn load_history(catalogue: &Catalogue, full_path: &str) -> (r: Option<Vec<u8>>)
    requires
        catalogue.wf(),
    ensures
        match r {
            Some(v) => saved_stack(*catalogue, full_path@) == Some(v@),
            None => saved_stack(*catalogue, full_path@) is None,
        },
        r is Some <==> catalogue.image_id(full_path@) is Some && catalogue.history@.contains_key(
            catalogue.image_id(full_path@)->0,
        ),
        r is Some ==> r->0@ == catalogue.history@[catalogue.image_id(full_path@)->0]@,
{
    match imgid_for_path(catalogue, full_path) {
        Some(id) => match catalogue.history.get(id) {
            Some(blob) => Some(copy_bytes(blob)),
            None => None,
        },
        None => None,
    }
}

/// Stores the undo stack of an image. An image that the catalogue does not know is passed
/// over.
pub fn save_history(catalogue: &mut Catalogue, full_path: &str, stack: &Vec<u8>)
    requires
        old(catalogue).wf(),
    ensures
        final(catalogue).wf(),
        final(catalogue).same_but_edits(*old(catalogue)),
        *final(catalogue) == (Catalogue { history: final(catalogue).history, ..*old(catalogue) }),
        final(catalogue).params == old(catalogue).params,
        old(catalogue).image_id(full_path@) is Some ==> final(catalogue).history@.contains_key(
            old(catalogue).image_id(full_path@)->0,
        )
            && final(catalogue).history@[old(catalogue).image_id(full_path@)->0]@ == stack@,
        forall|other: i32|
            old(catalogue).image_id(full_path@) != Some(other) ==> {
                &&& #[trigger] final(catalogue).history@.contains_key(other)
                    <==> old(catalogue).history@.contains_key(other)
                &&& old(catalogue).history@.contains_key(other) ==> final(catalogue).history@[other]@
                    == old(catalogue).history@[other]@
            },
        bytes_of(final(catalogue).history@) == match old(catalogue).image_id(full_path@) {
            Some(id) => bytes_of(old(catalogue).history@).insert(id, stack@),
            None => bytes_of(old(catalogue).history@),
        },
{
    match imgid_for_path(catalogue, full_path) {
        Some(id) => {
            let blob = copy_bytes(stack);
            let ghost before = catalogue.history@;
            catalogue.history.put(id, blob);
            assert(bytes_of(before.insert(id, blob)) =~= bytes_of(before).insert(id, blob@));
        },
        None => {},
    }
}

/// Removes the edit and the undo stack of an image, both or neither.
pub fn discard_history(catalogue: &mut Catalogue, full_path: &str)
    requires
        old(catalogue).wf(),
    ensures
        final(catalogue).wf(),
        final(catalogue).same_but_edits(*old(catalogue)),
        *final(catalogue) == (Catalogue {
            params: final(catalogue).params,
            history: final(catalogue).history,
            ..*old(catalogue)
        }),
        match old(catalogue).image_id(full_path@) {
            Some(id) => final(catalogue).params@ == old(catalogue).params@.remove(id)
                && final(catalogue).history@ == old(catalogue).history@.remove(id),
            None => final(catalogue).params == old(catalogue).params && final(catalogue).history
                == old(catalogue).history,
        },
{
    match imgid_for_path(catalogue, full_path) {
        Some(id) => {
            catalogue.params.remove(id);
            catalogue.history.remove(id);
        },
        None => {},
    }
}

/// Storing the undo stack of a known image and loading it gives the same bytes, and the
/// edit stays as it was.
pub proof fn law_load_undoes_save_of_stack(
    before: Catalogue,
    after: Catalogue,
    path: Seq<char>,
    stack: Seq<u8>,
)
    requires
        before.image_id(path) is Some,
        after.same_but_edits(before),
        after.params == before.params,
        bytes_of(after.history@) == bytes_of(before.history@).insert(
            before.image_id(path)->0,
            stack,
        ),
    ensures
        saved_stack(after, path) == Some(stack),
        after.saved_edit(path) == before.saved_edit(path),
{
    let id = before.image_id(path)->0;
    assert(after.image_id(path) == Some(id));
    assert(bytes_of(after.history@).contains_key(id));
    assert(bytes_of(after.history@)[id] == stack);
}

/// After a discard the image has no stored edit and no stored undo stack.
pub proof fn law_discard_clears_both(before: Catalogue, after: Catalogue, path: Seq<char>)
    requires
        after.same_but_edits(before),
        match before.image_id(path) {
            Some(id) => after.params@ == before.params@.remove(id) && after.history@
                == before.history@.remove(id),
            None => after.params == before.params && after.history == before.history,
        },
    ensures
        after.saved_edit(path) is None,
        saved_stack(after, path) is None,
{
    assert(after.image_id(path) == before.image_id(path));
}

// ── Crop, demosaic and gear ─────────────────────────────────────────────────
/// The stored crop and rotation of an image.
pub open spec fn saved_geometry(catalogue: Catalogue, path: Seq<char>) -> Option<Seq<u8>> {
    match catalogue.image_id(path) {
        Some(id) => if catalogue.geometry@.contains_key(id) {
            Some(catalogue.geometry@[id]@)
        } else {
            None
        },
        None => None,
    }
}

/// The bytes of the stored crop and rotation of an image.
pub fn load_geometry(catalogue: &Catalogue, full_path: &str) -> (r: Option<Vec<u8>>)
    requires
        catalogue.wf(),
    ensures
        match r {
            Some(v) => saved_geometry(*catalogue, full_path@) == Some(v@),
            None => saved_geometry(*catalogue, full_path@) is None,
        },
        r is Some <==> catalogue.image_id(full_path@) is Some && catalogue.geometry@.contains_key(
            catalogue.image_id(full_path@)->0,
        ),
        r is Some ==> r->0@ == catalogue.geometry@[catalogue.image_id(full_path@)->0]@,
{
    match imgid_for_path(catalogue, full_path) {
        Some(id) => match catalogue.geometry.get(id) {
            Some(blob) => Some(copy_bytes(blob)),
            None => None,
        },
        None => None,
    }
}

/// Stores the crop and rotation of an image. An image that the catalogue does not know is
/// passed over.
pub fn save_geometry(catalogue: &mut Catalogue, full_path: &str, geom: &Vec<u8>)
    requires
        old(catalogue).wf(),
    ensures
        final(catalogue).wf(),
        *final(catalogue) == (Catalogue {
            geometry: final(catalogue).geometry,
            ..*old(catalogue)
        }),
        old(catalogue).image_id(full_path@) is Some ==> final(catalogue).geometry@.contains_key(
            old(catalogue).image_id(full_path@)->0,
        )
            && final(catalogue).geometry@[old(catalogue).image_id(full_path@)->0]@ == geom@,
        forall|other: i32|
            old(catalogue).image_id(full_path@) != Some(other) ==> {
                &&& #[trigger] final(catalogue).geometry@.contains_key(other)
                    <==> old(catalogue).geometry@.contains_key(other)
                &&& old(catalogue).geometry@.contains_key(other) ==> final(catalogue).geometry@[other]@
                    == old(catalogue).geometry@[other]@
            },
        bytes_of(final(catalogue).geometry@) == match old(catalogue).image_id(full_path@) {
            Some(id) => bytes_of(old(catalogue).geometry@).insert(id, geom@),
            None => bytes_of(old(catalogue).geometry@),
        },
{
    match imgid_for_path(catalogue, full_path) {
        Some(id) => {
            let blob = copy_bytes(geom);
            let ghost before = catalogue.geometry@;
            catalogue.geometry.put(id, blob);
            assert(bytes_of(before.insert(id, blob)) =~= bytes_of(before).insert(id, blob@));
        },
        None => {},
    }
}

/// The code of the demosaic method of an image: `None` if none is stored, or what is stored
/// is no code.
pub open spec fn saved_demosaic(catalogue: Catalogue, path: Seq<char>) -> Option<u8> {
    match catalogue.image_id(path) {
        Some(id) => if catalogue.demosaic@.contains_key(id) && 0 <= catalogue.demosaic@[id]
            <= u8::MAX {
            Some(catalogue.demosaic@[id] as u8)
        } else {
            None
        },
        None => None,
    }
}

/// The code of the demosaic method of an image, or `None` for the default method.
pub fn load_demosaic(catalogue: &Catalogue, full_path: &str) -> (r: Option<u8>)
    requires
        catalogue.wf(),
    ensures
        r == saved_demosaic(*catalogue, full_path@),
        r is Some <==> catalogue.image_id(full_path@) is Some && catalogue.demosaic@.contains_key(
            catalogue.image_id(full_path@)->0,
        ) && 0 <= catalogue.demosaic@[catalogue.image_id(full_path@)->0] <= 255,
        r is Some ==> r->0 == catalogue.demosaic@[catalogue.image_id(full_path@)->0],
{
    match imgid_for_path(catalogue, full_path) {
        Some(id) => match catalogue.demosaic.get(id) {
            Some(v) => if 0 <= *v && *v <= 255 {
                Some(*v as u8)
            } else {
                None
            },
            None => None,
        },
        None => None,
    }
}

/// Stores the demosaic method of an image. An image that the catalogue does not know is
/// passed over.
pub fn save_demosaic(catalogue: &mut Catalogue, full_path: &str, code: u8)
    requires
        old(catalogue).wf(),
    ensures
        final(catalogue).wf(),
        *final(catalogue) == (Catalogue {
            demosaic: final(catalogue).demosaic,
            ..*old(catalogue)
        }),
        final(catalogue).demosaic@ == match old(catalogue).image_id(full_path@) {
            Some(id) => old(catalogue).demosaic@.insert(id, code as i64),
            None => old(catalogue).demosaic@,
        },
{
    match imgid_for_path(catalogue, full_path) {
        Some(id) => {
            catalogue.demosaic.put(id, code as i64);
        },
        None => {},
    }
}

/// The edit, the crop and the demosaic method of an image, each as it is loaded alone.
pub fn load_edit_state(catalogue: &Catalogue, full_path: &str) -> (r: (
    Option<PreviewParams>,
    Option<Vec<u8>>,
    Option<u8>,
))
    requires
        catalogue.wf(),
    ensures
        r.0 == catalogue.saved_edit(full_path@),
        match r.1 {
            Some(v) => saved_geometry(*catalogue, full_path@) == Some(v@),
            None => saved_geometry(*catalogue, full_path@) is None,
        },
        r.2 == saved_demosaic(*catalogue, full_path@),
{
    (
        load_saved(catalogue, full_path),
        load_geometry(catalogue, full_path),
        load_demosaic(catalogue, full_path),
    )
}

/// The stored gear of an image; four empty names when there is none.
pub open spec fn saved_lens(catalogue: Catalogue, path: Seq<char>) -> (
    Seq<char>,
    Seq<char>,
    Seq<char>,
    Seq<char>,
) {
    match catalogue.image_id(path) {
        Some(id) => if catalogue.lens@.contains_key(id) {
            catalogue.lens@[id].names()
        } else {
            (seq![], seq![], seq![], seq![])
        },
        None => (seq![], seq![], seq![], seq![]),
    }
}

/// The gear of an image, or the empty choice.
pub fn load_lens(catalogue: &Catalogue, full_path: &str) -> (r: LensChoice)
    requires
        catalogue.wf(),
    ensures
        r.names() == saved_lens(*catalogue, full_path@),
        catalogue.image_id(full_path@) is Some && catalogue.lens@.contains_key(
            catalogue.image_id(full_path@)->0,
        ) ==> {
            let stored = catalogue.lens@[catalogue.image_id(full_path@)->0];
            &&& r.camera_maker@ == stored.camera_maker@
            &&& r.camera_model@ == stored.camera_model@
            &&& r.lens_maker@ == stored.lens_maker@
            &&& r.lens_model@ == stored.lens_model@
        },
        catalogue.image_id(full_path@) is None || !catalogue.lens@.contains_key(
            catalogue.image_id(full_path@)->0,
        ) ==> r.camera_maker@.len() == 0 && r.camera_model@.len() == 0 && r.lens_maker@.len() == 0
            && r.lens_model@.len() == 0,
{
    match imgid_for_path(catalogue, full_path) {
        Some(id) => match catalogue.lens.get(id) {
            Some(choice) => choice.copied(),
            None => LensChoice::default(),
        },
        None => LensChoice::default(),
    }
}

/// Stores the gear of an image. An image that the catalogue does not know is passed over.
pub fn save_lens(catalogue: &mut Catalogue, full_path: &str, choice: &LensChoice)
    requires
        old(catalogue).wf(),
    ensures
        final(catalogue).wf(),
        *final(catalogue) == (Catalogue { lens: final(catalogue).lens, ..*old(catalogue) }),
        final(catalogue).lens@ == match old(catalogue).image_id(full_path@) {
            Some(id) => old(catalogue).lens@.insert(id, *choice),
            None => old(catalogue).lens@,
        },
{
    match imgid_for_path(catalogue, full_path) {
        Some(id) => {
            catalogue.lens.put(id, choice.copied());
        },
        None => {},
    }
}

/// Storing the crop and rotation of a known image and loading them gives the same bytes.
pub proof fn law_load_undoes_save_of_geometry(
    before: Catalogue,
    after: Catalogue,
    path: Seq<char>,
    geom: Seq<u8>,
)
    requires
        before.image_id(path) is Some,
        after.open == before.open,
        after.images == before.images,
        bytes_of(after.geometry@) == bytes_of(before.geometry@).insert(
            before.image_id(path)->0,
            geom,
        ),
    ensures
        saved_geometry(after, path) == Some(geom),
{
    let id = before.image_id(path)->0;
    assert(after.image_id(path) == Some(id));
    assert(bytes_of(after.geometry@).contains_key(id));
    assert(bytes_of(after.geometry@)[id] == geom);
}

/// Storing the demosaic method of a known image and loading it gives the same code.
pub proof fn law_load_undoes_save_of_demosaic(
    before: Catalogue,
    after: Catalogue,
    path: Seq<char>,
    code: u8,
)
    requires
        before.image_id(path) is Some,
        after.open == before.open,
        after.images == before.images,
        after.demosaic@ == before.demosaic@.insert(before.image_id(path)->0, code as i64),
    ensures
        saved_demosaic(after, path) == Some(code),
{
    assert(after.image_id(path) == before.image_id(path));
}

/// Storing the gear of a known image and loading it gives the same names.
pub proof fn law_load_undoes_save_of_gear(
    before: Catalogue,
    after: Catalogue,
    path: Seq<char>,
    choice: LensChoice,
)
    requires
        before.image_id(path) is Some,
        after.open == before.open,
        after.images == before.images,
        after.lens@ == before.lens@.insert(before.image_id(path)->0, choice),
    ensures
        saved_lens(after, path) == choice.names(),
{
    assert(after.image_id(path) == before.image_id(path));
}

// ── Preferences ─────────────────────────────────────────────────────────────
/// The stored value of an interface preference.
pub open spec fn saved_pref(catalogue: Catalogue, key: Seq<char>) -> Option<Seq<char>> {
    if catalogue.open && catalogue.prefs@.contains_key(key) {
        Some(catalogue.prefs@[key]@)
    } else {
        None
    }
}

/// The value of an interface preference.
pub fn load_ui_pref(catalogue: &Catalogue, key: &str) -> (r: Option<String>)
    requires
        catalogue.wf(),
    ensures
        match r {
            Some(v) => saved_pref(*catalogue, key@) == Some(v@),
            None => saved_pref(*catalogue, key@) is None,
        },
        r is Some <==> catalogue.open && catalogue.prefs@.contains_key(key@),
        r is Some ==> r->0@ == catalogue.prefs@[key@]@,
{
    if !catalogue.open {
        return None;
    }
    match catalogue.prefs.get(key) {
        Some(v) => Some(v.clone()),
        None => None,
    }
}

/// Stores the value of an interface preference, if there is a catalogue.
pub fn save_ui_pref(catalogue: &mut Catalogue, key: &str, value: &str)
    requires
        old(catalogue).wf(),
    ensures
        final(catalogue).wf(),
        *final(catalogue) == (Catalogue { prefs: final(catalogue).prefs, ..*old(catalogue) }),
        old(catalogue).open ==> final(catalogue).prefs@.contains_key(key@)
            && final(catalogue).prefs@[key@]@ == value@,
        forall|other: Seq<char>|
            !(old(catalogue).open) || other != key@ ==> {
                &&& #[trigger] final(catalogue).prefs@.contains_key(other)
                    <==> old(catalogue).prefs@.contains_key(other)
                &&& old(catalogue).prefs@.contains_key(other) ==> final(catalogue).prefs@[other]@
                    == old(catalogue).prefs@[other]@
            },
        texts_of(final(catalogue).prefs@) == if old(catalogue).open {
            texts_of(old(catalogue).prefs@).insert(key@, value@)
        } else {
            texts_of(old(catalogue).prefs@)
        },
{
    if !catalogue.open {
        return;
    }
    let v: String = value.to_owned();
    let ghost before = catalogue.prefs@;
    catalogue.prefs.put(key.to_owned(), v);
    assert(texts_of(before.insert(key@, v)) =~= texts_of(before).insert(key@, v@));
}

/// Storing a preference and loading it gives the stored value, and leaves every other
/// preference as it was.
pub proof fn law_load_undoes_save_of_pref(
    before: Catalogue,
    after: Catalogue,
    key: Seq<char>,
    value: Seq<char>,
    other: Seq<char>,
)
    requires
        before.open,
        after.open,
        texts_of(after.prefs@) == texts_of(before.prefs@).insert(key, value),
    ensures
        saved_pref(after, key) == Some(value),
        other != key ==> saved_pref(after, other) == saved_pref(before, other),
{
    assert(texts_of(after.prefs@).contains_key(key));
    assert(texts_of(after.prefs@)[key] == value);
    assert(texts_of(after.prefs@).contains_key(other) <==> after.prefs@.contains_key(other));
    assert(texts_of(before.prefs@).contains_key(other) <==> before.prefs@.contains_key(other));
    if other != key && before.prefs@.contains_key(other) {
        assert(texts_of(after.prefs@)[other] == texts_of(before.prefs@)[other]);
    }
}

/// A copy of some bytes.
pub fn copy_bytes(v: &Vec<u8>) -> (r: Vec<u8>)
    ensures
        r@ == v@,
{
    let mut out: Vec<u8> = Vec::new();
    let mut i: usize = 0;
    while i < v.len()
        invariant
            i <= v@.len(),
            out@ == v@.take(i as int),
        decreases v@.len() - i,
    {
        out.push(v[i]);
        assert(v@.take(i + 1) =~= v@.take(i as int).push(v@[i as int]));
        i = i + 1;
    }
    assert(v@.take(i as int) =~= v@);
    out
}

} // verus!
