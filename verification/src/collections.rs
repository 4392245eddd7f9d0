//! The collections panel: its sections, the film rolls and tags that choose what is shown,
//! the colour-label filter and the saved filters.
use vstd::prelude::*;

use crate::catalogue::{load_ui_pref, saved_pref, Catalogue};
use crate::paths::{tail_after, tail_text};
use crate::text::{push_signed, same_text, signed_decimal, trim_text, trimmed};

verus! {

// ── Sections ────────────────────────────────────────────────────────────────
/// The preference that keeps the fold state of the import section.
pub const IMPORT_SECTION_PREF_KEY: &'static str = "left_section_import";

/// The preference that keeps the fold state of the collections section.
pub const COLLECTIONS_SECTION_PREF_KEY: &'static str = "left_section_collections";

/// The preference that keeps the fold state of the colours section.
pub const COLOURS_SECTION_PREF_KEY: &'static str = "left_section_colours";

/// The preference that keeps the fold state of the filters section.
pub const FILTERS_SECTION_PREF_KEY: &'static str = "left_section_filters";

/// The preference that keeps the fold state of the tags section.
pub const TAGS_SECTION_PREF_KEY: &'static str = "left_section_tags";

/// The keys of the sections, from top to bottom.
pub open spec fn section_keys() -> Seq<Seq<char>> {
    seq![
        IMPORT_SECTION_PREF_KEY@,
        COLLECTIONS_SECTION_PREF_KEY@,
        COLOURS_SECTION_PREF_KEY@,
        FILTERS_SECTION_PREF_KEY@,
        TAGS_SECTION_PREF_KEY@,
    ]
}

/// No two sections share a key, and every key begins with the name of the panel.
pub proof fn law_section_keys()
    ensures
        forall|i: int, j: int|
            0 <= i < j < section_keys().len() ==> #[trigger] section_keys()[i]
                != #[trigger] section_keys()[j],
        forall|i: int|
            0 <= i < section_keys().len() ==> "left_section_"@.is_prefix_of(
                #[trigger] section_keys()[i],
            ),
{
    reveal_strlit("left_section_");
    reveal_strlit("left_section_import");
    reveal_strlit("left_section_collections");
    reveal_strlit("left_section_colours");
    reveal_strlit("left_section_filters");
    reveal_strlit("left_section_tags");
    let keys = section_keys();
    assert(keys[0].len() == 19 && keys[1].len() == 24 && keys[2].len() == 20 && keys[3].len() == 20
        && keys[4].len() == 17);
    assert(keys[2][13] == 'c' && keys[3][13] == 'f');
    let head = "left_section_"@;
    assert(head =~= keys[0].subrange(0, 13));
    assert(head =~= keys[1].subrange(0, 13));
    assert(head =~= keys[2].subrange(0, 13));
    assert(head =~= keys[3].subrange(0, 13));
    assert(head =~= keys[4].subrange(0, 13));
}

/// How a fold state is stored.
pub fn collapsed_token(collapsed: bool) -> (r: &'static str)
    ensures
        r@ == if collapsed {
            "hidden"@
        } else {
            "shown"@
        },
{
    if collapsed {
        "hidden"
    } else {
        "shown"
    }
}

/// What a stored fold state stands for: whether the section is collapsed.
pub open spec fn token_meaning(token: Seq<char>) -> Option<bool> {
    if token == "hidden"@ {
        Some(true)
    } else if token == "shown"@ {
        Some(false)
    } else {
        None
    }
}

/// Reads a stored fold state. `None` if it is not one.
pub fn parse_collapsed_token(token: &str) -> (r: Option<bool>)
    ensures
        r == token_meaning(token@),
        token@ == "hidden"@ ==> r == Some(true),
        token@ == "shown"@ ==> r == Some(false),
        r is None <==> token@ != "hidden"@ && token@ != "shown"@,
{
    proof {
        reveal_strlit("hidden");
        reveal_strlit("shown");
        assert("hidden"@.len() != "shown"@.len());
    }
    if same_text(token, "hidden") {
        Some(true)
    } else if same_text(token, "shown") {
        Some(false)
    } else {
        None
    }
}

/// A fold state that is stored is read back.
pub proof fn law_fold_state_is_read_back(collapsed: bool)
    ensures
        token_meaning(
            if collapsed {
                "hidden"@
            } else {
                "shown"@
            },
        ) == Some(collapsed),
{
    reveal_strlit("hidden");
    reveal_strlit("shown");
    assert("hidden"@.len() != "shown"@.len());
}

/// Whether a section starts open: as it was left, or as `by_default` says if nothing that
/// can be read is stored.
pub fn section_expanded(catalogue: &Catalogue, key: &str, by_default: bool) -> (r: bool)
    requires
        catalogue.wf(),
    ensures
        r == match saved_pref(*catalogue, key@) {
            Some(token) => match token_meaning(token) {
                Some(collapsed) => !collapsed,
                None => by_default,
            },
            None => by_default,
        },
        saved_pref(*catalogue, key@) == Some("hidden"@) ==> !r,
        saved_pref(*catalogue, key@) == Some("shown"@) ==> r,
        saved_pref(*catalogue, key@) is None ==> r == by_default,
        saved_pref(*catalogue, key@) is Some && saved_pref(*catalogue, key@)->0 != "hidden"@
            && saved_pref(*catalogue, key@)->0 != "shown"@ ==> r == by_default,
{
    proof {
        law_fold_state_is_read_back(true);
        law_fold_state_is_read_back(false);
    }
    match load_ui_pref(catalogue, key) {
        Some(token) => match parse_collapsed_token(token.as_str()) {
            Some(collapsed) => !collapsed,
            None => by_default,
        },
        None => by_default,
    }
}

/// A section after its title was clicked: whether it is open now, the icon of its title,
/// and the fold state to store.
pub fn toggle_section(open: bool) -> (r: (bool, &'static str, &'static str))
    ensures
        r.0 == !open,
        r.1@ == if r.0 {
            "pan-down-symbolic"@
        } else {
            "pan-end-symbolic"@
        },
        token_meaning(r.2@) == Some(!r.0),
        r.2@ == if open {
            "hidden"@
        } else {
            "shown"@
        },
{
    let now: bool = !open;
    proof {
        law_fold_state_is_read_back(!now);
    }
    (
        now,
        if now {
            "pan-down-symbolic"
        } else {
            "pan-end-symbolic"
        },
        collapsed_token(!now),
    )
}

// ── Film rolls and tags ─────────────────────────────────────────────────────
/// A row of the list of film rolls.
#[derive(Clone, Debug, PartialEq)]
pub struct RollRow {
    /// The folder that the row stands for, or "all".
    pub target: String,
    /// The text of the row.
    pub label: String,
    /// The number of images, where it is known.
    pub count: Option<String>,
    /// The folder in full.
    pub tooltip: Option<String>,
}

/// The row of a film roll, or the row of all images if there is no folder. A film roll is
/// shown by the last part of its folder; a negative count is not shown.
pub fn roll_row(label: &str, count: i64, folder: Option<&str>) -> (r: RollRow)
    ensures
        r.target@ == match folder {
            Some(f) => f@,
            None => "all"@,
        },
        r.label@ == match folder {
            Some(_) => tail_after(label@, '/'),
            None => label@,
        },
        match r.count {
            Some(c) => count >= 0 && c@ == signed_decimal(count as int),
            None => count < 0,
        },
        match r.tooltip {
            Some(t) => folder is Some && t@ == label@,
            None => folder is None,
        },
{
    let shown: Option<String> = if count >= 0 {
        let mut s = String::new();
        push_signed(&mut s, count);
        assert(s@ =~= signed_decimal(count as int));
        Some(s)
    } else {
        None
    };
    match folder {
        Some(f) => RollRow {
            target: f.to_owned(),
            label: tail_text(label, '/'),
            count: shown,
            tooltip: Some(label.to_owned()),
        },
        None => RollRow {
            target: "all".to_owned(),
            label: label.to_owned(),
            count: shown,
            tooltip: None,
        },
    }
}

/// The collection that is shown, as far as a tag chooses it: a tag with its whole subtree.
pub struct CollectionChoice {
    pub active_tag: Option<String>,
}

impl CollectionChoice {
    /// The path of the tag that is filtered by.
    pub open spec fn tag(self) -> Option<Seq<char>> {
        match self.active_tag {
            Some(t) => Some(t@),
            None => None,
        }
    }

    /// No tag is chosen.
    pub fn new() -> (r: CollectionChoice)
        ensures
            r.tag() is None,
    {
        CollectionChoice { active_tag: None }
    }

    /// A row of the film rolls was activated. No tag is filtered by any more. Returns the
    /// folder to show, or `None` for all images.
    pub fn choose_roll(&mut self, target: &str) -> (r: Option<String>)
        ensures
            final(self).tag() is None,
            match r {
                Some(f) => target@ != "all"@ && f@ == target@,
                None => target@ == "all"@,
            },
    {
        self.active_tag = None;
        if same_text(target, "all") {
            None
        } else {
            Some(target.to_owned())
        }
    }

    /// A row of the tags was activated. Returns whether there is a tag to filter by: a row
    /// without a path changes nothing.
    pub fn choose_tag(&mut self, path: &str) -> (r: bool)
        ensures
            r == (path@.len() > 0),
            final(self).tag() == if r {
                Some(path@)
            } else {
                old(self).tag()
            },
    {
        if path.is_empty() {
            return false;
        }
        self.active_tag = Some(path.to_owned());
        true
    }
}

/// The indent of a tag's row, by its depth in the tree.
pub fn tag_indent(depth: usize) -> (r: i32)
    requires
        12 + 16 * depth <= i32::MAX,
    ensures
        r == 12 + 16 * depth,
{
    12 + (depth as i32) * 16
}

// ── Colour labels ───────────────────────────────────────────────────────────
/// How many colour labels there are.
pub const COLOR_COUNT: u8 = 5;

/// The names of the colour labels.
pub const COLOR_NAMES: [&'static str; 5] = ["Red", "Yellow", "Green", "Blue", "Purple"];

/// The name of a colour label, or `None` if there is no such label.
pub fn color_filter_name(idx: u8) -> (r: Option<&'static str>)
    ensures
        r is Some <==> idx < COLOR_COUNT,
        r is Some ==> r->0@ == COLOR_NAMES@[idx as int]@,
        idx == 0 ==> r is Some && r->0@ == "Red"@,
        idx == 1 ==> r is Some && r->0@ == "Yellow"@,
        idx == 2 ==> r is Some && r->0@ == "Green"@,
        idx == 3 ==> r is Some && r->0@ == "Blue"@,
        idx == 4 ==> r is Some && r->0@ == "Purple"@,
        idx >= 5 ==> r is None,
{
    if idx < 5 {
        let names = COLOR_NAMES;
        Some(names[idx as usize])
    } else {
        None
    }
}

/// Whether a colour is in a set of colours.
pub open spec fn has_colour(mask: u8, c: u8) -> bool {
    mask & (1u8 << c) != 0
}

/// The set of the colours that are ticked. Each check has its colour and whether it is
/// ticked.
pub fn colour_mask(checks: &Vec<(u8, bool)>) -> (mask: u8)
    requires
        forall|i: int| 0 <= i < checks@.len() ==> (#[trigger] checks@[i]).0 < 8,
    ensures
        mask_of(checks@, mask),
        forall|c: u8|
            c < 8 ==> (mask & #[trigger] (1u8 << c) != 0 <==> exists|i: int|
                0 <= i < checks@.len() && #[trigger] checks@[i] == (c, true)),
{
    let mut mask: u8 = 0;
    let mut i: usize = 0;
    assert forall|c: u8| c < 8 implies !#[trigger] has_colour(0, c) by {
        assert(0u8 & (1u8 << c) == 0) by (bit_vector);
    }
    while i < checks.len()
        invariant
            i <= checks@.len(),
            forall|k: int| 0 <= k < checks@.len() ==> (#[trigger] checks@[k]).0 < 8,
            forall|c: u8|
                c < 8 ==> (#[trigger] has_colour(mask, c) <==> exists|k: int|
                    0 <= k < i && #[trigger] checks@[k] == (c, true)),
        decreases checks@.len() - i,
    {
        let (idx, on): (u8, bool) = checks[i];
        let ghost before = mask;
        assert(checks@[i as int].0 < 8);
        if on {
            mask = mask | (1u8 << idx);
        }
        assert forall|c: u8| c < 8 implies (#[trigger] has_colour(mask, c) <==> exists|k: int|
            0 <= k < i + 1 && #[trigger] checks@[k] == (c, true)) by {
            assert((before | (1u8 << idx)) & (1u8 << c) != 0 <==> (before & (1u8 << c) != 0 || idx
                == c)) by (bit_vector)
                requires
                    idx < 8,
                    c < 8,
            ;
            assert(has_colour(before, c) <==> exists|k: int|
                0 <= k < i && #[trigger] checks@[k] == (c, true));
            if has_colour(before, c) {
                let k = choose|k: int| 0 <= k < i && #[trigger] checks@[k] == (c, true);
                assert(checks@[k] == (c, true));
            }
            assert(checks@[i as int] == (idx, on));
        }
        i = i + 1;
    }
    assert forall|c: u8| c < 8 implies (mask & #[trigger] (1u8 << c) != 0 <==> exists|k: int|
        0 <= k < checks@.len() && #[trigger] checks@[k] == (c, true)) by {
        assert(has_colour(mask, c) <==> mask & (1u8 << c) != 0);
    }
    mask
}

/// Whether the check of a colour is ticked for a set of colours.
pub fn colour_ticked(mask: u8, idx: u8) -> (r: bool)
    requires
        idx < 8,
    ensures
        r == has_colour(mask, idx),
        r <==> mask & (1u8 << idx) != 0,
{
    mask & (1u8 << idx) != 0
}

/// Whether the five checks are ticked by a set of colours.
pub open spec fn ticked_by(checks: Seq<(u8, bool)>, mask: u8) -> bool {
    &&& checks.len() == COLOR_COUNT
    &&& forall|i: int|
        0 <= i < checks.len() ==> #[trigger] checks[i] == (i as u8, has_colour(mask, i as u8))
}

/// Whether a set of colours is that of the checks that are ticked.
pub open spec fn mask_of(checks: Seq<(u8, bool)>, mask: u8) -> bool {
    forall|c: u8|
        c < 8 ==> (#[trigger] has_colour(mask, c) <==> exists|i: int|
            0 <= i < checks.len() && #[trigger] checks[i] == (c, true))
}

/// Ticking the checks by a set of colours and reading them back gives the same set.
pub proof fn law_checks_show_the_mask(checks: Seq<(u8, bool)>, mask: u8, back: u8)
    requires
        mask < 32,
        ticked_by(checks, mask),
        mask_of(checks, back),
    ensures
        back == mask,
{
    assert forall|c: u8| c < 8 implies #[trigger] has_colour(back, c) == has_colour(mask, c) by {
        if c < 5 {
            assert(checks[c as int] == (c, has_colour(mask, c)));
        } else {
            assert(mask & (1u8 << c) == 0) by (bit_vector)
                requires
                    mask < 32,
                    5 <= c < 8,
            ;
        }
        if has_colour(back, c) {
            let i = choose|i: int| 0 <= i < checks.len() && #[trigger] checks[i] == (c, true);
            assert(checks[i] == (i as u8, has_colour(mask, i as u8)));
        }
    }
    assert(has_colour(back, 0) == has_colour(mask, 0));
    assert(has_colour(back, 1) == has_colour(mask, 1));
    assert(has_colour(back, 2) == has_colour(mask, 2));
    assert(has_colour(back, 3) == has_colour(mask, 3));
    assert(has_colour(back, 4) == has_colour(mask, 4));
    assert(has_colour(back, 5) == has_colour(mask, 5));
    assert(has_colour(back, 6) == has_colour(mask, 6));
    assert(has_colour(back, 7) == has_colour(mask, 7));
    assert(back == mask) by (bit_vector)
        requires
            (back & (1u8 << 0u8) != 0) == (mask & (1u8 << 0u8) != 0),
            (back & (1u8 << 1u8) != 0) == (mask & (1u8 << 1u8) != 0),
            (back & (1u8 << 2u8) != 0) == (mask & (1u8 << 2u8) != 0),
            (back & (1u8 << 3u8) != 0) == (mask & (1u8 << 3u8) != 0),
            (back & (1u8 << 4u8) != 0) == (mask & (1u8 << 4u8) != 0),
            (back & (1u8 << 5u8) != 0) == (mask & (1u8 << 5u8) != 0),
            (back & (1u8 << 6u8) != 0) == (mask & (1u8 << 6u8) != 0),
            (back & (1u8 << 7u8) != 0) == (mask & (1u8 << 7u8) != 0),
    ;
}

/// The label of the toggle that says how several colours combine.
pub fn combine_label(all: bool) -> (r: &'static str)
    ensures
        r@ == if all {
            "Match all"@
        } else {
            "Match any"@
        },
{
    if all {
        "Match all"
    } else {
        "Match any"
    }
}

// ── Saved filters ───────────────────────────────────────────────────────────
/// The name that was entered for a filter or a tag, without the blanks around it: `None` if
/// nothing is left, and then there is nothing to do.
pub fn entered_name(entered: &str) -> (r: Option<String>)
    ensures
        r is Some <==> trimmed(entered@, false).len() > 0,
        r is Some ==> r->0@ == trimmed(entered@, false),
{
    let name: String = trim_text(entered, false);
    if name.as_str().is_empty() {
        None
    } else {
        Some(name)
    }
}

/// The tooltip of the button that applies a saved filter. One that cannot be read is not
/// applied, and says so.
pub fn preset_tooltip(readable: bool) -> (r: &'static str)
    ensures
        r@ == if readable {
            "Apply this preset to the current filters"@
        } else {
            "Preset data unreadable \u{2014} delete and re-save"@
        },
{
    if readable {
        "Apply this preset to the current filters"
    } else {
        "Preset data unreadable \u{2014} delete and re-save"
    }
}

} // verus!
