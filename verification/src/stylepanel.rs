//! The styles section: its list, and saving, applying and deleting a style.
use vstd::prelude::*;

use crate::catalogue::{bytes_of, Catalogue};
use crate::codec::decoded;
use crate::params::PreviewParams;
use crate::styles::{
    apply_style_to, delete_style, load_styles, save_style, style_applied, style_is, style_names,
    style_rows, Style,
};
use crate::text::{same_text, trim_text, trimmed};

verus! {

/// A row of the list of styles.
#[derive(Clone, Debug, PartialEq)]
pub struct StyleItem {
    /// The style that the row stands for: blank for the row that says there are none.
    pub name: String,
    /// The text of the row.
    pub label: String,
    /// The description below it, where there is one.
    pub description: Option<String>,
    pub selectable: bool,
    pub selected: bool,
}

/// Whether a row shows a style.
pub open spec fn shows_style(item: StyleItem, style: Style, keep: Option<Seq<char>>) -> bool {
    &&& item.name@ == style.name@
    &&& item.label@ == style.name@
    &&& match item.description {
        Some(d) => style.description@.len() > 0 && d@ == style.description@,
        None => style.description@.len() == 0,
    }
    &&& item.selectable
    &&& item.selected == (keep == Some(style.name@))
}

/// The text of an optional name.
pub open spec fn name_text(name: Option<&str>) -> Option<Seq<char>> {
    match name {
        Some(n) => Some(n@),
        None => None,
    }
}

/// The rows of the list. The style that was selected stays selected. Without styles there
/// is one row that says so and cannot be selected.
pub fn style_items(styles: &Vec<Style>, keep: Option<&str>) -> (r: Vec<StyleItem>)
    ensures
        styles@.len() > 0 ==> r@.len() == styles@.len() && forall|i: int|
            0 <= i < r@.len() ==> shows_style(#[trigger] r@[i], styles@[i], name_text(keep)),
        styles@.len() > 0 ==> forall|i: int|
            0 <= i < r@.len() ==> {
                &&& (#[trigger] r@[i]).name@ == styles@[i].name@
                &&& r@[i].label@ == styles@[i].name@
                &&& r@[i].selectable
                &&& r@[i].selected <==> keep is Some && keep->0@ == styles@[i].name@
                &&& r@[i].description is Some <==> styles@[i].description@.len() > 0
                &&& r@[i].description is Some ==> r@[i].description->0@ == styles@[i].description@
            },
        styles@.len() == 0 ==> {
            &&& r@.len() == 1
            &&& r@[0].name@.len() == 0
            &&& r@[0].label@ == "(no styles saved)"@
            &&& r@[0].description is None
            &&& !r@[0].selectable
            &&& !r@[0].selected
        },
{
    let mut out: Vec<StyleItem> = Vec::new();
    if styles.len() == 0 {
        out.push(
            StyleItem {
                name: String::new(),
                label: "(no styles saved)".to_owned(),
                description: None,
                selectable: false,
                selected: false,
            },
        );
        return out;
    }
    let mut i: usize = 0;
    while i < styles.len()
        invariant
            i <= styles@.len(),
            out@.len() == i,
            forall|k: int|
                0 <= k < i ==> shows_style(#[trigger] out@[k], styles@[k], name_text(keep)),
        decreases styles@.len() - i,
    {
        let style = &styles[i];
        let selected: bool = match keep {
            Some(k) => same_text(k, style.name.as_str()),
            None => false,
        };
        let description: Option<String> = if style.description.as_str().is_empty() {
            None
        } else {
            Some(style.description.clone())
        };
        out.push(
            StyleItem {
                name: style.name.clone(),
                label: style.name.clone(),
                description,
                selectable: true,
                selected,
            },
        );
        i = i + 1;
    }
    out
}

// ── Saving ──────────────────────────────────────────────────────────────────
/// The save button, before it asks for a name: what is said in place of asking.
pub fn press_save(db_path: &str, image_selected: bool) -> (r: Option<&'static str>)
    ensures
        r is None <==> db_path@.len() > 0 && image_selected,
        db_path@.len() == 0 ==> r is Some && r->0@ == "No catalogue open"@,
        db_path@.len() > 0 && !image_selected ==> r is Some && r->0@ == "Select an image first"@,
{
    if db_path.is_empty() {
        Some("No catalogue open")
    } else if !image_selected {
        Some("Select an image first")
    } else {
        None
    }
}

fn position_of(styles: &Vec<Style>, name: &str) -> (r: Option<usize>)
    ensures
        match r {
            Some(i) => i < styles@.len() && styles@[i as int].name@ == name@,
            None => !style_names(styles@).contains(name@),
        },
{
    let mut i: usize = 0;
    while i < styles.len()
        invariant
            i <= styles@.len(),
            forall|k: int| 0 <= k < i ==> (#[trigger] styles@[k]).name@ != name@,
        decreases styles@.len() - i,
    {
        if same_text(styles[i].name.as_str(), name) {
            return Some(i);
        }
        i = i + 1;
    }
    proof {
        if style_names(styles@).contains(name@) {
            let k = choose|k: int|
                0 <= k < style_names(styles@).len() && style_names(styles@)[k] == name@;
            assert(styles@[k].name@ == name@);
        }
    }
    None
}

/// Whether a style of that name is listed.
pub open spec fn style_listed(catalogue: Catalogue, name: Seq<char>) -> bool {
    &&& catalogue.open
    &&& catalogue.styles@.contains_key(name)
    &&& decoded(catalogue.styles@[name].params@) is Some
}

/// The question before a style is replaced: `None` if the name is free.
pub fn replace_question(catalogue: &Catalogue, name: &str) -> (r: Option<String>)
    requires
        catalogue.wf(),
    ensures
        r is Some <==> style_listed(*catalogue, trimmed(name@, false)),
        r is Some <==> catalogue.open && catalogue.styles@.contains_key(trimmed(name@, false))
            && decoded(catalogue.styles@[trimmed(name@, false)].params@) is Some,
        r is Some ==> r->0@ == "A style named \""@ + trimmed(name@, false) + "\" already exists."@,
{
    let name: String = trim_text(name, false);
    let styles: Vec<Style> = load_styles(catalogue);
    match position_of(&styles, name.as_str()) {
        Some(i) => {
            assert(style_is(
                styles@[i as int],
                styles@[i as int].name@,
                catalogue.styles@[styles@[i as int].name@],
            ));
            let mut s = "A style named \"".to_owned();
            s.append(name.as_str());
            s.append("\" already exists.");
            Some(s)
        },
        None => None,
    }
}

/// What is said after a style was saved, or could not be.
pub open spec fn save_line(name: Seq<char>, saved: bool) -> Seq<char> {
    if saved {
        "Saved style \""@ + trimmed(name, false) + "\""@
    } else if trimmed(name, false).len() == 0 {
        "Style name cannot be empty"@
    } else {
        "Could not save the style"@
    }
}

/// What is said after a style was saved, or could not be.
pub fn save_report(name: &str, saved: bool) -> (r: String)
    ensures
        r@ == save_line(name@, saved),
        saved ==> r@ == "Saved style \""@ + trimmed(name@, false) + "\""@,
        !saved && trimmed(name@, false).len() == 0 ==> r@ == "Style name cannot be empty"@,
        !saved && trimmed(name@, false).len() > 0 ==> r@ == "Could not save the style"@,
{
    let trim: String = trim_text(name, false);
    if saved {
        let mut s = "Saved style \"".to_owned();
        s.append(trim.as_str());
        s.append("\"");
        s
    } else if trim.as_str().is_empty() {
        "Style name cannot be empty".to_owned()
    } else {
        "Could not save the style".to_owned()
    }
}

/// Saves the whole edit as a style, and says what came of it.
pub fn save_style_reporting(
    catalogue: &mut Catalogue,
    name: &str,
    description: &str,
    params: &PreviewParams,
) -> (r: (bool, String))
    requires
        old(catalogue).wf(),
    ensures
        final(catalogue).wf(),
        *final(catalogue) == (Catalogue { styles: final(catalogue).styles, ..*old(catalogue) }),
        r.0 == (old(catalogue).open && trimmed(name@, false).len() > 0),
        r.0 ==> {
            let row = final(catalogue).styles@[trimmed(name@, false)];
            &&& final(catalogue).styles@.contains_key(trimmed(name@, false))
            &&& row.description@ == description@
            &&& row.params@ == params.encoded()
            &&& row.modules is None
        },
        style_rows(final(catalogue).styles@) == if r.0 {
            style_rows(old(catalogue).styles@).insert(
                trimmed(name@, false),
                (description@, params.encoded(), None),
            )
        } else {
            style_rows(old(catalogue).styles@)
        },
        r.1@ == save_line(name@, r.0),
        r.0 ==> r.1@ == "Saved style \""@ + trimmed(name@, false) + "\""@,
        !r.0 && trimmed(name@, false).len() == 0 ==> r.1@ == "Style name cannot be empty"@,
        !r.0 && trimmed(name@, false).len() > 0 ==> r.1@ == "Could not save the style"@,
{
    let saved: bool = save_style(catalogue, name, description, params, None);
    (saved, save_report(name, saved))
}

// ── Applying ────────────────────────────────────────────────────────────────
/// Whether a style and an image to apply it to are chosen.
pub open spec fn apply_ready(
    db_path: Seq<char>,
    selected: Option<Seq<char>>,
    image: Option<Seq<char>>,
) -> bool {
    &&& selected is Some && selected->0.len() > 0
    &&& image is Some && image->0.len() > 0
    &&& db_path.len() > 0
}

/// What is said after a style was applied, or could not be.
pub open spec fn apply_line(name: Seq<char>, applied: bool) -> Seq<char> {
    if applied {
        "Applied style \""@ + name + "\""@
    } else {
        "Could not apply the style to this image"@
    }
}

/// What is said after a style was applied, or could not be.
pub fn apply_report(name: &str, applied: bool) -> (r: String)
    ensures
        r@ == apply_line(name@, applied),
        applied ==> r@ == "Applied style \""@ + name@ + "\""@,
        !applied ==> r@ == "Could not apply the style to this image"@,
{
    if applied {
        let mut s = "Applied style \"".to_owned();
        s.append(name);
        s.append("\"");
        s
    } else {
        "Could not apply the style to this image".to_owned()
    }
}

/// Applies the selected style to the image that is shown, and says what came of it.
pub fn press_apply(
    catalogue: &mut Catalogue,
    db_path: &str,
    selected: Option<&str>,
    image: Option<&str>,
) -> (r: String)
    requires
        old(catalogue).wf(),
    ensures
        final(catalogue).wf(),
        *final(catalogue) == (Catalogue { params: final(catalogue).params, ..*old(catalogue) }),
        !(selected is Some && selected->0@.len() > 0) ==> r@ == "Select a style first"@,
        selected is Some && selected->0@.len() > 0 && (image is None || image->0@.len() == 0
            || db_path@.len() == 0) ==> r@ == "Select an image first"@,
        selected is Some && selected->0@.len() > 0 && image is Some && image->0@.len() > 0
            && db_path@.len() > 0 && style_listed(*old(catalogue), selected->0@) ==> r@ == if old(catalogue).image_id(image->0@) is Some {
            "Applied style \""@ + selected->0@ + "\""@
        } else {
            "Could not apply the style to this image"@
        },
        selected is Some && selected->0@.len() > 0 && !apply_ready(
            db_path@,
            name_text(selected),
            name_text(image),
        ) ==> r@ == "Select an image first"@,
        !(apply_ready(db_path@, name_text(selected), name_text(image)) && style_listed(
            *old(catalogue),
            selected->0@,
        )) ==> final(catalogue).params == old(catalogue).params,
        apply_ready(db_path@, name_text(selected), name_text(image)) ==> if !style_listed(
            *old(catalogue),
            selected->0@,
        ) {
            r@ == "Style \""@ + selected->0@ + "\" is no longer available"@
        } else {
            exists|style: Style, path: String|
                {
                    &&& #[trigger] style_is(
                        style,
                        selected->0@,
                        old(catalogue).styles@[selected->0@],
                    )
                    &&& path@ == image->0@
                    &&& bytes_of(final(catalogue).params@) == (#[trigger] style_applied(
                        *old(catalogue),
                        bytes_of(old(catalogue).params@),
                        seq![path],
                        style,
                    )).0
                    &&& r@ == apply_line(
                        selected->0@,
                        old(catalogue).image_id(image->0@) is Some,
                    )
                }
        },
{
    let name: &str = match selected {
        Some(n) => n,
        None => {
            return "Select a style first".to_owned();
        },
    };
    if name.is_empty() {
        return "Select a style first".to_owned();
    }
    let path: &str = match image {
        Some(p) => p,
        None => {
            return "Select an image first".to_owned();
        },
    };
    if path.is_empty() || db_path.is_empty() {
        return "Select an image first".to_owned();
    }
    let styles: Vec<Style> = load_styles(catalogue);
    match position_of(&styles, name) {
        Some(i) => {
            let mut paths: Vec<String> = Vec::new();
            paths.push(path.to_owned());
            assert(paths@ =~= seq![paths@[0]]);
            let style = &styles[i];
            assert(style_is(*style, style.name@, catalogue.styles@[style.name@]));
            let ghost start = bytes_of(catalogue.params@);
            let n: usize = apply_style_to(catalogue, paths.as_slice(), style);
            proof {
                assert(seq![paths@[0]].drop_last() =~= Seq::empty());
                assert(style_applied(*old(catalogue), start, seq![paths@[0]].drop_last(), *style)
                    == (start, 0int));
                assert(style_is(*style, selected->0@, old(catalogue).styles@[selected->0@]));
                assert(bytes_of(catalogue.params@) == style_applied(
                    *old(catalogue),
                    start,
                    seq![paths@[0]],
                    *style,
                ).0);
            }
            apply_report(name, n > 0)
        },
        None => {
            let mut s = "Style \"".to_owned();
            s.append(name);
            s.append("\" is no longer available");
            s
        },
    }
}

// ── Deleting ────────────────────────────────────────────────────────────────
/// The delete button: the question that is asked first, or, as an error, what is said if
/// no style is selected.
pub fn press_delete(selected: Option<&str>) -> (r: Result<String, &'static str>)
    ensures
        r is Ok <==> selected is Some && selected->0@.len() > 0,
        match r {
            Ok(question) => question@ == "\""@ + selected->0@ + "\" will be removed permanently."@,
            Err(line) => line@ == "Select a style first"@,
        },
{
    match selected {
        Some(name) => {
            if name.is_empty() {
                return Err("Select a style first");
            }
            let mut s = "\"".to_owned();
            s.append(name);
            s.append("\" will be removed permanently.");
            Ok(s)
        },
        None => Err("Select a style first"),
    }
}

/// What is said after a style was deleted, or could not be.
pub open spec fn delete_line(name: Seq<char>, deleted: bool) -> Seq<char> {
    if deleted {
        "Deleted style \""@ + name + "\""@
    } else {
        "Could not delete the style"@
    }
}

/// What is said after a style was deleted, or could not be.
pub fn delete_report(name: &str, deleted: bool) -> (r: String)
    ensures
        r@ == delete_line(name@, deleted),
        deleted ==> r@ == "Deleted style \""@ + name@ + "\""@,
        !deleted ==> r@ == "Could not delete the style"@,
{
    if deleted {
        let mut s = "Deleted style \"".to_owned();
        s.append(name);
        s.append("\"");
        s
    } else {
        "Could not delete the style".to_owned()
    }
}

/// Deletes a style, and says what came of it.
pub fn confirm_delete(catalogue: &mut Catalogue, name: &str) -> (r: (bool, String))
    requires
        old(catalogue).wf(),
    ensures
        final(catalogue).wf(),
        *final(catalogue) == (Catalogue { styles: final(catalogue).styles, ..*old(catalogue) }),
        r.0 == (old(catalogue).open && old(catalogue).styles@.contains_key(name@)),
        final(catalogue).styles@ == if old(catalogue).open {
            old(catalogue).styles@.remove(name@)
        } else {
            old(catalogue).styles@
        },
        r.1@ == delete_line(name@, r.0),
        r.0 ==> r.1@ == "Deleted style \""@ + name@ + "\""@,
        !r.0 ==> r.1@ == "Could not delete the style"@,
{
    let deleted: bool = delete_style(catalogue, name);
    (deleted, delete_report(name, deleted))
}

} // verus!
