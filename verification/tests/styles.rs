use c41_ui::catalogue::{load_params, load_saved, save_params, Catalogue, ImageRow};
use c41_ui::float32::F32;
use c41_ui::params::PreviewParams;
use c41_ui::stylepanel::{
    apply_report, confirm_delete, delete_report, press_apply, press_delete, press_save,
    replace_question, save_report, save_style_reporting, style_items,
};
use c41_ui::styles::{
    apply_style_to, delete_collection_preset, delete_style, load_collection_presets,
    load_styles, save_collection_preset, save_style, StyleRow,
};

fn num(x: f32) -> F32 {
    F32::from_bits(x.to_bits())
}

fn params_with(ev: f32) -> PreviewParams {
    PreviewParams { ev: num(ev), ..PreviewParams::default() }
}

fn catalogue(folder: &str, files: &[&str]) -> Catalogue {
    let mut db = Catalogue::new(true);
    for (i, f) in files.iter().enumerate() {
        db.images.push(ImageRow {
            id: i as i32 + 1,
            folder: folder.to_string(),
            filename: f.to_string(),
        });
    }
    db
}

#[test]
fn save_load_round_trips_a_style() {
    let mut db = Catalogue::new(true);
    assert!(save_style(&mut db, "Punchy", "high contrast", &params_with(1.5), None));
    let styles = load_styles(&db);
    assert_eq!(styles.len(), 1);
    assert_eq!(styles[0].name, "Punchy");
    assert_eq!(styles[0].description, "high contrast");
    assert_eq!(styles[0].params.ev, num(1.5), "params must survive verbatim");
}

#[test]
fn save_overwrites_by_name_rather_than_duplicating() {
    let mut db = Catalogue::new(true);
    assert!(save_style(&mut db, "S", "first", &params_with(1.0), None));
    assert!(save_style(&mut db, "S", "second", &params_with(2.0), None));
    let styles = load_styles(&db);
    assert_eq!(styles.len(), 1, "same name must upsert, not duplicate");
    assert_eq!(styles[0].description, "second");
    assert_eq!(styles[0].params.ev, num(2.0));
}

#[test]
fn blank_names_are_rejected() {
    let mut db = Catalogue::new(true);
    assert!(!save_style(&mut db, "", "x", &params_with(1.0), None));
    assert!(!save_style(&mut db, "   ", "x", &params_with(1.0), None));
    assert!(load_styles(&db).is_empty());
    assert!(save_style(&mut db, " S ", "", &params_with(1.0), None));
    assert_eq!(load_styles(&db)[0].name, "S");
}

#[test]
fn a_style_from_an_incompatible_version_is_skipped_not_defaulted() {
    let mut db = Catalogue::new(true);
    db.styles.put(
        "old".to_string(),
        StyleRow { description: String::new(), params: vec![0u8, 1, 2, 3], modules: None },
    );
    assert!(load_styles(&db).is_empty(), "undecodable style must be skipped");
}

#[test]
fn delete_removes_only_the_named_style() {
    let mut db = Catalogue::new(true);
    save_style(&mut db, "a", "", &params_with(1.0), None);
    save_style(&mut db, "b", "", &params_with(2.0), None);
    assert!(delete_style(&mut db, "a"));
    assert!(!delete_style(&mut db, "a"), "second delete removes nothing");
    let names: Vec<_> = load_styles(&db).into_iter().map(|s| s.name).collect();
    assert_eq!(names, vec!["b"]);
}

#[test]
fn styles_list_is_name_ordered_case_insensitively() {
    let mut db = Catalogue::new(true);
    for n in ["zebra", "Apple", "mango"] {
        save_style(&mut db, n, "", &params_with(0.5), None);
    }
    let names: Vec<_> = load_styles(&db).into_iter().map(|s| s.name).collect();
    assert_eq!(names, vec!["Apple", "mango", "zebra"]);
}

#[test]
fn apply_writes_the_style_to_every_target() {
    let mut db = catalogue("/photos", &["a.dng", "b.dng"]);
    save_style(&mut db, "S", "", &params_with(2.5), None);
    let style = load_styles(&db).remove(0);
    let targets = vec!["/photos/a.dng".to_string(), "/photos/b.dng".to_string()];
    assert_eq!(apply_style_to(&mut db, &targets, &style), 2);
    for t in &targets {
        assert_eq!(load_params(&db, t).ev, num(2.5), "{t} did not receive the style");
    }
}

#[test]
fn apply_counts_writes_not_attempts() {
    let mut db = catalogue("/photos", &["a.dng"]);
    save_style(&mut db, "S", "", &params_with(1.5), None);
    let style = load_styles(&db).remove(0);
    let targets =
        vec!["/photos/a.dng".to_string(), "/photos/not-imported.dng".to_string()];
    assert_eq!(apply_style_to(&mut db, &targets, &style), 1, "only the catalogued image counts");
    assert_eq!(load_params(&db, "/photos/a.dng").ev, num(1.5));
}

#[test]
fn apply_skips_empty_paths() {
    let mut db = Catalogue::new(true);
    save_style(&mut db, "S", "", &params_with(1.0), None);
    let style = load_styles(&db).remove(0);
    assert_eq!(apply_style_to(&mut db, &["".to_string()], &style), 0);
}

#[test]
fn partial_style_roundtrips_its_module_list() {
    let mut db = Catalogue::new(true);
    assert!(save_style(
        &mut db,
        "Velvia only",
        "",
        &params_with(9.0),
        Some(&["Velvia", "Levels"])
    ));
    let style = load_styles(&db).remove(0);
    assert_eq!(style.modules, Some(vec!["Velvia".to_string(), "Levels".to_string()]));
    assert!(save_style(&mut db, "Velvia only", "", &params_with(9.0), None));
    assert_eq!(load_styles(&db).remove(0).modules, None);
}

#[test]
fn whole_style_stores_a_null_modules_column() {
    let mut db = Catalogue::new(true);
    assert!(save_style(&mut db, "Whole", "", &params_with(1.0), None));
    assert_eq!(db.styles.get("Whole").map(|r| r.modules.is_none()), Some(true));
    assert!(save_style(&mut db, "Nothing", "", &params_with(1.0), Some(&[])));
    assert_eq!(db.styles.get("Nothing").and_then(|r| r.modules.clone()).as_deref(), Some(""));
    assert_eq!(
        load_styles(&db).into_iter().find(|s| s.name == "Nothing").unwrap().modules,
        Some(Vec::new())
    );
}

#[test]
fn applying_a_partial_style_merges_over_the_saved_edit() {
    let mut db = catalogue("/photos", &["a.dng"]);
    let img = "/photos/a.dng";
    save_params(&mut db, img, &params_with(1.0));
    let mut overlay = params_with(9.0);
    overlay.velvia_strength = num(42.0);
    assert!(save_style(&mut db, "Punch", "", &overlay, Some(&["Velvia"])));
    let style = load_styles(&db).remove(0);
    assert_eq!(apply_style_to(&mut db, &[img.to_string()], &style), 1);
    let merged = load_params(&db, img);
    assert_eq!(merged.ev, num(1.0), "unlisted module must keep the target's value");
    assert_eq!(merged.velvia_strength, num(42.0), "listed module must come from the style");
}

#[test]
fn applying_a_partial_style_onto_an_unedited_image_starts_from_defaults() {
    let mut db = catalogue("/photos", &["a.dng"]);
    let img = "/photos/a.dng";
    assert!(load_saved(&db, img).is_none());
    let mut overlay = params_with(-2.0);
    overlay.velvia_strength = num(42.0);
    assert!(save_style(&mut db, "Punch", "", &overlay, Some(&["Velvia"])));
    let style = load_styles(&db).remove(0);
    assert_eq!(apply_style_to(&mut db, &[img.to_string()], &style), 1);
    let merged = load_params(&db, img);
    assert_eq!(merged.ev, num(0.0), "default, not the style's -2.0");
    assert_eq!(merged.velvia_strength, num(42.0));
}

#[test]
fn collection_presets_round_trip_upsert_and_delete() {
    let mut db = Catalogue::new(true);
    assert!(!save_collection_preset(&mut db, "", "v1 off off off off"));
    assert!(!save_collection_preset(&mut db, "  ", "v1 off off off off"));
    assert!(!save_collection_preset(&mut db, "x", ""));
    assert!(!save_collection_preset(&mut db, "x", "  "));
    assert!(!save_collection_preset(&mut db, "x", "\t\n"));
    assert!(load_collection_presets(&db).is_empty());
    assert!(save_collection_preset(&mut db, " S ", "p1"));
    assert!(save_collection_preset(&mut db, "S", "p2"));
    assert_eq!(load_collection_presets(&db), vec![("S".to_string(), "p2".to_string())]);
    save_collection_preset(&mut db, "zebra", "z");
    save_collection_preset(&mut db, "Apple", "a");
    let names: Vec<_> = load_collection_presets(&db).into_iter().map(|(n, _)| n).collect();
    assert_eq!(names, vec!["Apple", "S", "zebra"]);
    assert!(delete_collection_preset(&mut db, "S"));
    assert!(!delete_collection_preset(&mut db, "S"), "second delete removes nothing");
    assert_eq!(load_collection_presets(&db).len(), 2);
}

#[test]
fn a_closed_catalogue_keeps_no_style() {
    let mut db = Catalogue::new(false);
    assert!(!save_style(&mut db, "S", "", &params_with(1.0), None));
    assert!(!delete_style(&mut db, "S"));
    assert!(!save_collection_preset(&mut db, "S", "p"));
    assert!(load_styles(&db).is_empty());
    assert!(load_collection_presets(&db).is_empty());
}

#[test]
fn the_styles_list_keeps_its_selection() {
    let mut db = Catalogue::new(true);
    let none = style_items(&load_styles(&db), Some("b"));
    assert_eq!(none.len(), 1);
    assert_eq!(none[0].label, "(no styles saved)");
    assert_eq!(none[0].name, "");
    assert!(!none[0].selectable && !none[0].selected);
    save_style(&mut db, "a", "soft", &params_with(1.0), None);
    save_style(&mut db, "b", "", &params_with(1.0), None);
    let items = style_items(&load_styles(&db), Some("b"));
    assert_eq!(items.len(), 2);
    assert_eq!(items[0].description.as_deref(), Some("soft"));
    assert_eq!(items[1].description, None);
    assert_eq!(items.iter().map(|i| i.selected).collect::<Vec<_>>(), vec![false, true]);
    assert!(items.iter().all(|i| i.selectable));
}

#[test]
fn saving_a_style_says_what_came_of_it() {
    assert_eq!(press_save("", true), Some("No catalogue open"));
    assert_eq!(press_save("db", false), Some("Select an image first"));
    assert_eq!(press_save("db", true), None);
    let mut db = Catalogue::new(true);
    assert_eq!(replace_question(&db, " S "), None);
    let p = params_with(1.0);
    assert_eq!(
        save_style_reporting(&mut db, " S ", "", &p),
        (true, "Saved style \"S\"".to_string())
    );
    assert_eq!(
        replace_question(&db, " S ").as_deref(),
        Some("A style named \"S\" already exists.")
    );
    assert_eq!(
        save_style_reporting(&mut db, "  ", "", &p),
        (false, "Style name cannot be empty".to_string())
    );
    db.open = false;
    assert_eq!(
        save_style_reporting(&mut db, "T", "", &p),
        (false, "Could not save the style".to_string())
    );
}

#[test]
fn applying_the_selected_style_says_what_came_of_it() {
    let mut db = catalogue("/photos", &["a.dng"]);
    save_style(&mut db, "S", "", &params_with(2.0), None);
    let img = Some("/photos/a.dng");
    assert_eq!(press_apply(&mut db, "db", None, img), "Select a style first");
    assert_eq!(press_apply(&mut db, "db", Some(""), img), "Select a style first");
    assert_eq!(press_apply(&mut db, "db", Some("S"), None), "Select an image first");
    assert_eq!(press_apply(&mut db, "db", Some("S"), Some("")), "Select an image first");
    assert_eq!(press_apply(&mut db, "", Some("S"), img), "Select an image first");
    assert_eq!(
        press_apply(&mut db, "db", Some("T"), img),
        "Style \"T\" is no longer available"
    );
    assert_eq!(
        press_apply(&mut db, "db", Some("S"), Some("/photos/b.dng")),
        "Could not apply the style to this image"
    );
    assert!(load_saved(&db, "/photos/a.dng").is_none());
    assert_eq!(press_apply(&mut db, "db", Some("S"), img), "Applied style \"S\"");
    assert_eq!(load_params(&db, "/photos/a.dng").ev, num(2.0));
}

#[test]
fn deleting_the_selected_style_says_what_came_of_it() {
    let mut db = Catalogue::new(true);
    save_style(&mut db, "S", "", &params_with(2.0), None);
    assert_eq!(press_delete(None), Err("Select a style first"));
    assert_eq!(press_delete(Some("")), Err("Select a style first"));
    assert_eq!(
        press_delete(Some("S")),
        Ok("\"S\" will be removed permanently.".to_string())
    );
    assert_eq!(confirm_delete(&mut db, "S"), (true, "Deleted style \"S\"".to_string()));
    assert_eq!(
        confirm_delete(&mut db, "S"),
        (false, "Could not delete the style".to_string())
    );
}

#[test]
fn a_partial_style_reaches_an_image_that_is_named_twice() {
    let mut db = catalogue("/p", &["a.nef"]);
    let mut own = params_with(0.5);
    own.velvia_strength = num(7.0);
    save_params(&mut db, "/p/a.nef", &own);
    assert!(save_style(&mut db, "Part", "", &params_with(2.0), Some(&["Exposure", "Bloom"])));
    let style = load_styles(&db).remove(0);
    assert_eq!(style.modules, Some(vec!["Exposure".to_string(), "Bloom".to_string()]));
    let paths = vec!["/p/a.nef".to_string(), "/p/a.nef".to_string()];
    assert_eq!(apply_style_to(&mut db, &paths, &style), 2);
    let got = load_params(&db, "/p/a.nef");
    assert_eq!(got.ev, num(2.0));
    assert_eq!(got.velvia_strength, num(7.0));
}

#[test]
fn a_filter_keeps_the_blanks_around_it() {
    let mut db = Catalogue::new(true);
    assert!(save_collection_preset(&mut db, " x ", " p "));
    assert_eq!(load_collection_presets(&db), vec![("x".to_string(), " p ".to_string())]);
}

#[test]
fn a_write_that_failed_is_said() {
    assert_eq!(save_report(" S ", true), "Saved style \"S\"");
    assert_eq!(save_report(" S ", false), "Could not save the style");
    assert_eq!(save_report("  ", false), "Style name cannot be empty");
    assert_eq!(apply_report("S", true), "Applied style \"S\"");
    assert_eq!(apply_report("S", false), "Could not apply the style to this image");
    assert_eq!(delete_report("S", true), "Deleted style \"S\"");
    assert_eq!(delete_report("S", false), "Could not delete the style");
}
