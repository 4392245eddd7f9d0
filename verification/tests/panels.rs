use c41_ui::catalogue::{
    load_history, load_saved, save_history, save_params, save_ui_pref, Catalogue, ImageRow,
};
use c41_ui::collections::{
    collapsed_token, color_filter_name, colour_mask, colour_ticked, combine_label, entered_name,
    parse_collapsed_token, preset_tooltip, roll_row, section_expanded, tag_indent, toggle_section,
    CollectionChoice, COLLECTIONS_SECTION_PREF_KEY, COLOR_COUNT, COLOR_NAMES,
    COLOURS_SECTION_PREF_KEY, FILTERS_SECTION_PREF_KEY, IMPORT_SECTION_PREF_KEY,
    TAGS_SECTION_PREF_KEY,
};
use c41_ui::editor::{
    flush_group, flush_plan, group_name, meta_scope_hint_text, metadata_commit_report,
    metadata_target_paths, show_metadata, MetaEntry,
};
use c41_ui::exif::{
    camera_line, exif_query, format_camera, format_dims, format_opt, rest_after_maker, shown_file,
    shown_folder, value_tooltip, NO_VALUE,
};
use c41_ui::float32::F32;
use c41_ui::history::{
    confirm_discard, history_buttons, history_readout_text, press_copy, press_discard, press_paste,
    HistoryAction, HistoryClipboard,
};
use c41_ui::metadata::{load_metadata, save_metadata, MetaField};
use c41_ui::params::PreviewParams;
use c41_ui::rules::{rule_placeholder, Comparators, Rule, RuleEditor};

fn num(x: f32) -> F32 {
    F32::from_bits(x.to_bits())
}

fn with_ev(ev: f32) -> PreviewParams {
    PreviewParams { ev: num(ev), ..Default::default() }
}

fn list(items: &[&str]) -> Vec<String> {
    items.iter().map(|s| s.to_string()).collect()
}

fn history_catalogue() -> (Catalogue, &'static str, &'static str) {
    let mut db = Catalogue::new(true);
    for (id, name) in [(7, "a.raw"), (8, "b.raw")] {
        db.images.push(ImageRow {
            id,
            folder: "/photos".to_string(),
            filename: name.to_string(),
        });
    }
    (db, "/photos/a.raw", "/photos/b.raw")
}

#[test]
fn camera_drops_a_maker_the_model_already_repeats() {
    assert_eq!(format_camera(Some("Canon"), Some("Canon EOS 5D")), "Canon EOS 5D");
    assert_eq!(format_camera(Some("CANON"), Some("Canon EOS 5D")), "Canon EOS 5D");
    assert_eq!(
        format_camera(Some("OLYMPUS CORPORATION"), Some("E-M10 Mark III")),
        "OLYMPUS CORPORATION E-M10 Mark III"
    );
    assert_eq!(format_camera(Some("Canon"), Some("Canonball")), "Canon Canonball");
    assert_eq!(format_camera(Some("DJI"), Some("DJI")), "DJI");
    assert_eq!(format_camera(Some("NIKON CORPORATION"), Some("NIKON D850")), "NIKON D850");
    assert_eq!(format_camera(Some("SONY"), Some("SONY ILCE-7M3")), "SONY ILCE-7M3");
    assert_eq!(format_camera(None, Some("E-M10")), "E-M10");
    assert_eq!(format_camera(Some("Nikon"), None), "Nikon");
    assert_eq!(format_camera(None, None), NO_VALUE);
    assert_eq!(format_camera(Some("  "), Some("")), NO_VALUE, "blank is not a value");
}

#[test]
fn makers_are_compared_in_small_letters_beyond_ascii() {
    assert_eq!(format_camera(Some("ÉCLAIR"), Some("Éclair 16")), "Éclair 16");
    assert_eq!(format_camera(Some("Ab"), Some("abé")), "Ab abé", "a letter goes on");
    assert_eq!(format_camera(Some("Ab"), Some("ab-1")), "ab-1");
    assert_eq!(rest_after_maker("canon inc", "canon eos"), Some(vec![' ', 'e', 'o', 's']));
    assert_eq!(rest_after_maker("  canon", "canon"), Some(vec![]));
    assert_eq!(rest_after_maker("", "canon"), None);
    assert_eq!(rest_after_maker("canon", "cano"), None);
    assert_eq!(camera_line("A", "B", false), "A B");
    assert_eq!(camera_line("A", "B", true), "B");
}

#[test]
fn dims_and_opt_render_or_placeholder() {
    assert_eq!(format_dims(Some(4640), Some(3472)), "4640 × 3472");
    assert_eq!(format_dims(Some(4640), None), NO_VALUE);
    assert_eq!(format_dims(Some(0), Some(3472)), NO_VALUE);
    assert_eq!(format_dims(None, None), NO_VALUE);
    assert_eq!(format_opt(Some("Olympus M.Zuiko 45mm")), "Olympus M.Zuiko 45mm");
    assert_eq!(format_opt(Some("  padded  ")), "padded");
    assert_eq!(format_opt(Some("   ")), NO_VALUE, "whitespace is not a value");
    assert_eq!(format_opt(None), NO_VALUE);
}

#[test]
fn the_dash_has_no_tooltip() {
    assert_eq!(value_tooltip(NO_VALUE), None);
    assert_eq!(value_tooltip("Canon").as_deref(), Some("Canon"));
    assert_eq!(value_tooltip("").as_deref(), Some(""));
}

#[test]
fn a_path_is_shown_by_file_and_last_folder() {
    assert_eq!(shown_file("/photos/2024/a.raw"), "a.raw");
    assert_eq!(shown_file("/"), "/");
    assert_eq!(
        shown_folder("/photos/2024/a.raw"),
        ("/photos/2024".to_string(), "2024".to_string())
    );
    assert_eq!(shown_folder("a.raw"), (String::new(), String::new()));
    assert_eq!(shown_folder("/a.raw"), ("/".to_string(), String::new()));
}

/// One row of an image's information, as the statement gives it.
#[derive(Debug, Default, PartialEq)]
struct ExifRow {
    names: (Option<String>, Option<String>, Option<String>),
    exposure: Option<f64>,
    aperture: Option<f64>,
    iso: Option<f64>,
    focal_length: Option<f64>,
    size: (Option<i64>, Option<i64>),
    datetime: Option<String>,
}

fn query_exif_row(conn: &rusqlite::Connection, folder: &str, filename: &str) -> Option<ExifRow> {
    let lookups: i64 = conn
        .query_row(
            "SELECT COUNT(*) FROM main.sqlite_master \
             WHERE type = 'table' AND name IN ('makers', 'models', 'lens')",
            (),
            |r| r.get(0),
        )
        .unwrap();
    let sql = exif_query(lookups, "(i.datetime_taken / 1000000 - 62135596800)");
    conn.query_row(&sql, (folder, filename), |r| {
        Ok(ExifRow {
            names: (r.get(0)?, r.get(1)?, r.get(2)?),
            exposure: r.get(3)?,
            aperture: r.get(4)?,
            iso: r.get(5)?,
            focal_length: r.get(6)?,
            size: (r.get(7)?, r.get(8)?),
            datetime: r.get(9)?,
        })
    })
    .ok()
}

const LOOKUPS: &str = "CREATE TABLE makers (id INTEGER PRIMARY KEY, name TEXT);
    CREATE TABLE models (id INTEGER PRIMARY KEY, name TEXT);
    CREATE TABLE lens   (id INTEGER PRIMARY KEY, name TEXT);";
const IMAGES: &str = "CREATE TABLE film_rolls (id INTEGER PRIMARY KEY, folder TEXT);
    CREATE TABLE images (id INTEGER PRIMARY KEY, film_id INTEGER, filename TEXT,
                         maker_id INTEGER, model_id INTEGER, lens_id INTEGER,
                         exposure REAL, aperture REAL, iso REAL,
                         focal_length REAL, width INTEGER, height INTEGER,
                         datetime_taken INTEGER);
    INSERT INTO film_rolls VALUES (1, '/photos');";

#[test]
fn query_exif_reads_a_seeded_catalog_end_to_end() {
    let conn = rusqlite::Connection::open_in_memory().unwrap();
    conn.execute_batch(LOOKUPS).unwrap();
    conn.execute_batch(IMAGES).unwrap();
    conn.execute_batch(
        "INSERT INTO makers VALUES (1, 'OLYMPUS CORPORATION');
         INSERT INTO models VALUES (1, 'E-M10 Mark III');
         INSERT INTO lens   VALUES (1, 'Olympus M.Zuiko Digital 45mm F1.8');
         INSERT INTO images VALUES (1, 1, 'P1010153.ORF', 1, 1, 1,
             0.0166666675359011, 2.79999995231628, 640.0, 45.0, 4640, 3472,
             63668412473000000);
         INSERT INTO images VALUES (2, 1, 'bare.ORF', NULL, NULL, NULL,
             NULL, NULL, NULL, NULL, NULL, NULL, 0);",
    )
    .unwrap();

    let e = query_exif_row(&conn, "/photos", "P1010153.ORF").expect("row");
    assert_eq!(e.names.0.as_deref(), Some("OLYMPUS CORPORATION"));
    assert_eq!(e.names.1.as_deref(), Some("E-M10 Mark III"));
    assert_eq!(e.names.2.as_deref(), Some("Olympus M.Zuiko Digital 45mm F1.8"));
    assert_eq!(e.exposure, Some(0.0166666675359011));
    assert_eq!(e.aperture, Some(2.79999995231628));
    assert_eq!(e.iso, Some(640.0));
    assert_eq!(e.focal_length, Some(45.0));
    assert_eq!(format_dims(e.size.0, e.size.1), "4640 × 3472");
    assert_eq!(e.datetime.as_deref(), Some("2018-07-28 22:07:53"));

    let bare = query_exif_row(&conn, "/photos", "bare.ORF").expect("row exists");
    assert_eq!(bare, ExifRow::default());
    assert_eq!(format_camera(bare.names.0.as_deref(), bare.names.1.as_deref()), NO_VALUE);

    assert_eq!(query_exif_row(&conn, "/photos", "missing.ORF"), None);
}

#[test]
fn null_datetime_taken_reads_as_absent_not_year_one() {
    let conn = rusqlite::Connection::open_in_memory().unwrap();
    conn.execute_batch(LOOKUPS).unwrap();
    conn.execute_batch(IMAGES).unwrap();
    conn.execute_batch(
        "INSERT INTO images VALUES (1, 1, 'n.ORF', NULL, NULL, NULL,
             NULL, NULL, NULL, NULL, 100, 50, NULL);",
    )
    .unwrap();
    let e = query_exif_row(&conn, "/photos", "n.ORF").expect("row");
    assert_eq!(e.datetime, None);
    assert_eq!(format_opt(e.datetime.as_deref()), NO_VALUE);
    assert_eq!(format_dims(e.size.0, e.size.1), "100 × 50");
}

#[test]
fn a_catalog_without_the_lookup_tables_still_yields_the_other_fields() {
    let conn = rusqlite::Connection::open_in_memory().unwrap();
    conn.execute_batch(IMAGES).unwrap();
    conn.execute_batch(
        "INSERT INTO images VALUES (1, 1, 'old.ORF', 1, 1, 1,
             0.0166666675359011, 2.79999995231628, 640.0, 45.0, 4640, 3472,
             63668412473000000);",
    )
    .unwrap();
    let e = query_exif_row(&conn, "/photos", "old.ORF").expect("row despite no lookups");
    assert_eq!(e.names, (None, None, None));
    assert_eq!(format_camera(e.names.0.as_deref(), e.names.1.as_deref()), NO_VALUE);
    assert_eq!(e.exposure, Some(0.0166666675359011));
    assert_eq!(e.aperture, Some(2.79999995231628));
    assert_eq!(e.iso, Some(640.0));
    assert_eq!(format_dims(e.size.0, e.size.1), "4640 × 3472");
    assert_eq!(e.datetime.as_deref(), Some("2018-07-28 22:07:53"));
}

#[test]
fn meta_scope_hint_hides_for_zero_and_one_and_counts_above() {
    assert_eq!(meta_scope_hint_text(0), None);
    assert_eq!(meta_scope_hint_text(1), None);
    assert_eq!(
        meta_scope_hint_text(2).as_deref(),
        Some("Edits apply to all 2 selected images")
    );
    assert_eq!(
        meta_scope_hint_text(17).as_deref(),
        Some("Edits apply to all 17 selected images")
    );
}

#[test]
fn metadata_target_paths_fall_back_to_the_cursor_only_without_a_set() {
    assert_eq!(metadata_target_paths(&Vec::new(), "/d/only.nef"), vec!["/d/only.nef"]);
    assert!(
        metadata_target_paths(&Vec::new(), "").is_empty(),
        "no image showing → nothing to target"
    );
    assert!(metadata_target_paths(&list(&["/d/a.nef"]), "").is_empty());
}

#[test]
fn metadata_target_paths_bind_to_the_displayed_image_over_a_foreign_set() {
    let set = list(&["/d/a.nef", "/d/b.nef"]);
    assert_eq!(metadata_target_paths(&set, "/d/b.nef"), vec!["/d/a.nef", "/d/b.nef"]);
    assert_eq!(metadata_target_paths(&set, "/d/c.nef"), vec!["/d/c.nef"]);
}

#[test]
fn commit_report_is_silent_only_when_everything_landed() {
    assert_eq!(metadata_commit_report("title", 3, 3, 0), None);
}

#[test]
fn commit_report_counts_uncatalogued_skips_instead_of_dropping_them() {
    assert_eq!(
        metadata_commit_report("title", 1, 100, 0),
        Some("Saved title for 1 of 100 images".to_string())
    );
}

#[test]
fn commit_report_keeps_the_could_not_save_line_when_nothing_lands() {
    assert_eq!(
        metadata_commit_report("title", 0, 2, 0),
        Some("Could not save title".to_string())
    );
}

#[test]
fn commit_report_joins_sidecar_failures_and_combines_parts() {
    assert_eq!(
        metadata_commit_report("creator", 3, 3, 2),
        Some("Could not update 2 XMP sidecar(s)".to_string())
    );
    assert_eq!(
        metadata_commit_report("title", 2, 5, 1),
        Some("Saved title for 2 of 5 images; could not update 1 XMP sidecar(s)".to_string())
    );
}

#[test]
fn section_pref_keys_are_distinct_and_namespaced() {
    let keys = [
        COLLECTIONS_SECTION_PREF_KEY,
        COLOURS_SECTION_PREF_KEY,
        TAGS_SECTION_PREF_KEY,
        IMPORT_SECTION_PREF_KEY,
        FILTERS_SECTION_PREF_KEY,
    ];
    let uniq: std::collections::BTreeSet<_> = keys.iter().collect();
    assert_eq!(uniq.len(), keys.len(), "duplicate section pref key");
    for k in keys {
        assert!(k.starts_with("left_section_"), "un-namespaced key: {k}");
    }
}

#[test]
fn section_fold_state_round_trips_through_the_token_encoding() {
    for expanded in [true, false] {
        let tok = collapsed_token(!expanded);
        let restored = parse_collapsed_token(tok).map(|c| !c);
        assert_eq!(restored, Some(expanded), "round trip failed for {expanded}");
    }
    assert_eq!(parse_collapsed_token("open"), None);
}

#[test]
fn a_section_opens_as_it_was_left() {
    let mut db = Catalogue::new(true);
    assert!(section_expanded(&db, TAGS_SECTION_PREF_KEY, true));
    assert!(!section_expanded(&db, TAGS_SECTION_PREF_KEY, false));
    let (open, icon, token) = toggle_section(true);
    assert!(!open);
    assert_eq!((icon, token), ("pan-end-symbolic", "hidden"));
    save_ui_pref(&mut db, TAGS_SECTION_PREF_KEY, token);
    assert!(!section_expanded(&db, TAGS_SECTION_PREF_KEY, true));
    let (open, icon, token) = toggle_section(false);
    assert!(open);
    assert_eq!(icon, "pan-down-symbolic");
    save_ui_pref(&mut db, TAGS_SECTION_PREF_KEY, token);
    assert!(section_expanded(&db, TAGS_SECTION_PREF_KEY, false));
    save_ui_pref(&mut db, TAGS_SECTION_PREF_KEY, "garbage");
    assert!(section_expanded(&db, TAGS_SECTION_PREF_KEY, true));
}

#[test]
fn color_filter_name_covers_every_label_in_range() {
    assert_eq!(COLOR_NAMES.len(), COLOR_COUNT as usize);
    assert_eq!(color_filter_name(0), Some("Red"));
    assert_eq!(color_filter_name(4), Some("Purple"));
    for idx in 0..COLOR_COUNT {
        assert!(color_filter_name(idx).is_some(), "idx {idx} unnamed");
    }
}

#[test]
fn color_filter_name_is_none_out_of_range() {
    assert_eq!(color_filter_name(COLOR_COUNT), None);
    assert_eq!(color_filter_name(99), None);
}

#[test]
fn colour_checks_and_mask_mirror_each_other() {
    assert_eq!(colour_mask(&vec![]), 0);
    assert_eq!(colour_mask(&vec![(0, true), (1, false), (4, true)]), 0b10001);
    for mask in 0u8..32 {
        let checks: Vec<(u8, bool)> = (0..COLOR_COUNT).map(|c| (c, colour_ticked(mask, c))).collect();
        assert_eq!(colour_mask(&checks), mask);
    }
    assert_eq!(combine_label(true), "Match all");
    assert_eq!(combine_label(false), "Match any");
}

#[test]
fn rolls_are_shown_by_their_last_folder() {
    let all = roll_row("All images", -1, None);
    assert_eq!((all.target.as_str(), all.label.as_str()), ("all", "All images"));
    assert_eq!((all.count, all.tooltip), (None, None));
    let roll = roll_row("/photos/2024", 12, Some("/photos/2024"));
    assert_eq!((roll.target.as_str(), roll.label.as_str()), ("/photos/2024", "2024"));
    assert_eq!(roll.count.as_deref(), Some("12"));
    assert_eq!(roll.tooltip.as_deref(), Some("/photos/2024"));
    assert_eq!(roll_row("x", 0, Some("x")).count.as_deref(), Some("0"));
}

#[test]
fn a_folder_and_a_tag_exclude_each_other() {
    let mut choice = CollectionChoice::new();
    assert!(choice.choose_tag("places|Italy"));
    assert_eq!(choice.active_tag.as_deref(), Some("places|Italy"));
    assert!(!choice.choose_tag(""), "a row without a path changes nothing");
    assert_eq!(choice.active_tag.as_deref(), Some("places|Italy"));
    assert_eq!(choice.choose_roll("/photos").as_deref(), Some("/photos"));
    assert_eq!(choice.active_tag, None);
    assert_eq!(choice.choose_roll("all"), None);
    assert_eq!(tag_indent(0), 12);
    assert_eq!(tag_indent(3), 60);
}

#[test]
fn a_filter_needs_a_name_and_readable_data() {
    assert_eq!(entered_name("  "), None);
    assert_eq!(entered_name(" five stars ").as_deref(), Some("five stars"));
    assert_eq!(preset_tooltip(true), "Apply this preset to the current filters");
    assert_eq!(preset_tooltip(false), "Preset data unreadable — delete and re-save");
}

#[test]
fn rules_are_added_up_to_the_limit_and_deleted_in_place() {
    let set = Comparators { text: 2, numeric: 6 };
    let mut editor = RuleEditor::new(2);
    assert!(editor.can_add() && editor.add_rule(false) && editor.add_rule(true));
    assert!(!editor.can_add() && !editor.add_rule(false));
    assert!(!editor.combinator_shown(0) && editor.combinator_shown(1));
    editor.rows[1].value = "1600".to_string();
    editor.rows[1].numeric_comparator = 4;
    editor.rows[1].text_comparator = 1;
    let rules = editor.collect(set);
    assert_eq!(rules[0].value, "", "a blank rule is a rule");
    assert_eq!((rules[1].comparator, rules[1].value.as_str()), (4, "1600"));
    editor.rows[1].numeric_comparator = 9;
    assert_eq!(editor.collect(set)[1].comparator, 0, "no such comparator");
    assert!(editor.delete_rule(0));
    assert!(!editor.delete_rule(1));
    assert_eq!(editor.rows.len(), 1);
    assert_eq!(editor.rows[0].value, "1600");
    assert_eq!(rule_placeholder(false), "substring…");
    assert_eq!(rule_placeholder(true), "e.g. 1/60, 2.8, 1600…");
}

#[test]
fn rows_follow_the_rules_only_when_they_differ() {
    let set = Comparators { text: 2, numeric: 6 };
    let mut editor = RuleEditor::new(5);
    let rules = vec![
        Rule { comb: 0, property: 2, numeric: false, comparator: 1, value: "a".to_string() },
        Rule { comb: 1, property: 5, numeric: true, comparator: 3, value: "2.8".to_string() },
    ];
    assert!(editor.follow(&rules, set));
    assert_eq!(editor.collect(set), rules);
    assert!(!editor.follow(&rules, set), "rows that show the rules are left alone");
    assert!(editor.follow(&Vec::new(), set));
    assert!(editor.rows.is_empty());
}

fn two_image_entries(db: &Catalogue) -> Vec<MetaEntry> {
    let targets = list(&["/photos/b.raw", "/photos/a.raw"]);
    show_metadata(&load_metadata(db, "/photos/a.raw"), &targets, "db")
}

#[test]
fn an_entry_is_written_only_when_it_changed() {
    let (mut db, a, b) = history_catalogue();
    save_metadata(&mut db, a, &[(MetaField::Title, "old".into())], true);
    let mut entry = two_image_entries(&db).remove(0);
    assert_eq!((entry.field, entry.text.as_str()), (MetaField::Title, "old"));
    assert!(!entry.is_dirty());
    assert_eq!(entry.commit(&mut db, &vec![true; 2]), None);
    entry.text = "new".to_string();
    assert!(entry.is_dirty());
    entry.revert();
    assert_eq!(entry.text, "old");
    entry.text = "new".to_string();
    assert_eq!(entry.commit(&mut db, &vec![false; 2]), Some(Vec::new()));
    assert!(entry.is_dirty(), "every write failed");
    assert_eq!(
        entry.commit(&mut db, &vec![true; 2]),
        Some(list(&["/photos/b.raw", "/photos/a.raw"]))
    );
    assert!(!entry.is_dirty());
    assert_eq!(load_metadata(&db, a)[0].1, "new");
    assert_eq!(load_metadata(&db, b)[0].1, "new");
    entry.text = "again".to_string();
    entry.focus(list(&["/photos/none.raw"]), "db".to_string());
    assert!(!entry.is_dirty(), "editing begins with the text that is there");
    entry.text = "lost".to_string();
    assert_eq!(entry.commit(&mut db, &vec![true]), Some(Vec::new()));
    assert!(entry.is_dirty(), "nothing was written");
}

#[test]
fn a_flush_writes_entries_of_one_selection_together() {
    let (mut db, a, b) = history_catalogue();
    let mut entries = two_image_entries(&db);
    assert!(flush_plan(&entries).is_empty());
    entries[0].text = "T".to_string();
    entries[2].text = "C".to_string();
    entries[2].paths = list(&["/photos/a.raw", "/photos/b.raw"]);
    entries[4].text = "R".to_string();
    entries[4].paths = list(&["/photos/a.raw"]);
    entries[1].text = "D".to_string();
    entries[1].db = String::new();
    let plan = flush_plan(&entries);
    assert_eq!(plan.len(), 2);
    assert_eq!(plan[0].members, vec![4]);
    assert_eq!(plan[0].key, list(&["db", "/photos/a.raw"]));
    assert_eq!(plan[1].members, vec![0, 2]);
    assert_eq!(group_name(&entries, &plan[1].members), "title, creator");
    for group in &plan {
        let n = entries[group.members[0]].paths.len();
        let before = entries.clone();
        assert!(flush_group(&mut entries, &group.members, &mut db, &vec![false; n]).is_empty());
        assert_eq!(entries, before, "every write failed");
        assert!(!flush_group(&mut entries, &group.members, &mut db, &vec![true; n]).is_empty());
    }
    assert!(flush_plan(&entries).is_empty(), "a second flush does nothing");
    let (ma, mb) = (load_metadata(&db, a), load_metadata(&db, b));
    assert_eq!((ma[0].1.as_str(), ma[2].1.as_str(), ma[4].1.as_str()), ("T", "C", "R"));
    assert_eq!((mb[0].1.as_str(), mb[2].1.as_str(), mb[4].1.as_str()), ("T", "C", ""));
}

#[test]
fn history_readout_tracks_selection_and_edits() {
    let (mut db, a, _b) = history_catalogue();
    assert_eq!(history_readout_text(&db, "", None), "(no image selected)");
    assert_eq!(history_readout_text(&db, a, None), "no saved edits");
    save_params(&mut db, a, &with_ev(0.4));
    assert_eq!(history_readout_text(&db, a, None), "1-step edit stack");
    save_history(&mut db, a, &vec![1u8, 2]);
    assert_eq!(history_readout_text(&db, a, Some(2)), "2-step edit stack");
}

#[test]
fn clipboard_copies_edits_between_images_replacing_the_target() {
    let (mut db, src, dst) = history_catalogue();
    save_params(&mut db, src, &with_ev(2.0));
    save_history(&mut db, src, &vec![1u8, 2]);
    save_params(&mut db, dst, &with_ev(-1.0));
    let clip = HistoryClipboard::from_image(&db, src, true).expect("source has edits");
    assert_eq!(clip.params.ev, num(2.0));
    assert_eq!(clip.stack.as_ref().map(|s| s.len()), Some(2));
    assert_eq!(clip.source_basename(), "a.raw", "toast names the source file");
    clip.apply_to(&mut db, dst, &vec![9u8]);
    let pasted = load_saved(&db, dst).expect("params pasted");
    assert_eq!(pasted.ev, num(2.0), "destination edit was replaced, not kept");
    assert_eq!(load_history(&db, dst), Some(vec![1u8, 2]), "stack pasted wholesale");
    assert!(HistoryClipboard::from_image(&db, "/photos/never-edited.raw", true).is_none());
}

#[test]
fn clipboard_paste_without_stack_row_replaces_the_targets_stale_stack() {
    let (mut db, src, dst) = history_catalogue();
    save_params(&mut db, src, &with_ev(1.0));
    save_history(&mut db, dst, &vec![5u8, 6]);
    save_params(&mut db, dst, &with_ev(-2.0));
    HistoryClipboard::from_image(&db, src, true)
        .expect("params to copy")
        .apply_to(&mut db, dst, &vec![9u8]);
    assert_eq!(load_saved(&db, dst).unwrap().ev, num(1.0));
    assert_eq!(
        load_history(&db, dst),
        Some(vec![9u8]),
        "stale stack replaced by a fresh seed stack"
    );
}

#[test]
fn a_stack_that_cannot_be_read_is_not_copied() {
    let (mut db, src, _) = history_catalogue();
    save_params(&mut db, src, &with_ev(1.0));
    save_history(&mut db, src, &vec![1u8]);
    assert!(HistoryClipboard::from_image(&db, src, false).unwrap().stack.is_none());
    let odd = HistoryClipboard { source: "/".to_string(), params: with_ev(0.0), stack: None };
    assert_eq!(odd.source_basename(), "another image");
}

#[test]
fn history_buttons_say_what_they_did() {
    let (mut db, src, dst) = history_catalogue();
    let mut clip: Option<HistoryClipboard> = None;
    let said = |s: &str| HistoryAction::Said(s.to_string());
    let seed = vec![9u8];
    assert_eq!(press_copy(&mut clip, &db, "", "db", true), HistoryAction::Nothing);
    assert_eq!(press_copy(&mut clip, &db, src, "", true), said("No catalogue open"));
    assert_eq!(
        press_copy(&mut clip, &db, src, "db", true),
        said("Nothing to copy — the selected image has no saved edits")
    );
    assert_eq!(press_paste(&clip, &mut db, dst, "db", &seed), HistoryAction::Nothing);
    let b = history_buttons(&db, src, &clip);
    assert!(!b.copy && !b.paste && !b.discard);
    save_params(&mut db, src, &with_ev(3.0));
    assert_eq!(press_copy(&mut clip, &db, src, "db", true), HistoryAction::Done);
    let b = history_buttons(&db, src, &clip);
    assert!(b.copy && b.paste && b.discard);
    assert_eq!(press_paste(&clip, &mut db, "", "db", &seed), HistoryAction::Nothing);
    assert_eq!(press_paste(&clip, &mut db, dst, "", &seed), said("No catalogue open"));
    assert!(load_saved(&db, dst).is_none());
    assert_eq!(press_paste(&clip, &mut db, dst, "db", &seed), said("Pasted edit from a.raw"));
    assert_eq!(load_saved(&db, dst), Some(with_ev(3.0)));
    assert_eq!(press_discard("", "db"), HistoryAction::Nothing);
    assert_eq!(press_discard(dst, ""), said("No catalogue open"));
    assert_eq!(press_discard(dst, "db"), HistoryAction::Done);
    assert_eq!(confirm_discard(&mut db, dst), "Discarded all edits");
    assert!(load_saved(&db, dst).is_none() && load_history(&db, dst).is_none());
}

#[test]
fn an_entry_settles_once_a_write_reached_something() {
    let (db, _, _) = history_catalogue();
    let mut entry = two_image_entries(&db).remove(0);
    entry.text = "new".to_string();
    entry.settle(&Vec::new());
    assert!(entry.is_dirty());
    entry.settle(&list(&["/photos/a.raw"]));
    assert!(!entry.is_dirty());
}
