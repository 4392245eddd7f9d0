use c41_ui::tags::{
    delete_tag_label, delete_tag_question, flatten_tag_tree, own_segment, rename_failure_line,
    rename_failure_message, respliced_tag_path, tag_chips, TagTreeRow,
};

fn t(id: u32, name: &str, count: i64) -> (u32, String, i64) {
    (id, name.to_string(), count)
}

#[test]
fn rename_failure_message_flags_the_clash_only_for_constraint_violations() {
    let dup = rusqlite::Error::SqliteFailure(rusqlite::ffi::Error::new(19), None);
    let msg = rename_failure_message(&dup, "places|Italy");
    assert!(msg.contains("clash"), "{msg}");
    assert!(msg.contains("places|Italy"), "{msg}");
    let other = rusqlite::Error::QueryReturnedNoRows;
    let msg = rename_failure_message(&other, "places|Italy");
    assert!(!msg.contains("clash"), "{msg}");
    assert!(msg.contains("could not be renamed"), "{msg}");
    assert!(msg.contains("places|Italy"), "{msg}");
}

#[test]
fn a_rename_fails_with_one_of_two_lines() {
    let busy = rusqlite::Error::SqliteFailure(rusqlite::ffi::Error::new(5), None);
    assert_eq!(rename_failure_message(&busy, "a"), rename_failure_line(false, "a"));
    let unique = rusqlite::Error::SqliteFailure(rusqlite::ffi::Error::new(2067), None);
    assert_eq!(rename_failure_message(&unique, "a"), rename_failure_line(true, "a"));
    assert_eq!(
        rename_failure_line(true, "a|b"),
        "Renaming to \u{201c}a|b\u{201d} would clash with an existing tag. Nothing was renamed."
    );
    assert_eq!(
        rename_failure_line(false, "a|b"),
        "The tag could not be renamed to \u{201c}a|b\u{201d}."
    );
}

#[test]
fn resplice_rewrites_last_segment_keeping_parent() {
    assert_eq!(respliced_tag_path("places|Italy", "Italia").as_deref(), Some("places|Italia"));
    assert_eq!(respliced_tag_path("a|b|c", "z").as_deref(), Some("a|b|z"));
}

#[test]
fn resplice_top_level_tag_has_no_parent() {
    assert_eq!(respliced_tag_path("landscape", "scenery").as_deref(), Some("scenery"));
}

#[test]
fn resplice_is_noop_when_blank_or_unchanged() {
    assert_eq!(respliced_tag_path("places|Italy", "Italy"), None);
    assert_eq!(respliced_tag_path("places|Italy", "   "), None);
    assert_eq!(respliced_tag_path("places|Italy", ""), None);
    assert_eq!(respliced_tag_path("places|Italy", "  Italy  "), None);
}

#[test]
fn resplice_trims_input() {
    assert_eq!(
        respliced_tag_path("places|Italy", "  Italia  ").as_deref(),
        Some("places|Italia")
    );
}

#[test]
fn resplice_rejects_pipe_in_segment() {
    assert_eq!(respliced_tag_path("places|Italy", "Italy|north"), None);
    assert_eq!(respliced_tag_path("places|Italy", "a|b"), None);
    assert_eq!(respliced_tag_path("landscape", "a|b"), None);
}

#[test]
fn flatten_flat_tags_are_depth_zero_reals() {
    let rows = flatten_tag_tree(&[t(1, "landscape", 4), t(2, "portrait", 2)]);
    assert_eq!(rows.len(), 2);
    assert_eq!(
        rows[0],
        TagTreeRow {
            depth: 0,
            label: "landscape".into(),
            full_name: "landscape".into(),
            id: Some(1),
            count: 4
        }
    );
    assert_eq!(
        rows[1],
        TagTreeRow {
            depth: 0,
            label: "portrait".into(),
            full_name: "portrait".into(),
            id: Some(2),
            count: 2
        }
    );
}

#[test]
fn flatten_synthesises_virtual_parent() {
    let rows = flatten_tag_tree(&[t(7, "places|Italy", 3)]);
    assert_eq!(rows.len(), 2);
    assert_eq!(
        rows[0],
        TagTreeRow {
            depth: 0,
            label: "places".into(),
            full_name: "places".into(),
            id: None,
            count: 0
        }
    );
    assert_eq!(
        rows[1],
        TagTreeRow {
            depth: 1,
            label: "Italy".into(),
            full_name: "places|Italy".into(),
            id: Some(7),
            count: 3
        }
    );
}

#[test]
fn flatten_real_parent_keeps_its_id_and_count() {
    let rows = flatten_tag_tree(&[t(1, "places", 5), t(2, "places|Italy", 3)]);
    assert_eq!(
        rows[0],
        TagTreeRow {
            depth: 0,
            label: "places".into(),
            full_name: "places".into(),
            id: Some(1),
            count: 5
        }
    );
    assert_eq!(
        rows[1],
        TagTreeRow {
            depth: 1,
            label: "Italy".into(),
            full_name: "places|Italy".into(),
            id: Some(2),
            count: 3
        }
    );
}

#[test]
fn flatten_orders_children_alphabetically_per_level() {
    let rows = flatten_tag_tree(&[t(3, "b", 1), t(1, "a|z", 1), t(2, "a|m", 1)]);
    let shape: Vec<(usize, &str)> = rows.iter().map(|r| (r.depth, r.label.as_str())).collect();
    assert_eq!(shape, vec![(0, "a"), (1, "m"), (1, "z"), (0, "b")]);
}

#[test]
fn flatten_handles_three_levels() {
    let rows = flatten_tag_tree(&[t(1, "a|b|c", 9)]);
    let shape: Vec<(usize, &str, Option<u32>)> =
        rows.iter().map(|r| (r.depth, r.label.as_str(), r.id)).collect();
    assert_eq!(shape, vec![(0, "a", None), (1, "b", None), (2, "c", Some(1))]);
}

#[test]
fn flatten_collapses_trailing_separator() {
    let rows = flatten_tag_tree(&[t(1, "a|", 2)]);
    assert_eq!(
        rows,
        vec![TagTreeRow {
            depth: 0,
            label: "a".into(),
            full_name: "a".into(),
            id: Some(1),
            count: 2
        }]
    );
}

#[test]
fn flatten_collapses_double_and_leading_separator() {
    let rows = flatten_tag_tree(&[t(1, "a||b", 1), t(2, "|c", 1)]);
    let shape: Vec<(usize, &str, Option<u32>)> =
        rows.iter().map(|r| (r.depth, r.label.as_str(), r.id)).collect();
    assert_eq!(shape, vec![(0, "a", None), (1, "b", Some(1)), (0, "c", Some(2))]);
}

#[test]
fn flatten_drops_all_separator_name() {
    assert!(flatten_tag_tree(&[t(1, "|", 1), t(2, "", 1)]).is_empty());
}

#[test]
fn the_last_of_two_tags_with_one_path_stands() {
    let rows = flatten_tag_tree(&[t(1, "a", 1), t(2, "a|", 5)]);
    assert_eq!(rows.len(), 1);
    assert_eq!((rows[0].id, rows[0].count), (Some(2), 5));
}

#[test]
fn a_menu_edits_the_own_segment() {
    assert_eq!(own_segment("places|Italy|Rome"), "Rome");
    assert_eq!(own_segment("places"), "places");
    assert_eq!(own_segment("places|"), "");
}

#[test]
fn deleting_says_how_many_images_it_touches() {
    assert_eq!(delete_tag_label(1), "Delete (from 1 image)");
    assert_eq!(delete_tag_label(0), "Delete (from 0 images)");
    assert_eq!(
        delete_tag_question("a", 2),
        "\u{201c}a\u{201d} will be removed from 2 images. This cannot be undone."
    );
}

#[test]
fn a_tag_without_a_name_is_no_chip() {
    let names = vec![Some("a".to_string()), None, Some("c".to_string())];
    assert_eq!(
        tag_chips(&vec![1, 2, 3], &names),
        vec![(1, "a".to_string()), (3, "c".to_string())]
    );
}
