use c41_ui::catalogue::{Catalogue, ImageRow};
use c41_ui::metadata::MetaField::{Creator, Description, Publisher, Rights, Title};
use c41_ui::metadata::{
    field_write, load_metadata, save_metadata, save_metadata_many, try_load_metadata, MetaField,
    MetaRow,
};

const IMG: &str = "/photos/a.raw";

fn catalogued_db() -> Catalogue {
    let mut db = Catalogue::new(true);
    db.images.push(ImageRow {
        id: 7,
        folder: "/photos".to_string(),
        filename: "a.raw".to_string(),
    });
    db
}

fn add_image(db: &mut Catalogue, id: i32, filename: &str) {
    db.images.push(ImageRow {
        id,
        folder: "/photos".to_string(),
        filename: filename.to_string(),
    });
}

fn count(db: &Catalogue, id: i32, key: i32) -> usize {
    db.metadata.iter().filter(|r| r.id == id && r.key == key).count()
}

#[test]
fn key_ids_match_darktable() {
    assert_eq!(MetaField::Creator.key(), 0);
    assert_eq!(MetaField::Publisher.key(), 1);
    assert_eq!(MetaField::Title.key(), 2);
    assert_eq!(MetaField::Description.key(), 3);
    assert_eq!(MetaField::Rights.key(), 4);
}

#[test]
fn all_is_in_darktable_display_order() {
    assert_eq!(MetaField::ALL, [Title, Description, Creator, Publisher, Rights]);
}

#[test]
fn fields_are_labelled() {
    let labels: Vec<&str> = MetaField::ALL.iter().map(|f| f.label()).collect();
    assert_eq!(labels, vec!["Title", "Description", "Creator", "Publisher", "Rights"]);
}

#[test]
fn round_trips_and_reads_absent_fields_as_blank() {
    let mut db = catalogued_db();
    assert!(save_metadata(&mut db, IMG, &[(MetaField::Title, "Sunset".into())], true));
    let got = load_metadata(&db, IMG);
    assert_eq!(got.len(), 5, "all five fields are always returned");
    assert_eq!(got[0], (MetaField::Title, "Sunset".to_string()));
    assert!(got[1..].iter().all(|(_, v)| v.is_empty()), "{got:?}");
}

#[test]
fn writing_one_field_leaves_the_others_alone() {
    let mut db = catalogued_db();
    assert!(save_metadata(
        &mut db,
        IMG,
        &[(MetaField::Title, "T".into()), (MetaField::Creator, "C".into())],
        true
    ));
    assert!(save_metadata(&mut db, IMG, &[(MetaField::Title, "T2".into())], true));
    let got = load_metadata(&db, IMG);
    let creator = got.iter().find(|(f, _)| *f == MetaField::Creator).unwrap();
    assert_eq!(creator.1, "C", "editing the title blanked the creator");
    assert_eq!(got[0].1, "T2");
}

#[test]
fn rewrite_replaces_rather_than_duplicating() {
    let mut db = catalogued_db();
    save_metadata(&mut db, IMG, &[(MetaField::Title, "first".into())], true);
    save_metadata(&mut db, IMG, &[(MetaField::Title, "second".into())], true);
    assert_eq!(count(&db, 7, 2), 1, "rewrite duplicated the row instead of replacing it");
    assert_eq!(load_metadata(&db, IMG)[0].1, "second");
}

#[test]
fn blank_value_deletes_the_row() {
    let mut db = catalogued_db();
    save_metadata(&mut db, IMG, &[(MetaField::Rights, "CC-BY".into())], true);
    assert_eq!(count(&db, 7, 4), 1);
    save_metadata(&mut db, IMG, &[(MetaField::Rights, "   ".into())], true);
    assert_eq!(count(&db, 7, 4), 0, "a blank value should delete, not store an empty string");
}

#[test]
fn only_spaces_are_trimmed_from_a_value() {
    let mut db = catalogued_db();
    save_metadata(&mut db, IMG, &[(MetaField::Title, "  a title \t".into())], true);
    assert_eq!(load_metadata(&db, IMG)[0].1, "a title \t");
    save_metadata(&mut db, IMG, &[(MetaField::Title, "\t".into())], true);
    assert_eq!(load_metadata(&db, IMG)[0].1, "\t", "a tab is a value");
}

#[test]
fn uncatalogued_image_is_reported_not_silently_dropped() {
    let mut db = catalogued_db();
    assert!(!save_metadata(&mut db, "/photos/missing.raw", &[(MetaField::Title, "x".into())], true));
    assert!(load_metadata(&db, "/photos/missing.raw").is_empty());
    assert!(try_load_metadata(&db, "/photos/missing.raw").is_none());
    assert_eq!(try_load_metadata(&db, IMG).map(|m| m.len()), Some(5));
}

#[test]
fn save_many_fans_out_and_reports_skips_by_absence() {
    let mut db = catalogued_db();
    add_image(&mut db, 8, "b.raw");
    add_image(&mut db, 9, "c.raw");
    let targets = vec![
        IMG.to_string(),
        "/photos/b.raw".to_string(),
        "/photos/gone.raw".to_string(),
        "/photos/c.raw".to_string(),
    ];
    let written =
        save_metadata_many(&mut db, &targets, &[(MetaField::Title, "batch".into())], &[true; 4]);
    assert_eq!(
        written,
        vec![IMG.to_string(), "/photos/b.raw".to_string(), "/photos/c.raw".to_string()],
        "the uncatalogued path is reported by absence, in input order"
    );
    for path in [IMG, "/photos/b.raw", "/photos/c.raw"] {
        let meta = load_metadata(&db, path);
        let title = meta
            .iter()
            .find(|(f, _)| *f == MetaField::Title)
            .map(|(_, v)| v.as_str())
            .unwrap_or("");
        assert_eq!(title, "batch", "{path} missed the fan-out");
    }
}

#[test]
fn save_metadata_is_save_many_on_a_single_path() {
    let mut db = catalogued_db();
    assert!(save_metadata(&mut db, IMG, &[(MetaField::Creator, "Ansel".into())], true));
    assert_eq!(
        save_metadata_many(
            &mut db,
            &[IMG.to_string()],
            &[(MetaField::Creator, "Ansel".into())],
            &[true]
        ),
        vec![IMG.to_string()]
    );
    let creator = load_metadata(&db, IMG)
        .iter()
        .find(|(f, _)| *f == MetaField::Creator)
        .map(|(_, v)| v.clone())
        .unwrap();
    assert_eq!(creator, "Ansel");
}

#[test]
fn duplicate_rows_yield_a_stored_value_and_are_healed_by_a_write() {
    let mut db = catalogued_db();
    db.metadata.push(MetaRow { id: 7, key: 2, value: "older".to_string() });
    db.metadata.push(MetaRow { id: 7, key: 2, value: "newer".to_string() });
    let got = load_metadata(&db, IMG)[0].1.clone();
    assert!(got == "older" || got == "newer", "duplicate read back as {got:?}");
    assert!(save_metadata(&mut db, IMG, &[(MetaField::Title, "single".into())], true));
    assert_eq!(count(&db, 7, 2), 1, "a write should collapse legacy duplicates to one row");
    assert_eq!(load_metadata(&db, IMG)[0].1, "single");
}

#[test]
fn nothing_is_written_without_fields_or_catalogue() {
    let mut db = catalogued_db();
    assert!(!save_metadata(&mut db, IMG, &[], true));
    assert!(save_metadata_many(&mut db, &[IMG.to_string()], &[], &[true]).is_empty());
    db.open = false;
    assert!(!save_metadata(&mut db, IMG, &[(MetaField::Title, "x".into())], true));
    assert!(db.metadata.is_empty());
    assert!(load_metadata(&db, IMG).is_empty());
}

#[test]
fn a_failed_write_leaves_out_its_own_path_alone() {
    let mut db = catalogued_db();
    add_image(&mut db, 8, "b.raw");
    add_image(&mut db, 9, "c.raw");
    save_metadata(&mut db, "/photos/b.raw", &[(MetaField::Title, "kept".into())], true);
    let targets =
        vec![IMG.to_string(), "/photos/b.raw".to_string(), "/photos/c.raw".to_string()];
    let fields = [(MetaField::Title, "batch".to_string())];
    let written = save_metadata_many(&mut db, &targets, &fields, &[true, false, true]);
    assert_eq!(written, vec![IMG.to_string(), "/photos/c.raw".to_string()]);
    assert_eq!(load_metadata(&db, IMG)[0].1, "batch");
    assert_eq!(load_metadata(&db, "/photos/b.raw")[0].1, "kept");
    assert_eq!(load_metadata(&db, "/photos/c.raw")[0].1, "batch");
    assert!(!save_metadata(&mut db, IMG, &fields, false));
}

#[test]
fn a_read_that_failed_is_not_five_blank_fields() {
    let mut db = catalogued_db();
    assert_eq!(try_load_metadata(&db, IMG).map(|m| m.len()), Some(5));
    db.metadata_read = false;
    assert!(try_load_metadata(&db, IMG).is_none());
    assert!(load_metadata(&db, IMG).is_empty());
}

#[test]
fn a_field_is_written_trimmed_or_not_at_all() {
    assert_eq!(field_write(MetaField::Creator, "  Ansel "), (0, Some("Ansel".to_string())));
    assert_eq!(field_write(MetaField::Rights, "   "), (4, None));
}
