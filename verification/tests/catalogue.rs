use c41_ui::catalogue::{
    discard_history, imgid_for_path, load_demosaic, load_edit_state, load_geometry, load_history,
    load_lens, load_params, load_saved, load_ui_pref, save_demosaic, save_geometry, save_history,
    save_lens, save_params, save_ui_pref, Catalogue, ImageRow, LensChoice,
};
use c41_ui::float32::F32;
use c41_ui::params::PreviewParams;

fn num(x: f32) -> F32 {
    F32::from_bits(x.to_bits())
}

fn image(id: i32, folder: &str, filename: &str) -> ImageRow {
    ImageRow { id, folder: folder.to_string(), filename: filename.to_string() }
}

fn open_db() -> Catalogue {
    let mut db = Catalogue::new(true);
    db.images.push(image(42, "/photos", "img.jpg"));
    db.images.push(image(99, "/photos", "other.jpg"));
    db
}

const IMG: &str = "/photos/img.jpg";
const OTHER: &str = "/photos/other.jpg";

fn sample_params() -> PreviewParams {
    let mut p = PreviewParams::default();
    p.ev = num(-0.75);
    p.velvia_on = true;
    p.velvia_strength = num(33.0);
    p.mono_on = true;
    p.mono_r = num(0.4);
    p
}

#[test]
fn imgid_resolves_from_path() {
    let db = open_db();
    assert_eq!(imgid_for_path(&db, "/photos/img.jpg"), Some(42));
    assert_eq!(imgid_for_path(&db, "/photos/missing.jpg"), None);
    assert_eq!(imgid_for_path(&db, "/elsewhere/img.jpg"), None);
}

#[test]
fn the_least_id_wins_among_rows_of_one_path() {
    let mut db = Catalogue::new(true);
    db.images.push(image(9, "/p", "a.raw"));
    db.images.push(image(3, "/p", "a.raw"));
    db.images.push(image(5, "/p", "a.raw"));
    assert_eq!(imgid_for_path(&db, "/p/a.raw"), Some(3));
}

#[test]
fn a_path_without_a_file_name_names_no_image() {
    let mut db = Catalogue::new(true);
    db.images.push(image(1, "/", "a.raw"));
    db.images.push(image(2, "", "b.raw"));
    assert_eq!(imgid_for_path(&db, "/a.raw"), Some(1));
    assert_eq!(imgid_for_path(&db, "b.raw"), Some(2));
    assert_eq!(imgid_for_path(&db, "/"), None);
    assert_eq!(imgid_for_path(&db, ""), None);
    assert_eq!(imgid_for_path(&db, "/photos/.."), None);
}

#[test]
fn a_catalogue_that_is_not_open_knows_nothing() {
    let mut db = open_db();
    db.open = false;
    assert_eq!(imgid_for_path(&db, IMG), None);
    save_params(&mut db, IMG, &sample_params());
    save_ui_pref(&mut db, "k", "v");
    assert_eq!(db.params.len(), 0);
    assert_eq!(db.prefs.len(), 0);
    assert_eq!(load_saved(&db, IMG), None);
    assert_eq!(load_ui_pref(&db, "k"), None);
}

#[test]
fn ui_pref_missing_table_reads_none_then_save_creates_and_upserts() {
    let mut db = open_db();
    assert_eq!(load_ui_pref(&db, "rating_filter"), None);
    save_ui_pref(&mut db, "rating_filter", "ge:3");
    assert_eq!(load_ui_pref(&db, "rating_filter").as_deref(), Some("ge:3"));
    save_ui_pref(&mut db, "rating_filter", "rej");
    assert_eq!(load_ui_pref(&db, "rating_filter").as_deref(), Some("rej"));
    assert_eq!(db.prefs.len(), 1, "upsert must not accumulate rows");
    assert_eq!(load_ui_pref(&db, "no_such_key"), None);
}

#[test]
fn save_then_load_roundtrips() {
    let mut db = open_db();
    let p = sample_params();
    save_params(&mut db, IMG, &p);
    assert_eq!(load_saved(&db, IMG), Some(p));
}

#[test]
fn load_saved_is_none_when_table_absent_or_no_row() {
    let mut db = open_db();
    assert_eq!(load_saved(&db, IMG), None);
    save_params(&mut db, OTHER, &sample_params());
    assert_eq!(load_saved(&db, IMG), None);
    assert_eq!(load_params(&db, IMG), PreviewParams::default());
}

#[test]
fn save_upserts_single_row() {
    let mut db = open_db();
    save_params(&mut db, IMG, &sample_params());
    let mut p2 = PreviewParams::default();
    p2.ev = num(1.5);
    save_params(&mut db, IMG, &p2);
    assert_eq!(db.params.len(), 1);
    assert_eq!(load_saved(&db, IMG), Some(p2));
}

#[test]
fn saving_one_image_leaves_the_others() {
    let mut db = open_db();
    save_params(&mut db, OTHER, &sample_params());
    save_params(&mut db, IMG, &PreviewParams::default());
    assert_eq!(load_saved(&db, OTHER), Some(sample_params()));
    save_params(&mut db, "/photos/never-seen.jpg", &PreviewParams::default());
    assert_eq!(db.params.len(), 2);
}

#[test]
fn an_edit_that_does_not_decode_is_none() {
    let mut db = open_db();
    db.params.put(42, vec![0u8, 1, 2, 3]);
    assert_eq!(load_saved(&db, IMG), None);
    assert_eq!(load_params(&db, IMG), PreviewParams::default());
}

#[test]
fn demosaic_save_then_load_roundtrips() {
    let mut db = open_db();
    save_demosaic(&mut db, IMG, 1);
    assert_eq!(load_demosaic(&db, IMG), Some(1));
    save_demosaic(&mut db, IMG, 2);
    assert_eq!(db.demosaic.len(), 1);
    assert_eq!(load_demosaic(&db, IMG), Some(2));
}

#[test]
fn demosaic_load_defaults_when_table_absent_or_no_row() {
    let mut db = open_db();
    assert_eq!(load_demosaic(&db, IMG), None);
    save_demosaic(&mut db, OTHER, 1);
    assert_eq!(load_demosaic(&db, IMG), None);
}

#[test]
fn geometry_save_then_load_roundtrips() {
    let mut db = open_db();
    save_geometry(&mut db, IMG, &vec![1u8, 2, 3]);
    assert_eq!(load_geometry(&db, IMG), Some(vec![1u8, 2, 3]));
    save_geometry(&mut db, IMG, &vec![4u8]);
    assert_eq!(db.geometry.len(), 1);
    assert_eq!(load_geometry(&db, IMG), Some(vec![4u8]));
}

#[test]
fn geometry_load_is_none_when_table_absent_or_no_row() {
    let mut db = open_db();
    assert_eq!(load_geometry(&db, IMG), None);
    save_geometry(&mut db, OTHER, &vec![1u8]);
    assert_eq!(load_geometry(&db, IMG), None);
}

#[test]
fn history_save_then_load_roundtrips() {
    let mut db = open_db();
    let stack = vec![7u8, 0, 255, 3];
    save_history(&mut db, IMG, &stack);
    assert_eq!(load_history(&db, IMG), Some(stack));
}

#[test]
fn history_load_is_none_when_table_absent_or_no_row() {
    let mut db = open_db();
    assert!(load_history(&db, IMG).is_none());
    save_history(&mut db, OTHER, &vec![1u8]);
    assert!(load_history(&db, IMG).is_none());
}

#[test]
fn history_save_upserts_single_row() {
    let mut db = open_db();
    save_history(&mut db, IMG, &vec![1u8, 2, 3]);
    save_history(&mut db, IMG, &vec![1u8]);
    assert_eq!(db.history.len(), 1);
    assert_eq!(load_history(&db, IMG).map(|h| h.len()), Some(1));
}

#[test]
fn discard_history_clears_both_rows() {
    let mut db = open_db();
    save_params(&mut db, IMG, &PreviewParams { ev: num(1.5), ..Default::default() });
    save_history(&mut db, IMG, &vec![1u8, 2]);
    save_params(&mut db, OTHER, &sample_params());
    assert!(load_saved(&db, IMG).is_some());
    assert!(load_history(&db, IMG).is_some());
    discard_history(&mut db, IMG);
    assert!(load_saved(&db, IMG).is_none(), "params row must go");
    assert!(load_history(&db, IMG).is_none(), "history row must go");
    assert_eq!(load_saved(&db, OTHER), Some(sample_params()));
}

#[test]
fn discard_is_a_noop_for_uncatalogued_images() {
    let mut db = Catalogue::new(true);
    discard_history(&mut db, "/photos/never-seen.raw");
    assert!(load_saved(&db, "/photos/never-seen.raw").is_none());
    assert!(load_history(&db, "/photos/never-seen.raw").is_none());
}

#[test]
fn lens_choice_is_empty_without_camera_and_lens() {
    let mut choice = LensChoice::default();
    assert!(choice.is_empty());
    assert!(!choice.names_a_lens());
    choice.camera_maker = "Canon".to_string();
    choice.lens_maker = "Canon".to_string();
    assert!(choice.is_empty(), "makers alone choose nothing");
    choice.camera_model = "EOS 5D".to_string();
    assert!(!choice.is_empty());
    assert!(!choice.names_a_lens());
    choice.lens_model = "EF 50mm".to_string();
    assert!(choice.names_a_lens());
}

#[test]
fn gear_is_kept_per_image() {
    let mut db = open_db();
    assert!(load_lens(&db, IMG).is_empty());
    let choice = LensChoice {
        camera_maker: "Olympus".to_string(),
        camera_model: "E-M10".to_string(),
        lens_maker: "Olympus".to_string(),
        lens_model: "45mm".to_string(),
    };
    save_lens(&mut db, IMG, &choice);
    assert_eq!(load_lens(&db, IMG), choice);
    assert!(load_lens(&db, OTHER).is_empty());
    save_lens(&mut db, IMG, &LensChoice::default());
    assert!(load_lens(&db, IMG).is_empty());
    assert_eq!(db.lens.len(), 1);
}

#[test]
fn demosaic_codes_are_bytes() {
    let mut db = open_db();
    db.demosaic.put(42, 77);
    assert_eq!(load_demosaic(&db, IMG), Some(77));
}

#[test]
fn demosaic_unknown_stored_code_decodes_to_default() {
    let mut db = open_db();
    db.demosaic.put(42, 258);
    assert_eq!(load_demosaic(&db, IMG), None);
    db.demosaic.put(42, -1);
    assert_eq!(load_demosaic(&db, IMG), None);
}

#[test]
fn an_edit_is_loaded_with_its_crop_and_demosaic() {
    let mut db = open_db();
    assert_eq!(load_edit_state(&db, IMG), (None, None, None));
    save_params(&mut db, IMG, &sample_params());
    save_geometry(&mut db, IMG, &vec![6u8]);
    save_demosaic(&mut db, IMG, 1);
    assert_eq!(load_edit_state(&db, IMG), (Some(sample_params()), Some(vec![6u8]), Some(1)));
}
