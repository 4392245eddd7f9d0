use c41_ui::tether::{
    format_import_status, format_watch_path, is_watch_candidate, listing_status, new_files,
    press_lines, watch_candidates, Listing, Press, WatchState, TETHER_NO_CAMERA_TEXT, TETHER_PAGE_TAG,
    WATCH_INTERVAL_SECS,
};

fn list(items: &[&str]) -> Vec<String> {
    items.iter().map(|s| s.to_string()).collect()
}

#[test]
fn tether_tag_is_slash_free() {
    assert!(!TETHER_PAGE_TAG.contains('/'), "tag {TETHER_PAGE_TAG:?}");
}

#[test]
fn no_camera_line_is_exact() {
    assert_eq!(
        TETHER_NO_CAMERA_TEXT,
        "No camera detected — live capture needs libgphoto2, which this build does not ship"
    );
}

#[test]
fn watch_path_names_the_folder_or_none() {
    assert_eq!(format_watch_path(None), "Watch folder: none");
    assert_eq!(format_watch_path(Some("")), "Watch folder: none");
    assert_eq!(format_watch_path(Some("/photos/incoming")), "Watch folder: /photos/incoming");
}

#[test]
fn new_files_returns_only_unknown_sorted() {
    let known = list(&["/w/b.dng", "/w/c.dng"]);
    let current = list(&["/w/c.dng", "/w/a.dng", "/w/b.dng"]);
    assert_eq!(new_files(&known, &current), vec!["/w/a.dng".to_string()]);
}

#[test]
fn new_files_empty_known_treats_all_as_new() {
    let current = list(&["/w/b.dng", "/w/a.dng"]);
    assert_eq!(
        new_files(&Vec::new(), &current),
        vec!["/w/a.dng".to_string(), "/w/b.dng".to_string()]
    );
}

#[test]
fn new_files_all_known_is_empty() {
    let known = list(&["/w/a.dng"]);
    assert!(new_files(&known, &list(&["/w/a.dng"])).is_empty());
}

#[test]
fn import_status_names_the_count_or_the_quiet() {
    assert_eq!(format_import_status(0), "No new images");
    assert_eq!(format_import_status(1), "1 new image(s) imported");
    assert_eq!(format_import_status(4), "4 new image(s) imported");
}

#[test]
fn watch_candidates_match_the_importer_list() {
    let extensions = ["jpg", "jpeg", "dng", "nef", "cr2"];
    for ext in extensions {
        for name in [format!("img.{ext}"), format!("IMG.{}", ext.to_ascii_uppercase())] {
            assert!(is_watch_candidate(&name, &extensions), "{name} should be a watch candidate");
        }
    }
    for name in ["notes.txt", "edit.xmp", "noext", "", "img.jpeeg"] {
        assert!(!is_watch_candidate(name, &extensions), "{name} must not be a watch candidate");
    }
}

#[test]
fn a_listing_keeps_its_images_in_order() {
    let listing = list(&["/w/a.dng", "/w/notes.txt", "/w/B.NEF", "/w/.dng"]);
    assert_eq!(watch_candidates(&listing, &["dng", "nef"]), list(&["/w/a.dng", "/w/B.NEF"]));
}

#[test]
fn watch_interval_is_a_sane_poll() {
    assert_eq!(WATCH_INTERVAL_SECS, 5);
}

#[test]
fn a_watch_takes_every_file_once() {
    let mut w = WatchState::new();
    assert_eq!(w.press(), Press::NoFolder);
    assert!(!w.choose_folder("/w".to_string()));
    assert_eq!(w.press(), Press::Started { arm: true });
    assert_eq!(w.begin_scan().as_deref(), Some("/w"));
    assert_eq!(w.begin_scan(), None, "one scan at a time");
    let files = list(&["/w/a.dng", "/w/b.dng"]);
    assert_eq!(w.listed(&files, true), Listing::Import { fresh: 2 });
    assert!(w.busy, "the import is under way");
    assert_eq!(w.imported(2, true), ("2 new image(s) imported".to_string(), true));
    assert!(w.tick());
    assert!(w.begin_scan().is_some());
    assert_eq!(w.listed(&files, true), Listing::Quiet);
    assert!(!w.busy);
    assert!(w.begin_scan().is_some());
    let more = list(&["/w/a.dng", "/w/b.dng", "/w/c.dng"]);
    assert_eq!(w.listed(&more, true), Listing::Import { fresh: 1 });
    assert_eq!(
        w.imported(1, false),
        ("Watch error: import failed — see log".to_string(), false)
    );
    assert!(w.begin_scan().is_some());
    assert_eq!(w.listed(&more, false), Listing::Unavailable);
    assert_eq!(w.press(), Press::Stopped);
    assert!(!w.tick());
    assert_eq!(w.begin_scan(), None);
    assert_eq!(w.press(), Press::Started { arm: true });
    assert!(w.known.is_empty(), "a new start takes the folder anew");
}

#[test]
fn a_hidden_page_does_not_scan() {
    let mut w = WatchState::new();
    w.choose_folder("/w".to_string());
    w.press();
    w.unmapped();
    assert_eq!(w.begin_scan(), None);
    assert!(!w.tick());
    assert!(w.mapped(), "the timer is started again");
    assert!(w.begin_scan().is_some());
    assert!(w.choose_folder("/v".to_string()), "a running watch announces a scan");
}

#[test]
fn a_page_that_is_shown_again_soon_keeps_its_timer() {
    let mut w = WatchState::new();
    w.choose_folder("/w".to_string());
    w.press();
    w.unmapped();
    assert!(!w.mapped(), "the timer still runs");
    assert!(w.tick());
    assert_eq!(w.begin_scan().as_deref(), Some("/w"));
}

#[test]
fn what_one_scan_takes_the_next_leaves() {
    let mut w = WatchState::new();
    w.choose_folder("/w".to_string());
    w.press();
    let files = vec!["/w/a.jpg".to_string(), "/w/b.nef".to_string()];
    w.begin_scan();
    assert_eq!(w.listed(&files, true), Listing::Import { fresh: 2 });
    w.imported(2, true);
    w.begin_scan();
    assert_eq!(w.listed(&files, true), Listing::Quiet);
}

#[test]
fn a_scan_ends_with_a_line() {
    assert_eq!(listing_status(Listing::Quiet).as_deref(), Some("No new images"));
    assert_eq!(listing_status(Listing::Unavailable).as_deref(), Some("Watch folder unavailable"));
    assert_eq!(listing_status(Listing::Import { fresh: 3 }), None);
}

#[test]
fn the_watch_button_says_what_it_did() {
    assert_eq!(press_lines(Press::Stopped), (Some("Start watching"), "Not watching"));
    assert_eq!(press_lines(Press::NoFolder), (None, "Choose a watch folder first"));
    assert_eq!(
        press_lines(Press::Started { arm: false }),
        (Some("Stop watching"), "Watching — scanning…")
    );
}
