use c41_ui::print::{
    decode_status, default_pdf_name, export_message, file_display_name, oriented, page_index,
    request_page, Orientation, PageRequest, PaperSize,
};
use c41_ui::raw_preview::{block_pixel, downscaled_size, is_raw_path, preview_factor, PREVIEW_MAX_DIM};

#[test]
fn paper_dims_and_orientation_are_exact() {
    assert_eq!(oriented(210.0, 297.0, Orientation::Portrait), (210.0, 297.0));
    assert_eq!(oriented(210.0, 297.0, Orientation::Landscape), (297.0, 210.0));
    for (i, p) in PaperSize::ALL.iter().enumerate() {
        assert_eq!(PaperSize::from_index(i as u32), *p);
    }
    assert_eq!(PaperSize::from_index(99), PaperSize::A4);
    assert_eq!(Orientation::from_index(0), Orientation::Portrait);
    assert_eq!(Orientation::from_index(1), Orientation::Landscape);
    assert_eq!(Orientation::from_index(7), Orientation::Portrait);
}

#[test]
fn default_pdf_name_uses_first_stem() {
    assert_eq!(default_pdf_name(&["/a/b/IMG_1234.CR2".to_string()]), "IMG_1234.pdf");
    assert_eq!(default_pdf_name(&[]), "print.pdf");
    assert_eq!(default_pdf_name(&["noext".to_string()]), "noext.pdf");
}

#[test]
fn pages_are_asked_for_once() {
    let paths = vec!["/a/one.jpg".to_string(), "/a/two.jpg".to_string()];
    assert!(matches!(request_page(&paths, &vec![true, false], 0), PageRequest::Redraw));
    match request_page(&paths, &vec![true, false], 1) {
        PageRequest::Decode { status } => assert_eq!(status, "Decoding two.jpg…"),
        other => panic!("unexpected {other:?}"),
    }
    assert!(matches!(request_page(&paths, &vec![true, false], 2), PageRequest::Ignore));
    assert_eq!(page_index(1, 2), 0);
    assert_eq!(page_index(2, 2), 1);
    assert_eq!(page_index(9, 2), 1);
}

#[test]
fn lines_name_the_file_and_the_outcome() {
    assert_eq!(file_display_name("/a/b.jpg"), "b.jpg");
    assert_eq!(file_display_name("/"), "/");
    assert_eq!(decode_status("/a/b.jpg", true), "");
    assert_eq!(decode_status("/a/b.jpg", false), "No preview available for b.jpg");
    assert_eq!(export_message(3, 0, "x.pdf", None), "Exported 3 page(s) to x.pdf");
    assert_eq!(
        export_message(2, 1, "x.pdf", None),
        "Exported 2 of 3 page(s) (1 failed) to x.pdf"
    );
    assert_eq!(export_message(2, 0, "x.pdf", Some("disk full")), "Export failed: disk full");
    assert_eq!(
        export_message(0, 2, "x.pdf", None),
        "Export failed: none of the images could be decoded."
    );
}

#[test]
fn papers_are_labelled() {
    for p in PaperSize::ALL {
        assert!(!p.label().is_empty());
    }
    assert_eq!(PaperSize::A4.label(), "A4 (210 × 297 mm)");
    assert_eq!(Orientation::Portrait.label(), "Portrait");
    assert_eq!(Orientation::Landscape.label(), "Landscape");
}

#[test]
fn is_raw_path_detects_extensions_case_insensitively() {
    assert!(is_raw_path("/a/b/P3080001.ORF"));
    assert!(is_raw_path("shot.cr2"));
    assert!(is_raw_path("x.DnG"));
    assert!(!is_raw_path("photo.jpg"));
    assert!(!is_raw_path("noext"));
}

#[test]
fn downscale_drops_partial_edge_blocks() {
    assert_eq!(downscaled_size(3, 3, 2), (1, 1));
    assert_eq!(downscaled_size(1, 1, 1), (1, 1));
    assert_eq!(downscaled_size(2, 2, 2), (1, 1));
    assert_eq!(downscaled_size(5, 3, 0), (5, 3));
}

#[test]
fn a_preview_fits_its_limit() {
    assert_eq!(preview_factor(2048, 100, PREVIEW_MAX_DIM), 1);
    assert_eq!(preview_factor(2049, 100, PREVIEW_MAX_DIM), 2);
    assert_eq!(preview_factor(100, 6000, PREVIEW_MAX_DIM), 3);
    assert_eq!(preview_factor(0, 0, 0), 1);
    let (w, h) = downscaled_size(8256, 5504, preview_factor(8256, 5504, PREVIEW_MAX_DIM));
    assert!(w <= PREVIEW_MAX_DIM && h <= PREVIEW_MAX_DIM);
}

#[test]
fn blocks_cover_the_image_without_overlap() {
    let (w, h, f) = (7, 5, 2);
    let (ow, oh) = downscaled_size(w, h, f);
    let mut seen = vec![0; w * h];
    for oy in 0..oh {
        for ox in 0..ow {
            for by in 0..f {
                for bx in 0..f {
                    seen[block_pixel(w, h, f, ox, oy, bx, by)] += 1;
                }
            }
        }
    }
    for y in 0..h {
        for x in 0..w {
            let inside = x < ow * f && y < oh * f;
            assert_eq!(seen[y * w + x], if inside { 1 } else { 0 });
        }
    }
    assert_eq!(block_pixel(7, 5, 2, 1, 1, 1, 0), 2 * 7 + 3);
}
