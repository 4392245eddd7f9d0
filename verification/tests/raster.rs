use c41_ui::raster::{
    compute_histogram, gather_colour, has_image, pack_rgb24, sample_pixel, scatter_colour,
};

#[test]
fn histogram_counts_per_channel_and_respects_rowstride() {
    let buf = vec![10u8, 20, 30, 10, 40, 30, 0xFF, 0xFF];
    let h = compute_histogram(&buf, 2, 1, 8, 3);
    assert_eq!(h[0][10], 2);
    assert_eq!(h[1][20], 1);
    assert_eq!(h[1][40], 1);
    assert_eq!(h[2][30], 2);
    for c in 0..3 {
        assert_eq!(h[c].iter().sum::<u32>(), 2);
    }
    assert_eq!(h[0][0xFF], 0);
}

#[test]
fn histogram_degenerate_input_is_empty() {
    assert_eq!(compute_histogram(&[], 0, 0, 0, 0), [[0u32; 256]; 3]);
}

#[test]
fn greyscale_counts_into_all_three_bins() {
    let h = compute_histogram(&[7u8, 7, 9, 0], 3, 1, 4, 1);
    for c in 0..3 {
        assert_eq!((h[c][7], h[c][9], h[c][0]), (2, 1, 0));
    }
}

#[test]
fn pack_rgb24_swaps_channels_and_handles_greyscale() {
    let src = vec![10u8, 20, 30, 40, 50, 60];
    let out = pack_rgb24(&src, 2, 1, 6, 3, 8);
    assert_eq!(&out[0..4], &[30, 20, 10, 0xff]);
    assert_eq!(&out[4..8], &[60, 50, 40, 0xff]);
    let rgba = vec![1u8, 2, 3, 99];
    assert_eq!(&pack_rgb24(&rgba, 1, 1, 4, 4, 4)[0..4], &[3, 2, 1, 0xff]);
    assert_eq!(&pack_rgb24(&[77u8], 1, 1, 1, 1, 4)[0..4], &[77, 77, 77, 0xff]);
    let short = vec![5u8, 6, 7];
    let ot = pack_rgb24(&short, 2, 1, 6, 3, 8);
    assert_eq!(&ot[0..4], &[7, 6, 5, 0xff]);
    assert_eq!(&ot[4..8], &[0, 0, 0, 0]);
    assert_eq!(pack_rgb24(&[], 1, 1, 0, 0, 4), vec![0u8; 4]);
}

#[test]
fn sample_pixel_reads_rgb_and_bounds_check() {
    let buf = vec![10u8, 20, 30, 40, 50, 60, 0xFF, 0xFF];
    assert_eq!(sample_pixel(&buf, 2, 1, 8, 3, 0, 0), Some((10, 20, 30)));
    assert_eq!(sample_pixel(&buf, 2, 1, 8, 3, 1, 0), Some((40, 50, 60)));
    assert_eq!(sample_pixel(&buf, 2, 1, 8, 3, 2, 0), None);
    let g = vec![77u8, 88];
    assert_eq!(sample_pixel(&g, 2, 1, 2, 1, 0, 0), Some((77, 77, 77)));
}

#[test]
fn an_image_is_held_up_to_its_last_pixel() {
    assert!(has_image(11, 2, 2, 5, 3) && !has_image(10, 2, 2, 5, 3));
    assert!(!has_image(10, 0, 2, 5, 3) && !has_image(10, 2, 0, 5, 3) && !has_image(10, 2, 2, 5, 0));
    assert!(!has_image(10, 2, usize::MAX, usize::MAX, 3));
}

#[test]
fn colours_are_taken_out_without_alpha_and_padding() {
    let rgba = vec![1u8, 2, 3, 99, 0xAA, 4, 5, 6, 98, 0xBB];
    assert_eq!(gather_colour(&rgba, 1, 2, 5, 4), vec![1, 2, 3, 4, 5, 6]);
    assert_eq!(gather_colour(&[7u8, 8], 2, 1, 2, 1), vec![7, 7, 7, 8, 8, 8]);
    assert_eq!(gather_colour(&[7u8, 8], 1, 1, 2, 2), vec![7, 8, 8]);
}

#[test]
fn colours_are_put_back_around_alpha_and_padding() {
    let rgba = vec![1u8, 2, 3, 99, 0xAA, 4, 5, 6, 98, 0xBB];
    let out = scatter_colour(&rgba, &[11, 12, 13, 14, 15, 16], 1, 2, 5, 4);
    assert_eq!(out, vec![11, 12, 13, 99, 0xAA, 14, 15, 16, 98, 0xBB]);
    assert_eq!(scatter_colour(&[7u8, 8], &[21, 22, 23, 24, 25, 26], 2, 1, 2, 1), vec![21, 24]);
}

#[test]
fn putting_back_what_was_taken_out_changes_nothing() {
    let buf: Vec<u8> = (0..60).map(|i| (i * 37 % 251) as u8).collect();
    for (w, h, stride, nch) in [(3, 4, 15, 4), (5, 3, 17, 3), (4, 5, 9, 2), (3, 5, 2, 3)] {
        let colours = gather_colour(&buf, w, h, stride, nch);
        assert_eq!(colours.len(), w * h * 3);
        assert_eq!(scatter_colour(&buf, &colours, w, h, stride, nch), buf);
    }
}

#[test]
fn the_last_of_two_overlapping_rows_wins() {
    let out = scatter_colour(&[0u8; 3], &[1, 1, 1, 2, 2, 2, 3, 3, 3], 1, 3, 0, 3);
    assert_eq!(out, vec![3, 3, 3]);
}

#[test]
fn a_two_channel_image_counts_its_last_channel_three_times() {
    let h = compute_histogram(&[77, 88], 1, 1, 2, 2);
    for c in 0..3 {
        assert_eq!(h[c][88], 1);
        assert_eq!(h[c].iter().sum::<u32>(), 1);
    }
}
