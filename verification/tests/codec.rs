use c41_ui::codec::{
    encoded_len_for_version, ENCODED_LEN, ENCODE_VERSION, PARAMS_LAYOUTS,
};
use c41_ui::float32::F32;
use c41_ui::params::PreviewParams;
use c41_ui::pipeline::{ColorSpace, Stage};

fn num(x: f32) -> F32 {
    F32::from_bits(x.to_bits())
}

fn blob(version: u8, flags: usize, numbers: usize) -> Vec<u8> {
    let mut b = vec![0u8; 1 + flags + numbers * 4];
    b[0] = version;
    b
}

fn populated_params() -> PreviewParams {
    PreviewParams {
        exposure_on: true, black: num(0.05), ev: num(-1.25),
        velvia_on: true, velvia_strength: num(42.0), velvia_bias: num(0.75),
        split_on: true, split_shadow_hue: num(0.1), split_shadow_sat: num(0.6),
        split_highlight_hue: num(0.9), split_highlight_sat: num(0.3),
        split_balance: num(0.4), split_compress: num(60.0),
        mono_on: true, mono_r: num(-0.2), mono_g: num(1.5), mono_b: num(0.33),
        sigmoid_on: true, sigmoid_contrast: num(1.8), sigmoid_skew: num(-0.3),
        sharpen_on: true, sharpen_radius: num(4.0), sharpen_amount: num(1.0), sharpen_threshold: num(0.05),
        vibrance_on: true, vibrance_amount: num(33.0),
        color_contrast_on: true, color_contrast_a_steepness: num(2.0), color_contrast_b_steepness: num(1.5),
        temperature_on: true, temperature_r: num(1.2), temperature_g: num(0.9), temperature_b: num(0.8),
        invert_on: true, invert_r: num(0.9), invert_g: num(0.8), invert_b: num(0.7),
        colorize_on: true, colorize_hue: num(0.1), colorize_sat: num(0.6), colorize_lightness: num(75.0), colorize_lightness_mix: num(50.0),
        color_correction_on: true, color_correction_loa: num(5.0), color_correction_hia: num(10.0),
        color_correction_lob: num(-3.0), color_correction_hib: num(7.0), color_correction_saturation: num(1.5),
        colorzones_on: true, colorzones_strength: num(25.0), colorzones_channel: num(1.0),
        colorzones_mode: num(0.0),
        colorzones_num_nodes: [num(2.0), num(2.0), num(2.0)],
        colorzones_curve_type: [num(1.0), num(1.0), num(1.0)],
        colorzones_curve_x: [[num(0.25), num(0.75), num(0.0), num(0.0), num(0.0), num(0.0), num(0.0), num(0.0)]; 3],
        colorzones_curve_y: [[num(0.5); 8]; 3],
        levels_on: true, levels_black: num(5.0), levels_grey: num(45.0), levels_white: num(95.0),
        vignette_on: true, vignette_scale: num(70.0), vignette_falloff: num(40.0),
        vignette_brightness: num(-0.6), vignette_saturation: num(0.3),
        vignette_center_x: num(-0.2), vignette_center_y: num(0.15), vignette_shape: num(1.4),
        lowlight_on: true, lowlight_blueness: num(30.0),
        lowlight_transition: [num(0.1), num(0.3), num(0.5), num(0.6), num(0.8), num(0.9)],
        gradnd_on: true, gradnd_density: num(-2.5), gradnd_hardness: num(40.0),
        gradnd_rotation: num(-75.0), gradnd_offset: num(35.0),
        gradnd_hue: num(0.6), gradnd_saturation: num(0.4),
        colisa_on: true, colisa_contrast: num(0.3),
        colisa_brightness: num(-0.2), colisa_saturation: num(0.45),
        basicadj_on: true, basicadj_black_point: num(0.02),
        basicadj_exposure: num(1.25), basicadj_hlcompr: num(70.0),
        basicadj_hlcomprthresh: num(30.0), basicadj_contrast: num(0.6),
        basicadj_preserve_colors: num(2.0), basicadj_middle_grey: num(22.5),
        basicadj_brightness: num(-0.4), basicadj_saturation: num(0.15),
        basicadj_vibrance: num(-0.35),
        lowpass_on: true, lowpass_radius: num(42.0),
        lowpass_contrast: num(0.6), lowpass_brightness: num(-0.4),
        lowpass_saturation: num(0.15),
        shadhi_on: true, shadhi_shadows: num(25.0),
        shadhi_highlights: num(-30.0), shadhi_whitepoint: num(2.0),
        shadhi_radius: num(80.0), shadhi_compress: num(60.0),
        shadhi_shadows_ccorrect: num(75.0), shadhi_highlights_ccorrect: num(40.0),
        primaries_on: true,
        primaries_achromatic_tint_hue: num(10.0),
        primaries_achromatic_tint_purity: num(0.3),
        primaries_red_hue: num(-15.0),
        primaries_red_purity: num(1.5),
        primaries_green_hue: num(5.0),
        primaries_green_purity: num(0.8),
        primaries_blue_hue: num(20.0),
        primaries_blue_purity: num(1.2),
        negadoctor_on: true,
        negadoctor_film_stock: num(0.0),
        negadoctor_dmin_r: num(0.2),
        negadoctor_dmin_g: num(0.35),
        negadoctor_dmin_b: num(0.5),
        negadoctor_wb_high_r: num(1.4),
        negadoctor_wb_high_g: num(1.1),
        negadoctor_wb_high_b: num(0.9),
        negadoctor_wb_low_r: num(0.8),
        negadoctor_wb_low_g: num(0.95),
        negadoctor_wb_low_b: num(1.05),
        negadoctor_d_max: num(1.8),
        negadoctor_offset: num(0.1),
        negadoctor_black: num(0.02),
        negadoctor_gamma: num(3.0),
        negadoctor_soft_clip: num(0.4),
        negadoctor_exposure: num(1.5),
        toneeq_on: true,
        toneeq_noise: num(0.11),
        toneeq_ultra_deep_blacks: num(-0.22),
        toneeq_deep_blacks: num(0.33),
        toneeq_blacks: num(-0.44),
        toneeq_shadows: num(0.55),
        toneeq_midtones: num(-0.66),
        toneeq_highlights: num(0.77),
        toneeq_whites: num(-0.88),
        toneeq_speculars: num(0.99),
        cb_on: true,
        cb_shadows_y: num(0.01),
        cb_shadows_c: num(-0.02),
        cb_shadows_h: num(3.0),
        cb_midtones_y: num(0.04),
        cb_midtones_c: num(-0.05),
        cb_midtones_h: num(6.0),
        cb_highlights_y: num(0.07),
        cb_highlights_c: num(-0.08),
        cb_highlights_h: num(9.0),
        cb_global_y: num(0.10),
        cb_global_c: num(-0.11),
        cb_global_h: num(12.0),
        cb_shadows_weight: num(1.13),
        cb_white_fulcrum: num(-1.14),
        cb_highlights_weight: num(2.15),
        cb_chroma_shadows: num(0.16),
        cb_chroma_highlights: num(-0.17),
        cb_chroma_global: num(0.18),
        cb_chroma_midtones: num(-0.19),
        cb_saturation_global: num(0.20),
        cb_saturation_highlights: num(-0.21),
        cb_saturation_midtones: num(0.22),
        cb_saturation_shadows: num(-0.23),
        cb_hue_angle: num(24.0),
        cb_brilliance_global: num(0.25),
        cb_brilliance_highlights: num(-0.26),
        cb_brilliance_midtones: num(0.27),
        cb_brilliance_shadows: num(-0.28),
        cb_mask_grey_fulcrum: num(0.29),
        cb_vibrance: num(-0.30),
        cb_grey_fulcrum: num(0.31),
        cb_contrast: num(-0.32),
        cb_formula: num(0.0),
        filmic_on: true,
        filmic_black_point_source: num(-6.5),
        filmic_white_point_source: num(5.5),
        filmic_output_power: num(3.5),
        filmic_latitude: num(12.5),
        filmic_contrast: num(1.7),
        filmic_balance: num(-25.0),
        filmic_saturation: num(60.0),
        hl_on: true,
        hl_opposed: false,
        hl_clip: num(1.5),
        dn_on: true,
        dn_mode_y0u0v0: false,
        dn_strength: num(0.8),
        dn_shadows: num(1.3),
        dn_bias: num(-0.25),
        bl_on: true,
        bl_size: num(33.0),
        bl_threshold: num(72.5),
        bl_strength: num(60.5),
        tc_on: true,
        tc_unbound: false,
        tc_type: num(1.0),
        tc_autoscale: num(0.0),
        tc_preserve: num(2.0),
        tc_nnodes: num(3.0),
        tc_nodes_l: {
            let mut n = [(num(0.0), num(0.0)); 20];
            n[1] = (num(0.75), num(0.75));
            n[2] = (num(1.0), num(1.0));
            n
        },
        rc_on: true,
        rc_type_r: num(1.0),
        rc_type_g: num(0.0),
        rc_type_b: num(2.0),
        rc_autoscale: num(1.0),
        rc_preserve: num(3.0),
        rc_nnodes_r: num(3.0),
        rc_nnodes_g: num(2.0),
        rc_nnodes_b: num(4.0),
        rc_nodes_r: {
            let mut n = [(num(0.0), num(0.0)); 20];
            n[1] = (num(0.75), num(0.4));
            n[2] = (num(1.0), num(1.0));
            n
        },
        rc_nodes_g: {
            let mut n = [(num(0.0), num(0.0)); 20];
            n[1] = (num(0.85), num(0.6));
            n
        },
        rc_nodes_b: {
            let mut n = [(num(0.0), num(0.0)); 20];
            n[1] = (num(0.25), num(0.45));
            n[2] = (num(0.6), num(0.55));
            n[3] = (num(1.0), num(1.0));
            n
        },
        bc_on: true,
        bc_type: num(0.0),
        bc_preserve: num(2.0),
        bc_nnodes: num(5.0),
        bc_exposure_fusion: num(1.0),
        bc_exposure_stops: num(1.75),
        bc_exposure_bias: num(-0.35),
        bc_nodes: {
            let mut n = [(num(0.0), num(0.0)); 20];
            n[1] = (num(0.2), num(0.15));
            n[2] = (num(0.45), num(0.55));
            n[3] = (num(0.7), num(0.8));
            n[4] = (num(1.0), num(1.0));
            n
        },
        lens_on: true,
        lens_inverse: true,
        lens_modify_flags: num(5.0),
        lens_scale: num(1.15),
        lens_focal: num(85.0),
        lens_aperture: num(5.6),
        lens_distance: num(7.5),
        lens_target_geom: num(3.0),
    }
}

#[test]
fn params_encode_decode_roundtrips() {
    let p = populated_params();
    let blob = p.encode();
    assert_eq!(blob.len(), ENCODED_LEN);
    assert_eq!(PreviewParams::decode(&blob), Some(p));
    let d = PreviewParams::default();
    assert_eq!(PreviewParams::decode(&d.encode()), Some(d));
}

#[test]
fn decode_rejects_bad_version_and_length() {
    let mut good = PreviewParams::default().encode();
    assert_eq!(PreviewParams::decode(&good[..good.len() - 1]), None);
    assert_eq!(PreviewParams::decode(&[]), None);
    good[0] = 99;
    assert_eq!(PreviewParams::decode(&good), None);
    let v1 = blob(1, 4, 13);
    assert_eq!(PreviewParams::decode(&v1), None);
}

#[test]
fn decode_v13_blob_defaults_shadhi_fields() {
    let v13 = blob(13, 20, 133);
    let decoded = PreviewParams::decode(&v13)
        .expect("v13 blob must decode from an older layout");
    let def = PreviewParams::default();
    assert_eq!(decoded.shadhi_on, def.shadhi_on);
    assert_eq!(decoded.shadhi_shadows, def.shadhi_shadows);
    assert_eq!(decoded.shadhi_highlights, def.shadhi_highlights);
    assert_eq!(decoded.shadhi_radius, def.shadhi_radius);
    assert_eq!(decoded.shadhi_compress, def.shadhi_compress);
    assert_eq!(decoded.shadhi_shadows_ccorrect, def.shadhi_shadows_ccorrect);
    assert_eq!(decoded.shadhi_highlights_ccorrect, def.shadhi_highlights_ccorrect);
}

#[test]
fn decode_v14_blob_defaults_primaries_fields() {
    let v14 = blob(14, 21, 140);
    let decoded = PreviewParams::decode(&v14)
        .expect("v14 blob must decode from an older layout");
    let def = PreviewParams::default();
    assert_eq!(decoded.primaries_on, def.primaries_on);
    assert_eq!(decoded.primaries_achromatic_tint_hue, def.primaries_achromatic_tint_hue);
    assert_eq!(decoded.primaries_achromatic_tint_purity, def.primaries_achromatic_tint_purity);
    assert_eq!(decoded.primaries_red_hue, def.primaries_red_hue);
    assert_eq!(decoded.primaries_red_purity, def.primaries_red_purity);
    assert_eq!(decoded.primaries_green_hue, def.primaries_green_hue);
    assert_eq!(decoded.primaries_green_purity, def.primaries_green_purity);
    assert_eq!(decoded.primaries_blue_hue, def.primaries_blue_hue);
    assert_eq!(decoded.primaries_blue_purity, def.primaries_blue_purity);
}

#[test]
fn decode_v20_blob_defaults_dn_fields() {
    let v20 = blob(20, 28, 214);
    let decoded = PreviewParams::decode(&v20)
        .expect("v20 blob must decode from an older layout");
    let def = PreviewParams::default();
    assert_eq!(decoded.dn_on, def.dn_on);
    assert_eq!(decoded.dn_mode_y0u0v0, def.dn_mode_y0u0v0);
    assert_eq!(decoded.dn_strength, def.dn_strength);
    assert_eq!(decoded.dn_shadows, def.dn_shadows);
    assert_eq!(decoded.dn_bias, def.dn_bias);
}

#[test]
fn decode_v22_blob_defaults_tc_fields() {
    let v22 = blob(22, 31, 220);
    let decoded = PreviewParams::decode(&v22)
        .expect("v22 blob must decode from an older layout");
    let def = PreviewParams::default();
    assert_eq!(decoded.tc_on, def.tc_on);
    assert_eq!(decoded.tc_type, def.tc_type);
    assert_eq!(decoded.tc_autoscale, def.tc_autoscale);
    assert_eq!(decoded.tc_unbound, def.tc_unbound);
    assert_eq!(decoded.tc_preserve, def.tc_preserve);
    assert_eq!(decoded.tc_nnodes, def.tc_nnodes);
    assert_eq!(decoded.tc_nodes_l, def.tc_nodes_l);
}

#[test]
fn decode_v23_blob_defaults_rc_fields() {
    let v23 = blob(23, 33, 264);
    let decoded = PreviewParams::decode(&v23)
        .expect("v23 blob must decode from an older layout");
    let def = PreviewParams::default();
    assert_eq!(decoded.rc_on, def.rc_on);
    assert_eq!(decoded.rc_type_r, def.rc_type_r);
    assert_eq!(decoded.rc_type_g, def.rc_type_g);
    assert_eq!(decoded.rc_type_b, def.rc_type_b);
    assert_eq!(decoded.rc_autoscale, def.rc_autoscale);
    assert_eq!(decoded.rc_preserve, def.rc_preserve);
    assert_eq!(decoded.rc_nnodes_r, def.rc_nnodes_r);
    assert_eq!(decoded.rc_nnodes_g, def.rc_nnodes_g);
    assert_eq!(decoded.rc_nnodes_b, def.rc_nnodes_b);
    assert_eq!(decoded.rc_nodes_r, def.rc_nodes_r);
    assert_eq!(decoded.rc_nodes_g, def.rc_nodes_g);
    assert_eq!(decoded.rc_nodes_b, def.rc_nodes_b);
}

#[test]
fn decode_v24_blob_defaults_bc_fields() {
    let v24 = blob(24, 34, 392);
    let decoded = PreviewParams::decode(&v24)
        .expect("v24 blob must decode from an older layout");
    let def = PreviewParams::default();
    assert_eq!(decoded.bc_on, def.bc_on);
    assert_eq!(decoded.bc_type, def.bc_type);
    assert_eq!(decoded.bc_preserve, def.bc_preserve);
    assert_eq!(decoded.bc_nnodes, def.bc_nnodes);
    assert_eq!(decoded.bc_exposure_fusion, def.bc_exposure_fusion);
    assert_eq!(decoded.bc_exposure_stops, def.bc_exposure_stops);
    assert_eq!(decoded.bc_exposure_bias, def.bc_exposure_bias);
    assert_eq!(decoded.bc_nodes, def.bc_nodes);
    assert!(
        decoded
            .to_pipeline(ColorSpace::LinearSrgb, num(1.0))
            .iter()
            .all(|s| !matches!(s, Stage::Basecurve { .. })),
        "an older blob must not emit a basecurve stage: defaults are off"
    );
}

#[test]
fn decode_v21_blob_defaults_bl_fields() {
    let v21 = blob(21, 30, 217);
    let decoded = PreviewParams::decode(&v21)
        .expect("v21 blob must decode from an older layout");
    let def = PreviewParams::default();
    assert_eq!(decoded.bl_on, def.bl_on);
    assert_eq!(decoded.bl_size, def.bl_size);
    assert_eq!(decoded.bl_threshold, def.bl_threshold);
    assert_eq!(decoded.bl_strength, def.bl_strength);
}

#[test]
fn decode_v15_blob_defaults_negadoctor_fields() {
    let v15 = blob(15, 22, 148);
    let decoded = PreviewParams::decode(&v15)
        .expect("v15 blob must decode from an older layout");
    let def = PreviewParams::default();
    assert_eq!(decoded.negadoctor_on, def.negadoctor_on);
    assert_eq!(decoded.negadoctor_film_stock, def.negadoctor_film_stock);
    assert_eq!(decoded.negadoctor_dmin_r, def.negadoctor_dmin_r);
    assert_eq!(decoded.negadoctor_dmin_g, def.negadoctor_dmin_g);
    assert_eq!(decoded.negadoctor_dmin_b, def.negadoctor_dmin_b);
    assert_eq!(decoded.negadoctor_wb_high_r, def.negadoctor_wb_high_r);
    assert_eq!(decoded.negadoctor_wb_high_g, def.negadoctor_wb_high_g);
    assert_eq!(decoded.negadoctor_wb_high_b, def.negadoctor_wb_high_b);
    assert_eq!(decoded.negadoctor_wb_low_r, def.negadoctor_wb_low_r);
    assert_eq!(decoded.negadoctor_wb_low_g, def.negadoctor_wb_low_g);
    assert_eq!(decoded.negadoctor_wb_low_b, def.negadoctor_wb_low_b);
    assert_eq!(decoded.negadoctor_d_max, def.negadoctor_d_max);
    assert_eq!(decoded.negadoctor_offset, def.negadoctor_offset);
    assert_eq!(decoded.negadoctor_black, def.negadoctor_black);
    assert_eq!(decoded.negadoctor_gamma, def.negadoctor_gamma);
    assert_eq!(decoded.negadoctor_soft_clip, def.negadoctor_soft_clip);
    assert_eq!(decoded.negadoctor_exposure, def.negadoctor_exposure);
}

#[test]
fn decode_v16_blob_defaults_toneeq_fields() {
    let v16 = blob(16, 23, 164);
    let decoded = PreviewParams::decode(&v16)
        .expect("v16 blob must decode from an older layout");
    let def = PreviewParams::default();
    assert_eq!(decoded.toneeq_on, def.toneeq_on);
    assert_eq!(decoded.toneeq_noise, def.toneeq_noise);
    assert_eq!(decoded.toneeq_ultra_deep_blacks, def.toneeq_ultra_deep_blacks);
    assert_eq!(decoded.toneeq_deep_blacks, def.toneeq_deep_blacks);
    assert_eq!(decoded.toneeq_blacks, def.toneeq_blacks);
    assert_eq!(decoded.toneeq_shadows, def.toneeq_shadows);
    assert_eq!(decoded.toneeq_midtones, def.toneeq_midtones);
    assert_eq!(decoded.toneeq_highlights, def.toneeq_highlights);
    assert_eq!(decoded.toneeq_whites, def.toneeq_whites);
    assert_eq!(decoded.toneeq_speculars, def.toneeq_speculars);
}

#[test]
fn decode_v17_blob_defaults_cb_fields() {
    let v17 = blob(17, 24, 173);
    let decoded = PreviewParams::decode(&v17)
        .expect("v17 blob must decode from an older layout");
    let def = PreviewParams::default();
    assert_eq!(decoded.cb_on, def.cb_on);
    assert_eq!(decoded.cb_shadows_y, def.cb_shadows_y);
    assert_eq!(decoded.cb_shadows_h, def.cb_shadows_h);
    assert_eq!(decoded.cb_midtones_y, def.cb_midtones_y);
    assert_eq!(decoded.cb_highlights_c, def.cb_highlights_c);
    assert_eq!(decoded.cb_global_y, def.cb_global_y);
    assert_eq!(decoded.cb_global_h, def.cb_global_h);
    assert_eq!(decoded.cb_shadows_weight, def.cb_shadows_weight);
    assert_eq!(decoded.cb_white_fulcrum, def.cb_white_fulcrum);
    assert_eq!(decoded.cb_chroma_shadows, def.cb_chroma_shadows);
    assert_eq!(decoded.cb_saturation_global, def.cb_saturation_global);
    assert_eq!(decoded.cb_saturation_shadows, def.cb_saturation_shadows);
    assert_eq!(decoded.cb_hue_angle, def.cb_hue_angle);
    assert_eq!(decoded.cb_brilliance_global, def.cb_brilliance_global);
    assert_eq!(decoded.cb_brilliance_shadows, def.cb_brilliance_shadows);
    assert_eq!(decoded.cb_mask_grey_fulcrum, def.cb_mask_grey_fulcrum);
    assert_eq!(decoded.cb_vibrance, def.cb_vibrance);
    assert_eq!(decoded.cb_grey_fulcrum, def.cb_grey_fulcrum);
    assert_eq!(decoded.cb_contrast, def.cb_contrast);
    assert_eq!(decoded.cb_formula, def.cb_formula);
}

#[test]
fn decode_v18_blob_defaults_filmic_fields() {
    let v18 = blob(18, 25, 206);
    let decoded = PreviewParams::decode(&v18)
        .expect("v18 blob must decode from an older layout");
    let def = PreviewParams::default();
    assert_eq!(decoded.filmic_on, def.filmic_on);
    assert_eq!(decoded.filmic_black_point_source, def.filmic_black_point_source);
    assert_eq!(decoded.filmic_white_point_source, def.filmic_white_point_source);
    assert_eq!(decoded.filmic_output_power, def.filmic_output_power);
    assert_eq!(decoded.filmic_latitude, def.filmic_latitude);
    assert_eq!(decoded.filmic_contrast, def.filmic_contrast);
    assert_eq!(decoded.filmic_balance, def.filmic_balance);
    assert_eq!(decoded.filmic_saturation, def.filmic_saturation);
}

#[test]
fn decode_v19_blob_defaults_hl_fields() {
    let v19 = blob(19, 26, 213);
    let decoded = PreviewParams::decode(&v19)
        .expect("v19 blob must decode from an older layout");
    let def = PreviewParams::default();
    assert_eq!(decoded.hl_on, def.hl_on);
    assert_eq!(decoded.hl_opposed, def.hl_opposed);
    assert_eq!(decoded.hl_clip, def.hl_clip);
    assert!(decoded.hl_opts().is_none());
}

#[test]
fn layouts_covers_current_version() {
    let curr = PARAMS_LAYOUTS[PARAMS_LAYOUTS.len() - 1];
    assert_eq!(curr.0, ENCODE_VERSION, "PARAMS_LAYOUTS must have a row for the current version");
    assert_eq!(1 + curr.1 + curr.2 * 4, ENCODED_LEN, "current PARAMS_LAYOUTS row must match ENCODED_LEN");
    assert!(PARAMS_LAYOUTS.windows(2).all(|w| w[0].0 < w[1].0), "PARAMS_LAYOUTS must be version-ascending");
}

#[test]
fn lengths_are_known_for_every_layout() {
    for (version, flags, numbers) in PARAMS_LAYOUTS {
        assert_eq!(encoded_len_for_version(version), Some(1 + flags + numbers * 4));
        assert!(PreviewParams::decode(&blob(version, flags, numbers)).is_some());
        assert!(PreviewParams::decode(&blob(version, flags, numbers + 1)).is_none());
    }
    assert_eq!(encoded_len_for_version(ENCODE_VERSION), Some(ENCODED_LEN));
    assert_eq!(encoded_len_for_version(0), None);
    assert_eq!(encoded_len_for_version(11), None);
    assert_eq!(encoded_len_for_version(27), None);
}

#[test]
fn a_blob_starts_with_its_version_and_holds_flags_then_numbers() {
    let mut p = PreviewParams::default();
    p.black = num(0.25);
    let b = p.encode();
    assert_eq!(b[0], 26);
    assert!(b[1..38].iter().all(|f| *f <= 1));
    assert_eq!(b[1], 1, "exposure is on by default");
    assert_eq!(&b[38..42], &0.25f32.to_le_bytes());
}

#[test]
fn any_nonzero_flag_reads_as_on() {
    let mut b = PreviewParams::default().encode();
    b[2] = 7;
    assert!(PreviewParams::decode(&b).unwrap().velvia_on);
    b[2] = 0;
    assert!(!PreviewParams::decode(&b).unwrap().velvia_on);
}

#[test]
fn a_number_keeps_its_bits() {
    let mut p = PreviewParams::default();
    p.ev = F32::from_bits(0x7fc0_1234);
    let back = PreviewParams::decode(&p.encode()).unwrap();
    assert_eq!(back.ev.bits, 0x7fc0_1234);
    p.ev = num(-0.0);
    assert_eq!(PreviewParams::decode(&p.encode()).unwrap().ev.bits, 0x8000_0000);
}

#[test]
fn an_older_blob_keeps_its_fields_and_defaults_the_rest() {
    let p = populated_params();
    let whole = p.encode();
    let defaults = PreviewParams::default().encode();
    let (_, all_flags, _) = PARAMS_LAYOUTS[PARAMS_LAYOUTS.len() - 1];
    for (version, flags, numbers) in PARAMS_LAYOUTS {
        let split = 1 + all_flags + 4 * numbers;
        let mut older = vec![version];
        older.extend_from_slice(&whole[1..1 + flags]);
        older.extend_from_slice(&whole[1 + all_flags..split]);
        let read = PreviewParams::decode(&older).unwrap();
        let mut expected = vec![ENCODE_VERSION];
        expected.extend_from_slice(&whole[1..1 + flags]);
        expected.extend_from_slice(&defaults[1 + flags..1 + all_flags]);
        expected.extend_from_slice(&whole[1 + all_flags..split]);
        expected.extend_from_slice(&defaults[split..]);
        assert_eq!(read.encode(), expected, "layout {version}");
        assert_eq!(PreviewParams::decode(&expected), Some(read));
    }
}
