use c41_ui::float32::{F32, HALF, ONE, ZERO};
use c41_ui::params::{identity_nodes_20, PreviewParams};

fn num(x: f32) -> F32 {
    F32::from_bits(x.to_bits())
}

const SAMPLES: [f32; 24] = [
    0.0, -0.0, 1.0, -1.0, 0.5, -0.5, 1.5, -1.5, 2.5, -2.5, 0.49999997, 0.99999994, 1.0e-45,
    -1.0e-45, 1.1754944e-38, 3.4028235e38, -3.4028235e38, 16777216.0, 2147483648.0, -2147483648.0,
    4294967296.0, f32::INFINITY, f32::NEG_INFINITY, f32::NAN,
];

#[test]
fn numbers_are_known_by_their_bits() {
    assert_eq!(ZERO, 0.0f32.to_bits());
    assert_eq!(HALF, 0.5f32.to_bits());
    assert_eq!(ONE, 1.0f32.to_bits());
}

#[test]
fn comparisons_agree_with_the_machine() {
    for a in SAMPLES {
        assert_eq!(num(a).is_nan(), a.is_nan());
        assert_eq!(num(a).is_positive(), a > 0.0);
        assert_eq!(num(a).is_not_positive(), a <= 0.0);
        assert_eq!(num(a).equals(ONE), a == 1.0);
        for b in SAMPLES {
            assert_eq!(num(a) == num(b), a == b, "{a} == {b}");
            assert_eq!(num(a).num_eq(num(b)), a == b, "{a} == {b}");
            assert_eq!(num(a).num_lt(num(b)), a < b, "{a} < {b}");
            assert_eq!(num(a).num_le(num(b)), a <= b, "{a} <= {b}");
        }
    }
}

#[test]
fn conversions_agree_with_the_machine() {
    for a in SAMPLES {
        assert_eq!(num(a).to_i32(), a as i32, "{a}");
        assert_eq!(num(a).round_clamped(2, 20), (a.round() as u32).clamp(2, 20), "{a}");
    }
    for k in -400i32..400 {
        let a = k as f32 / 16.0;
        assert_eq!(num(a).to_i32(), a as i32, "{a}");
        assert_eq!(num(a).round_clamped(0, 20), (a.round().max(0.0) as u32).clamp(0, 20), "{a}");
    }
}

#[test]
fn a_range_of_one_unit_agrees_with_the_machine() {
    for a in [0.0f32, 0.5, 1.0, 25.0, 99.0, 100.0, -3.0, f32::NAN, f32::INFINITY] {
        for b in [0.0f32, 0.99999994, 1.0, 1.0000001, 1.5, 26.0, 100.0, -2.0, f32::NAN] {
            assert_eq!(F32::reaches_one(num(a), num(b)), b - a >= 1.0, "{b} - {a}");
        }
    }
}

#[test]
fn defaults_are_the_documented_numbers() {
    let want = PreviewParams {
        exposure_on: true,
        black: num(0.0),
        ev: num(0.0),
        velvia_on: false,
        velvia_strength: num(25.0),
        velvia_bias: num(1.0),
        split_on: false,
        split_shadow_hue: num(0.0),
        split_shadow_sat: num(0.5),
        split_highlight_hue: num(0.2),
        split_highlight_sat: num(0.5),
        split_balance: num(0.5),
        split_compress: num(33.0),
        mono_on: false,
        mono_r: num(0.21),
        mono_g: num(0.72),
        mono_b: num(0.07),
        sigmoid_on: false,
        sigmoid_contrast: num(1.5),
        sigmoid_skew: num(0.0),
        sharpen_on: false,
        sharpen_radius: num(2.0),
        sharpen_amount: num(0.5),
        sharpen_threshold: num(0.5),
        vibrance_on: false,
        vibrance_amount: num(0.0),
        color_contrast_on: false,
        color_contrast_a_steepness: num(1.0),
        color_contrast_b_steepness: num(1.0),
        temperature_on: false,
        temperature_r: num(1.0),
        temperature_g: num(1.0),
        temperature_b: num(1.0),
        invert_on: false,
        invert_r: num(1.0),
        invert_g: num(1.0),
        invert_b: num(1.0),
        colorize_on: false,
        colorize_hue: num(0.0),
        colorize_sat: num(0.0),
        colorize_lightness: num(50.0),
        colorize_lightness_mix: num(50.0),
        color_correction_on: false,
        color_correction_loa: num(0.0),
        color_correction_hia: num(0.0),
        color_correction_lob: num(0.0),
        color_correction_hib: num(0.0),
        color_correction_saturation: num(1.0),
        colorzones_on: false,
        colorzones_strength: num(0.0),
        colorzones_channel: num(2.0),
        colorzones_mode: num(0.0),
        colorzones_num_nodes: [num(2.0), num(2.0), num(2.0)],
        colorzones_curve_type: [num(1.0), num(1.0), num(1.0)],
        colorzones_curve_x: [
            [num(0.25), num(0.75), num(0.0), num(0.0), num(0.0), num(0.0), num(0.0), num(0.0)],
            [num(0.25), num(0.75), num(0.0), num(0.0), num(0.0), num(0.0), num(0.0), num(0.0)],
            [num(0.25), num(0.75), num(0.0), num(0.0), num(0.0), num(0.0), num(0.0), num(0.0)],
        ],
        colorzones_curve_y: [[num(0.5); 8]; 3],
        levels_on: false,
        levels_black: num(0.0),
        levels_grey: num(50.0),
        levels_white: num(100.0),
        vignette_on: false,
        vignette_scale: num(80.0),
        vignette_falloff: num(50.0),
        vignette_brightness: num(-0.5),
        vignette_saturation: num(-0.5),
        vignette_center_x: num(0.0),
        vignette_center_y: num(0.0),
        vignette_shape: num(1.0),
        lowlight_on: false,
        lowlight_blueness: num(0.0),
        lowlight_transition: [num(0.5); 6],
        gradnd_on: false,
        gradnd_density: num(1.0),
        gradnd_hardness: num(0.0),
        gradnd_rotation: num(0.0),
        gradnd_offset: num(50.0),
        gradnd_hue: num(0.0),
        gradnd_saturation: num(0.0),
        colisa_on: false,
        colisa_contrast: num(0.0),
        colisa_brightness: num(0.0),
        colisa_saturation: num(0.0),
        basicadj_on: false,
        basicadj_black_point: num(0.0),
        basicadj_exposure: num(0.0),
        basicadj_hlcompr: num(0.0),
        basicadj_hlcomprthresh: num(0.0),
        basicadj_contrast: num(0.0),
        basicadj_preserve_colors: num(1.0),
        basicadj_middle_grey: num(18.42),
        basicadj_brightness: num(0.0),
        basicadj_saturation: num(0.0),
        basicadj_vibrance: num(0.0),
        lowpass_on: false,
        lowpass_radius: num(10.0),
        lowpass_contrast: num(1.0),
        lowpass_brightness: num(0.0),
        lowpass_saturation: num(1.0),
        shadhi_on: false,
        shadhi_shadows: num(50.0),
        shadhi_highlights: num(-50.0),
        shadhi_whitepoint: num(0.0),
        shadhi_radius: num(100.0),
        shadhi_compress: num(50.0),
        shadhi_shadows_ccorrect: num(100.0),
        shadhi_highlights_ccorrect: num(50.0),
        primaries_on: false,
        primaries_achromatic_tint_hue: num(0.0),
        primaries_achromatic_tint_purity: num(0.0),
        primaries_red_hue: num(0.0),
        primaries_red_purity: num(1.0),
        primaries_green_hue: num(0.0),
        primaries_green_purity: num(1.0),
        primaries_blue_hue: num(0.0),
        primaries_blue_purity: num(1.0),
        negadoctor_on: false,
        negadoctor_film_stock: num(1.0),
        negadoctor_dmin_r: num(1.0),
        negadoctor_dmin_g: num(0.45),
        negadoctor_dmin_b: num(0.25),
        negadoctor_wb_high_r: num(1.0),
        negadoctor_wb_high_g: num(1.0),
        negadoctor_wb_high_b: num(1.0),
        negadoctor_wb_low_r: num(1.0),
        negadoctor_wb_low_g: num(1.0),
        negadoctor_wb_low_b: num(1.0),
        negadoctor_d_max: num(2.046),
        negadoctor_offset: num(-0.05),
        negadoctor_black: num(0.0755),
        negadoctor_gamma: num(4.0),
        negadoctor_soft_clip: num(0.75),
        negadoctor_exposure: num(0.9245),
        toneeq_on: false,
        toneeq_noise: num(0.0),
        toneeq_ultra_deep_blacks: num(0.0),
        toneeq_deep_blacks: num(0.0),
        toneeq_blacks: num(0.0),
        toneeq_shadows: num(0.0),
        toneeq_midtones: num(0.0),
        toneeq_highlights: num(0.0),
        toneeq_whites: num(0.0),
        toneeq_speculars: num(0.0),
        cb_on: false,
        cb_shadows_y: num(0.0),
        cb_shadows_c: num(0.0),
        cb_shadows_h: num(0.0),
        cb_midtones_y: num(0.0),
        cb_midtones_c: num(0.0),
        cb_midtones_h: num(0.0),
        cb_highlights_y: num(0.0),
        cb_highlights_c: num(0.0),
        cb_highlights_h: num(0.0),
        cb_global_y: num(0.0),
        cb_global_c: num(0.0),
        cb_global_h: num(0.0),
        cb_shadows_weight: num(1.0),
        cb_white_fulcrum: num(0.0),
        cb_highlights_weight: num(1.0),
        cb_chroma_shadows: num(0.0),
        cb_chroma_highlights: num(0.0),
        cb_chroma_global: num(0.0),
        cb_chroma_midtones: num(0.0),
        cb_saturation_global: num(0.0),
        cb_saturation_highlights: num(0.0),
        cb_saturation_midtones: num(0.0),
        cb_saturation_shadows: num(0.0),
        cb_hue_angle: num(0.0),
        cb_brilliance_global: num(0.0),
        cb_brilliance_highlights: num(0.0),
        cb_brilliance_midtones: num(0.0),
        cb_brilliance_shadows: num(0.0),
        cb_mask_grey_fulcrum: num(0.1845),
        cb_vibrance: num(0.0),
        cb_grey_fulcrum: num(0.1845),
        cb_contrast: num(0.0),
        cb_formula: num(1.0),
        filmic_on: false,
        filmic_black_point_source: num(-8.0),
        filmic_white_point_source: num(4.0),
        filmic_output_power: num(4.0),
        filmic_latitude: num(0.01),
        filmic_contrast: num(1.0),
        filmic_balance: num(0.0),
        filmic_saturation: num(0.0),
        hl_on: false,
        hl_opposed: true,
        hl_clip: num(1.0),
        dn_on: false,
        dn_mode_y0u0v0: true,
        dn_strength: num(1.0),
        dn_shadows: num(1.0),
        dn_bias: num(0.0),
        bl_on: false,
        bl_size: num(20.0),
        bl_threshold: num(90.0),
        bl_strength: num(25.0),
        tc_on: false,
        tc_type: num(2.0),
        tc_autoscale: num(3.0),
        tc_unbound: true,
        tc_preserve: num(3.0),
        tc_nnodes: num(2.0),
        tc_nodes_l: {
            let mut n = [(num(0.0), num(0.0)); 20];
            n[1] = (num(1.0), num(1.0));
            n
        },
        rc_on: false,
        rc_type_r: num(2.0),
        rc_type_g: num(2.0),
        rc_type_b: num(2.0),
        rc_autoscale: num(0.0),
        rc_preserve: num(1.0),
        rc_nnodes_r: num(2.0),
        rc_nnodes_g: num(2.0),
        rc_nnodes_b: num(2.0),
        rc_nodes_r: identity_nodes_20(),
        rc_nodes_g: identity_nodes_20(),
        rc_nodes_b: identity_nodes_20(),
        bc_on: false,
        bc_type: num(2.0),
        bc_preserve: num(1.0),
        bc_nnodes: num(2.0),
        bc_exposure_fusion: num(0.0),
        bc_exposure_stops: num(1.0),
        bc_exposure_bias: num(1.0),
        bc_nodes: identity_nodes_20(),
        lens_on: false,
        lens_inverse: false,
        lens_modify_flags: num(7.0),
        lens_scale: num(1.0),
        lens_focal: num(50.0),
        lens_aperture: num(3.5),
        lens_distance: num(1000.0),
        lens_target_geom: num(1.0),
    };
    assert_eq!(PreviewParams::default(), want);
    assert_eq!(PreviewParams::default().encode(), want.encode());
}

#[test]
fn identity_curve_nodes_lie_on_the_diagonal() {
    let nodes = identity_nodes_20();
    assert_eq!(nodes[0], (num(0.0), num(0.0)));
    assert_eq!(nodes[1], (num(1.0), num(1.0)));
    for n in nodes {
        assert_eq!(n.0, n.1);
    }
}
