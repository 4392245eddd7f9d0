//! The parameters as two flat lists, the flags and the numbers, and back.
use vstd::prelude::*;

use crate::float32::F32;
use crate::params::{identity_nodes_20, interleaved, rows_of_eight, PreviewParams};

verus! {

/// The parameters are exactly their flags and their numbers: two edits that agree in
/// both lists are the same edit.
pub proof fn law_lists_determine_params(p: PreviewParams, q: PreviewParams)
    requires
        p.bools() == q.bools(),
        p.floats() == q.floats(),
    ensures
        p == q,
{
    lemma_bools(p);
    lemma_bools(q);
    lemma_parts(p);
    lemma_parts(q);
    lemma_tone_floats(p);
    lemma_tone_floats(q);
    lemma_zones_floats(p);
    lemma_zones_floats(q);
    lemma_creative_floats(p);
    lemma_creative_floats(q);
    lemma_lowpass_floats(p);
    lemma_lowpass_floats(q);
    lemma_shadhi_floats(p);
    lemma_shadhi_floats(q);
    lemma_primaries_floats(p);
    lemma_primaries_floats(q);
    lemma_negadoctor_floats(p);
    lemma_negadoctor_floats(q);
    lemma_toneeq_floats(p);
    lemma_toneeq_floats(q);
    lemma_cb_floats(p);
    lemma_cb_floats(q);
    lemma_filmic_floats(p);
    lemma_filmic_floats(q);
    lemma_hl_floats(p);
    lemma_hl_floats(q);
    lemma_dn_floats(p);
    lemma_dn_floats(q);
    lemma_bl_floats(p);
    lemma_bl_floats(q);
    lemma_tc_floats(p);
    lemma_tc_floats(q);
    lemma_rc_floats(p);
    lemma_rc_floats(q);
    lemma_bc_floats(p);
    lemma_bc_floats(q);
    lemma_lens_floats(p);
    lemma_lens_floats(q);
    assert(p.colorzones_num_nodes =~= q.colorzones_num_nodes);
    assert(p.colorzones_curve_type =~= q.colorzones_curve_type);
    lemma_rows_of_eight(p.colorzones_curve_x, q.colorzones_curve_x);
    lemma_rows_of_eight(p.colorzones_curve_y, q.colorzones_curve_y);
    assert(p.lowlight_transition =~= q.lowlight_transition);
    lemma_interleaved(p.tc_nodes_l, q.tc_nodes_l);
    lemma_interleaved(p.rc_nodes_r, q.rc_nodes_r);
    lemma_interleaved(p.rc_nodes_g, q.rc_nodes_g);
    lemma_interleaved(p.rc_nodes_b, q.rc_nodes_b);
    lemma_interleaved(p.bc_nodes, q.bc_nodes);
}

/// The numbers depend on no flag.
pub proof fn lemma_same_numbers(p: PreviewParams, q: PreviewParams)
    requires
        p.black == q.black,
        p.ev == q.ev,
        p.velvia_strength == q.velvia_strength,
        p.velvia_bias == q.velvia_bias,
        p.split_shadow_hue == q.split_shadow_hue,
        p.split_shadow_sat == q.split_shadow_sat,
        p.split_highlight_hue == q.split_highlight_hue,
        p.split_highlight_sat == q.split_highlight_sat,
        p.split_balance == q.split_balance,
        p.split_compress == q.split_compress,
        p.mono_r == q.mono_r,
        p.mono_g == q.mono_g,
        p.mono_b == q.mono_b,
        p.sigmoid_contrast == q.sigmoid_contrast,
        p.sigmoid_skew == q.sigmoid_skew,
        p.sharpen_radius == q.sharpen_radius,
        p.sharpen_amount == q.sharpen_amount,
        p.sharpen_threshold == q.sharpen_threshold,
        p.vibrance_amount == q.vibrance_amount,
        p.color_contrast_a_steepness == q.color_contrast_a_steepness,
        p.color_contrast_b_steepness == q.color_contrast_b_steepness,
        p.temperature_r == q.temperature_r,
        p.temperature_g == q.temperature_g,
        p.temperature_b == q.temperature_b,
        p.invert_r == q.invert_r,
        p.invert_g == q.invert_g,
        p.invert_b == q.invert_b,
        p.colorize_hue == q.colorize_hue,
        p.colorize_sat == q.colorize_sat,
        p.colorize_lightness == q.colorize_lightness,
        p.colorize_lightness_mix == q.colorize_lightness_mix,
        p.color_correction_loa == q.color_correction_loa,
        p.color_correction_hia == q.color_correction_hia,
        p.color_correction_lob == q.color_correction_lob,
        p.color_correction_hib == q.color_correction_hib,
        p.color_correction_saturation == q.color_correction_saturation,
        p.colorzones_strength == q.colorzones_strength,
        p.colorzones_channel == q.colorzones_channel,
        p.colorzones_mode == q.colorzones_mode,
        p.colorzones_num_nodes == q.colorzones_num_nodes,
        p.colorzones_curve_type == q.colorzones_curve_type,
        p.colorzones_curve_x == q.colorzones_curve_x,
        p.colorzones_curve_y == q.colorzones_curve_y,
        p.levels_black == q.levels_black,
        p.levels_grey == q.levels_grey,
        p.levels_white == q.levels_white,
        p.vignette_scale == q.vignette_scale,
        p.vignette_falloff == q.vignette_falloff,
        p.vignette_brightness == q.vignette_brightness,
        p.vignette_saturation == q.vignette_saturation,
        p.vignette_center_x == q.vignette_center_x,
        p.vignette_center_y == q.vignette_center_y,
        p.vignette_shape == q.vignette_shape,
        p.lowlight_blueness == q.lowlight_blueness,
        p.lowlight_transition == q.lowlight_transition,
        p.gradnd_density == q.gradnd_density,
        p.gradnd_hardness == q.gradnd_hardness,
        p.gradnd_rotation == q.gradnd_rotation,
        p.gradnd_offset == q.gradnd_offset,
        p.gradnd_hue == q.gradnd_hue,
        p.gradnd_saturation == q.gradnd_saturation,
        p.colisa_contrast == q.colisa_contrast,
        p.colisa_brightness == q.colisa_brightness,
        p.colisa_saturation == q.colisa_saturation,
        p.basicadj_black_point == q.basicadj_black_point,
        p.basicadj_exposure == q.basicadj_exposure,
        p.basicadj_hlcompr == q.basicadj_hlcompr,
        p.basicadj_hlcomprthresh == q.basicadj_hlcomprthresh,
        p.basicadj_contrast == q.basicadj_contrast,
        p.basicadj_preserve_colors == q.basicadj_preserve_colors,
        p.basicadj_middle_grey == q.basicadj_middle_grey,
        p.basicadj_brightness == q.basicadj_brightness,
        p.basicadj_saturation == q.basicadj_saturation,
        p.basicadj_vibrance == q.basicadj_vibrance,
        p.lowpass_radius == q.lowpass_radius,
        p.lowpass_contrast == q.lowpass_contrast,
        p.lowpass_brightness == q.lowpass_brightness,
        p.lowpass_saturation == q.lowpass_saturation,
        p.shadhi_shadows == q.shadhi_shadows,
        p.shadhi_highlights == q.shadhi_highlights,
        p.shadhi_whitepoint == q.shadhi_whitepoint,
        p.shadhi_radius == q.shadhi_radius,
        p.shadhi_compress == q.shadhi_compress,
        p.shadhi_shadows_ccorrect == q.shadhi_shadows_ccorrect,
        p.shadhi_highlights_ccorrect == q.shadhi_highlights_ccorrect,
        p.primaries_achromatic_tint_hue == q.primaries_achromatic_tint_hue,
        p.primaries_achromatic_tint_purity == q.primaries_achromatic_tint_purity,
        p.primaries_red_hue == q.primaries_red_hue,
        p.primaries_red_purity == q.primaries_red_purity,
        p.primaries_green_hue == q.primaries_green_hue,
        p.primaries_green_purity == q.primaries_green_purity,
        p.primaries_blue_hue == q.primaries_blue_hue,
        p.primaries_blue_purity == q.primaries_blue_purity,
        p.negadoctor_film_stock == q.negadoctor_film_stock,
        p.negadoctor_dmin_r == q.negadoctor_dmin_r,
        p.negadoctor_dmin_g == q.negadoctor_dmin_g,
        p.negadoctor_dmin_b == q.negadoctor_dmin_b,
        p.negadoctor_wb_high_r == q.negadoctor_wb_high_r,
        p.negadoctor_wb_high_g == q.negadoctor_wb_high_g,
        p.negadoctor_wb_high_b == q.negadoctor_wb_high_b,
        p.negadoctor_wb_low_r == q.negadoctor_wb_low_r,
        p.negadoctor_wb_low_g == q.negadoctor_wb_low_g,
        p.negadoctor_wb_low_b == q.negadoctor_wb_low_b,
        p.negadoctor_d_max == q.negadoctor_d_max,
        p.negadoctor_offset == q.negadoctor_offset,
        p.negadoctor_black == q.negadoctor_black,
        p.negadoctor_gamma == q.negadoctor_gamma,
        p.negadoctor_soft_clip == q.negadoctor_soft_clip,
        p.negadoctor_exposure == q.negadoctor_exposure,
        p.toneeq_noise == q.toneeq_noise,
        p.toneeq_ultra_deep_blacks == q.toneeq_ultra_deep_blacks,
        p.toneeq_deep_blacks == q.toneeq_deep_blacks,
        p.toneeq_blacks == q.toneeq_blacks,
        p.toneeq_shadows == q.toneeq_shadows,
        p.toneeq_midtones == q.toneeq_midtones,
        p.toneeq_highlights == q.toneeq_highlights,
        p.toneeq_whites == q.toneeq_whites,
        p.toneeq_speculars == q.toneeq_speculars,
        p.cb_shadows_y == q.cb_shadows_y,
        p.cb_shadows_c == q.cb_shadows_c,
        p.cb_shadows_h == q.cb_shadows_h,
        p.cb_midtones_y == q.cb_midtones_y,
        p.cb_midtones_c == q.cb_midtones_c,
        p.cb_midtones_h == q.cb_midtones_h,
        p.cb_highlights_y == q.cb_highlights_y,
        p.cb_highlights_c == q.cb_highlights_c,
        p.cb_highlights_h == q.cb_highlights_h,
        p.cb_global_y == q.cb_global_y,
        p.cb_global_c == q.cb_global_c,
        p.cb_global_h == q.cb_global_h,
        p.cb_shadows_weight == q.cb_shadows_weight,
        p.cb_white_fulcrum == q.cb_white_fulcrum,
        p.cb_highlights_weight == q.cb_highlights_weight,
        p.cb_chroma_shadows == q.cb_chroma_shadows,
        p.cb_chroma_highlights == q.cb_chroma_highlights,
        p.cb_chroma_global == q.cb_chroma_global,
        p.cb_chroma_midtones == q.cb_chroma_midtones,
        p.cb_saturation_global == q.cb_saturation_global,
        p.cb_saturation_highlights == q.cb_saturation_highlights,
        p.cb_saturation_midtones == q.cb_saturation_midtones,
        p.cb_saturation_shadows == q.cb_saturation_shadows,
        p.cb_hue_angle == q.cb_hue_angle,
        p.cb_brilliance_global == q.cb_brilliance_global,
        p.cb_brilliance_highlights == q.cb_brilliance_highlights,
        p.cb_brilliance_midtones == q.cb_brilliance_midtones,
        p.cb_brilliance_shadows == q.cb_brilliance_shadows,
        p.cb_mask_grey_fulcrum == q.cb_mask_grey_fulcrum,
        p.cb_vibrance == q.cb_vibrance,
        p.cb_grey_fulcrum == q.cb_grey_fulcrum,
        p.cb_contrast == q.cb_contrast,
        p.cb_formula == q.cb_formula,
        p.filmic_black_point_source == q.filmic_black_point_source,
        p.filmic_white_point_source == q.filmic_white_point_source,
        p.filmic_output_power == q.filmic_output_power,
        p.filmic_latitude == q.filmic_latitude,
        p.filmic_contrast == q.filmic_contrast,
        p.filmic_balance == q.filmic_balance,
        p.filmic_saturation == q.filmic_saturation,
        p.hl_clip == q.hl_clip,
        p.dn_strength == q.dn_strength,
        p.dn_shadows == q.dn_shadows,
        p.dn_bias == q.dn_bias,
        p.bl_size == q.bl_size,
        p.bl_threshold == q.bl_threshold,
        p.bl_strength == q.bl_strength,
        p.tc_type == q.tc_type,
        p.tc_autoscale == q.tc_autoscale,
        p.tc_preserve == q.tc_preserve,
        p.tc_nnodes == q.tc_nnodes,
        p.tc_nodes_l == q.tc_nodes_l,
        p.rc_type_r == q.rc_type_r,
        p.rc_type_g == q.rc_type_g,
        p.rc_type_b == q.rc_type_b,
        p.rc_autoscale == q.rc_autoscale,
        p.rc_preserve == q.rc_preserve,
        p.rc_nnodes_r == q.rc_nnodes_r,
        p.rc_nnodes_g == q.rc_nnodes_g,
        p.rc_nnodes_b == q.rc_nnodes_b,
        p.rc_nodes_r == q.rc_nodes_r,
        p.rc_nodes_g == q.rc_nodes_g,
        p.rc_nodes_b == q.rc_nodes_b,
        p.bc_type == q.bc_type,
        p.bc_preserve == q.bc_preserve,
        p.bc_nnodes == q.bc_nnodes,
        p.bc_exposure_fusion == q.bc_exposure_fusion,
        p.bc_exposure_stops == q.bc_exposure_stops,
        p.bc_exposure_bias == q.bc_exposure_bias,
        p.bc_nodes == q.bc_nodes,
        p.lens_modify_flags == q.lens_modify_flags,
        p.lens_scale == q.lens_scale,
        p.lens_focal == q.lens_focal,
        p.lens_aperture == q.lens_aperture,
        p.lens_distance == q.lens_distance,
        p.lens_target_geom == q.lens_target_geom,
    ensures
        p.floats() == q.floats(),
{
    reveal(PreviewParams::tone_floats);
    reveal(PreviewParams::zones_floats);
    reveal(PreviewParams::creative_floats);
    reveal(PreviewParams::lowpass_floats);
    reveal(PreviewParams::shadhi_floats);
    reveal(PreviewParams::primaries_floats);
    reveal(PreviewParams::negadoctor_floats);
    reveal(PreviewParams::toneeq_floats);
    reveal(PreviewParams::cb_floats);
    reveal(PreviewParams::filmic_floats);
    reveal(PreviewParams::hl_floats);
    reveal(PreviewParams::dn_floats);
    reveal(PreviewParams::bl_floats);
    reveal(PreviewParams::tc_floats);
    reveal(PreviewParams::rc_floats);
    reveal(PreviewParams::bc_floats);
    reveal(PreviewParams::lens_floats);
}

/// Each module's numbers stand together in the whole list.
pub proof fn lemma_parts(p: PreviewParams)
    ensures
        p.floats().len() == 444,
        p.tone_floats() == p.floats().subrange(0, 39),
        p.zones_floats() == p.floats().subrange(39, 93),
        p.creative_floats() == p.floats().subrange(93, 129),
        p.lowpass_floats() == p.floats().subrange(129, 133),
        p.shadhi_floats() == p.floats().subrange(133, 140),
        p.primaries_floats() == p.floats().subrange(140, 148),
        p.negadoctor_floats() == p.floats().subrange(148, 164),
        p.toneeq_floats() == p.floats().subrange(164, 173),
        p.cb_floats() == p.floats().subrange(173, 206),
        p.filmic_floats() == p.floats().subrange(206, 213),
        p.hl_floats() == p.floats().subrange(213, 214),
        p.dn_floats() == p.floats().subrange(214, 217),
        p.bl_floats() == p.floats().subrange(217, 220),
        p.tc_floats() == p.floats().subrange(220, 264),
        p.rc_floats() == p.floats().subrange(264, 392),
        p.bc_floats() == p.floats().subrange(392, 438),
        p.lens_floats() == p.floats().subrange(438, 444),
{
    lemma_tone_floats(p);
    lemma_zones_floats(p);
    lemma_creative_floats(p);
    lemma_lowpass_floats(p);
    lemma_shadhi_floats(p);
    lemma_primaries_floats(p);
    lemma_negadoctor_floats(p);
    lemma_toneeq_floats(p);
    lemma_cb_floats(p);
    lemma_filmic_floats(p);
    lemma_hl_floats(p);
    lemma_dn_floats(p);
    lemma_bl_floats(p);
    lemma_tc_floats(p);
    lemma_rc_floats(p);
    lemma_bc_floats(p);
    lemma_lens_floats(p);
    assert(p.tone_floats() =~= p.floats().subrange(0, 39));
    assert(p.zones_floats() =~= p.floats().subrange(39, 93));
    assert(p.creative_floats() =~= p.floats().subrange(93, 129));
    assert(p.lowpass_floats() =~= p.floats().subrange(129, 133));
    assert(p.shadhi_floats() =~= p.floats().subrange(133, 140));
    assert(p.primaries_floats() =~= p.floats().subrange(140, 148));
    assert(p.negadoctor_floats() =~= p.floats().subrange(148, 164));
    assert(p.toneeq_floats() =~= p.floats().subrange(164, 173));
    assert(p.cb_floats() =~= p.floats().subrange(173, 206));
    assert(p.filmic_floats() =~= p.floats().subrange(206, 213));
    assert(p.hl_floats() =~= p.floats().subrange(213, 214));
    assert(p.dn_floats() =~= p.floats().subrange(214, 217));
    assert(p.bl_floats() =~= p.floats().subrange(217, 220));
    assert(p.tc_floats() =~= p.floats().subrange(220, 264));
    assert(p.rc_floats() =~= p.floats().subrange(264, 392));
    assert(p.bc_floats() =~= p.floats().subrange(392, 438));
    assert(p.lens_floats() =~= p.floats().subrange(438, 444));
}

/// Where each flag stands.
pub proof fn lemma_bools(p: PreviewParams)
    ensures
        p.bools().len() == 37,
        p.bools()[0] == p.exposure_on,
        p.bools()[1] == p.velvia_on,
        p.bools()[2] == p.split_on,
        p.bools()[3] == p.mono_on,
        p.bools()[4] == p.sigmoid_on,
        p.bools()[5] == p.sharpen_on,
        p.bools()[6] == p.vibrance_on,
        p.bools()[7] == p.color_contrast_on,
        p.bools()[8] == p.temperature_on,
        p.bools()[9] == p.invert_on,
        p.bools()[10] == p.colorize_on,
        p.bools()[11] == p.color_correction_on,
        p.bools()[12] == p.colorzones_on,
        p.bools()[13] == p.levels_on,
        p.bools()[14] == p.vignette_on,
        p.bools()[15] == p.lowlight_on,
        p.bools()[16] == p.gradnd_on,
        p.bools()[17] == p.colisa_on,
        p.bools()[18] == p.basicadj_on,
        p.bools()[19] == p.lowpass_on,
        p.bools()[20] == p.shadhi_on,
        p.bools()[21] == p.primaries_on,
        p.bools()[22] == p.negadoctor_on,
        p.bools()[23] == p.toneeq_on,
        p.bools()[24] == p.cb_on,
        p.bools()[25] == p.filmic_on,
        p.bools()[26] == p.hl_on,
        p.bools()[27] == p.hl_opposed,
        p.bools()[28] == p.dn_on,
        p.bools()[29] == p.dn_mode_y0u0v0,
        p.bools()[30] == p.bl_on,
        p.bools()[31] == p.tc_on,
        p.bools()[32] == p.tc_unbound,
        p.bools()[33] == p.rc_on,
        p.bools()[34] == p.bc_on,
        p.bools()[35] == p.lens_on,
        p.bools()[36] == p.lens_inverse,
{
    reveal(PreviewParams::bools);
}

proof fn lemma_tone_floats(p: PreviewParams)
    ensures
        p.tone_floats().len() == 39,
        p.tone_floats()[0] == p.black,
        p.tone_floats()[1] == p.ev,
        p.tone_floats()[2] == p.velvia_strength,
        p.tone_floats()[3] == p.velvia_bias,
        p.tone_floats()[4] == p.split_shadow_hue,
        p.tone_floats()[5] == p.split_shadow_sat,
        p.tone_floats()[6] == p.split_highlight_hue,
        p.tone_floats()[7] == p.split_highlight_sat,
        p.tone_floats()[8] == p.split_balance,
        p.tone_floats()[9] == p.split_compress,
        p.tone_floats()[10] == p.mono_r,
        p.tone_floats()[11] == p.mono_g,
        p.tone_floats()[12] == p.mono_b,
        p.tone_floats()[13] == p.sigmoid_contrast,
        p.tone_floats()[14] == p.sigmoid_skew,
        p.tone_floats()[15] == p.sharpen_radius,
        p.tone_floats()[16] == p.sharpen_amount,
        p.tone_floats()[17] == p.sharpen_threshold,
        p.tone_floats()[18] == p.vibrance_amount,
        p.tone_floats()[19] == p.color_contrast_a_steepness,
        p.tone_floats()[20] == p.color_contrast_b_steepness,
        p.tone_floats()[21] == p.temperature_r,
        p.tone_floats()[22] == p.temperature_g,
        p.tone_floats()[23] == p.temperature_b,
        p.tone_floats()[24] == p.invert_r,
        p.tone_floats()[25] == p.invert_g,
        p.tone_floats()[26] == p.invert_b,
        p.tone_floats()[27] == p.colorize_hue,
        p.tone_floats()[28] == p.colorize_sat,
        p.tone_floats()[29] == p.colorize_lightness,
        p.tone_floats()[30] == p.colorize_lightness_mix,
        p.tone_floats()[31] == p.color_correction_loa,
        p.tone_floats()[32] == p.color_correction_hia,
        p.tone_floats()[33] == p.color_correction_lob,
        p.tone_floats()[34] == p.color_correction_hib,
        p.tone_floats()[35] == p.color_correction_saturation,
        p.tone_floats()[36] == p.colorzones_strength,
        p.tone_floats()[37] == p.colorzones_channel,
        p.tone_floats()[38] == p.colorzones_mode,
{
    reveal(PreviewParams::tone_floats);
}

proof fn lemma_zones_floats(p: PreviewParams)
    ensures
        p.zones_floats().len() == 54,
        p.zones_floats().subrange(0, 3) == p.colorzones_num_nodes@,
        p.zones_floats().subrange(3, 6) == p.colorzones_curve_type@,
        p.zones_floats().subrange(6, 30) == rows_of_eight(p.colorzones_curve_x),
        p.zones_floats().subrange(30, 54) == rows_of_eight(p.colorzones_curve_y),
{
    reveal(PreviewParams::zones_floats);
    assert(p.zones_floats().subrange(0, 3) =~= p.colorzones_num_nodes@);
    assert(p.zones_floats().subrange(3, 6) =~= p.colorzones_curve_type@);
    assert(p.zones_floats().subrange(6, 30) =~= rows_of_eight(p.colorzones_curve_x));
    assert(p.zones_floats().subrange(30, 54) =~= rows_of_eight(p.colorzones_curve_y));
}

proof fn lemma_creative_floats(p: PreviewParams)
    ensures
        p.creative_floats().len() == 36,
        p.creative_floats()[0] == p.levels_black,
        p.creative_floats()[1] == p.levels_grey,
        p.creative_floats()[2] == p.levels_white,
        p.creative_floats()[3] == p.vignette_scale,
        p.creative_floats()[4] == p.vignette_falloff,
        p.creative_floats()[5] == p.vignette_brightness,
        p.creative_floats()[6] == p.vignette_saturation,
        p.creative_floats()[7] == p.vignette_center_x,
        p.creative_floats()[8] == p.vignette_center_y,
        p.creative_floats()[9] == p.vignette_shape,
        p.creative_floats()[10] == p.lowlight_blueness,
        p.creative_floats().subrange(11, 17) == p.lowlight_transition@,
        p.creative_floats()[17] == p.gradnd_density,
        p.creative_floats()[18] == p.gradnd_hardness,
        p.creative_floats()[19] == p.gradnd_rotation,
        p.creative_floats()[20] == p.gradnd_offset,
        p.creative_floats()[21] == p.gradnd_hue,
        p.creative_floats()[22] == p.gradnd_saturation,
        p.creative_floats()[23] == p.colisa_contrast,
        p.creative_floats()[24] == p.colisa_brightness,
        p.creative_floats()[25] == p.colisa_saturation,
        p.creative_floats()[26] == p.basicadj_black_point,
        p.creative_floats()[27] == p.basicadj_exposure,
        p.creative_floats()[28] == p.basicadj_hlcompr,
        p.creative_floats()[29] == p.basicadj_hlcomprthresh,
        p.creative_floats()[30] == p.basicadj_contrast,
        p.creative_floats()[31] == p.basicadj_preserve_colors,
        p.creative_floats()[32] == p.basicadj_middle_grey,
        p.creative_floats()[33] == p.basicadj_brightness,
        p.creative_floats()[34] == p.basicadj_saturation,
        p.creative_floats()[35] == p.basicadj_vibrance,
{
    reveal(PreviewParams::creative_floats);
    assert(p.creative_floats().subrange(11, 17) =~= p.lowlight_transition@);
}

proof fn lemma_lowpass_floats(p: PreviewParams)
    ensures
        p.lowpass_floats().len() == 4,
        p.lowpass_floats()[0] == p.lowpass_radius,
        p.lowpass_floats()[1] == p.lowpass_contrast,
        p.lowpass_floats()[2] == p.lowpass_brightness,
        p.lowpass_floats()[3] == p.lowpass_saturation,
{
    reveal(PreviewParams::lowpass_floats);
}

proof fn lemma_shadhi_floats(p: PreviewParams)
    ensures
        p.shadhi_floats().len() == 7,
        p.shadhi_floats()[0] == p.shadhi_shadows,
        p.shadhi_floats()[1] == p.shadhi_highlights,
        p.shadhi_floats()[2] == p.shadhi_whitepoint,
        p.shadhi_floats()[3] == p.shadhi_radius,
        p.shadhi_floats()[4] == p.shadhi_compress,
        p.shadhi_floats()[5] == p.shadhi_shadows_ccorrect,
        p.shadhi_floats()[6] == p.shadhi_highlights_ccorrect,
{
    reveal(PreviewParams::shadhi_floats);
}

proof fn lemma_primaries_floats(p: PreviewParams)
    ensures
        p.primaries_floats().len() == 8,
        p.primaries_floats()[0] == p.primaries_achromatic_tint_hue,
        p.primaries_floats()[1] == p.primaries_achromatic_tint_purity,
        p.primaries_floats()[2] == p.primaries_red_hue,
        p.primaries_floats()[3] == p.primaries_red_purity,
        p.primaries_floats()[4] == p.primaries_green_hue,
        p.primaries_floats()[5] == p.primaries_green_purity,
        p.primaries_floats()[6] == p.primaries_blue_hue,
        p.primaries_floats()[7] == p.primaries_blue_purity,
{
    reveal(PreviewParams::primaries_floats);
}

proof fn lemma_negadoctor_floats(p: PreviewParams)
    ensures
        p.negadoctor_floats().len() == 16,
        p.negadoctor_floats()[0] == p.negadoctor_film_stock,
        p.negadoctor_floats()[1] == p.negadoctor_dmin_r,
        p.negadoctor_floats()[2] == p.negadoctor_dmin_g,
        p.negadoctor_floats()[3] == p.negadoctor_dmin_b,
        p.negadoctor_floats()[4] == p.negadoctor_wb_high_r,
        p.negadoctor_floats()[5] == p.negadoctor_wb_high_g,
        p.negadoctor_floats()[6] == p.negadoctor_wb_high_b,
        p.negadoctor_floats()[7] == p.negadoctor_wb_low_r,
        p.negadoctor_floats()[8] == p.negadoctor_wb_low_g,
        p.negadoctor_floats()[9] == p.negadoctor_wb_low_b,
        p.negadoctor_floats()[10] == p.negadoctor_d_max,
        p.negadoctor_floats()[11] == p.negadoctor_offset,
        p.negadoctor_floats()[12] == p.negadoctor_black,
        p.negadoctor_floats()[13] == p.negadoctor_gamma,
        p.negadoctor_floats()[14] == p.negadoctor_soft_clip,
        p.negadoctor_floats()[15] == p.negadoctor_exposure,
{
    reveal(PreviewParams::negadoctor_floats);
}

proof fn lemma_toneeq_floats(p: PreviewParams)
    ensures
        p.toneeq_floats().len() == 9,
        p.toneeq_floats()[0] == p.toneeq_noise,
        p.toneeq_floats()[1] == p.toneeq_ultra_deep_blacks,
        p.toneeq_floats()[2] == p.toneeq_deep_blacks,
        p.toneeq_floats()[3] == p.toneeq_blacks,
        p.toneeq_floats()[4] == p.toneeq_shadows,
        p.toneeq_floats()[5] == p.toneeq_midtones,
        p.toneeq_floats()[6] == p.toneeq_highlights,
        p.toneeq_floats()[7] == p.toneeq_whites,
        p.toneeq_floats()[8] == p.toneeq_speculars,
{
    reveal(PreviewParams::toneeq_floats);
}

proof fn lemma_cb_floats(p: PreviewParams)
    ensures
        p.cb_floats().len() == 33,
        p.cb_floats()[0] == p.cb_shadows_y,
        p.cb_floats()[1] == p.cb_shadows_c,
        p.cb_floats()[2] == p.cb_shadows_h,
        p.cb_floats()[3] == p.cb_midtones_y,
        p.cb_floats()[4] == p.cb_midtones_c,
        p.cb_floats()[5] == p.cb_midtones_h,
        p.cb_floats()[6] == p.cb_highlights_y,
        p.cb_floats()[7] == p.cb_highlights_c,
        p.cb_floats()[8] == p.cb_highlights_h,
        p.cb_floats()[9] == p.cb_global_y,
        p.cb_floats()[10] == p.cb_global_c,
        p.cb_floats()[11] == p.cb_global_h,
        p.cb_floats()[12] == p.cb_shadows_weight,
        p.cb_floats()[13] == p.cb_white_fulcrum,
        p.cb_floats()[14] == p.cb_highlights_weight,
        p.cb_floats()[15] == p.cb_chroma_shadows,
        p.cb_floats()[16] == p.cb_chroma_highlights,
        p.cb_floats()[17] == p.cb_chroma_global,
        p.cb_floats()[18] == p.cb_chroma_midtones,
        p.cb_floats()[19] == p.cb_saturation_global,
        p.cb_floats()[20] == p.cb_saturation_highlights,
        p.cb_floats()[21] == p.cb_saturation_midtones,
        p.cb_floats()[22] == p.cb_saturation_shadows,
        p.cb_floats()[23] == p.cb_hue_angle,
        p.cb_floats()[24] == p.cb_brilliance_global,
        p.cb_floats()[25] == p.cb_brilliance_highlights,
        p.cb_floats()[26] == p.cb_brilliance_midtones,
        p.cb_floats()[27] == p.cb_brilliance_shadows,
        p.cb_floats()[28] == p.cb_mask_grey_fulcrum,
        p.cb_floats()[29] == p.cb_vibrance,
        p.cb_floats()[30] == p.cb_grey_fulcrum,
        p.cb_floats()[31] == p.cb_contrast,
        p.cb_floats()[32] == p.cb_formula,
{
    reveal(PreviewParams::cb_floats);
}

proof fn lemma_filmic_floats(p: PreviewParams)
    ensures
        p.filmic_floats().len() == 7,
        p.filmic_floats()[0] == p.filmic_black_point_source,
        p.filmic_floats()[1] == p.filmic_white_point_source,
        p.filmic_floats()[2] == p.filmic_output_power,
        p.filmic_floats()[3] == p.filmic_latitude,
        p.filmic_floats()[4] == p.filmic_contrast,
        p.filmic_floats()[5] == p.filmic_balance,
        p.filmic_floats()[6] == p.filmic_saturation,
{
    reveal(PreviewParams::filmic_floats);
}

proof fn lemma_hl_floats(p: PreviewParams)
    ensures
        p.hl_floats().len() == 1,
        p.hl_floats()[0] == p.hl_clip,
{
    reveal(PreviewParams::hl_floats);
}

proof fn lemma_dn_floats(p: PreviewParams)
    ensures
        p.dn_floats().len() == 3,
        p.dn_floats()[0] == p.dn_strength,
        p.dn_floats()[1] == p.dn_shadows,
        p.dn_floats()[2] == p.dn_bias,
{
    reveal(PreviewParams::dn_floats);
}

proof fn lemma_bl_floats(p: PreviewParams)
    ensures
        p.bl_floats().len() == 3,
        p.bl_floats()[0] == p.bl_size,
        p.bl_floats()[1] == p.bl_threshold,
        p.bl_floats()[2] == p.bl_strength,
{
    reveal(PreviewParams::bl_floats);
}

proof fn lemma_tc_floats(p: PreviewParams)
    ensures
        p.tc_floats().len() == 44,
        p.tc_floats()[0] == p.tc_type,
        p.tc_floats()[1] == p.tc_autoscale,
        p.tc_floats()[2] == p.tc_preserve,
        p.tc_floats()[3] == p.tc_nnodes,
        p.tc_floats().subrange(4, 44) == interleaved(p.tc_nodes_l),
{
    reveal(PreviewParams::tc_floats);
    assert(p.tc_floats().subrange(4, 44) =~= interleaved(p.tc_nodes_l));
}

proof fn lemma_rc_floats(p: PreviewParams)
    ensures
        p.rc_floats().len() == 128,
        p.rc_floats()[0] == p.rc_type_r,
        p.rc_floats()[1] == p.rc_type_g,
        p.rc_floats()[2] == p.rc_type_b,
        p.rc_floats()[3] == p.rc_autoscale,
        p.rc_floats()[4] == p.rc_preserve,
        p.rc_floats()[5] == p.rc_nnodes_r,
        p.rc_floats()[6] == p.rc_nnodes_g,
        p.rc_floats()[7] == p.rc_nnodes_b,
        p.rc_floats().subrange(8, 48) == interleaved(p.rc_nodes_r),
        p.rc_floats().subrange(48, 88) == interleaved(p.rc_nodes_g),
        p.rc_floats().subrange(88, 128) == interleaved(p.rc_nodes_b),
{
    reveal(PreviewParams::rc_floats);
    assert(p.rc_floats().subrange(8, 48) =~= interleaved(p.rc_nodes_r));
    assert(p.rc_floats().subrange(48, 88) =~= interleaved(p.rc_nodes_g));
    assert(p.rc_floats().subrange(88, 128) =~= interleaved(p.rc_nodes_b));
}

proof fn lemma_bc_floats(p: PreviewParams)
    ensures
        p.bc_floats().len() == 46,
        p.bc_floats()[0] == p.bc_type,
        p.bc_floats()[1] == p.bc_preserve,
        p.bc_floats()[2] == p.bc_nnodes,
        p.bc_floats()[3] == p.bc_exposure_fusion,
        p.bc_floats()[4] == p.bc_exposure_stops,
        p.bc_floats()[5] == p.bc_exposure_bias,
        p.bc_floats().subrange(6, 46) == interleaved(p.bc_nodes),
{
    reveal(PreviewParams::bc_floats);
    assert(p.bc_floats().subrange(6, 46) =~= interleaved(p.bc_nodes));
}

proof fn lemma_lens_floats(p: PreviewParams)
    ensures
        p.lens_floats().len() == 6,
        p.lens_floats()[0] == p.lens_modify_flags,
        p.lens_floats()[1] == p.lens_scale,
        p.lens_floats()[2] == p.lens_focal,
        p.lens_floats()[3] == p.lens_aperture,
        p.lens_floats()[4] == p.lens_distance,
        p.lens_floats()[5] == p.lens_target_geom,
{
    reveal(PreviewParams::lens_floats);
}

proof fn lemma_rows_of_eight(a: [[F32; 8]; 3], b: [[F32; 8]; 3])
    requires
        rows_of_eight(a) == rows_of_eight(b),
    ensures
        a == b,
{
    assert forall|c: int| 0 <= c < 3 implies a@[c] == b@[c] by {
        assert forall|k: int| 0 <= k < 8 implies a@[c]@[k] == b@[c]@[k] by {
            let i = c * 8 + k;
            assert(i / 8 == c && i % 8 == k);
            assert(rows_of_eight(a)[i] == a@[c]@[k]);
            assert(rows_of_eight(b)[i] == b@[c]@[k]);
        }
        assert(a@[c] =~= b@[c]);
    }
    assert(a =~= b);
}

proof fn lemma_interleaved(a: [(F32, F32); 20], b: [(F32, F32); 20])
    requires
        interleaved(a) == interleaved(b),
    ensures
        a == b,
{
    assert forall|k: int| 0 <= k < 20 implies a@[k] == b@[k] by {
        let i = 2 * k;
        assert(interleaved(a)[i] == a@[k].0 && interleaved(a)[i + 1] == a@[k].1);
        assert(interleaved(b)[i] == b@[k].0 && interleaved(b)[i + 1] == b@[k].1);
    }
    assert(a =~= b);
}

impl PreviewParams {
    /// The flags, in stored order.
    pub(crate) fn flag_list(&self) -> (r: Vec<bool>)
        ensures
            r@ == self.bools(),
    {
        proof {
            reveal(PreviewParams::bools);
        }
        vec![
            self.exposure_on,
            self.velvia_on,
            self.split_on,
            self.mono_on,
            self.sigmoid_on,
            self.sharpen_on,
            self.vibrance_on,
            self.color_contrast_on,
            self.temperature_on,
            self.invert_on,
            self.colorize_on,
            self.color_correction_on,
            self.colorzones_on,
            self.levels_on,
            self.vignette_on,
            self.lowlight_on,
            self.gradnd_on,
            self.colisa_on,
            self.basicadj_on,
            self.lowpass_on,
            self.shadhi_on,
            self.primaries_on,
            self.negadoctor_on,
            self.toneeq_on,
            self.cb_on,
            self.filmic_on,
            self.hl_on,
            self.hl_opposed,
            self.dn_on,
            self.dn_mode_y0u0v0,
            self.bl_on,
            self.tc_on,
            self.tc_unbound,
            self.rc_on,
            self.bc_on,
            self.lens_on,
            self.lens_inverse,
        ]
    }

    fn tone_list(&self) -> (r: Vec<F32>)
        ensures
            r@ == self.tone_floats(),
    {
        proof {
            reveal(PreviewParams::tone_floats);
        }
        vec![
            self.black,
            self.ev,
            self.velvia_strength,
            self.velvia_bias,
            self.split_shadow_hue,
            self.split_shadow_sat,
            self.split_highlight_hue,
            self.split_highlight_sat,
            self.split_balance,
            self.split_compress,
            self.mono_r,
            self.mono_g,
            self.mono_b,
            self.sigmoid_contrast,
            self.sigmoid_skew,
            self.sharpen_radius,
            self.sharpen_amount,
            self.sharpen_threshold,
            self.vibrance_amount,
            self.color_contrast_a_steepness,
            self.color_contrast_b_steepness,
            self.temperature_r,
            self.temperature_g,
            self.temperature_b,
            self.invert_r,
            self.invert_g,
            self.invert_b,
            self.colorize_hue,
            self.colorize_sat,
            self.colorize_lightness,
            self.colorize_lightness_mix,
            self.color_correction_loa,
            self.color_correction_hia,
            self.color_correction_lob,
            self.color_correction_hib,
            self.color_correction_saturation,
            self.colorzones_strength,
            self.colorzones_channel,
            self.colorzones_mode,
        ]
    }

    fn zones_list(&self) -> (r: Vec<F32>)
        ensures
            r@ == self.zones_floats(),
    {
        proof {
            reveal(PreviewParams::zones_floats);
        }
        let mut v: Vec<F32> = Vec::new();
        push_values(&mut v, self.colorzones_num_nodes.as_slice());
        push_values(&mut v, self.colorzones_curve_type.as_slice());
        push_rows(&mut v, &self.colorzones_curve_x);
        push_rows(&mut v, &self.colorzones_curve_y);
        v
    }

    fn creative_list(&self) -> (r: Vec<F32>)
        ensures
            r@ == self.creative_floats(),
    {
        proof {
            reveal(PreviewParams::creative_floats);
        }
        let mut v: Vec<F32> = vec![
            self.levels_black,
            self.levels_grey,
            self.levels_white,
            self.vignette_scale,
            self.vignette_falloff,
            self.vignette_brightness,
            self.vignette_saturation,
            self.vignette_center_x,
            self.vignette_center_y,
            self.vignette_shape,
            self.lowlight_blueness,
        ];
        push_values(&mut v, self.lowlight_transition.as_slice());
        let mut tail: Vec<F32> = vec![
            self.gradnd_density,
            self.gradnd_hardness,
            self.gradnd_rotation,
            self.gradnd_offset,
            self.gradnd_hue,
            self.gradnd_saturation,
            self.colisa_contrast,
            self.colisa_brightness,
            self.colisa_saturation,
            self.basicadj_black_point,
            self.basicadj_exposure,
            self.basicadj_hlcompr,
            self.basicadj_hlcomprthresh,
            self.basicadj_contrast,
            self.basicadj_preserve_colors,
            self.basicadj_middle_grey,
            self.basicadj_brightness,
            self.basicadj_saturation,
            self.basicadj_vibrance,
        ];
        v.append(&mut tail);
        v
    }

    fn lowpass_list(&self) -> (r: Vec<F32>)
        ensures
            r@ == self.lowpass_floats(),
    {
        proof {
            reveal(PreviewParams::lowpass_floats);
        }
        vec![
            self.lowpass_radius,
            self.lowpass_contrast,
            self.lowpass_brightness,
            self.lowpass_saturation,
        ]
    }

    fn shadhi_list(&self) -> (r: Vec<F32>)
        ensures
            r@ == self.shadhi_floats(),
    {
        proof {
            reveal(PreviewParams::shadhi_floats);
        }
        vec![
            self.shadhi_shadows,
            self.shadhi_highlights,
            self.shadhi_whitepoint,
            self.shadhi_radius,
            self.shadhi_compress,
            self.shadhi_shadows_ccorrect,
            self.shadhi_highlights_ccorrect,
        ]
    }

    fn primaries_list(&self) -> (r: Vec<F32>)
        ensures
            r@ == self.primaries_floats(),
    {
        proof {
            reveal(PreviewParams::primaries_floats);
        }
        vec![
            self.primaries_achromatic_tint_hue,
            self.primaries_achromatic_tint_purity,
            self.primaries_red_hue,
            self.primaries_red_purity,
            self.primaries_green_hue,
            self.primaries_green_purity,
            self.primaries_blue_hue,
            self.primaries_blue_purity,
        ]
    }

    fn negadoctor_list(&self) -> (r: Vec<F32>)
        ensures
            r@ == self.negadoctor_floats(),
    {
        proof {
            reveal(PreviewParams::negadoctor_floats);
        }
        vec![
            self.negadoctor_film_stock,
            self.negadoctor_dmin_r,
            self.negadoctor_dmin_g,
            self.negadoctor_dmin_b,
            self.negadoctor_wb_high_r,
            self.negadoctor_wb_high_g,
            self.negadoctor_wb_high_b,
            self.negadoctor_wb_low_r,
            self.negadoctor_wb_low_g,
            self.negadoctor_wb_low_b,
            self.negadoctor_d_max,
            self.negadoctor_offset,
            self.negadoctor_black,
            self.negadoctor_gamma,
            self.negadoctor_soft_clip,
            self.negadoctor_exposure,
        ]
    }

    fn toneeq_list(&self) -> (r: Vec<F32>)
        ensures
            r@ == self.toneeq_floats(),
    {
        proof {
            reveal(PreviewParams::toneeq_floats);
        }
        vec![
            self.toneeq_noise,
            self.toneeq_ultra_deep_blacks,
            self.toneeq_deep_blacks,
            self.toneeq_blacks,
            self.toneeq_shadows,
            self.toneeq_midtones,
            self.toneeq_highlights,
            self.toneeq_whites,
            self.toneeq_speculars,
        ]
    }

    fn cb_list(&self) -> (r: Vec<F32>)
        ensures
            r@ == self.cb_floats(),
    {
        proof {
            reveal(PreviewParams::cb_floats);
        }
        vec![
            self.cb_shadows_y,
            self.cb_shadows_c,
            self.cb_shadows_h,
            self.cb_midtones_y,
            self.cb_midtones_c,
            self.cb_midtones_h,
            self.cb_highlights_y,
            self.cb_highlights_c,
            self.cb_highlights_h,
            self.cb_global_y,
            self.cb_global_c,
            self.cb_global_h,
            self.cb_shadows_weight,
            self.cb_white_fulcrum,
            self.cb_highlights_weight,
            self.cb_chroma_shadows,
            self.cb_chroma_highlights,
            self.cb_chroma_global,
            self.cb_chroma_midtones,
            self.cb_saturation_global,
            self.cb_saturation_highlights,
            self.cb_saturation_midtones,
            self.cb_saturation_shadows,
            self.cb_hue_angle,
            self.cb_brilliance_global,
            self.cb_brilliance_highlights,
            self.cb_brilliance_midtones,
            self.cb_brilliance_shadows,
            self.cb_mask_grey_fulcrum,
            self.cb_vibrance,
            self.cb_grey_fulcrum,
            self.cb_contrast,
            self.cb_formula,
        ]
    }

    fn filmic_list(&self) -> (r: Vec<F32>)
        ensures
            r@ == self.filmic_floats(),
    {
        proof {
            reveal(PreviewParams::filmic_floats);
        }
        vec![
            self.filmic_black_point_source,
            self.filmic_white_point_source,
            self.filmic_output_power,
            self.filmic_latitude,
            self.filmic_contrast,
            self.filmic_balance,
            self.filmic_saturation,
        ]
    }

    fn hl_list(&self) -> (r: Vec<F32>)
        ensures
            r@ == self.hl_floats(),
    {
        proof {
            reveal(PreviewParams::hl_floats);
        }
        vec![
            self.hl_clip,
        ]
    }

    fn dn_list(&self) -> (r: Vec<F32>)
        ensures
            r@ == self.dn_floats(),
    {
        proof {
            reveal(PreviewParams::dn_floats);
        }
        vec![
            self.dn_strength,
            self.dn_shadows,
            self.dn_bias,
        ]
    }

    fn bl_list(&self) -> (r: Vec<F32>)
        ensures
            r@ == self.bl_floats(),
    {
        proof {
            reveal(PreviewParams::bl_floats);
        }
        vec![
            self.bl_size,
            self.bl_threshold,
            self.bl_strength,
        ]
    }

    fn tc_list(&self) -> (r: Vec<F32>)
        ensures
            r@ == self.tc_floats(),
    {
        proof {
            reveal(PreviewParams::tc_floats);
        }
        let mut v: Vec<F32> = vec![
            self.tc_type,
            self.tc_autoscale,
            self.tc_preserve,
            self.tc_nnodes,
        ];
        push_nodes(&mut v, &self.tc_nodes_l);
        v
    }

    fn rc_list(&self) -> (r: Vec<F32>)
        ensures
            r@ == self.rc_floats(),
    {
        proof {
            reveal(PreviewParams::rc_floats);
        }
        let mut v: Vec<F32> = vec![
            self.rc_type_r,
            self.rc_type_g,
            self.rc_type_b,
            self.rc_autoscale,
            self.rc_preserve,
            self.rc_nnodes_r,
            self.rc_nnodes_g,
            self.rc_nnodes_b,
        ];
        push_nodes(&mut v, &self.rc_nodes_r);
        push_nodes(&mut v, &self.rc_nodes_g);
        push_nodes(&mut v, &self.rc_nodes_b);
        v
    }

    fn bc_list(&self) -> (r: Vec<F32>)
        ensures
            r@ == self.bc_floats(),
    {
        proof {
            reveal(PreviewParams::bc_floats);
        }
        let mut v: Vec<F32> = vec![
            self.bc_type,
            self.bc_preserve,
            self.bc_nnodes,
            self.bc_exposure_fusion,
            self.bc_exposure_stops,
            self.bc_exposure_bias,
        ];
        push_nodes(&mut v, &self.bc_nodes);
        v
    }

    fn lens_list(&self) -> (r: Vec<F32>)
        ensures
            r@ == self.lens_floats(),
    {
        proof {
            reveal(PreviewParams::lens_floats);
        }
        vec![
            self.lens_modify_flags,
            self.lens_scale,
            self.lens_focal,
            self.lens_aperture,
            self.lens_distance,
            self.lens_target_geom,
        ]
    }

    /// The numbers, in stored order.
    pub(crate) fn number_list(&self) -> (r: Vec<F32>)
        ensures
            r@ == self.floats(),
    {
        let mut v: Vec<F32> = self.tone_list();
        let mut part = self.zones_list();
        v.append(&mut part);
        let mut part = self.creative_list();
        v.append(&mut part);
        let mut part = self.lowpass_list();
        v.append(&mut part);
        let mut part = self.shadhi_list();
        v.append(&mut part);
        let mut part = self.primaries_list();
        v.append(&mut part);
        let mut part = self.negadoctor_list();
        v.append(&mut part);
        let mut part = self.toneeq_list();
        v.append(&mut part);
        let mut part = self.cb_list();
        v.append(&mut part);
        let mut part = self.filmic_list();
        v.append(&mut part);
        let mut part = self.hl_list();
        v.append(&mut part);
        let mut part = self.dn_list();
        v.append(&mut part);
        let mut part = self.bl_list();
        v.append(&mut part);
        let mut part = self.tc_list();
        v.append(&mut part);
        let mut part = self.rc_list();
        v.append(&mut part);
        let mut part = self.bc_list();
        v.append(&mut part);
        let mut part = self.lens_list();
        v.append(&mut part);
        v
    }

    /// Up to twenty anchors that stand interleaved in `f` from `base` on. A slot that
    /// `f` does not reach keeps its place in `dflt`.
    pub fn decode_nodes(f: &[F32], base: usize, dflt: [(F32, F32); 20]) -> (r: [(F32, F32); 20])
        requires
            base <= usize::MAX - 40,
        ensures
            forall|k: int|
                #![trigger r@[k]]
                0 <= k < 20 ==> r@[k] == if base + 2 * k + 1 < f@.len() {
                    (f@[base + 2 * k], f@[base + 1 + 2 * k])
                } else {
                    dflt@[k]
                },
    {
        let mut nodes = dflt;
        let mut k: usize = 0;
        while k < 20
            invariant
                k <= 20,
                base <= usize::MAX - 40,
                forall|j: int|
                    #![trigger nodes@[j]]
                    0 <= j < 20 ==> nodes@[j] == if j < k && base + 2 * j + 1 < f@.len() {
                        (f@[base + 2 * j], f@[base + 1 + 2 * j])
                    } else {
                        dflt@[j]
                    },
            decreases 20 - k,
        {
            if base + 2 * k + 1 < f.len() {
                nodes[k] = (f[base + 2 * k], f[base + 1 + 2 * k]);
            }
            k = k + 1;
        }
        nodes
    }

    /// The parameters with the given flags and numbers.
    #[verifier::rlimit(60)]
    pub(crate) fn from_lists(b: &Vec<bool>, f: &Vec<F32>) -> (r: PreviewParams)
        requires
            b@.len() == 37,
            f@.len() == 444,
        ensures
            r.bools() == b@,
            r.floats() == f@,
    {
        let p = PreviewParams {
            exposure_on: b[0],
            black: f[0],
            ev: f[1],
            velvia_on: b[1],
            velvia_strength: f[2],
            velvia_bias: f[3],
            split_on: b[2],
            split_shadow_hue: f[4],
            split_shadow_sat: f[5],
            split_highlight_hue: f[6],
            split_highlight_sat: f[7],
            split_balance: f[8],
            split_compress: f[9],
            mono_on: b[3],
            mono_r: f[10],
            mono_g: f[11],
            mono_b: f[12],
            sigmoid_on: b[4],
            sigmoid_contrast: f[13],
            sigmoid_skew: f[14],
            sharpen_on: b[5],
            sharpen_radius: f[15],
            sharpen_amount: f[16],
            sharpen_threshold: f[17],
            vibrance_on: b[6],
            vibrance_amount: f[18],
            color_contrast_on: b[7],
            color_contrast_a_steepness: f[19],
            color_contrast_b_steepness: f[20],
            invert_on: b[9],
            invert_r: f[24],
            invert_g: f[25],
            invert_b: f[26],
            temperature_on: b[8],
            temperature_r: f[21],
            temperature_g: f[22],
            temperature_b: f[23],
            colorize_on: b[10],
            colorize_hue: f[27],
            colorize_sat: f[28],
            colorize_lightness: f[29],
            colorize_lightness_mix: f[30],
            color_correction_on: b[11],
            color_correction_loa: f[31],
            color_correction_hia: f[32],
            color_correction_lob: f[33],
            color_correction_hib: f[34],
            color_correction_saturation: f[35],
            colorzones_on: b[12],
            colorzones_strength: f[36],
            colorzones_channel: f[37],
            colorzones_mode: f[38],
            colorzones_num_nodes: [f[39], f[40], f[41]],
            colorzones_curve_type: [f[42], f[43], f[44]],
            colorzones_curve_x: [
                [f[45], f[46], f[47], f[48], f[49], f[50], f[51], f[52]],
                [f[53], f[54], f[55], f[56], f[57], f[58], f[59], f[60]],
                [f[61], f[62], f[63], f[64], f[65], f[66], f[67], f[68]],
            ],
            colorzones_curve_y: [
                [f[69], f[70], f[71], f[72], f[73], f[74], f[75], f[76]],
                [f[77], f[78], f[79], f[80], f[81], f[82], f[83], f[84]],
                [f[85], f[86], f[87], f[88], f[89], f[90], f[91], f[92]],
            ],
            levels_on: b[13],
            levels_black: f[93],
            levels_grey: f[94],
            levels_white: f[95],
            vignette_on: b[14],
            vignette_scale: f[96],
            vignette_falloff: f[97],
            vignette_brightness: f[98],
            vignette_saturation: f[99],
            vignette_center_x: f[100],
            vignette_center_y: f[101],
            vignette_shape: f[102],
            lowlight_on: b[15],
            lowlight_blueness: f[103],
            lowlight_transition: [f[104], f[105], f[106], f[107], f[108], f[109]],
            gradnd_on: b[16],
            gradnd_density: f[110],
            gradnd_hardness: f[111],
            gradnd_rotation: f[112],
            gradnd_offset: f[113],
            gradnd_hue: f[114],
            gradnd_saturation: f[115],
            colisa_on: b[17],
            colisa_contrast: f[116],
            colisa_brightness: f[117],
            colisa_saturation: f[118],
            basicadj_on: b[18],
            basicadj_black_point: f[119],
            basicadj_exposure: f[120],
            basicadj_hlcompr: f[121],
            basicadj_hlcomprthresh: f[122],
            basicadj_contrast: f[123],
            basicadj_preserve_colors: f[124],
            basicadj_middle_grey: f[125],
            basicadj_brightness: f[126],
            basicadj_saturation: f[127],
            basicadj_vibrance: f[128],
            lowpass_on: b[19],
            lowpass_radius: f[129],
            lowpass_contrast: f[130],
            lowpass_brightness: f[131],
            lowpass_saturation: f[132],
            shadhi_on: b[20],
            shadhi_shadows: f[133],
            shadhi_highlights: f[134],
            shadhi_whitepoint: f[135],
            shadhi_radius: f[136],
            shadhi_compress: f[137],
            shadhi_shadows_ccorrect: f[138],
            shadhi_highlights_ccorrect: f[139],
            primaries_on: b[21],
            primaries_achromatic_tint_hue: f[140],
            primaries_achromatic_tint_purity: f[141],
            primaries_red_hue: f[142],
            primaries_red_purity: f[143],
            primaries_green_hue: f[144],
            primaries_green_purity: f[145],
            primaries_blue_hue: f[146],
            primaries_blue_purity: f[147],
            negadoctor_on: b[22],
            negadoctor_film_stock: f[148],
            negadoctor_dmin_r: f[149],
            negadoctor_dmin_g: f[150],
            negadoctor_dmin_b: f[151],
            negadoctor_wb_high_r: f[152],
            negadoctor_wb_high_g: f[153],
            negadoctor_wb_high_b: f[154],
            negadoctor_wb_low_r: f[155],
            negadoctor_wb_low_g: f[156],
            negadoctor_wb_low_b: f[157],
            negadoctor_d_max: f[158],
            negadoctor_offset: f[159],
            negadoctor_black: f[160],
            negadoctor_gamma: f[161],
            negadoctor_soft_clip: f[162],
            negadoctor_exposure: f[163],
            toneeq_on: b[23],
            toneeq_noise: f[164],
            toneeq_ultra_deep_blacks: f[165],
            toneeq_deep_blacks: f[166],
            toneeq_blacks: f[167],
            toneeq_shadows: f[168],
            toneeq_midtones: f[169],
            toneeq_highlights: f[170],
            toneeq_whites: f[171],
            toneeq_speculars: f[172],
            cb_on: b[24],
            cb_shadows_y: f[173],
            cb_shadows_c: f[174],
            cb_shadows_h: f[175],
            cb_midtones_y: f[176],
            cb_midtones_c: f[177],
            cb_midtones_h: f[178],
            cb_highlights_y: f[179],
            cb_highlights_c: f[180],
            cb_highlights_h: f[181],
            cb_global_y: f[182],
            cb_global_c: f[183],
            cb_global_h: f[184],
            cb_shadows_weight: f[185],
            cb_white_fulcrum: f[186],
            cb_highlights_weight: f[187],
            cb_chroma_shadows: f[188],
            cb_chroma_highlights: f[189],
            cb_chroma_global: f[190],
            cb_chroma_midtones: f[191],
            cb_saturation_global: f[192],
            cb_saturation_highlights: f[193],
            cb_saturation_midtones: f[194],
            cb_saturation_shadows: f[195],
            cb_hue_angle: f[196],
            cb_brilliance_global: f[197],
            cb_brilliance_highlights: f[198],
            cb_brilliance_midtones: f[199],
            cb_brilliance_shadows: f[200],
            cb_mask_grey_fulcrum: f[201],
            cb_vibrance: f[202],
            cb_grey_fulcrum: f[203],
            cb_contrast: f[204],
            cb_formula: f[205],
            filmic_on: b[25],
            filmic_black_point_source: f[206],
            filmic_white_point_source: f[207],
            filmic_output_power: f[208],
            filmic_latitude: f[209],
            filmic_contrast: f[210],
            filmic_balance: f[211],
            filmic_saturation: f[212],
            hl_on: b[26],
            hl_opposed: b[27],
            hl_clip: f[213],
            dn_on: b[28],
            dn_mode_y0u0v0: b[29],
            dn_strength: f[214],
            dn_shadows: f[215],
            dn_bias: f[216],
            bl_on: b[30],
            bl_size: f[217],
            bl_threshold: f[218],
            bl_strength: f[219],
            tc_on: b[31],
            tc_type: f[220],
            tc_autoscale: f[221],
            tc_unbound: b[32],
            tc_preserve: f[222],
            tc_nnodes: f[223],
            tc_nodes_l: PreviewParams::decode_nodes(f.as_slice(), 224, identity_nodes_20()),
            rc_on: b[33],
            rc_type_r: f[264],
            rc_type_g: f[265],
            rc_type_b: f[266],
            rc_autoscale: f[267],
            rc_preserve: f[268],
            rc_nnodes_r: f[269],
            rc_nnodes_g: f[270],
            rc_nnodes_b: f[271],
            rc_nodes_r: PreviewParams::decode_nodes(f.as_slice(), 272, identity_nodes_20()),
            rc_nodes_g: PreviewParams::decode_nodes(f.as_slice(), 312, identity_nodes_20()),
            rc_nodes_b: PreviewParams::decode_nodes(f.as_slice(), 352, identity_nodes_20()),
            bc_on: b[34],
            bc_type: f[392],
            bc_preserve: f[393],
            bc_nnodes: f[394],
            bc_exposure_fusion: f[395],
            bc_exposure_stops: f[396],
            bc_exposure_bias: f[397],
            bc_nodes: PreviewParams::decode_nodes(f.as_slice(), 398, identity_nodes_20()),
            lens_on: b[35],
            lens_inverse: b[36],
            lens_modify_flags: f[438],
            lens_scale: f[439],
            lens_focal: f[440],
            lens_aperture: f[441],
            lens_distance: f[442],
            lens_target_geom: f[443],
        };
        proof {
            lemma_bools_from(p, b@);
            lemma_tone_floats_from(p, f@);
            lemma_zones_floats_from(p, f@);
            lemma_creative_floats_from(p, f@);
            lemma_lowpass_floats_from(p, f@);
            lemma_shadhi_floats_from(p, f@);
            lemma_primaries_floats_from(p, f@);
            lemma_negadoctor_floats_from(p, f@);
            lemma_toneeq_floats_from(p, f@);
            lemma_cb_floats_from(p, f@);
            lemma_filmic_floats_from(p, f@);
            lemma_hl_floats_from(p, f@);
            lemma_dn_floats_from(p, f@);
            lemma_bl_floats_from(p, f@);
            lemma_tc_floats_from(p, f@);
            lemma_rc_floats_from(p, f@);
            lemma_bc_floats_from(p, f@);
            lemma_lens_floats_from(p, f@);
            lemma_floats_from(p, f@);
        }
        p
    }
}

proof fn lemma_bools_from(p: PreviewParams, b: Seq<bool>)
    requires
        b.len() == 37,
        p.exposure_on == b[0],
        p.velvia_on == b[1],
        p.split_on == b[2],
        p.mono_on == b[3],
        p.sigmoid_on == b[4],
        p.sharpen_on == b[5],
        p.vibrance_on == b[6],
        p.color_contrast_on == b[7],
        p.temperature_on == b[8],
        p.invert_on == b[9],
        p.colorize_on == b[10],
        p.color_correction_on == b[11],
        p.colorzones_on == b[12],
        p.levels_on == b[13],
        p.vignette_on == b[14],
        p.lowlight_on == b[15],
        p.gradnd_on == b[16],
        p.colisa_on == b[17],
        p.basicadj_on == b[18],
        p.lowpass_on == b[19],
        p.shadhi_on == b[20],
        p.primaries_on == b[21],
        p.negadoctor_on == b[22],
        p.toneeq_on == b[23],
        p.cb_on == b[24],
        p.filmic_on == b[25],
        p.hl_on == b[26],
        p.hl_opposed == b[27],
        p.dn_on == b[28],
        p.dn_mode_y0u0v0 == b[29],
        p.bl_on == b[30],
        p.tc_on == b[31],
        p.tc_unbound == b[32],
        p.rc_on == b[33],
        p.bc_on == b[34],
        p.lens_on == b[35],
        p.lens_inverse == b[36],
    ensures
        p.bools() == b,
{
    lemma_bools(p);
    assert forall|i: int| 0 <= i < 37 implies p.bools()[i] == b[i] by {
        if i == 0 {
        } else if i == 1 {
        } else if i == 2 {
        } else if i == 3 {
        } else if i == 4 {
        } else if i == 5 {
        } else if i == 6 {
        } else if i == 7 {
        } else if i == 8 {
        } else if i == 9 {
        } else if i == 10 {
        } else if i == 11 {
        } else if i == 12 {
        } else if i == 13 {
        } else if i == 14 {
        } else if i == 15 {
        } else if i == 16 {
        } else if i == 17 {
        } else if i == 18 {
        } else if i == 19 {
        } else if i == 20 {
        } else if i == 21 {
        } else if i == 22 {
        } else if i == 23 {
        } else if i == 24 {
        } else if i == 25 {
        } else if i == 26 {
        } else if i == 27 {
        } else if i == 28 {
        } else if i == 29 {
        } else if i == 30 {
        } else if i == 31 {
        } else if i == 32 {
        } else if i == 33 {
        } else if i == 34 {
        } else if i == 35 {
        } else if i == 36 {
        }
    }
    assert(p.bools() =~= b);
}

proof fn lemma_floats_from(p: PreviewParams, f: Seq<F32>)
    requires
        f.len() == 444,
        p.tone_floats() == f.subrange(0, 39),
        p.zones_floats() == f.subrange(39, 93),
        p.creative_floats() == f.subrange(93, 129),
        p.lowpass_floats() == f.subrange(129, 133),
        p.shadhi_floats() == f.subrange(133, 140),
        p.primaries_floats() == f.subrange(140, 148),
        p.negadoctor_floats() == f.subrange(148, 164),
        p.toneeq_floats() == f.subrange(164, 173),
        p.cb_floats() == f.subrange(173, 206),
        p.filmic_floats() == f.subrange(206, 213),
        p.hl_floats() == f.subrange(213, 214),
        p.dn_floats() == f.subrange(214, 217),
        p.bl_floats() == f.subrange(217, 220),
        p.tc_floats() == f.subrange(220, 264),
        p.rc_floats() == f.subrange(264, 392),
        p.bc_floats() == f.subrange(392, 438),
        p.lens_floats() == f.subrange(438, 444),
    ensures
        p.floats() == f,
{
    assert(p.floats() =~= f);
}

proof fn lemma_tone_floats_from(p: PreviewParams, f: Seq<F32>)
    requires
        f.len() == 444,
        p.black == f[0],
        p.ev == f[1],
        p.velvia_strength == f[2],
        p.velvia_bias == f[3],
        p.split_shadow_hue == f[4],
        p.split_shadow_sat == f[5],
        p.split_highlight_hue == f[6],
        p.split_highlight_sat == f[7],
        p.split_balance == f[8],
        p.split_compress == f[9],
        p.mono_r == f[10],
        p.mono_g == f[11],
        p.mono_b == f[12],
        p.sigmoid_contrast == f[13],
        p.sigmoid_skew == f[14],
        p.sharpen_radius == f[15],
        p.sharpen_amount == f[16],
        p.sharpen_threshold == f[17],
        p.vibrance_amount == f[18],
        p.color_contrast_a_steepness == f[19],
        p.color_contrast_b_steepness == f[20],
        p.temperature_r == f[21],
        p.temperature_g == f[22],
        p.temperature_b == f[23],
        p.invert_r == f[24],
        p.invert_g == f[25],
        p.invert_b == f[26],
        p.colorize_hue == f[27],
        p.colorize_sat == f[28],
        p.colorize_lightness == f[29],
        p.colorize_lightness_mix == f[30],
        p.color_correction_loa == f[31],
        p.color_correction_hia == f[32],
        p.color_correction_lob == f[33],
        p.color_correction_hib == f[34],
        p.color_correction_saturation == f[35],
        p.colorzones_strength == f[36],
        p.colorzones_channel == f[37],
        p.colorzones_mode == f[38],
    ensures
        p.tone_floats() == f.subrange(0, 39),
{
    reveal(PreviewParams::tone_floats);
    assert(p.tone_floats() =~= f.subrange(0, 39));
}

proof fn lemma_zones_floats_from(p: PreviewParams, f: Seq<F32>)
    requires
        f.len() == 444,
        p.colorzones_num_nodes@[0] == f[39],
        p.colorzones_num_nodes@[1] == f[40],
        p.colorzones_num_nodes@[2] == f[41],
        p.colorzones_curve_type@[0] == f[42],
        p.colorzones_curve_type@[1] == f[43],
        p.colorzones_curve_type@[2] == f[44],
        p.colorzones_curve_x@[0]@[0] == f[45],
        p.colorzones_curve_x@[0]@[1] == f[46],
        p.colorzones_curve_x@[0]@[2] == f[47],
        p.colorzones_curve_x@[0]@[3] == f[48],
        p.colorzones_curve_x@[0]@[4] == f[49],
        p.colorzones_curve_x@[0]@[5] == f[50],
        p.colorzones_curve_x@[0]@[6] == f[51],
        p.colorzones_curve_x@[0]@[7] == f[52],
        p.colorzones_curve_x@[1]@[0] == f[53],
        p.colorzones_curve_x@[1]@[1] == f[54],
        p.colorzones_curve_x@[1]@[2] == f[55],
        p.colorzones_curve_x@[1]@[3] == f[56],
        p.colorzones_curve_x@[1]@[4] == f[57],
        p.colorzones_curve_x@[1]@[5] == f[58],
        p.colorzones_curve_x@[1]@[6] == f[59],
        p.colorzones_curve_x@[1]@[7] == f[60],
        p.colorzones_curve_x@[2]@[0] == f[61],
        p.colorzones_curve_x@[2]@[1] == f[62],
        p.colorzones_curve_x@[2]@[2] == f[63],
        p.colorzones_curve_x@[2]@[3] == f[64],
        p.colorzones_curve_x@[2]@[4] == f[65],
        p.colorzones_curve_x@[2]@[5] == f[66],
        p.colorzones_curve_x@[2]@[6] == f[67],
        p.colorzones_curve_x@[2]@[7] == f[68],
        p.colorzones_curve_y@[0]@[0] == f[69],
        p.colorzones_curve_y@[0]@[1] == f[70],
        p.colorzones_curve_y@[0]@[2] == f[71],
        p.colorzones_curve_y@[0]@[3] == f[72],
        p.colorzones_curve_y@[0]@[4] == f[73],
        p.colorzones_curve_y@[0]@[5] == f[74],
        p.colorzones_curve_y@[0]@[6] == f[75],
        p.colorzones_curve_y@[0]@[7] == f[76],
        p.colorzones_curve_y@[1]@[0] == f[77],
        p.colorzones_curve_y@[1]@[1] == f[78],
        p.colorzones_curve_y@[1]@[2] == f[79],
        p.colorzones_curve_y@[1]@[3] == f[80],
        p.colorzones_curve_y@[1]@[4] == f[81],
        p.colorzones_curve_y@[1]@[5] == f[82],
        p.colorzones_curve_y@[1]@[6] == f[83],
        p.colorzones_curve_y@[1]@[7] == f[84],
        p.colorzones_curve_y@[2]@[0] == f[85],
        p.colorzones_curve_y@[2]@[1] == f[86],
        p.colorzones_curve_y@[2]@[2] == f[87],
        p.colorzones_curve_y@[2]@[3] == f[88],
        p.colorzones_curve_y@[2]@[4] == f[89],
        p.colorzones_curve_y@[2]@[5] == f[90],
        p.colorzones_curve_y@[2]@[6] == f[91],
        p.colorzones_curve_y@[2]@[7] == f[92],
    ensures
        p.zones_floats() == f.subrange(39, 93),
{
    reveal(PreviewParams::zones_floats);
    assert(p.colorzones_num_nodes@ =~= f.subrange(39, 42));
    assert(p.colorzones_curve_type@ =~= f.subrange(42, 45));
    assert(rows_of_eight(p.colorzones_curve_x) =~= f.subrange(45, 69));
    assert(rows_of_eight(p.colorzones_curve_y) =~= f.subrange(69, 93));
    assert(p.zones_floats() =~= f.subrange(39, 93));
}

proof fn lemma_creative_floats_from(p: PreviewParams, f: Seq<F32>)
    requires
        f.len() == 444,
        p.levels_black == f[93],
        p.levels_grey == f[94],
        p.levels_white == f[95],
        p.vignette_scale == f[96],
        p.vignette_falloff == f[97],
        p.vignette_brightness == f[98],
        p.vignette_saturation == f[99],
        p.vignette_center_x == f[100],
        p.vignette_center_y == f[101],
        p.vignette_shape == f[102],
        p.lowlight_blueness == f[103],
        p.lowlight_transition@[0] == f[104],
        p.lowlight_transition@[1] == f[105],
        p.lowlight_transition@[2] == f[106],
        p.lowlight_transition@[3] == f[107],
        p.lowlight_transition@[4] == f[108],
        p.lowlight_transition@[5] == f[109],
        p.gradnd_density == f[110],
        p.gradnd_hardness == f[111],
        p.gradnd_rotation == f[112],
        p.gradnd_offset == f[113],
        p.gradnd_hue == f[114],
        p.gradnd_saturation == f[115],
        p.colisa_contrast == f[116],
        p.colisa_brightness == f[117],
        p.colisa_saturation == f[118],
        p.basicadj_black_point == f[119],
        p.basicadj_exposure == f[120],
        p.basicadj_hlcompr == f[121],
        p.basicadj_hlcomprthresh == f[122],
        p.basicadj_contrast == f[123],
        p.basicadj_preserve_colors == f[124],
        p.basicadj_middle_grey == f[125],
        p.basicadj_brightness == f[126],
        p.basicadj_saturation == f[127],
        p.basicadj_vibrance == f[128],
    ensures
        p.creative_floats() == f.subrange(93, 129),
{
    reveal(PreviewParams::creative_floats);
    assert(p.lowlight_transition@ =~= f.subrange(104, 110));
    assert(p.creative_floats() =~= f.subrange(93, 129));
}

proof fn lemma_lowpass_floats_from(p: PreviewParams, f: Seq<F32>)
    requires
        f.len() == 444,
        p.lowpass_radius == f[129],
        p.lowpass_contrast == f[130],
        p.lowpass_brightness == f[131],
        p.lowpass_saturation == f[132],
    ensures
        p.lowpass_floats() == f.subrange(129, 133),
{
    reveal(PreviewParams::lowpass_floats);
    assert(p.lowpass_floats() =~= f.subrange(129, 133));
}

proof fn lemma_shadhi_floats_from(p: PreviewParams, f: Seq<F32>)
    requires
        f.len() == 444,
        p.shadhi_shadows == f[133],
        p.shadhi_highlights == f[134],
        p.shadhi_whitepoint == f[135],
        p.shadhi_radius == f[136],
        p.shadhi_compress == f[137],
        p.shadhi_shadows_ccorrect == f[138],
        p.shadhi_highlights_ccorrect == f[139],
    ensures
        p.shadhi_floats() == f.subrange(133, 140),
{
    reveal(PreviewParams::shadhi_floats);
    assert(p.shadhi_floats() =~= f.subrange(133, 140));
}

proof fn lemma_primaries_floats_from(p: PreviewParams, f: Seq<F32>)
    requires
        f.len() == 444,
        p.primaries_achromatic_tint_hue == f[140],
        p.primaries_achromatic_tint_purity == f[141],
        p.primaries_red_hue == f[142],
        p.primaries_red_purity == f[143],
        p.primaries_green_hue == f[144],
        p.primaries_green_purity == f[145],
        p.primaries_blue_hue == f[146],
        p.primaries_blue_purity == f[147],
    ensures
        p.primaries_floats() == f.subrange(140, 148),
{
    reveal(PreviewParams::primaries_floats);
    assert(p.primaries_floats() =~= f.subrange(140, 148));
}

proof fn lemma_negadoctor_floats_from(p: PreviewParams, f: Seq<F32>)
    requires
        f.len() == 444,
        p.negadoctor_film_stock == f[148],
        p.negadoctor_dmin_r == f[149],
        p.negadoctor_dmin_g == f[150],
        p.negadoctor_dmin_b == f[151],
        p.negadoctor_wb_high_r == f[152],
        p.negadoctor_wb_high_g == f[153],
        p.negadoctor_wb_high_b == f[154],
        p.negadoctor_wb_low_r == f[155],
        p.negadoctor_wb_low_g == f[156],
        p.negadoctor_wb_low_b == f[157],
        p.negadoctor_d_max == f[158],
        p.negadoctor_offset == f[159],
        p.negadoctor_black == f[160],
        p.negadoctor_gamma == f[161],
        p.negadoctor_soft_clip == f[162],
        p.negadoctor_exposure == f[163],
    ensures
        p.negadoctor_floats() == f.subrange(148, 164),
{
    reveal(PreviewParams::negadoctor_floats);
    assert(p.negadoctor_floats() =~= f.subrange(148, 164));
}

proof fn lemma_toneeq_floats_from(p: PreviewParams, f: Seq<F32>)
    requires
        f.len() == 444,
        p.toneeq_noise == f[164],
        p.toneeq_ultra_deep_blacks == f[165],
        p.toneeq_deep_blacks == f[166],
        p.toneeq_blacks == f[167],
        p.toneeq_shadows == f[168],
        p.toneeq_midtones == f[169],
        p.toneeq_highlights == f[170],
        p.toneeq_whites == f[171],
        p.toneeq_speculars == f[172],
    ensures
        p.toneeq_floats() == f.subrange(164, 173),
{
    reveal(PreviewParams::toneeq_floats);
    assert(p.toneeq_floats() =~= f.subrange(164, 173));
}

proof fn lemma_cb_floats_from(p: PreviewParams, f: Seq<F32>)
    requires
        f.len() == 444,
        p.cb_shadows_y == f[173],
        p.cb_shadows_c == f[174],
        p.cb_shadows_h == f[175],
        p.cb_midtones_y == f[176],
        p.cb_midtones_c == f[177],
        p.cb_midtones_h == f[178],
        p.cb_highlights_y == f[179],
        p.cb_highlights_c == f[180],
        p.cb_highlights_h == f[181],
        p.cb_global_y == f[182],
        p.cb_global_c == f[183],
        p.cb_global_h == f[184],
        p.cb_shadows_weight == f[185],
        p.cb_white_fulcrum == f[186],
        p.cb_highlights_weight == f[187],
        p.cb_chroma_shadows == f[188],
        p.cb_chroma_highlights == f[189],
        p.cb_chroma_global == f[190],
        p.cb_chroma_midtones == f[191],
        p.cb_saturation_global == f[192],
        p.cb_saturation_highlights == f[193],
        p.cb_saturation_midtones == f[194],
        p.cb_saturation_shadows == f[195],
        p.cb_hue_angle == f[196],
        p.cb_brilliance_global == f[197],
        p.cb_brilliance_highlights == f[198],
        p.cb_brilliance_midtones == f[199],
        p.cb_brilliance_shadows == f[200],
        p.cb_mask_grey_fulcrum == f[201],
        p.cb_vibrance == f[202],
        p.cb_grey_fulcrum == f[203],
        p.cb_contrast == f[204],
        p.cb_formula == f[205],
    ensures
        p.cb_floats() == f.subrange(173, 206),
{
    reveal(PreviewParams::cb_floats);
    assert(p.cb_floats() =~= f.subrange(173, 206));
}

proof fn lemma_filmic_floats_from(p: PreviewParams, f: Seq<F32>)
    requires
        f.len() == 444,
        p.filmic_black_point_source == f[206],
        p.filmic_white_point_source == f[207],
        p.filmic_output_power == f[208],
        p.filmic_latitude == f[209],
        p.filmic_contrast == f[210],
        p.filmic_balance == f[211],
        p.filmic_saturation == f[212],
    ensures
        p.filmic_floats() == f.subrange(206, 213),
{
    reveal(PreviewParams::filmic_floats);
    assert(p.filmic_floats() =~= f.subrange(206, 213));
}

proof fn lemma_hl_floats_from(p: PreviewParams, f: Seq<F32>)
    requires
        f.len() == 444,
        p.hl_clip == f[213],
    ensures
        p.hl_floats() == f.subrange(213, 214),
{
    reveal(PreviewParams::hl_floats);
    assert(p.hl_floats() =~= f.subrange(213, 214));
}

proof fn lemma_dn_floats_from(p: PreviewParams, f: Seq<F32>)
    requires
        f.len() == 444,
        p.dn_strength == f[214],
        p.dn_shadows == f[215],
        p.dn_bias == f[216],
    ensures
        p.dn_floats() == f.subrange(214, 217),
{
    reveal(PreviewParams::dn_floats);
    assert(p.dn_floats() =~= f.subrange(214, 217));
}

proof fn lemma_bl_floats_from(p: PreviewParams, f: Seq<F32>)
    requires
        f.len() == 444,
        p.bl_size == f[217],
        p.bl_threshold == f[218],
        p.bl_strength == f[219],
    ensures
        p.bl_floats() == f.subrange(217, 220),
{
    reveal(PreviewParams::bl_floats);
    assert(p.bl_floats() =~= f.subrange(217, 220));
}

proof fn lemma_tc_floats_from(p: PreviewParams, f: Seq<F32>)
    requires
        f.len() == 444,
        p.tc_type == f[220],
        p.tc_autoscale == f[221],
        p.tc_preserve == f[222],
        p.tc_nnodes == f[223],
        forall|k: int| 0 <= k < 20 ==> #[trigger] p.tc_nodes_l@[k] == (f[224 + 2 * k], f[225 + 2 * k]),
    ensures
        p.tc_floats() == f.subrange(220, 264),
{
    reveal(PreviewParams::tc_floats);
    assert forall|i: int| 0 <= i < 40 implies interleaved(p.tc_nodes_l)[i] == f[224 + i] by {
        assert(p.tc_nodes_l@[i / 2] == (f[224 + 2 * (i / 2)], f[225 + 2 * (i / 2)]));
    }
    assert(p.tc_floats() =~= f.subrange(220, 264));
}

proof fn lemma_rc_floats_from(p: PreviewParams, f: Seq<F32>)
    requires
        f.len() == 444,
        p.rc_type_r == f[264],
        p.rc_type_g == f[265],
        p.rc_type_b == f[266],
        p.rc_autoscale == f[267],
        p.rc_preserve == f[268],
        p.rc_nnodes_r == f[269],
        p.rc_nnodes_g == f[270],
        p.rc_nnodes_b == f[271],
        forall|k: int| 0 <= k < 20 ==> #[trigger] p.rc_nodes_r@[k] == (f[272 + 2 * k], f[273 + 2 * k]),
        forall|k: int| 0 <= k < 20 ==> #[trigger] p.rc_nodes_g@[k] == (f[312 + 2 * k], f[313 + 2 * k]),
        forall|k: int| 0 <= k < 20 ==> #[trigger] p.rc_nodes_b@[k] == (f[352 + 2 * k], f[353 + 2 * k]),
    ensures
        p.rc_floats() == f.subrange(264, 392),
{
    reveal(PreviewParams::rc_floats);
    assert forall|i: int| 0 <= i < 40 implies interleaved(p.rc_nodes_r)[i] == f[272 + i] by {
        assert(p.rc_nodes_r@[i / 2] == (f[272 + 2 * (i / 2)], f[273 + 2 * (i / 2)]));
    }
    assert forall|i: int| 0 <= i < 40 implies interleaved(p.rc_nodes_g)[i] == f[312 + i] by {
        assert(p.rc_nodes_g@[i / 2] == (f[312 + 2 * (i / 2)], f[313 + 2 * (i / 2)]));
    }
    assert forall|i: int| 0 <= i < 40 implies interleaved(p.rc_nodes_b)[i] == f[352 + i] by {
        assert(p.rc_nodes_b@[i / 2] == (f[352 + 2 * (i / 2)], f[353 + 2 * (i / 2)]));
    }
    assert(p.rc_floats() =~= f.subrange(264, 392));
}

proof fn lemma_bc_floats_from(p: PreviewParams, f: Seq<F32>)
    requires
        f.len() == 444,
        p.bc_type == f[392],
        p.bc_preserve == f[393],
        p.bc_nnodes == f[394],
        p.bc_exposure_fusion == f[395],
        p.bc_exposure_stops == f[396],
        p.bc_exposure_bias == f[397],
        forall|k: int| 0 <= k < 20 ==> #[trigger] p.bc_nodes@[k] == (f[398 + 2 * k], f[399 + 2 * k]),
    ensures
        p.bc_floats() == f.subrange(392, 438),
{
    reveal(PreviewParams::bc_floats);
    assert forall|i: int| 0 <= i < 40 implies interleaved(p.bc_nodes)[i] == f[398 + i] by {
        assert(p.bc_nodes@[i / 2] == (f[398 + 2 * (i / 2)], f[399 + 2 * (i / 2)]));
    }
    assert(p.bc_floats() =~= f.subrange(392, 438));
}

proof fn lemma_lens_floats_from(p: PreviewParams, f: Seq<F32>)
    requires
        f.len() == 444,
        p.lens_modify_flags == f[438],
        p.lens_scale == f[439],
        p.lens_focal == f[440],
        p.lens_aperture == f[441],
        p.lens_distance == f[442],
        p.lens_target_geom == f[443],
    ensures
        p.lens_floats() == f.subrange(438, 444),
{
    reveal(PreviewParams::lens_floats);
    assert(p.lens_floats() =~= f.subrange(438, 444));
}

fn push_values(v: &mut Vec<F32>, xs: &[F32])
    ensures
        final(v)@ == old(v)@ + xs@,
{
    let mut i: usize = 0;
    while i < xs.len()
        invariant
            i <= xs@.len(),
            v@ == old(v)@ + xs@.take(i as int),
        decreases xs@.len() - i,
    {
        v.push(xs[i]);
        assert(xs@.take(i + 1) =~= xs@.take(i as int).push(xs@[i as int]));
        i = i + 1;
    }
    assert(xs@.take(xs@.len() as int) =~= xs@);
}

fn push_rows(v: &mut Vec<F32>, grid: &[[F32; 8]; 3])
    ensures
        final(v)@ == old(v)@ + rows_of_eight(*grid),
{
    let ghost all = rows_of_eight(*grid);
    let mut c: usize = 0;
    while c < 3
        invariant
            c <= 3,
            all == rows_of_eight(*grid),
            v@ == old(v)@ + all.take(8 * c),
        decreases 3 - c,
    {
        let row = grid[c];
        push_values(v, row.as_slice());
        proof {
            assert forall|k: int| 0 <= k < 8 implies all[8 * c + k] == row@[k] by {
                assert((8 * c + k) / 8 == c && (8 * c + k) % 8 == k);
            }
            assert(all.take(8 * (c + 1)) =~= all.take(8 * c) + row@);
        }
        c = c + 1;
    }
    assert(all.take(24) =~= all);
}

fn push_nodes(v: &mut Vec<F32>, nodes: &[(F32, F32); 20])
    ensures
        final(v)@ == old(v)@ + interleaved(*nodes),
{
    let ghost all = interleaved(*nodes);
    let mut k: usize = 0;
    while k < 20
        invariant
            k <= 20,
            all == interleaved(*nodes),
            v@ == old(v)@ + all.take(2 * k),
        decreases 20 - k,
    {
        let (x, y) = nodes[k];
        v.push(x);
        v.push(y);
        proof {
            assert((2 * k) / 2 == k && (2 * k + 1) / 2 == k);
            assert(all.take(2 * (k + 1)) =~= all.take(2 * k).push(x).push(y));
        }
        k = k + 1;
    }
    assert(all.take(40) =~= all);
}

/// Where the numbers of the first modules stand among those of an edit.
pub proof fn law_places_of_tone_numbers(p: PreviewParams)
    ensures
        p.floats().len() == 444,
        p.floats()[0] == p.black,
        p.floats()[1] == p.ev,
        p.floats()[2] == p.velvia_strength,
        p.floats()[3] == p.velvia_bias,
        p.floats()[4] == p.split_shadow_hue,
        p.floats()[5] == p.split_shadow_sat,
        p.floats()[6] == p.split_highlight_hue,
        p.floats()[7] == p.split_highlight_sat,
        p.floats()[8] == p.split_balance,
        p.floats()[9] == p.split_compress,
        p.floats()[10] == p.mono_r,
        p.floats()[11] == p.mono_g,
        p.floats()[12] == p.mono_b,
        p.floats()[13] == p.sigmoid_contrast,
        p.floats()[14] == p.sigmoid_skew,
        p.floats()[15] == p.sharpen_radius,
        p.floats()[16] == p.sharpen_amount,
        p.floats()[17] == p.sharpen_threshold,
        p.floats()[18] == p.vibrance_amount,
        p.floats()[19] == p.color_contrast_a_steepness,
        p.floats()[20] == p.color_contrast_b_steepness,
        p.floats()[21] == p.temperature_r,
        p.floats()[22] == p.temperature_g,
        p.floats()[23] == p.temperature_b,
        p.floats()[24] == p.invert_r,
        p.floats()[25] == p.invert_g,
        p.floats()[26] == p.invert_b,
        p.floats()[27] == p.colorize_hue,
        p.floats()[28] == p.colorize_sat,
        p.floats()[29] == p.colorize_lightness,
        p.floats()[30] == p.colorize_lightness_mix,
        p.floats()[31] == p.color_correction_loa,
        p.floats()[32] == p.color_correction_hia,
        p.floats()[33] == p.color_correction_lob,
        p.floats()[34] == p.color_correction_hib,
        p.floats()[35] == p.color_correction_saturation,
        p.floats()[36] == p.colorzones_strength,
        p.floats()[37] == p.colorzones_channel,
        p.floats()[38] == p.colorzones_mode,
{
    lemma_parts(p);
    lemma_tone_floats(p);
    let z = p.tone_floats();
    assert forall|k: int| 0 <= k < 39 implies #[trigger] p.floats()[k] == z[k - 0] by {
        assert(p.floats().subrange(0, 39)[k - 0] == p.floats()[k]);
    }
}

/// Where the numbers of the colour zones stand among those of an edit.
pub proof fn law_places_of_zones_numbers(p: PreviewParams)
    ensures
        p.floats().len() == 444,
        p.floats()[39] == p.colorzones_num_nodes@[0],
        p.floats()[40] == p.colorzones_num_nodes@[1],
        p.floats()[41] == p.colorzones_num_nodes@[2],
        p.floats()[42] == p.colorzones_curve_type@[0],
        p.floats()[43] == p.colorzones_curve_type@[1],
        p.floats()[44] == p.colorzones_curve_type@[2],
        p.floats()[45] == p.colorzones_curve_x@[0]@[0],
        p.floats()[46] == p.colorzones_curve_x@[0]@[1],
        p.floats()[47] == p.colorzones_curve_x@[0]@[2],
        p.floats()[48] == p.colorzones_curve_x@[0]@[3],
        p.floats()[49] == p.colorzones_curve_x@[0]@[4],
        p.floats()[50] == p.colorzones_curve_x@[0]@[5],
        p.floats()[51] == p.colorzones_curve_x@[0]@[6],
        p.floats()[52] == p.colorzones_curve_x@[0]@[7],
        p.floats()[53] == p.colorzones_curve_x@[1]@[0],
        p.floats()[54] == p.colorzones_curve_x@[1]@[1],
        p.floats()[55] == p.colorzones_curve_x@[1]@[2],
        p.floats()[56] == p.colorzones_curve_x@[1]@[3],
        p.floats()[57] == p.colorzones_curve_x@[1]@[4],
        p.floats()[58] == p.colorzones_curve_x@[1]@[5],
        p.floats()[59] == p.colorzones_curve_x@[1]@[6],
        p.floats()[60] == p.colorzones_curve_x@[1]@[7],
        p.floats()[61] == p.colorzones_curve_x@[2]@[0],
        p.floats()[62] == p.colorzones_curve_x@[2]@[1],
        p.floats()[63] == p.colorzones_curve_x@[2]@[2],
        p.floats()[64] == p.colorzones_curve_x@[2]@[3],
        p.floats()[65] == p.colorzones_curve_x@[2]@[4],
        p.floats()[66] == p.colorzones_curve_x@[2]@[5],
        p.floats()[67] == p.colorzones_curve_x@[2]@[6],
        p.floats()[68] == p.colorzones_curve_x@[2]@[7],
        p.floats()[69] == p.colorzones_curve_y@[0]@[0],
        p.floats()[70] == p.colorzones_curve_y@[0]@[1],
        p.floats()[71] == p.colorzones_curve_y@[0]@[2],
        p.floats()[72] == p.colorzones_curve_y@[0]@[3],
        p.floats()[73] == p.colorzones_curve_y@[0]@[4],
        p.floats()[74] == p.colorzones_curve_y@[0]@[5],
        p.floats()[75] == p.colorzones_curve_y@[0]@[6],
        p.floats()[76] == p.colorzones_curve_y@[0]@[7],
        p.floats()[77] == p.colorzones_curve_y@[1]@[0],
        p.floats()[78] == p.colorzones_curve_y@[1]@[1],
        p.floats()[79] == p.colorzones_curve_y@[1]@[2],
        p.floats()[80] == p.colorzones_curve_y@[1]@[3],
        p.floats()[81] == p.colorzones_curve_y@[1]@[4],
        p.floats()[82] == p.colorzones_curve_y@[1]@[5],
        p.floats()[83] == p.colorzones_curve_y@[1]@[6],
        p.floats()[84] == p.colorzones_curve_y@[1]@[7],
        p.floats()[85] == p.colorzones_curve_y@[2]@[0],
        p.floats()[86] == p.colorzones_curve_y@[2]@[1],
        p.floats()[87] == p.colorzones_curve_y@[2]@[2],
        p.floats()[88] == p.colorzones_curve_y@[2]@[3],
        p.floats()[89] == p.colorzones_curve_y@[2]@[4],
        p.floats()[90] == p.colorzones_curve_y@[2]@[5],
        p.floats()[91] == p.colorzones_curve_y@[2]@[6],
        p.floats()[92] == p.colorzones_curve_y@[2]@[7],
{
    lemma_parts(p);
    lemma_zones_floats(p);
    let z = p.zones_floats();
    assert forall|k: int| 39 <= k < 93 implies #[trigger] p.floats()[k] == z[k - 39] by {
        assert(p.floats().subrange(39, 93)[k - 39] == p.floats()[k]);
    }
    assert forall|i: int| 0 <= i < 3 implies #[trigger] p.floats()[39 + i]
        == p.colorzones_num_nodes@[i] && p.floats()[42 + i] == p.colorzones_curve_type@[i] by {
        assert(z.subrange(0, 3)[i] == z[i] && z.subrange(3, 6)[i] == z[3 + i]);
    }
    assert forall|r: int, c: int| 0 <= r < 3 && 0 <= c < 8 implies #[trigger] p.colorzones_curve_x@[r]@[c]
        == p.floats()[45 + 8 * r + c] by {
        assert((8 * r + c) / 8 == r && (8 * r + c) % 8 == c);
        assert(z.subrange(6, 30)[8 * r + c] == z[6 + 8 * r + c]);
    }
    assert forall|r: int, c: int| 0 <= r < 3 && 0 <= c < 8 implies #[trigger] p.colorzones_curve_y@[r]@[c]
        == p.floats()[69 + 8 * r + c] by {
        assert((8 * r + c) / 8 == r && (8 * r + c) % 8 == c);
        assert(z.subrange(30, 54)[8 * r + c] == z[30 + 8 * r + c]);
    }
}

/// Where the numbers of the levels and the modules after them stand among those of an edit.
pub proof fn law_places_of_creative_numbers(p: PreviewParams)
    ensures
        p.floats().len() == 444,
        p.floats()[93] == p.levels_black,
        p.floats()[94] == p.levels_grey,
        p.floats()[95] == p.levels_white,
        p.floats()[96] == p.vignette_scale,
        p.floats()[97] == p.vignette_falloff,
        p.floats()[98] == p.vignette_brightness,
        p.floats()[99] == p.vignette_saturation,
        p.floats()[100] == p.vignette_center_x,
        p.floats()[101] == p.vignette_center_y,
        p.floats()[102] == p.vignette_shape,
        p.floats()[103] == p.lowlight_blueness,
        p.floats()[104] == p.lowlight_transition@[0],
        p.floats()[105] == p.lowlight_transition@[1],
        p.floats()[106] == p.lowlight_transition@[2],
        p.floats()[107] == p.lowlight_transition@[3],
        p.floats()[108] == p.lowlight_transition@[4],
        p.floats()[109] == p.lowlight_transition@[5],
        p.floats()[110] == p.gradnd_density,
        p.floats()[111] == p.gradnd_hardness,
        p.floats()[112] == p.gradnd_rotation,
        p.floats()[113] == p.gradnd_offset,
        p.floats()[114] == p.gradnd_hue,
        p.floats()[115] == p.gradnd_saturation,
        p.floats()[116] == p.colisa_contrast,
        p.floats()[117] == p.colisa_brightness,
        p.floats()[118] == p.colisa_saturation,
        p.floats()[119] == p.basicadj_black_point,
        p.floats()[120] == p.basicadj_exposure,
        p.floats()[121] == p.basicadj_hlcompr,
        p.floats()[122] == p.basicadj_hlcomprthresh,
        p.floats()[123] == p.basicadj_contrast,
        p.floats()[124] == p.basicadj_preserve_colors,
        p.floats()[125] == p.basicadj_middle_grey,
        p.floats()[126] == p.basicadj_brightness,
        p.floats()[127] == p.basicadj_saturation,
        p.floats()[128] == p.basicadj_vibrance,
{
    lemma_parts(p);
    lemma_creative_floats(p);
    let z = p.creative_floats();
    assert forall|k: int| 93 <= k < 129 implies #[trigger] p.floats()[k] == z[k - 93] by {
        assert(p.floats().subrange(93, 129)[k - 93] == p.floats()[k]);
    }
    assert forall|i: int| 0 <= i < 6 implies #[trigger] p.lowlight_transition@[i] == z[11 + i] by {
        assert(z.subrange(11, 17)[i] == z[11 + i]);
    }
}

/// Where the numbers of lowpass stand among those of an edit.
pub proof fn law_places_of_lowpass_numbers(p: PreviewParams)
    ensures
        p.floats().len() == 444,
        p.floats()[129] == p.lowpass_radius,
        p.floats()[130] == p.lowpass_contrast,
        p.floats()[131] == p.lowpass_brightness,
        p.floats()[132] == p.lowpass_saturation,
{
    lemma_parts(p);
    lemma_lowpass_floats(p);
    let z = p.lowpass_floats();
    assert forall|k: int| 129 <= k < 133 implies #[trigger] p.floats()[k] == z[k - 129] by {
        assert(p.floats().subrange(129, 133)[k - 129] == p.floats()[k]);
    }
}

/// Where the numbers of shadows and highlights stand among those of an edit.
pub proof fn law_places_of_shadhi_numbers(p: PreviewParams)
    ensures
        p.floats().len() == 444,
        p.floats()[133] == p.shadhi_shadows,
        p.floats()[134] == p.shadhi_highlights,
        p.floats()[135] == p.shadhi_whitepoint,
        p.floats()[136] == p.shadhi_radius,
        p.floats()[137] == p.shadhi_compress,
        p.floats()[138] == p.shadhi_shadows_ccorrect,
        p.floats()[139] == p.shadhi_highlights_ccorrect,
{
    lemma_parts(p);
    lemma_shadhi_floats(p);
    let z = p.shadhi_floats();
    assert forall|k: int| 133 <= k < 140 implies #[trigger] p.floats()[k] == z[k - 133] by {
        assert(p.floats().subrange(133, 140)[k - 133] == p.floats()[k]);
    }
}

/// Where the numbers of the primaries stand among those of an edit.
pub proof fn law_places_of_primaries_numbers(p: PreviewParams)
    ensures
        p.floats().len() == 444,
        p.floats()[140] == p.primaries_achromatic_tint_hue,
        p.floats()[141] == p.primaries_achromatic_tint_purity,
        p.floats()[142] == p.primaries_red_hue,
        p.floats()[143] == p.primaries_red_purity,
        p.floats()[144] == p.primaries_green_hue,
        p.floats()[145] == p.primaries_green_purity,
        p.floats()[146] == p.primaries_blue_hue,
        p.floats()[147] == p.primaries_blue_purity,
{
    lemma_parts(p);
    lemma_primaries_floats(p);
    let z = p.primaries_floats();
    assert forall|k: int| 140 <= k < 148 implies #[trigger] p.floats()[k] == z[k - 140] by {
        assert(p.floats().subrange(140, 148)[k - 140] == p.floats()[k]);
    }
}

/// Where the numbers of the film scan inversion stand among those of an edit.
pub proof fn law_places_of_negadoctor_numbers(p: PreviewParams)
    ensures
        p.floats().len() == 444,
        p.floats()[148] == p.negadoctor_film_stock,
        p.floats()[149] == p.negadoctor_dmin_r,
        p.floats()[150] == p.negadoctor_dmin_g,
        p.floats()[151] == p.negadoctor_dmin_b,
        p.floats()[152] == p.negadoctor_wb_high_r,
        p.floats()[153] == p.negadoctor_wb_high_g,
        p.floats()[154] == p.negadoctor_wb_high_b,
        p.floats()[155] == p.negadoctor_wb_low_r,
        p.floats()[156] == p.negadoctor_wb_low_g,
        p.floats()[157] == p.negadoctor_wb_low_b,
        p.floats()[158] == p.negadoctor_d_max,
        p.floats()[159] == p.negadoctor_offset,
        p.floats()[160] == p.negadoctor_black,
        p.floats()[161] == p.negadoctor_gamma,
        p.floats()[162] == p.negadoctor_soft_clip,
        p.floats()[163] == p.negadoctor_exposure,
{
    lemma_parts(p);
    lemma_negadoctor_floats(p);
    let z = p.negadoctor_floats();
    assert forall|k: int| 148 <= k < 164 implies #[trigger] p.floats()[k] == z[k - 148] by {
        assert(p.floats().subrange(148, 164)[k - 148] == p.floats()[k]);
    }
}

/// Where the numbers of the tone equalizer stand among those of an edit.
pub proof fn law_places_of_toneeq_numbers(p: PreviewParams)
    ensures
        p.floats().len() == 444,
        p.floats()[164] == p.toneeq_noise,
        p.floats()[165] == p.toneeq_ultra_deep_blacks,
        p.floats()[166] == p.toneeq_deep_blacks,
        p.floats()[167] == p.toneeq_blacks,
        p.floats()[168] == p.toneeq_shadows,
        p.floats()[169] == p.toneeq_midtones,
        p.floats()[170] == p.toneeq_highlights,
        p.floats()[171] == p.toneeq_whites,
        p.floats()[172] == p.toneeq_speculars,
{
    lemma_parts(p);
    lemma_toneeq_floats(p);
    let z = p.toneeq_floats();
    assert forall|k: int| 164 <= k < 173 implies #[trigger] p.floats()[k] == z[k - 164] by {
        assert(p.floats().subrange(164, 173)[k - 164] == p.floats()[k]);
    }
}

/// Where the numbers of colour balance stand among those of an edit.
pub proof fn law_places_of_cb_numbers(p: PreviewParams)
    ensures
        p.floats().len() == 444,
        p.floats()[173] == p.cb_shadows_y,
        p.floats()[174] == p.cb_shadows_c,
        p.floats()[175] == p.cb_shadows_h,
        p.floats()[176] == p.cb_midtones_y,
        p.floats()[177] == p.cb_midtones_c,
        p.floats()[178] == p.cb_midtones_h,
        p.floats()[179] == p.cb_highlights_y,
        p.floats()[180] == p.cb_highlights_c,
        p.floats()[181] == p.cb_highlights_h,
        p.floats()[182] == p.cb_global_y,
        p.floats()[183] == p.cb_global_c,
        p.floats()[184] == p.cb_global_h,
        p.floats()[185] == p.cb_shadows_weight,
        p.floats()[186] == p.cb_white_fulcrum,
        p.floats()[187] == p.cb_highlights_weight,
        p.floats()[188] == p.cb_chroma_shadows,
        p.floats()[189] == p.cb_chroma_highlights,
        p.floats()[190] == p.cb_chroma_global,
        p.floats()[191] == p.cb_chroma_midtones,
        p.floats()[192] == p.cb_saturation_global,
        p.floats()[193] == p.cb_saturation_highlights,
        p.floats()[194] == p.cb_saturation_midtones,
        p.floats()[195] == p.cb_saturation_shadows,
        p.floats()[196] == p.cb_hue_angle,
        p.floats()[197] == p.cb_brilliance_global,
        p.floats()[198] == p.cb_brilliance_highlights,
        p.floats()[199] == p.cb_brilliance_midtones,
        p.floats()[200] == p.cb_brilliance_shadows,
        p.floats()[201] == p.cb_mask_grey_fulcrum,
        p.floats()[202] == p.cb_vibrance,
        p.floats()[203] == p.cb_grey_fulcrum,
        p.floats()[204] == p.cb_contrast,
        p.floats()[205] == p.cb_formula,
{
    lemma_parts(p);
    lemma_cb_floats(p);
    let z = p.cb_floats();
    assert forall|k: int| 173 <= k < 206 implies #[trigger] p.floats()[k] == z[k - 173] by {
        assert(p.floats().subrange(173, 206)[k - 173] == p.floats()[k]);
    }
}

/// Where the numbers of filmic stand among those of an edit.
pub proof fn law_places_of_filmic_numbers(p: PreviewParams)
    ensures
        p.floats().len() == 444,
        p.floats()[206] == p.filmic_black_point_source,
        p.floats()[207] == p.filmic_white_point_source,
        p.floats()[208] == p.filmic_output_power,
        p.floats()[209] == p.filmic_latitude,
        p.floats()[210] == p.filmic_contrast,
        p.floats()[211] == p.filmic_balance,
        p.floats()[212] == p.filmic_saturation,
{
    lemma_parts(p);
    lemma_filmic_floats(p);
    let z = p.filmic_floats();
    assert forall|k: int| 206 <= k < 213 implies #[trigger] p.floats()[k] == z[k - 206] by {
        assert(p.floats().subrange(206, 213)[k - 206] == p.floats()[k]);
    }
}

/// Where the numbers of highlight reconstruction stand among those of an edit.
pub proof fn law_places_of_hl_numbers(p: PreviewParams)
    ensures
        p.floats().len() == 444,
        p.floats()[213] == p.hl_clip,
{
    lemma_parts(p);
    lemma_hl_floats(p);
    let z = p.hl_floats();
    assert forall|k: int| 213 <= k < 214 implies #[trigger] p.floats()[k] == z[k - 213] by {
        assert(p.floats().subrange(213, 214)[k - 213] == p.floats()[k]);
    }
}

/// Where the numbers of denoise stand among those of an edit.
pub proof fn law_places_of_dn_numbers(p: PreviewParams)
    ensures
        p.floats().len() == 444,
        p.floats()[214] == p.dn_strength,
        p.floats()[215] == p.dn_shadows,
        p.floats()[216] == p.dn_bias,
{
    lemma_parts(p);
    lemma_dn_floats(p);
    let z = p.dn_floats();
    assert forall|k: int| 214 <= k < 217 implies #[trigger] p.floats()[k] == z[k - 214] by {
        assert(p.floats().subrange(214, 217)[k - 214] == p.floats()[k]);
    }
}

/// Where the numbers of bloom stand among those of an edit.
pub proof fn law_places_of_bl_numbers(p: PreviewParams)
    ensures
        p.floats().len() == 444,
        p.floats()[217] == p.bl_size,
        p.floats()[218] == p.bl_threshold,
        p.floats()[219] == p.bl_strength,
{
    lemma_parts(p);
    lemma_bl_floats(p);
    let z = p.bl_floats();
    assert forall|k: int| 217 <= k < 220 implies #[trigger] p.floats()[k] == z[k - 217] by {
        assert(p.floats().subrange(217, 220)[k - 217] == p.floats()[k]);
    }
}

/// Where the numbers of the tone curve stand among those of an edit.
pub proof fn law_places_of_tc_numbers(p: PreviewParams)
    ensures
        p.floats().len() == 444,
        p.floats()[220] == p.tc_type,
        p.floats()[221] == p.tc_autoscale,
        p.floats()[222] == p.tc_preserve,
        p.floats()[223] == p.tc_nnodes,
        forall|i: int|
            0 <= i < 20 ==> (#[trigger] p.tc_nodes_l@[i]).0 == p.floats()[224 + 2 * i] && p.tc_nodes_l@[i].1
                == p.floats()[224 + 2 * i + 1],
{
    lemma_parts(p);
    lemma_tc_floats(p);
    let z = p.tc_floats();
    assert forall|k: int| 220 <= k < 264 implies #[trigger] p.floats()[k] == z[k - 220] by {
        assert(p.floats().subrange(220, 264)[k - 220] == p.floats()[k]);
    }
    assert forall|i: int| 0 <= i < 20 implies (#[trigger] p.tc_nodes_l@[i]).0 == p.floats()[224 + 2 * i]
        && p.tc_nodes_l@[i].1 == p.floats()[224 + 2 * i + 1] by {
        let pairs = interleaved(p.tc_nodes_l);
        assert(pairs[2 * i] == p.tc_nodes_l@[i].0 && pairs[2 * i + 1] == p.tc_nodes_l@[i].1);
        assert(z.subrange(4, 44)[2 * i] == z[4 + 2 * i]);
        assert(z.subrange(4, 44)[2 * i + 1] == z[4 + 2 * i + 1]);
    }
}

/// Where the numbers of the RGB curve stand among those of an edit.
pub proof fn law_places_of_rc_numbers(p: PreviewParams)
    ensures
        p.floats().len() == 444,
        p.floats()[264] == p.rc_type_r,
        p.floats()[265] == p.rc_type_g,
        p.floats()[266] == p.rc_type_b,
        p.floats()[267] == p.rc_autoscale,
        p.floats()[268] == p.rc_preserve,
        p.floats()[269] == p.rc_nnodes_r,
        p.floats()[270] == p.rc_nnodes_g,
        p.floats()[271] == p.rc_nnodes_b,
        forall|i: int|
            0 <= i < 20 ==> (#[trigger] p.rc_nodes_r@[i]).0 == p.floats()[272 + 2 * i] && p.rc_nodes_r@[i].1
                == p.floats()[272 + 2 * i + 1],
        forall|i: int|
            0 <= i < 20 ==> (#[trigger] p.rc_nodes_g@[i]).0 == p.floats()[312 + 2 * i] && p.rc_nodes_g@[i].1
                == p.floats()[312 + 2 * i + 1],
        forall|i: int|
            0 <= i < 20 ==> (#[trigger] p.rc_nodes_b@[i]).0 == p.floats()[352 + 2 * i] && p.rc_nodes_b@[i].1
                == p.floats()[352 + 2 * i + 1],
{
    lemma_parts(p);
    lemma_rc_floats(p);
    let z = p.rc_floats();
    assert forall|k: int| 264 <= k < 392 implies #[trigger] p.floats()[k] == z[k - 264] by {
        assert(p.floats().subrange(264, 392)[k - 264] == p.floats()[k]);
    }
    assert forall|i: int| 0 <= i < 20 implies (#[trigger] p.rc_nodes_r@[i]).0 == p.floats()[272 + 2 * i]
        && p.rc_nodes_r@[i].1 == p.floats()[272 + 2 * i + 1] by {
        let pairs = interleaved(p.rc_nodes_r);
        assert(pairs[2 * i] == p.rc_nodes_r@[i].0 && pairs[2 * i + 1] == p.rc_nodes_r@[i].1);
        assert(z.subrange(8, 48)[2 * i] == z[8 + 2 * i]);
        assert(z.subrange(8, 48)[2 * i + 1] == z[8 + 2 * i + 1]);
    }
    assert forall|i: int| 0 <= i < 20 implies (#[trigger] p.rc_nodes_g@[i]).0 == p.floats()[312 + 2 * i]
        && p.rc_nodes_g@[i].1 == p.floats()[312 + 2 * i + 1] by {
        let pairs = interleaved(p.rc_nodes_g);
        assert(pairs[2 * i] == p.rc_nodes_g@[i].0 && pairs[2 * i + 1] == p.rc_nodes_g@[i].1);
        assert(z.subrange(48, 88)[2 * i] == z[48 + 2 * i]);
        assert(z.subrange(48, 88)[2 * i + 1] == z[48 + 2 * i + 1]);
    }
    assert forall|i: int| 0 <= i < 20 implies (#[trigger] p.rc_nodes_b@[i]).0 == p.floats()[352 + 2 * i]
        && p.rc_nodes_b@[i].1 == p.floats()[352 + 2 * i + 1] by {
        let pairs = interleaved(p.rc_nodes_b);
        assert(pairs[2 * i] == p.rc_nodes_b@[i].0 && pairs[2 * i + 1] == p.rc_nodes_b@[i].1);
        assert(z.subrange(88, 128)[2 * i] == z[88 + 2 * i]);
        assert(z.subrange(88, 128)[2 * i + 1] == z[88 + 2 * i + 1]);
    }
}

/// Where the numbers of the base curve stand among those of an edit.
pub proof fn law_places_of_bc_numbers(p: PreviewParams)
    ensures
        p.floats().len() == 444,
        p.floats()[392] == p.bc_type,
        p.floats()[393] == p.bc_preserve,
        p.floats()[394] == p.bc_nnodes,
        p.floats()[395] == p.bc_exposure_fusion,
        p.floats()[396] == p.bc_exposure_stops,
        p.floats()[397] == p.bc_exposure_bias,
        forall|i: int|
            0 <= i < 20 ==> (#[trigger] p.bc_nodes@[i]).0 == p.floats()[398 + 2 * i] && p.bc_nodes@[i].1
                == p.floats()[398 + 2 * i + 1],
{
    lemma_parts(p);
    lemma_bc_floats(p);
    let z = p.bc_floats();
    assert forall|k: int| 392 <= k < 438 implies #[trigger] p.floats()[k] == z[k - 392] by {
        assert(p.floats().subrange(392, 438)[k - 392] == p.floats()[k]);
    }
    assert forall|i: int| 0 <= i < 20 implies (#[trigger] p.bc_nodes@[i]).0 == p.floats()[398 + 2 * i]
        && p.bc_nodes@[i].1 == p.floats()[398 + 2 * i + 1] by {
        let pairs = interleaved(p.bc_nodes);
        assert(pairs[2 * i] == p.bc_nodes@[i].0 && pairs[2 * i + 1] == p.bc_nodes@[i].1);
        assert(z.subrange(6, 46)[2 * i] == z[6 + 2 * i]);
        assert(z.subrange(6, 46)[2 * i + 1] == z[6 + 2 * i + 1]);
    }
}

/// Where the numbers of lens correction stand among those of an edit.
pub proof fn law_places_of_lens_numbers(p: PreviewParams)
    ensures
        p.floats().len() == 444,
        p.floats()[438] == p.lens_modify_flags,
        p.floats()[439] == p.lens_scale,
        p.floats()[440] == p.lens_focal,
        p.floats()[441] == p.lens_aperture,
        p.floats()[442] == p.lens_distance,
        p.floats()[443] == p.lens_target_geom,
{
    lemma_parts(p);
    lemma_lens_floats(p);
    let z = p.lens_floats();
    assert forall|k: int| 438 <= k < 444 implies #[trigger] p.floats()[k] == z[k - 438] by {
        assert(p.floats().subrange(438, 444)[k - 438] == p.floats()[k]);
    }
}

/// Where each flag stands among those of an edit.
pub proof fn law_places_of_flags(p: PreviewParams)
    ensures
        p.bools().len() == 37,
        p.bools()[0] == p.exposure_on,
        p.bools()[1] == p.velvia_on,
        p.bools()[2] == p.split_on,
        p.bools()[3] == p.mono_on,
        p.bools()[4] == p.sigmoid_on,
        p.bools()[5] == p.sharpen_on,
        p.bools()[6] == p.vibrance_on,
        p.bools()[7] == p.color_contrast_on,
        p.bools()[8] == p.temperature_on,
        p.bools()[9] == p.invert_on,
        p.bools()[10] == p.colorize_on,
        p.bools()[11] == p.color_correction_on,
        p.bools()[12] == p.colorzones_on,
        p.bools()[13] == p.levels_on,
        p.bools()[14] == p.vignette_on,
        p.bools()[15] == p.lowlight_on,
        p.bools()[16] == p.gradnd_on,
        p.bools()[17] == p.colisa_on,
        p.bools()[18] == p.basicadj_on,
        p.bools()[19] == p.lowpass_on,
        p.bools()[20] == p.shadhi_on,
        p.bools()[21] == p.primaries_on,
        p.bools()[22] == p.negadoctor_on,
        p.bools()[23] == p.toneeq_on,
        p.bools()[24] == p.cb_on,
        p.bools()[25] == p.filmic_on,
        p.bools()[26] == p.hl_on,
        p.bools()[27] == p.hl_opposed,
        p.bools()[28] == p.dn_on,
        p.bools()[29] == p.dn_mode_y0u0v0,
        p.bools()[30] == p.bl_on,
        p.bools()[31] == p.tc_on,
        p.bools()[32] == p.tc_unbound,
        p.bools()[33] == p.rc_on,
        p.bools()[34] == p.bc_on,
        p.bools()[35] == p.lens_on,
        p.bools()[36] == p.lens_inverse,
{
    lemma_bools(p);
}

} // verus!
