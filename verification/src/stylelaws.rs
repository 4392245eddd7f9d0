//! What copying and merging module groups keeps, moves and covers.
use vstd::prelude::*;

use crate::params::PreviewParams;
use crate::stylemodules::{
    all_groups, group_named, law_group_names_are_distinct, lemma_group_named, merged, with_group,
    with_named, ModuleGroup, MODULE_GROUPS,
};

verus! {

/// Whether two edits have the same parameters in one group.
#[verifier::opaque]
pub open spec fn agree(p: PreviewParams, q: PreviewParams, g: ModuleGroup) -> bool {
    match g {
        ModuleGroup::Exposure => {
            &&& p.exposure_on == q.exposure_on
            &&& p.black == q.black
            &&& p.ev == q.ev
        },
        ModuleGroup::Velvia => {
            &&& p.velvia_on == q.velvia_on
            &&& p.velvia_strength == q.velvia_strength
            &&& p.velvia_bias == q.velvia_bias
        },
        ModuleGroup::SplitToning => {
            &&& p.split_on == q.split_on
            &&& p.split_shadow_hue == q.split_shadow_hue
            &&& p.split_shadow_sat == q.split_shadow_sat
            &&& p.split_highlight_hue == q.split_highlight_hue
            &&& p.split_highlight_sat == q.split_highlight_sat
            &&& p.split_balance == q.split_balance
            &&& p.split_compress == q.split_compress
        },
        ModuleGroup::Monochrome => {
            &&& p.mono_on == q.mono_on
            &&& p.mono_r == q.mono_r
            &&& p.mono_g == q.mono_g
            &&& p.mono_b == q.mono_b
        },
        ModuleGroup::Sigmoid => {
            &&& p.sigmoid_on == q.sigmoid_on
            &&& p.sigmoid_contrast == q.sigmoid_contrast
            &&& p.sigmoid_skew == q.sigmoid_skew
        },
        ModuleGroup::Sharpen => {
            &&& p.sharpen_on == q.sharpen_on
            &&& p.sharpen_radius == q.sharpen_radius
            &&& p.sharpen_amount == q.sharpen_amount
            &&& p.sharpen_threshold == q.sharpen_threshold
        },
        ModuleGroup::Vibrance => {
            &&& p.vibrance_on == q.vibrance_on
            &&& p.vibrance_amount == q.vibrance_amount
        },
        ModuleGroup::ColorContrast => {
            &&& p.color_contrast_on == q.color_contrast_on
            &&& p.color_contrast_a_steepness == q.color_contrast_a_steepness
            &&& p.color_contrast_b_steepness == q.color_contrast_b_steepness
        },
        ModuleGroup::Invert => {
            &&& p.invert_on == q.invert_on
            &&& p.invert_r == q.invert_r
            &&& p.invert_g == q.invert_g
            &&& p.invert_b == q.invert_b
        },
        ModuleGroup::WhiteBalance => {
            &&& p.temperature_on == q.temperature_on
            &&& p.temperature_r == q.temperature_r
            &&& p.temperature_g == q.temperature_g
            &&& p.temperature_b == q.temperature_b
        },
        ModuleGroup::Colorize => {
            &&& p.colorize_on == q.colorize_on
            &&& p.colorize_hue == q.colorize_hue
            &&& p.colorize_sat == q.colorize_sat
            &&& p.colorize_lightness == q.colorize_lightness
            &&& p.colorize_lightness_mix == q.colorize_lightness_mix
        },
        ModuleGroup::ColorCorrection => {
            &&& p.color_correction_on == q.color_correction_on
            &&& p.color_correction_loa == q.color_correction_loa
            &&& p.color_correction_hia == q.color_correction_hia
            &&& p.color_correction_lob == q.color_correction_lob
            &&& p.color_correction_hib == q.color_correction_hib
            &&& p.color_correction_saturation == q.color_correction_saturation
        },
        ModuleGroup::ColorZones => {
            &&& p.colorzones_on == q.colorzones_on
            &&& p.colorzones_strength == q.colorzones_strength
            &&& p.colorzones_channel == q.colorzones_channel
            &&& p.colorzones_mode == q.colorzones_mode
            &&& p.colorzones_num_nodes == q.colorzones_num_nodes
            &&& p.colorzones_curve_type == q.colorzones_curve_type
            &&& p.colorzones_curve_x == q.colorzones_curve_x
            &&& p.colorzones_curve_y == q.colorzones_curve_y
        },
        ModuleGroup::Levels => {
            &&& p.levels_on == q.levels_on
            &&& p.levels_black == q.levels_black
            &&& p.levels_grey == q.levels_grey
            &&& p.levels_white == q.levels_white
        },
        ModuleGroup::Vignetting => {
            &&& p.vignette_on == q.vignette_on
            &&& p.vignette_scale == q.vignette_scale
            &&& p.vignette_falloff == q.vignette_falloff
            &&& p.vignette_brightness == q.vignette_brightness
            &&& p.vignette_saturation == q.vignette_saturation
            &&& p.vignette_center_x == q.vignette_center_x
            &&& p.vignette_center_y == q.vignette_center_y
            &&& p.vignette_shape == q.vignette_shape
        },
        ModuleGroup::LowlightVision => {
            &&& p.lowlight_on == q.lowlight_on
            &&& p.lowlight_blueness == q.lowlight_blueness
            &&& p.lowlight_transition == q.lowlight_transition
        },
        ModuleGroup::GraduatedDensity => {
            &&& p.gradnd_on == q.gradnd_on
            &&& p.gradnd_density == q.gradnd_density
            &&& p.gradnd_hardness == q.gradnd_hardness
            &&& p.gradnd_rotation == q.gradnd_rotation
            &&& p.gradnd_offset == q.gradnd_offset
            &&& p.gradnd_hue == q.gradnd_hue
            &&& p.gradnd_saturation == q.gradnd_saturation
        },
        ModuleGroup::ContrastBrightnessSaturation => {
            &&& p.colisa_on == q.colisa_on
            &&& p.colisa_contrast == q.colisa_contrast
            &&& p.colisa_brightness == q.colisa_brightness
            &&& p.colisa_saturation == q.colisa_saturation
        },
        ModuleGroup::BasicAdjustments => {
            &&& p.basicadj_on == q.basicadj_on
            &&& p.basicadj_black_point == q.basicadj_black_point
            &&& p.basicadj_exposure == q.basicadj_exposure
            &&& p.basicadj_hlcompr == q.basicadj_hlcompr
            &&& p.basicadj_hlcomprthresh == q.basicadj_hlcomprthresh
            &&& p.basicadj_contrast == q.basicadj_contrast
            &&& p.basicadj_preserve_colors == q.basicadj_preserve_colors
            &&& p.basicadj_middle_grey == q.basicadj_middle_grey
            &&& p.basicadj_brightness == q.basicadj_brightness
            &&& p.basicadj_saturation == q.basicadj_saturation
            &&& p.basicadj_vibrance == q.basicadj_vibrance
        },
        ModuleGroup::Lowpass => {
            &&& p.lowpass_on == q.lowpass_on
            &&& p.lowpass_radius == q.lowpass_radius
            &&& p.lowpass_contrast == q.lowpass_contrast
            &&& p.lowpass_brightness == q.lowpass_brightness
            &&& p.lowpass_saturation == q.lowpass_saturation
        },
        ModuleGroup::ShadowsHighlights => {
            &&& p.shadhi_on == q.shadhi_on
            &&& p.shadhi_shadows == q.shadhi_shadows
            &&& p.shadhi_highlights == q.shadhi_highlights
            &&& p.shadhi_whitepoint == q.shadhi_whitepoint
            &&& p.shadhi_radius == q.shadhi_radius
            &&& p.shadhi_compress == q.shadhi_compress
            &&& p.shadhi_shadows_ccorrect == q.shadhi_shadows_ccorrect
            &&& p.shadhi_highlights_ccorrect == q.shadhi_highlights_ccorrect
        },
        ModuleGroup::Primaries => {
            &&& p.primaries_on == q.primaries_on
            &&& p.primaries_achromatic_tint_hue == q.primaries_achromatic_tint_hue
            &&& p.primaries_achromatic_tint_purity == q.primaries_achromatic_tint_purity
            &&& p.primaries_red_hue == q.primaries_red_hue
            &&& p.primaries_red_purity == q.primaries_red_purity
            &&& p.primaries_green_hue == q.primaries_green_hue
            &&& p.primaries_green_purity == q.primaries_green_purity
            &&& p.primaries_blue_hue == q.primaries_blue_hue
            &&& p.primaries_blue_purity == q.primaries_blue_purity
        },
        ModuleGroup::Negadoctor => {
            &&& p.negadoctor_on == q.negadoctor_on
            &&& p.negadoctor_film_stock == q.negadoctor_film_stock
            &&& p.negadoctor_dmin_r == q.negadoctor_dmin_r
            &&& p.negadoctor_dmin_g == q.negadoctor_dmin_g
            &&& p.negadoctor_dmin_b == q.negadoctor_dmin_b
            &&& p.negadoctor_wb_high_r == q.negadoctor_wb_high_r
            &&& p.negadoctor_wb_high_g == q.negadoctor_wb_high_g
            &&& p.negadoctor_wb_high_b == q.negadoctor_wb_high_b
            &&& p.negadoctor_wb_low_r == q.negadoctor_wb_low_r
            &&& p.negadoctor_wb_low_g == q.negadoctor_wb_low_g
            &&& p.negadoctor_wb_low_b == q.negadoctor_wb_low_b
            &&& p.negadoctor_d_max == q.negadoctor_d_max
            &&& p.negadoctor_offset == q.negadoctor_offset
            &&& p.negadoctor_black == q.negadoctor_black
            &&& p.negadoctor_gamma == q.negadoctor_gamma
            &&& p.negadoctor_soft_clip == q.negadoctor_soft_clip
            &&& p.negadoctor_exposure == q.negadoctor_exposure
        },
        ModuleGroup::ToneEqualizer => {
            &&& p.toneeq_on == q.toneeq_on
            &&& p.toneeq_noise == q.toneeq_noise
            &&& p.toneeq_ultra_deep_blacks == q.toneeq_ultra_deep_blacks
            &&& p.toneeq_deep_blacks == q.toneeq_deep_blacks
            &&& p.toneeq_blacks == q.toneeq_blacks
            &&& p.toneeq_shadows == q.toneeq_shadows
            &&& p.toneeq_midtones == q.toneeq_midtones
            &&& p.toneeq_highlights == q.toneeq_highlights
            &&& p.toneeq_whites == q.toneeq_whites
            &&& p.toneeq_speculars == q.toneeq_speculars
        },
        ModuleGroup::ColorBalanceRgb => {
            &&& p.cb_on == q.cb_on
            &&& p.cb_shadows_y == q.cb_shadows_y
            &&& p.cb_shadows_c == q.cb_shadows_c
            &&& p.cb_shadows_h == q.cb_shadows_h
            &&& p.cb_midtones_y == q.cb_midtones_y
            &&& p.cb_midtones_c == q.cb_midtones_c
            &&& p.cb_midtones_h == q.cb_midtones_h
            &&& p.cb_highlights_y == q.cb_highlights_y
            &&& p.cb_highlights_c == q.cb_highlights_c
            &&& p.cb_highlights_h == q.cb_highlights_h
            &&& p.cb_global_y == q.cb_global_y
            &&& p.cb_global_c == q.cb_global_c
            &&& p.cb_global_h == q.cb_global_h
            &&& p.cb_shadows_weight == q.cb_shadows_weight
            &&& p.cb_white_fulcrum == q.cb_white_fulcrum
            &&& p.cb_highlights_weight == q.cb_highlights_weight
            &&& p.cb_chroma_shadows == q.cb_chroma_shadows
            &&& p.cb_chroma_highlights == q.cb_chroma_highlights
            &&& p.cb_chroma_global == q.cb_chroma_global
            &&& p.cb_chroma_midtones == q.cb_chroma_midtones
            &&& p.cb_saturation_global == q.cb_saturation_global
            &&& p.cb_saturation_highlights == q.cb_saturation_highlights
            &&& p.cb_saturation_midtones == q.cb_saturation_midtones
            &&& p.cb_saturation_shadows == q.cb_saturation_shadows
            &&& p.cb_hue_angle == q.cb_hue_angle
            &&& p.cb_brilliance_global == q.cb_brilliance_global
            &&& p.cb_brilliance_highlights == q.cb_brilliance_highlights
            &&& p.cb_brilliance_midtones == q.cb_brilliance_midtones
            &&& p.cb_brilliance_shadows == q.cb_brilliance_shadows
            &&& p.cb_mask_grey_fulcrum == q.cb_mask_grey_fulcrum
            &&& p.cb_vibrance == q.cb_vibrance
            &&& p.cb_grey_fulcrum == q.cb_grey_fulcrum
            &&& p.cb_contrast == q.cb_contrast
            &&& p.cb_formula == q.cb_formula
        },
        ModuleGroup::FilmicRgb => {
            &&& p.filmic_on == q.filmic_on
            &&& p.filmic_black_point_source == q.filmic_black_point_source
            &&& p.filmic_white_point_source == q.filmic_white_point_source
            &&& p.filmic_output_power == q.filmic_output_power
            &&& p.filmic_latitude == q.filmic_latitude
            &&& p.filmic_contrast == q.filmic_contrast
            &&& p.filmic_balance == q.filmic_balance
            &&& p.filmic_saturation == q.filmic_saturation
        },
        ModuleGroup::HighlightReconstruction => {
            &&& p.hl_on == q.hl_on
            &&& p.hl_opposed == q.hl_opposed
            &&& p.hl_clip == q.hl_clip
        },
        ModuleGroup::DenoiseProfiled => {
            &&& p.dn_on == q.dn_on
            &&& p.dn_mode_y0u0v0 == q.dn_mode_y0u0v0
            &&& p.dn_strength == q.dn_strength
            &&& p.dn_shadows == q.dn_shadows
            &&& p.dn_bias == q.dn_bias
        },
        ModuleGroup::Bloom => {
            &&& p.bl_on == q.bl_on
            &&& p.bl_size == q.bl_size
            &&& p.bl_threshold == q.bl_threshold
            &&& p.bl_strength == q.bl_strength
        },
        ModuleGroup::ToneCurve => {
            &&& p.tc_on == q.tc_on
            &&& p.tc_type == q.tc_type
            &&& p.tc_autoscale == q.tc_autoscale
            &&& p.tc_unbound == q.tc_unbound
            &&& p.tc_preserve == q.tc_preserve
            &&& p.tc_nnodes == q.tc_nnodes
            &&& p.tc_nodes_l == q.tc_nodes_l
        },
        ModuleGroup::RgbCurve => {
            &&& p.rc_on == q.rc_on
            &&& p.rc_type_r == q.rc_type_r
            &&& p.rc_type_g == q.rc_type_g
            &&& p.rc_type_b == q.rc_type_b
            &&& p.rc_autoscale == q.rc_autoscale
            &&& p.rc_preserve == q.rc_preserve
            &&& p.rc_nnodes_r == q.rc_nnodes_r
            &&& p.rc_nnodes_g == q.rc_nnodes_g
            &&& p.rc_nnodes_b == q.rc_nnodes_b
            &&& p.rc_nodes_r == q.rc_nodes_r
            &&& p.rc_nodes_g == q.rc_nodes_g
            &&& p.rc_nodes_b == q.rc_nodes_b
        },
        ModuleGroup::BaseCurve => {
            &&& p.bc_on == q.bc_on
            &&& p.bc_type == q.bc_type
            &&& p.bc_preserve == q.bc_preserve
            &&& p.bc_nnodes == q.bc_nnodes
            &&& p.bc_exposure_fusion == q.bc_exposure_fusion
            &&& p.bc_exposure_stops == q.bc_exposure_stops
            &&& p.bc_exposure_bias == q.bc_exposure_bias
            &&& p.bc_nodes == q.bc_nodes
        },
        ModuleGroup::LensCorrection => {
            &&& p.lens_on == q.lens_on
            &&& p.lens_inverse == q.lens_inverse
            &&& p.lens_modify_flags == q.lens_modify_flags
            &&& p.lens_scale == q.lens_scale
            &&& p.lens_focal == q.lens_focal
            &&& p.lens_aperture == q.lens_aperture
            &&& p.lens_distance == q.lens_distance
            &&& p.lens_target_geom == q.lens_target_geom
        },
    }
}

proof fn lemma_copy_exposure(base: PreviewParams, src: PreviewParams, h: ModuleGroup)
    ensures
        agree(with_group(base, src, ModuleGroup::Exposure), src, ModuleGroup::Exposure),
        h != ModuleGroup::Exposure ==> agree(with_group(base, src, ModuleGroup::Exposure), base, h),
{
    reveal(with_group);
    reveal(agree);
}

proof fn lemma_copy_velvia(base: PreviewParams, src: PreviewParams, h: ModuleGroup)
    ensures
        agree(with_group(base, src, ModuleGroup::Velvia), src, ModuleGroup::Velvia),
        h != ModuleGroup::Velvia ==> agree(with_group(base, src, ModuleGroup::Velvia), base, h),
{
    reveal(with_group);
    reveal(agree);
}

proof fn lemma_copy_split_toning(base: PreviewParams, src: PreviewParams, h: ModuleGroup)
    ensures
        agree(with_group(base, src, ModuleGroup::SplitToning), src, ModuleGroup::SplitToning),
        h != ModuleGroup::SplitToning ==> agree(with_group(base, src, ModuleGroup::SplitToning), base, h),
{
    reveal(with_group);
    reveal(agree);
}

proof fn lemma_copy_monochrome(base: PreviewParams, src: PreviewParams, h: ModuleGroup)
    ensures
        agree(with_group(base, src, ModuleGroup::Monochrome), src, ModuleGroup::Monochrome),
        h != ModuleGroup::Monochrome ==> agree(with_group(base, src, ModuleGroup::Monochrome), base, h),
{
    reveal(with_group);
    reveal(agree);
}

proof fn lemma_copy_sigmoid(base: PreviewParams, src: PreviewParams, h: ModuleGroup)
    ensures
        agree(with_group(base, src, ModuleGroup::Sigmoid), src, ModuleGroup::Sigmoid),
        h != ModuleGroup::Sigmoid ==> agree(with_group(base, src, ModuleGroup::Sigmoid), base, h),
{
    reveal(with_group);
    reveal(agree);
}

proof fn lemma_copy_sharpen(base: PreviewParams, src: PreviewParams, h: ModuleGroup)
    ensures
        agree(with_group(base, src, ModuleGroup::Sharpen), src, ModuleGroup::Sharpen),
        h != ModuleGroup::Sharpen ==> agree(with_group(base, src, ModuleGroup::Sharpen), base, h),
{
    reveal(with_group);
    reveal(agree);
}

proof fn lemma_copy_vibrance(base: PreviewParams, src: PreviewParams, h: ModuleGroup)
    ensures
        agree(with_group(base, src, ModuleGroup::Vibrance), src, ModuleGroup::Vibrance),
        h != ModuleGroup::Vibrance ==> agree(with_group(base, src, ModuleGroup::Vibrance), base, h),
{
    reveal(with_group);
    reveal(agree);
}

proof fn lemma_copy_color_contrast(base: PreviewParams, src: PreviewParams, h: ModuleGroup)
    ensures
        agree(with_group(base, src, ModuleGroup::ColorContrast), src, ModuleGroup::ColorContrast),
        h != ModuleGroup::ColorContrast ==> agree(with_group(base, src, ModuleGroup::ColorContrast), base, h),
{
    reveal(with_group);
    reveal(agree);
}

proof fn lemma_copy_invert(base: PreviewParams, src: PreviewParams, h: ModuleGroup)
    ensures
        agree(with_group(base, src, ModuleGroup::Invert), src, ModuleGroup::Invert),
        h != ModuleGroup::Invert ==> agree(with_group(base, src, ModuleGroup::Invert), base, h),
{
    reveal(with_group);
    reveal(agree);
}

proof fn lemma_copy_white_balance(base: PreviewParams, src: PreviewParams, h: ModuleGroup)
    ensures
        agree(with_group(base, src, ModuleGroup::WhiteBalance), src, ModuleGroup::WhiteBalance),
        h != ModuleGroup::WhiteBalance ==> agree(with_group(base, src, ModuleGroup::WhiteBalance), base, h),
{
    reveal(with_group);
    reveal(agree);
}

proof fn lemma_copy_colorize(base: PreviewParams, src: PreviewParams, h: ModuleGroup)
    ensures
        agree(with_group(base, src, ModuleGroup::Colorize), src, ModuleGroup::Colorize),
        h != ModuleGroup::Colorize ==> agree(with_group(base, src, ModuleGroup::Colorize), base, h),
{
    reveal(with_group);
    reveal(agree);
}

proof fn lemma_copy_color_correction(base: PreviewParams, src: PreviewParams, h: ModuleGroup)
    ensures
        agree(with_group(base, src, ModuleGroup::ColorCorrection), src, ModuleGroup::ColorCorrection),
        h != ModuleGroup::ColorCorrection ==> agree(with_group(base, src, ModuleGroup::ColorCorrection), base, h),
{
    reveal(with_group);
    reveal(agree);
}

proof fn lemma_copy_color_zones(base: PreviewParams, src: PreviewParams, h: ModuleGroup)
    ensures
        agree(with_group(base, src, ModuleGroup::ColorZones), src, ModuleGroup::ColorZones),
        h != ModuleGroup::ColorZones ==> agree(with_group(base, src, ModuleGroup::ColorZones), base, h),
{
    reveal(with_group);
    reveal(agree);
}

proof fn lemma_copy_levels(base: PreviewParams, src: PreviewParams, h: ModuleGroup)
    ensures
        agree(with_group(base, src, ModuleGroup::Levels), src, ModuleGroup::Levels),
        h != ModuleGroup::Levels ==> agree(with_group(base, src, ModuleGroup::Levels), base, h),
{
    reveal(with_group);
    reveal(agree);
}

proof fn lemma_copy_vignetting(base: PreviewParams, src: PreviewParams, h: ModuleGroup)
    ensures
        agree(with_group(base, src, ModuleGroup::Vignetting), src, ModuleGroup::Vignetting),
        h != ModuleGroup::Vignetting ==> agree(with_group(base, src, ModuleGroup::Vignetting), base, h),
{
    reveal(with_group);
    reveal(agree);
}

proof fn lemma_copy_lowlight_vision(base: PreviewParams, src: PreviewParams, h: ModuleGroup)
    ensures
        agree(with_group(base, src, ModuleGroup::LowlightVision), src, ModuleGroup::LowlightVision),
        h != ModuleGroup::LowlightVision ==> agree(with_group(base, src, ModuleGroup::LowlightVision), base, h),
{
    reveal(with_group);
    reveal(agree);
}

proof fn lemma_copy_graduated_density(base: PreviewParams, src: PreviewParams, h: ModuleGroup)
    ensures
        agree(with_group(base, src, ModuleGroup::GraduatedDensity), src, ModuleGroup::GraduatedDensity),
        h != ModuleGroup::GraduatedDensity ==> agree(with_group(base, src, ModuleGroup::GraduatedDensity), base, h),
{
    reveal(with_group);
    reveal(agree);
}

proof fn lemma_copy_contrast_brightness_saturation(base: PreviewParams, src: PreviewParams, h: ModuleGroup)
    ensures
        agree(with_group(base, src, ModuleGroup::ContrastBrightnessSaturation), src, ModuleGroup::ContrastBrightnessSaturation),
        h != ModuleGroup::ContrastBrightnessSaturation ==> agree(with_group(base, src, ModuleGroup::ContrastBrightnessSaturation), base, h),
{
    reveal(with_group);
    reveal(agree);
}

proof fn lemma_copy_basic_adjustments(base: PreviewParams, src: PreviewParams, h: ModuleGroup)
    ensures
        agree(with_group(base, src, ModuleGroup::BasicAdjustments), src, ModuleGroup::BasicAdjustments),
        h != ModuleGroup::BasicAdjustments ==> agree(with_group(base, src, ModuleGroup::BasicAdjustments), base, h),
{
    reveal(with_group);
    reveal(agree);
}

proof fn lemma_copy_lowpass(base: PreviewParams, src: PreviewParams, h: ModuleGroup)
    ensures
        agree(with_group(base, src, ModuleGroup::Lowpass), src, ModuleGroup::Lowpass),
        h != ModuleGroup::Lowpass ==> agree(with_group(base, src, ModuleGroup::Lowpass), base, h),
{
    reveal(with_group);
    reveal(agree);
}

proof fn lemma_copy_shadows_highlights(base: PreviewParams, src: PreviewParams, h: ModuleGroup)
    ensures
        agree(with_group(base, src, ModuleGroup::ShadowsHighlights), src, ModuleGroup::ShadowsHighlights),
        h != ModuleGroup::ShadowsHighlights ==> agree(with_group(base, src, ModuleGroup::ShadowsHighlights), base, h),
{
    reveal(with_group);
    reveal(agree);
}

proof fn lemma_copy_primaries(base: PreviewParams, src: PreviewParams, h: ModuleGroup)
    ensures
        agree(with_group(base, src, ModuleGroup::Primaries), src, ModuleGroup::Primaries),
        h != ModuleGroup::Primaries ==> agree(with_group(base, src, ModuleGroup::Primaries), base, h),
{
    reveal(with_group);
    reveal(agree);
}

proof fn lemma_copy_negadoctor(base: PreviewParams, src: PreviewParams, h: ModuleGroup)
    ensures
        agree(with_group(base, src, ModuleGroup::Negadoctor), src, ModuleGroup::Negadoctor),
        h != ModuleGroup::Negadoctor ==> agree(with_group(base, src, ModuleGroup::Negadoctor), base, h),
{
    reveal(with_group);
    reveal(agree);
}

proof fn lemma_copy_tone_equalizer(base: PreviewParams, src: PreviewParams, h: ModuleGroup)
    ensures
        agree(with_group(base, src, ModuleGroup::ToneEqualizer), src, ModuleGroup::ToneEqualizer),
        h != ModuleGroup::ToneEqualizer ==> agree(with_group(base, src, ModuleGroup::ToneEqualizer), base, h),
{
    reveal(with_group);
    reveal(agree);
}

proof fn lemma_copy_color_balance_rgb(base: PreviewParams, src: PreviewParams, h: ModuleGroup)
    ensures
        agree(with_group(base, src, ModuleGroup::ColorBalanceRgb), src, ModuleGroup::ColorBalanceRgb),
        h != ModuleGroup::ColorBalanceRgb ==> agree(with_group(base, src, ModuleGroup::ColorBalanceRgb), base, h),
{
    reveal(with_group);
    reveal(agree);
}

proof fn lemma_copy_filmic_rgb(base: PreviewParams, src: PreviewParams, h: ModuleGroup)
    ensures
        agree(with_group(base, src, ModuleGroup::FilmicRgb), src, ModuleGroup::FilmicRgb),
        h != ModuleGroup::FilmicRgb ==> agree(with_group(base, src, ModuleGroup::FilmicRgb), base, h),
{
    reveal(with_group);
    reveal(agree);
}

proof fn lemma_copy_highlight_reconstruction(base: PreviewParams, src: PreviewParams, h: ModuleGroup)
    ensures
        agree(with_group(base, src, ModuleGroup::HighlightReconstruction), src, ModuleGroup::HighlightReconstruction),
        h != ModuleGroup::HighlightReconstruction ==> agree(with_group(base, src, ModuleGroup::HighlightReconstruction), base, h),
{
    reveal(with_group);
    reveal(agree);
}

proof fn lemma_copy_denoise_profiled(base: PreviewParams, src: PreviewParams, h: ModuleGroup)
    ensures
        agree(with_group(base, src, ModuleGroup::DenoiseProfiled), src, ModuleGroup::DenoiseProfiled),
        h != ModuleGroup::DenoiseProfiled ==> agree(with_group(base, src, ModuleGroup::DenoiseProfiled), base, h),
{
    reveal(with_group);
    reveal(agree);
}

proof fn lemma_copy_bloom(base: PreviewParams, src: PreviewParams, h: ModuleGroup)
    ensures
        agree(with_group(base, src, ModuleGroup::Bloom), src, ModuleGroup::Bloom),
        h != ModuleGroup::Bloom ==> agree(with_group(base, src, ModuleGroup::Bloom), base, h),
{
    reveal(with_group);
    reveal(agree);
}

proof fn lemma_copy_tone_curve(base: PreviewParams, src: PreviewParams, h: ModuleGroup)
    ensures
        agree(with_group(base, src, ModuleGroup::ToneCurve), src, ModuleGroup::ToneCurve),
        h != ModuleGroup::ToneCurve ==> agree(with_group(base, src, ModuleGroup::ToneCurve), base, h),
{
    reveal(with_group);
    reveal(agree);
}

proof fn lemma_copy_rgb_curve(base: PreviewParams, src: PreviewParams, h: ModuleGroup)
    ensures
        agree(with_group(base, src, ModuleGroup::RgbCurve), src, ModuleGroup::RgbCurve),
        h != ModuleGroup::RgbCurve ==> agree(with_group(base, src, ModuleGroup::RgbCurve), base, h),
{
    reveal(with_group);
    reveal(agree);
}

proof fn lemma_copy_base_curve(base: PreviewParams, src: PreviewParams, h: ModuleGroup)
    ensures
        agree(with_group(base, src, ModuleGroup::BaseCurve), src, ModuleGroup::BaseCurve),
        h != ModuleGroup::BaseCurve ==> agree(with_group(base, src, ModuleGroup::BaseCurve), base, h),
{
    reveal(with_group);
    reveal(agree);
}

proof fn lemma_copy_lens_correction(base: PreviewParams, src: PreviewParams, h: ModuleGroup)
    ensures
        agree(with_group(base, src, ModuleGroup::LensCorrection), src, ModuleGroup::LensCorrection),
        h != ModuleGroup::LensCorrection ==> agree(with_group(base, src, ModuleGroup::LensCorrection), base, h),
{
    reveal(with_group);
    reveal(agree);
}

/// Copying a group takes over that group, and leaves every other group as it was.
pub proof fn law_copy_moves_only_that_group(
    base: PreviewParams,
    src: PreviewParams,
    g: ModuleGroup,
    h: ModuleGroup,
)
    ensures
        agree(with_group(base, src, g), src, g),
        h != g ==> agree(with_group(base, src, g), base, h),
{
    match g {
        ModuleGroup::Exposure => lemma_copy_exposure(base, src, h),
        ModuleGroup::Velvia => lemma_copy_velvia(base, src, h),
        ModuleGroup::SplitToning => lemma_copy_split_toning(base, src, h),
        ModuleGroup::Monochrome => lemma_copy_monochrome(base, src, h),
        ModuleGroup::Sigmoid => lemma_copy_sigmoid(base, src, h),
        ModuleGroup::Sharpen => lemma_copy_sharpen(base, src, h),
        ModuleGroup::Vibrance => lemma_copy_vibrance(base, src, h),
        ModuleGroup::ColorContrast => lemma_copy_color_contrast(base, src, h),
        ModuleGroup::Invert => lemma_copy_invert(base, src, h),
        ModuleGroup::WhiteBalance => lemma_copy_white_balance(base, src, h),
        ModuleGroup::Colorize => lemma_copy_colorize(base, src, h),
        ModuleGroup::ColorCorrection => lemma_copy_color_correction(base, src, h),
        ModuleGroup::ColorZones => lemma_copy_color_zones(base, src, h),
        ModuleGroup::Levels => lemma_copy_levels(base, src, h),
        ModuleGroup::Vignetting => lemma_copy_vignetting(base, src, h),
        ModuleGroup::LowlightVision => lemma_copy_lowlight_vision(base, src, h),
        ModuleGroup::GraduatedDensity => lemma_copy_graduated_density(base, src, h),
        ModuleGroup::ContrastBrightnessSaturation => lemma_copy_contrast_brightness_saturation(base, src, h),
        ModuleGroup::BasicAdjustments => lemma_copy_basic_adjustments(base, src, h),
        ModuleGroup::Lowpass => lemma_copy_lowpass(base, src, h),
        ModuleGroup::ShadowsHighlights => lemma_copy_shadows_highlights(base, src, h),
        ModuleGroup::Primaries => lemma_copy_primaries(base, src, h),
        ModuleGroup::Negadoctor => lemma_copy_negadoctor(base, src, h),
        ModuleGroup::ToneEqualizer => lemma_copy_tone_equalizer(base, src, h),
        ModuleGroup::ColorBalanceRgb => lemma_copy_color_balance_rgb(base, src, h),
        ModuleGroup::FilmicRgb => lemma_copy_filmic_rgb(base, src, h),
        ModuleGroup::HighlightReconstruction => lemma_copy_highlight_reconstruction(base, src, h),
        ModuleGroup::DenoiseProfiled => lemma_copy_denoise_profiled(base, src, h),
        ModuleGroup::Bloom => lemma_copy_bloom(base, src, h),
        ModuleGroup::ToneCurve => lemma_copy_tone_curve(base, src, h),
        ModuleGroup::RgbCurve => lemma_copy_rgb_curve(base, src, h),
        ModuleGroup::BaseCurve => lemma_copy_base_curve(base, src, h),
        ModuleGroup::LensCorrection => lemma_copy_lens_correction(base, src, h),
    }
}

/// The groups cover every parameter: edits that agree in each group are the same edit.
pub proof fn law_groups_cover_every_parameter(p: PreviewParams, q: PreviewParams)
    requires
        forall|g: ModuleGroup| #[trigger] agree(p, q, g),
    ensures
        p == q,
{
    reveal(agree);
    assert(agree(p, q, ModuleGroup::Exposure));
    assert(agree(p, q, ModuleGroup::Velvia));
    assert(agree(p, q, ModuleGroup::SplitToning));
    assert(agree(p, q, ModuleGroup::Monochrome));
    assert(agree(p, q, ModuleGroup::Sigmoid));
    assert(agree(p, q, ModuleGroup::Sharpen));
    assert(agree(p, q, ModuleGroup::Vibrance));
    assert(agree(p, q, ModuleGroup::ColorContrast));
    assert(agree(p, q, ModuleGroup::Invert));
    assert(agree(p, q, ModuleGroup::WhiteBalance));
    assert(agree(p, q, ModuleGroup::Colorize));
    assert(agree(p, q, ModuleGroup::ColorCorrection));
    assert(agree(p, q, ModuleGroup::ColorZones));
    assert(agree(p, q, ModuleGroup::Levels));
    assert(agree(p, q, ModuleGroup::Vignetting));
    assert(agree(p, q, ModuleGroup::LowlightVision));
    assert(agree(p, q, ModuleGroup::GraduatedDensity));
    assert(agree(p, q, ModuleGroup::ContrastBrightnessSaturation));
    assert(agree(p, q, ModuleGroup::BasicAdjustments));
    assert(agree(p, q, ModuleGroup::Lowpass));
    assert(agree(p, q, ModuleGroup::ShadowsHighlights));
    assert(agree(p, q, ModuleGroup::Primaries));
    assert(agree(p, q, ModuleGroup::Negadoctor));
    assert(agree(p, q, ModuleGroup::ToneEqualizer));
    assert(agree(p, q, ModuleGroup::ColorBalanceRgb));
    assert(agree(p, q, ModuleGroup::FilmicRgb));
    assert(agree(p, q, ModuleGroup::HighlightReconstruction));
    assert(agree(p, q, ModuleGroup::DenoiseProfiled));
    assert(agree(p, q, ModuleGroup::Bloom));
    assert(agree(p, q, ModuleGroup::ToneCurve));
    assert(agree(p, q, ModuleGroup::RgbCurve));
    assert(agree(p, q, ModuleGroup::BaseCurve));
    assert(agree(p, q, ModuleGroup::LensCorrection));
}

/// Agreement in a group carries over.
pub proof fn lemma_agree_transitive(p: PreviewParams, q: PreviewParams, r: PreviewParams, g: ModuleGroup)
    requires
        agree(p, q, g),
        agree(q, r, g),
    ensures
        agree(p, r, g),
{
    reveal(agree);
    match g {
        ModuleGroup::Exposure => {},
        ModuleGroup::Velvia => {},
        ModuleGroup::SplitToning => {},
        ModuleGroup::Monochrome => {},
        ModuleGroup::Sigmoid => {},
        ModuleGroup::Sharpen => {},
        ModuleGroup::Vibrance => {},
        ModuleGroup::ColorContrast => {},
        ModuleGroup::Invert => {},
        ModuleGroup::WhiteBalance => {},
        ModuleGroup::Colorize => {},
        ModuleGroup::ColorCorrection => {},
        ModuleGroup::ColorZones => {},
        ModuleGroup::Levels => {},
        ModuleGroup::Vignetting => {},
        ModuleGroup::LowlightVision => {},
        ModuleGroup::GraduatedDensity => {},
        ModuleGroup::ContrastBrightnessSaturation => {},
        ModuleGroup::BasicAdjustments => {},
        ModuleGroup::Lowpass => {},
        ModuleGroup::ShadowsHighlights => {},
        ModuleGroup::Primaries => {},
        ModuleGroup::Negadoctor => {},
        ModuleGroup::ToneEqualizer => {},
        ModuleGroup::ColorBalanceRgb => {},
        ModuleGroup::FilmicRgb => {},
        ModuleGroup::HighlightReconstruction => {},
        ModuleGroup::DenoiseProfiled => {},
        ModuleGroup::Bloom => {},
        ModuleGroup::ToneCurve => {},
        ModuleGroup::RgbCurve => {},
        ModuleGroup::BaseCurve => {},
        ModuleGroup::LensCorrection => {},
    }
}

proof fn lemma_agree_reflexive(p: PreviewParams, g: ModuleGroup)
    ensures
        agree(p, p, g),
{
    reveal(agree);
}

/// Merging takes over the groups that are listed, and those alone: a listed group comes
/// from the overlay, any other keeps what the base had. Names of no module do nothing.
pub proof fn law_merge_moves_exactly_the_listed_groups(
    base: PreviewParams,
    overlay: PreviewParams,
    names: Seq<Seq<char>>,
    g: ModuleGroup,
)
    ensures
        names.contains(g.label()) ==> agree(merged(base, overlay, names), overlay, g),
        !names.contains(g.label()) ==> agree(merged(base, overlay, names), base, g),
    decreases names.len(),
{
    lemma_agree_reflexive(base, g);
    if names.len() > 0 {
        let rest = names.drop_last();
        let before = merged(base, overlay, rest);
        let after = merged(base, overlay, names);
        law_merge_moves_exactly_the_listed_groups(base, overlay, rest, g);
        lemma_group_named(g);
        assert(names =~= rest.push(names.last()));
        assert(names.contains(g.label()) <==> rest.contains(g.label()) || names.last() == g.label()) by {
            if rest.contains(g.label()) {
                let i = choose|i: int| 0 <= i < rest.len() && rest[i] == g.label();
                assert(names[i] == g.label());
            }
            if names.last() == g.label() {
                assert(names[names.len() - 1] == g.label());
            }
            if names.contains(g.label()) {
                let i = choose|i: int| 0 <= i < names.len() && names[i] == g.label();
                assert(i < rest.len() ==> rest[i] == g.label());
            }
        }
        lemma_agree_reflexive(before, g);
        match group_named(names.last()) {
            Some(h) => {
                assert(h.label() == names.last());
                law_copy_moves_only_that_group(before, overlay, h, g);
                if h == g {
                } else {
                    if names.last() == g.label() {
                        law_group_names_are_distinct(g, h);
                    }
                    if rest.contains(g.label()) {
                        lemma_agree_transitive(after, before, overlay, g);
                    } else {
                        lemma_agree_transitive(after, before, base, g);
                    }
                }
            },
            None => {},
        }
    }
}

/// The names that a program sees are those of the groups, in the same order.
pub proof fn law_module_group_names(i: int)
    requires
        0 <= i < 33,
    ensures
        all_groups().len() == 33,
        MODULE_GROUPS@[i]@ == all_groups()[i].label(),
{
    let t = MODULE_GROUPS;
    assert(t@[0]@ == "Exposure"@);
    assert(t@[1]@ == "Velvia"@);
    assert(t@[2]@ == "Split-toning"@);
    assert(t@[3]@ == "Monochrome"@);
    assert(t@[4]@ == "Sigmoid"@);
    assert(t@[5]@ == "Sharpen"@);
    assert(t@[6]@ == "Vibrance"@);
    assert(t@[7]@ == "Color contrast"@);
    assert(t@[8]@ == "Invert"@);
    assert(t@[9]@ == "White balance"@);
    assert(t@[10]@ == "Colorize"@);
    assert(t@[11]@ == "Color correction"@);
    assert(t@[12]@ == "Color zones"@);
    assert(t@[13]@ == "Levels"@);
    assert(t@[14]@ == "Vignetting"@);
    assert(t@[15]@ == "Lowlight vision"@);
    assert(t@[16]@ == "Graduated density"@);
    assert(t@[17]@ == "Contrast brightness saturation"@);
    assert(t@[18]@ == "Basic adjustments"@);
    assert(t@[19]@ == "Lowpass"@);
    assert(t@[20]@ == "Shadows/Highlights"@);
    assert(t@[21]@ == "Primaries"@);
    assert(t@[22]@ == "Negadoctor"@);
    assert(t@[23]@ == "Tone equalizer"@);
    assert(t@[24]@ == "Color balance RGB"@);
    assert(t@[25]@ == "Filmic RGB"@);
    assert(t@[26]@ == "Highlight reconstruction"@);
    assert(t@[27]@ == "Denoise (profiled)"@);
    assert(t@[28]@ == "Bloom"@);
    assert(t@[29]@ == "Tone curve"@);
    assert(t@[30]@ == "RGB curve"@);
    assert(t@[31]@ == "Base curve"@);
    assert(t@[32]@ == "Lens correction"@);
    if i == 0 {
    } else if i == 1 {
    } else if i == 2 {
    } else if i == 3 {
    } else if i == 4 {
    } else if i == 5 {
    } else if i == 6 {
    } else if i == 7 {
    } else if i == 8 {
    } else if i == 9 {
    } else if i == 10 {
    } else if i == 11 {
    } else if i == 12 {
    } else if i == 13 {
    } else if i == 14 {
    } else if i == 15 {
    } else if i == 16 {
    } else if i == 17 {
    } else if i == 18 {
    } else if i == 19 {
    } else if i == 20 {
    } else if i == 21 {
    } else if i == 22 {
    } else if i == 23 {
    } else if i == 24 {
    } else if i == 25 {
    } else if i == 26 {
    } else if i == 27 {
    } else if i == 28 {
    } else if i == 29 {
    } else if i == 30 {
    } else if i == 31 {
    } else if i == 32 {
    }
}

/// Merging every group is the same as taking over the whole edit.
pub proof fn law_merging_every_group_is_a_whole_copy(base: PreviewParams, overlay: PreviewParams)
    ensures
        merged(base, overlay, MODULE_GROUPS@.map_values(|s: &str| s@)) == overlay,
{
    let names = MODULE_GROUPS@.map_values(|s: &str| s@);
    assert forall|g: ModuleGroup| #[trigger] agree(merged(base, overlay, names), overlay, g) by {
        lemma_group_is_listed(g);
        law_merge_moves_exactly_the_listed_groups(base, overlay, names, g);
    }
    law_groups_cover_every_parameter(merged(base, overlay, names), overlay);
}

proof fn lemma_group_is_listed(g: ModuleGroup)
    ensures
        MODULE_GROUPS@.map_values(|s: &str| s@).contains(g.label()),
{
    let names = MODULE_GROUPS@.map_values(|s: &str| s@);
    let i: int = match g {
        ModuleGroup::Exposure => 0,
        ModuleGroup::Velvia => 1,
        ModuleGroup::SplitToning => 2,
        ModuleGroup::Monochrome => 3,
        ModuleGroup::Sigmoid => 4,
        ModuleGroup::Sharpen => 5,
        ModuleGroup::Vibrance => 6,
        ModuleGroup::ColorContrast => 7,
        ModuleGroup::Invert => 8,
        ModuleGroup::WhiteBalance => 9,
        ModuleGroup::Colorize => 10,
        ModuleGroup::ColorCorrection => 11,
        ModuleGroup::ColorZones => 12,
        ModuleGroup::Levels => 13,
        ModuleGroup::Vignetting => 14,
        ModuleGroup::LowlightVision => 15,
        ModuleGroup::GraduatedDensity => 16,
        ModuleGroup::ContrastBrightnessSaturation => 17,
        ModuleGroup::BasicAdjustments => 18,
        ModuleGroup::Lowpass => 19,
        ModuleGroup::ShadowsHighlights => 20,
        ModuleGroup::Primaries => 21,
        ModuleGroup::Negadoctor => 22,
        ModuleGroup::ToneEqualizer => 23,
        ModuleGroup::ColorBalanceRgb => 24,
        ModuleGroup::FilmicRgb => 25,
        ModuleGroup::HighlightReconstruction => 26,
        ModuleGroup::DenoiseProfiled => 27,
        ModuleGroup::Bloom => 28,
        ModuleGroup::ToneCurve => 29,
        ModuleGroup::RgbCurve => 30,
        ModuleGroup::BaseCurve => 31,
        ModuleGroup::LensCorrection => 32,
    };
    law_module_group_names(i);
    assert(all_groups()[i] == g);
    assert(names[i] == g.label());
}

/// Merging twice is merging once.
pub proof fn law_merging_again_changes_nothing(
    base: PreviewParams,
    overlay: PreviewParams,
    names: Seq<Seq<char>>,
)
    ensures
        merged(merged(base, overlay, names), overlay, names) == merged(base, overlay, names),
{
    let once = merged(base, overlay, names);
    let twice = merged(once, overlay, names);
    assert forall|g: ModuleGroup| #[trigger] agree(twice, once, g) by {
        law_merge_moves_exactly_the_listed_groups(base, overlay, names, g);
        law_merge_moves_exactly_the_listed_groups(once, overlay, names, g);
        if names.contains(g.label()) {
            lemma_agree_symmetric(once, overlay, g);
            lemma_agree_transitive(twice, overlay, once, g);
        }
    }
    law_groups_cover_every_parameter(twice, once);
}

pub proof fn lemma_agree_symmetric(p: PreviewParams, q: PreviewParams, g: ModuleGroup)
    requires
        agree(p, q, g),
    ensures
        agree(q, p, g),
{
    reveal(agree);
}

/// The name of a group can stand in a list with commas between its entries: it is not empty
/// and holds no comma.
pub proof fn law_group_names_hold_no_comma(g: ModuleGroup)
    ensures
        g.label().len() > 0,
        !g.label().contains(','),
{
    match g {
        ModuleGroup::Exposure => reveal_strlit("Exposure"),
        ModuleGroup::Velvia => reveal_strlit("Velvia"),
        ModuleGroup::SplitToning => reveal_strlit("Split-toning"),
        ModuleGroup::Monochrome => reveal_strlit("Monochrome"),
        ModuleGroup::Sigmoid => reveal_strlit("Sigmoid"),
        ModuleGroup::Sharpen => reveal_strlit("Sharpen"),
        ModuleGroup::Vibrance => reveal_strlit("Vibrance"),
        ModuleGroup::ColorContrast => reveal_strlit("Color contrast"),
        ModuleGroup::Invert => reveal_strlit("Invert"),
        ModuleGroup::WhiteBalance => reveal_strlit("White balance"),
        ModuleGroup::Colorize => reveal_strlit("Colorize"),
        ModuleGroup::ColorCorrection => reveal_strlit("Color correction"),
        ModuleGroup::ColorZones => reveal_strlit("Color zones"),
        ModuleGroup::Levels => reveal_strlit("Levels"),
        ModuleGroup::Vignetting => reveal_strlit("Vignetting"),
        ModuleGroup::LowlightVision => reveal_strlit("Lowlight vision"),
        ModuleGroup::GraduatedDensity => reveal_strlit("Graduated density"),
        ModuleGroup::ContrastBrightnessSaturation => reveal_strlit("Contrast brightness saturation"),
        ModuleGroup::BasicAdjustments => reveal_strlit("Basic adjustments"),
        ModuleGroup::Lowpass => reveal_strlit("Lowpass"),
        ModuleGroup::ShadowsHighlights => reveal_strlit("Shadows/Highlights"),
        ModuleGroup::Primaries => reveal_strlit("Primaries"),
        ModuleGroup::Negadoctor => reveal_strlit("Negadoctor"),
        ModuleGroup::ToneEqualizer => reveal_strlit("Tone equalizer"),
        ModuleGroup::ColorBalanceRgb => reveal_strlit("Color balance RGB"),
        ModuleGroup::FilmicRgb => reveal_strlit("Filmic RGB"),
        ModuleGroup::HighlightReconstruction => reveal_strlit("Highlight reconstruction"),
        ModuleGroup::DenoiseProfiled => reveal_strlit("Denoise (profiled)"),
        ModuleGroup::Bloom => reveal_strlit("Bloom"),
        ModuleGroup::ToneCurve => reveal_strlit("Tone curve"),
        ModuleGroup::RgbCurve => reveal_strlit("RGB curve"),
        ModuleGroup::BaseCurve => reveal_strlit("Base curve"),
        ModuleGroup::LensCorrection => reveal_strlit("Lens correction"),
    }
}

/// Copying "Exposure" takes over each of its settings.
pub proof fn law_exposure_is_copied_by_name(base: PreviewParams, src: PreviewParams, r: PreviewParams)
    requires
        r == with_named(base, src, "Exposure"@),
    ensures
        r.exposure_on == src.exposure_on,
        r.black == src.black,
        r.ev == src.ev,
{
    lemma_group_named(ModuleGroup::Exposure);
    law_copy_moves_only_that_group(base, src, ModuleGroup::Exposure, ModuleGroup::Exposure);
    reveal(agree);
}

/// Copying "Velvia" takes over each of its settings.
pub proof fn law_velvia_is_copied_by_name(base: PreviewParams, src: PreviewParams, r: PreviewParams)
    requires
        r == with_named(base, src, "Velvia"@),
    ensures
        r.velvia_on == src.velvia_on,
        r.velvia_strength == src.velvia_strength,
        r.velvia_bias == src.velvia_bias,
{
    lemma_group_named(ModuleGroup::Velvia);
    law_copy_moves_only_that_group(base, src, ModuleGroup::Velvia, ModuleGroup::Velvia);
    reveal(agree);
}

/// Copying "Split-toning" takes over each of its settings.
pub proof fn law_split_toning_is_copied_by_name(base: PreviewParams, src: PreviewParams, r: PreviewParams)
    requires
        r == with_named(base, src, "Split-toning"@),
    ensures
        r.split_on == src.split_on,
        r.split_shadow_hue == src.split_shadow_hue,
        r.split_shadow_sat == src.split_shadow_sat,
        r.split_highlight_hue == src.split_highlight_hue,
        r.split_highlight_sat == src.split_highlight_sat,
        r.split_balance == src.split_balance,
        r.split_compress == src.split_compress,
{
    lemma_group_named(ModuleGroup::SplitToning);
    law_copy_moves_only_that_group(base, src, ModuleGroup::SplitToning, ModuleGroup::SplitToning);
    reveal(agree);
}

/// Copying "Monochrome" takes over each of its settings.
pub proof fn law_monochrome_is_copied_by_name(base: PreviewParams, src: PreviewParams, r: PreviewParams)
    requires
        r == with_named(base, src, "Monochrome"@),
    ensures
        r.mono_on == src.mono_on,
        r.mono_r == src.mono_r,
        r.mono_g == src.mono_g,
        r.mono_b == src.mono_b,
{
    lemma_group_named(ModuleGroup::Monochrome);
    law_copy_moves_only_that_group(base, src, ModuleGroup::Monochrome, ModuleGroup::Monochrome);
    reveal(agree);
}

/// Copying "Sigmoid" takes over each of its settings.
pub proof fn law_sigmoid_is_copied_by_name(base: PreviewParams, src: PreviewParams, r: PreviewParams)
    requires
        r == with_named(base, src, "Sigmoid"@),
    ensures
        r.sigmoid_on == src.sigmoid_on,
        r.sigmoid_contrast == src.sigmoid_contrast,
        r.sigmoid_skew == src.sigmoid_skew,
{
    lemma_group_named(ModuleGroup::Sigmoid);
    law_copy_moves_only_that_group(base, src, ModuleGroup::Sigmoid, ModuleGroup::Sigmoid);
    reveal(agree);
}

/// Copying "Sharpen" takes over each of its settings.
pub proof fn law_sharpen_is_copied_by_name(base: PreviewParams, src: PreviewParams, r: PreviewParams)
    requires
        r == with_named(base, src, "Sharpen"@),
    ensures
        r.sharpen_on == src.sharpen_on,
        r.sharpen_radius == src.sharpen_radius,
        r.sharpen_amount == src.sharpen_amount,
        r.sharpen_threshold == src.sharpen_threshold,
{
    lemma_group_named(ModuleGroup::Sharpen);
    law_copy_moves_only_that_group(base, src, ModuleGroup::Sharpen, ModuleGroup::Sharpen);
    reveal(agree);
}

/// Copying "Vibrance" takes over each of its settings.
pub proof fn law_vibrance_is_copied_by_name(base: PreviewParams, src: PreviewParams, r: PreviewParams)
    requires
        r == with_named(base, src, "Vibrance"@),
    ensures
        r.vibrance_on == src.vibrance_on,
        r.vibrance_amount == src.vibrance_amount,
{
    lemma_group_named(ModuleGroup::Vibrance);
    law_copy_moves_only_that_group(base, src, ModuleGroup::Vibrance, ModuleGroup::Vibrance);
    reveal(agree);
}

/// Copying "Color contrast" takes over each of its settings.
pub proof fn law_color_contrast_is_copied_by_name(base: PreviewParams, src: PreviewParams, r: PreviewParams)
    requires
        r == with_named(base, src, "Color contrast"@),
    ensures
        r.color_contrast_on == src.color_contrast_on,
        r.color_contrast_a_steepness == src.color_contrast_a_steepness,
        r.color_contrast_b_steepness == src.color_contrast_b_steepness,
{
    lemma_group_named(ModuleGroup::ColorContrast);
    law_copy_moves_only_that_group(base, src, ModuleGroup::ColorContrast, ModuleGroup::ColorContrast);
    reveal(agree);
}

/// Copying "Invert" takes over each of its settings.
pub proof fn law_invert_is_copied_by_name(base: PreviewParams, src: PreviewParams, r: PreviewParams)
    requires
        r == with_named(base, src, "Invert"@),
    ensures
        r.invert_on == src.invert_on,
        r.invert_r == src.invert_r,
        r.invert_g == src.invert_g,
        r.invert_b == src.invert_b,
{
    lemma_group_named(ModuleGroup::Invert);
    law_copy_moves_only_that_group(base, src, ModuleGroup::Invert, ModuleGroup::Invert);
    reveal(agree);
}

/// Copying "White balance" takes over each of its settings.
pub proof fn law_white_balance_is_copied_by_name(base: PreviewParams, src: PreviewParams, r: PreviewParams)
    requires
        r == with_named(base, src, "White balance"@),
    ensures
        r.temperature_on == src.temperature_on,
        r.temperature_r == src.temperature_r,
        r.temperature_g == src.temperature_g,
        r.temperature_b == src.temperature_b,
{
    lemma_group_named(ModuleGroup::WhiteBalance);
    law_copy_moves_only_that_group(base, src, ModuleGroup::WhiteBalance, ModuleGroup::WhiteBalance);
    reveal(agree);
}

/// Copying "Colorize" takes over each of its settings.
pub proof fn law_colorize_is_copied_by_name(base: PreviewParams, src: PreviewParams, r: PreviewParams)
    requires
        r == with_named(base, src, "Colorize"@),
    ensures
        r.colorize_on == src.colorize_on,
        r.colorize_hue == src.colorize_hue,
        r.colorize_sat == src.colorize_sat,
        r.colorize_lightness == src.colorize_lightness,
        r.colorize_lightness_mix == src.colorize_lightness_mix,
{
    lemma_group_named(ModuleGroup::Colorize);
    law_copy_moves_only_that_group(base, src, ModuleGroup::Colorize, ModuleGroup::Colorize);
    reveal(agree);
}

/// Copying "Color correction" takes over each of its settings.
pub proof fn law_color_correction_is_copied_by_name(base: PreviewParams, src: PreviewParams, r: PreviewParams)
    requires
        r == with_named(base, src, "Color correction"@),
    ensures
        r.color_correction_on == src.color_correction_on,
        r.color_correction_loa == src.color_correction_loa,
        r.color_correction_hia == src.color_correction_hia,
        r.color_correction_lob == src.color_correction_lob,
        r.color_correction_hib == src.color_correction_hib,
        r.color_correction_saturation == src.color_correction_saturation,
{
    lemma_group_named(ModuleGroup::ColorCorrection);
    law_copy_moves_only_that_group(base, src, ModuleGroup::ColorCorrection, ModuleGroup::ColorCorrection);
    reveal(agree);
}

/// Copying "Color zones" takes over each of its settings.
pub proof fn law_color_zones_is_copied_by_name(base: PreviewParams, src: PreviewParams, r: PreviewParams)
    requires
        r == with_named(base, src, "Color zones"@),
    ensures
        r.colorzones_on == src.colorzones_on,
        r.colorzones_strength == src.colorzones_strength,
        r.colorzones_channel == src.colorzones_channel,
        r.colorzones_mode == src.colorzones_mode,
        r.colorzones_num_nodes == src.colorzones_num_nodes,
        r.colorzones_curve_type == src.colorzones_curve_type,
        r.colorzones_curve_x == src.colorzones_curve_x,
        r.colorzones_curve_y == src.colorzones_curve_y,
{
    lemma_group_named(ModuleGroup::ColorZones);
    law_copy_moves_only_that_group(base, src, ModuleGroup::ColorZones, ModuleGroup::ColorZones);
    reveal(agree);
}

/// Copying "Levels" takes over each of its settings.
pub proof fn law_levels_is_copied_by_name(base: PreviewParams, src: PreviewParams, r: PreviewParams)
    requires
        r == with_named(base, src, "Levels"@),
    ensures
        r.levels_on == src.levels_on,
        r.levels_black == src.levels_black,
        r.levels_grey == src.levels_grey,
        r.levels_white == src.levels_white,
{
    lemma_group_named(ModuleGroup::Levels);
    law_copy_moves_only_that_group(base, src, ModuleGroup::Levels, ModuleGroup::Levels);
    reveal(agree);
}

/// Copying "Vignetting" takes over each of its settings.
pub proof fn law_vignetting_is_copied_by_name(base: PreviewParams, src: PreviewParams, r: PreviewParams)
    requires
        r == with_named(base, src, "Vignetting"@),
    ensures
        r.vignette_on == src.vignette_on,
        r.vignette_scale == src.vignette_scale,
        r.vignette_falloff == src.vignette_falloff,
        r.vignette_brightness == src.vignette_brightness,
        r.vignette_saturation == src.vignette_saturation,
        r.vignette_center_x == src.vignette_center_x,
        r.vignette_center_y == src.vignette_center_y,
        r.vignette_shape == src.vignette_shape,
{
    lemma_group_named(ModuleGroup::Vignetting);
    law_copy_moves_only_that_group(base, src, ModuleGroup::Vignetting, ModuleGroup::Vignetting);
    reveal(agree);
}

/// Copying "Lowlight vision" takes over each of its settings.
pub proof fn law_lowlight_vision_is_copied_by_name(base: PreviewParams, src: PreviewParams, r: PreviewParams)
    requires
        r == with_named(base, src, "Lowlight vision"@),
    ensures
        r.lowlight_on == src.lowlight_on,
        r.lowlight_blueness == src.lowlight_blueness,
        r.lowlight_transition == src.lowlight_transition,
{
    lemma_group_named(ModuleGroup::LowlightVision);
    law_copy_moves_only_that_group(base, src, ModuleGroup::LowlightVision, ModuleGroup::LowlightVision);
    reveal(agree);
}

/// Copying "Graduated density" takes over each of its settings.
pub proof fn law_graduated_density_is_copied_by_name(base: PreviewParams, src: PreviewParams, r: PreviewParams)
    requires
        r == with_named(base, src, "Graduated density"@),
    ensures
        r.gradnd_on == src.gradnd_on,
        r.gradnd_density == src.gradnd_density,
        r.gradnd_hardness == src.gradnd_hardness,
        r.gradnd_rotation == src.gradnd_rotation,
        r.gradnd_offset == src.gradnd_offset,
        r.gradnd_hue == src.gradnd_hue,
        r.gradnd_saturation == src.gradnd_saturation,
{
    lemma_group_named(ModuleGroup::GraduatedDensity);
    law_copy_moves_only_that_group(base, src, ModuleGroup::GraduatedDensity, ModuleGroup::GraduatedDensity);
    reveal(agree);
}

/// Copying "Contrast brightness saturation" takes over each of its settings.
pub proof fn law_contrast_brightness_saturation_is_copied_by_name(base: PreviewParams, src: PreviewParams, r: PreviewParams)
    requires
        r == with_named(base, src, "Contrast brightness saturation"@),
    ensures
        r.colisa_on == src.colisa_on,
        r.colisa_contrast == src.colisa_contrast,
        r.colisa_brightness == src.colisa_brightness,
        r.colisa_saturation == src.colisa_saturation,
{
    lemma_group_named(ModuleGroup::ContrastBrightnessSaturation);
    law_copy_moves_only_that_group(base, src, ModuleGroup::ContrastBrightnessSaturation, ModuleGroup::ContrastBrightnessSaturation);
    reveal(agree);
}

/// Copying "Basic adjustments" takes over each of its settings.
pub proof fn law_basic_adjustments_is_copied_by_name(base: PreviewParams, src: PreviewParams, r: PreviewParams)
    requires
        r == with_named(base, src, "Basic adjustments"@),
    ensures
        r.basicadj_on == src.basicadj_on,
        r.basicadj_black_point == src.basicadj_black_point,
        r.basicadj_exposure == src.basicadj_exposure,
        r.basicadj_hlcompr == src.basicadj_hlcompr,
        r.basicadj_hlcomprthresh == src.basicadj_hlcomprthresh,
        r.basicadj_contrast == src.basicadj_contrast,
        r.basicadj_preserve_colors == src.basicadj_preserve_colors,
        r.basicadj_middle_grey == src.basicadj_middle_grey,
        r.basicadj_brightness == src.basicadj_brightness,
        r.basicadj_saturation == src.basicadj_saturation,
        r.basicadj_vibrance == src.basicadj_vibrance,
{
    lemma_group_named(ModuleGroup::BasicAdjustments);
    law_copy_moves_only_that_group(base, src, ModuleGroup::BasicAdjustments, ModuleGroup::BasicAdjustments);
    reveal(agree);
}

/// Copying "Lowpass" takes over each of its settings.
pub proof fn law_lowpass_is_copied_by_name(base: PreviewParams, src: PreviewParams, r: PreviewParams)
    requires
        r == with_named(base, src, "Lowpass"@),
    ensures
        r.lowpass_on == src.lowpass_on,
        r.lowpass_radius == src.lowpass_radius,
        r.lowpass_contrast == src.lowpass_contrast,
        r.lowpass_brightness == src.lowpass_brightness,
        r.lowpass_saturation == src.lowpass_saturation,
{
    lemma_group_named(ModuleGroup::Lowpass);
    law_copy_moves_only_that_group(base, src, ModuleGroup::Lowpass, ModuleGroup::Lowpass);
    reveal(agree);
}

/// Copying "Shadows/Highlights" takes over each of its settings.
pub proof fn law_shadows_highlights_is_copied_by_name(base: PreviewParams, src: PreviewParams, r: PreviewParams)
    requires
        r == with_named(base, src, "Shadows/Highlights"@),
    ensures
        r.shadhi_on == src.shadhi_on,
        r.shadhi_shadows == src.shadhi_shadows,
        r.shadhi_highlights == src.shadhi_highlights,
        r.shadhi_whitepoint == src.shadhi_whitepoint,
        r.shadhi_radius == src.shadhi_radius,
        r.shadhi_compress == src.shadhi_compress,
        r.shadhi_shadows_ccorrect == src.shadhi_shadows_ccorrect,
        r.shadhi_highlights_ccorrect == src.shadhi_highlights_ccorrect,
{
    lemma_group_named(ModuleGroup::ShadowsHighlights);
    law_copy_moves_only_that_group(base, src, ModuleGroup::ShadowsHighlights, ModuleGroup::ShadowsHighlights);
    reveal(agree);
}

/// Copying "Primaries" takes over each of its settings.
pub proof fn law_primaries_is_copied_by_name(base: PreviewParams, src: PreviewParams, r: PreviewParams)
    requires
        r == with_named(base, src, "Primaries"@),
    ensures
        r.primaries_on == src.primaries_on,
        r.primaries_achromatic_tint_hue == src.primaries_achromatic_tint_hue,
        r.primaries_achromatic_tint_purity == src.primaries_achromatic_tint_purity,
        r.primaries_red_hue == src.primaries_red_hue,
        r.primaries_red_purity == src.primaries_red_purity,
        r.primaries_green_hue == src.primaries_green_hue,
        r.primaries_green_purity == src.primaries_green_purity,
        r.primaries_blue_hue == src.primaries_blue_hue,
        r.primaries_blue_purity == src.primaries_blue_purity,
{
    lemma_group_named(ModuleGroup::Primaries);
    law_copy_moves_only_that_group(base, src, ModuleGroup::Primaries, ModuleGroup::Primaries);
    reveal(agree);
}

/// Copying "Negadoctor" takes over each of its settings.
pub proof fn law_negadoctor_is_copied_by_name(base: PreviewParams, src: PreviewParams, r: PreviewParams)
    requires
        r == with_named(base, src, "Negadoctor"@),
    ensures
        r.negadoctor_on == src.negadoctor_on,
        r.negadoctor_film_stock == src.negadoctor_film_stock,
        r.negadoctor_dmin_r == src.negadoctor_dmin_r,
        r.negadoctor_dmin_g == src.negadoctor_dmin_g,
        r.negadoctor_dmin_b == src.negadoctor_dmin_b,
        r.negadoctor_wb_high_r == src.negadoctor_wb_high_r,
        r.negadoctor_wb_high_g == src.negadoctor_wb_high_g,
        r.negadoctor_wb_high_b == src.negadoctor_wb_high_b,
        r.negadoctor_wb_low_r == src.negadoctor_wb_low_r,
        r.negadoctor_wb_low_g == src.negadoctor_wb_low_g,
        r.negadoctor_wb_low_b == src.negadoctor_wb_low_b,
        r.negadoctor_d_max == src.negadoctor_d_max,
        r.negadoctor_offset == src.negadoctor_offset,
        r.negadoctor_black == src.negadoctor_black,
        r.negadoctor_gamma == src.negadoctor_gamma,
        r.negadoctor_soft_clip == src.negadoctor_soft_clip,
        r.negadoctor_exposure == src.negadoctor_exposure,
{
    lemma_group_named(ModuleGroup::Negadoctor);
    law_copy_moves_only_that_group(base, src, ModuleGroup::Negadoctor, ModuleGroup::Negadoctor);
    reveal(agree);
}

/// Copying "Tone equalizer" takes over each of its settings.
pub proof fn law_tone_equalizer_is_copied_by_name(base: PreviewParams, src: PreviewParams, r: PreviewParams)
    requires
        r == with_named(base, src, "Tone equalizer"@),
    ensures
        r.toneeq_on == src.toneeq_on,
        r.toneeq_noise == src.toneeq_noise,
        r.toneeq_ultra_deep_blacks == src.toneeq_ultra_deep_blacks,
        r.toneeq_deep_blacks == src.toneeq_deep_blacks,
        r.toneeq_blacks == src.toneeq_blacks,
        r.toneeq_shadows == src.toneeq_shadows,
        r.toneeq_midtones == src.toneeq_midtones,
        r.toneeq_highlights == src.toneeq_highlights,
        r.toneeq_whites == src.toneeq_whites,
        r.toneeq_speculars == src.toneeq_speculars,
{
    lemma_group_named(ModuleGroup::ToneEqualizer);
    law_copy_moves_only_that_group(base, src, ModuleGroup::ToneEqualizer, ModuleGroup::ToneEqualizer);
    reveal(agree);
}

/// Copying "Color balance RGB" takes over each of its settings.
pub proof fn law_color_balance_rgb_is_copied_by_name(base: PreviewParams, src: PreviewParams, r: PreviewParams)
    requires
        r == with_named(base, src, "Color balance RGB"@),
    ensures
        r.cb_on == src.cb_on,
        r.cb_shadows_y == src.cb_shadows_y,
        r.cb_shadows_c == src.cb_shadows_c,
        r.cb_shadows_h == src.cb_shadows_h,
        r.cb_midtones_y == src.cb_midtones_y,
        r.cb_midtones_c == src.cb_midtones_c,
        r.cb_midtones_h == src.cb_midtones_h,
        r.cb_highlights_y == src.cb_highlights_y,
        r.cb_highlights_c == src.cb_highlights_c,
        r.cb_highlights_h == src.cb_highlights_h,
        r.cb_global_y == src.cb_global_y,
        r.cb_global_c == src.cb_global_c,
        r.cb_global_h == src.cb_global_h,
        r.cb_shadows_weight == src.cb_shadows_weight,
        r.cb_white_fulcrum == src.cb_white_fulcrum,
        r.cb_highlights_weight == src.cb_highlights_weight,
        r.cb_chroma_shadows == src.cb_chroma_shadows,
        r.cb_chroma_highlights == src.cb_chroma_highlights,
        r.cb_chroma_global == src.cb_chroma_global,
        r.cb_chroma_midtones == src.cb_chroma_midtones,
        r.cb_saturation_global == src.cb_saturation_global,
        r.cb_saturation_highlights == src.cb_saturation_highlights,
        r.cb_saturation_midtones == src.cb_saturation_midtones,
        r.cb_saturation_shadows == src.cb_saturation_shadows,
        r.cb_hue_angle == src.cb_hue_angle,
        r.cb_brilliance_global == src.cb_brilliance_global,
        r.cb_brilliance_highlights == src.cb_brilliance_highlights,
        r.cb_brilliance_midtones == src.cb_brilliance_midtones,
        r.cb_brilliance_shadows == src.cb_brilliance_shadows,
        r.cb_mask_grey_fulcrum == src.cb_mask_grey_fulcrum,
        r.cb_vibrance == src.cb_vibrance,
        r.cb_grey_fulcrum == src.cb_grey_fulcrum,
        r.cb_contrast == src.cb_contrast,
        r.cb_formula == src.cb_formula,
{
    lemma_group_named(ModuleGroup::ColorBalanceRgb);
    law_copy_moves_only_that_group(base, src, ModuleGroup::ColorBalanceRgb, ModuleGroup::ColorBalanceRgb);
    reveal(agree);
}

/// Copying "Filmic RGB" takes over each of its settings.
pub proof fn law_filmic_rgb_is_copied_by_name(base: PreviewParams, src: PreviewParams, r: PreviewParams)
    requires
        r == with_named(base, src, "Filmic RGB"@),
    ensures
        r.filmic_on == src.filmic_on,
        r.filmic_black_point_source == src.filmic_black_point_source,
        r.filmic_white_point_source == src.filmic_white_point_source,
        r.filmic_output_power == src.filmic_output_power,
        r.filmic_latitude == src.filmic_latitude,
        r.filmic_contrast == src.filmic_contrast,
        r.filmic_balance == src.filmic_balance,
        r.filmic_saturation == src.filmic_saturation,
{
    lemma_group_named(ModuleGroup::FilmicRgb);
    law_copy_moves_only_that_group(base, src, ModuleGroup::FilmicRgb, ModuleGroup::FilmicRgb);
    reveal(agree);
}

/// Copying "Highlight reconstruction" takes over each of its settings.
pub proof fn law_highlight_reconstruction_is_copied_by_name(base: PreviewParams, src: PreviewParams, r: PreviewParams)
    requires
        r == with_named(base, src, "Highlight reconstruction"@),
    ensures
        r.hl_on == src.hl_on,
        r.hl_opposed == src.hl_opposed,
        r.hl_clip == src.hl_clip,
{
    lemma_group_named(ModuleGroup::HighlightReconstruction);
    law_copy_moves_only_that_group(base, src, ModuleGroup::HighlightReconstruction, ModuleGroup::HighlightReconstruction);
    reveal(agree);
}

/// Copying "Denoise (profiled)" takes over each of its settings.
pub proof fn law_denoise_profiled_is_copied_by_name(base: PreviewParams, src: PreviewParams, r: PreviewParams)
    requires
        r == with_named(base, src, "Denoise (profiled)"@),
    ensures
        r.dn_on == src.dn_on,
        r.dn_mode_y0u0v0 == src.dn_mode_y0u0v0,
        r.dn_strength == src.dn_strength,
        r.dn_shadows == src.dn_shadows,
        r.dn_bias == src.dn_bias,
{
    lemma_group_named(ModuleGroup::DenoiseProfiled);
    law_copy_moves_only_that_group(base, src, ModuleGroup::DenoiseProfiled, ModuleGroup::DenoiseProfiled);
    reveal(agree);
}

/// Copying "Bloom" takes over each of its settings.
pub proof fn law_bloom_is_copied_by_name(base: PreviewParams, src: PreviewParams, r: PreviewParams)
    requires
        r == with_named(base, src, "Bloom"@),
    ensures
        r.bl_on == src.bl_on,
        r.bl_size == src.bl_size,
        r.bl_threshold == src.bl_threshold,
        r.bl_strength == src.bl_strength,
{
    lemma_group_named(ModuleGroup::Bloom);
    law_copy_moves_only_that_group(base, src, ModuleGroup::Bloom, ModuleGroup::Bloom);
    reveal(agree);
}

/// Copying "Tone curve" takes over each of its settings.
pub proof fn law_tone_curve_is_copied_by_name(base: PreviewParams, src: PreviewParams, r: PreviewParams)
    requires
        r == with_named(base, src, "Tone curve"@),
    ensures
        r.tc_on == src.tc_on,
        r.tc_type == src.tc_type,
        r.tc_autoscale == src.tc_autoscale,
        r.tc_unbound == src.tc_unbound,
        r.tc_preserve == src.tc_preserve,
        r.tc_nnodes == src.tc_nnodes,
        r.tc_nodes_l == src.tc_nodes_l,
{
    lemma_group_named(ModuleGroup::ToneCurve);
    law_copy_moves_only_that_group(base, src, ModuleGroup::ToneCurve, ModuleGroup::ToneCurve);
    reveal(agree);
}

/// Copying "RGB curve" takes over each of its settings.
pub proof fn law_rgb_curve_is_copied_by_name(base: PreviewParams, src: PreviewParams, r: PreviewParams)
    requires
        r == with_named(base, src, "RGB curve"@),
    ensures
        r.rc_on == src.rc_on,
        r.rc_type_r == src.rc_type_r,
        r.rc_type_g == src.rc_type_g,
        r.rc_type_b == src.rc_type_b,
        r.rc_autoscale == src.rc_autoscale,
        r.rc_preserve == src.rc_preserve,
        r.rc_nnodes_r == src.rc_nnodes_r,
        r.rc_nnodes_g == src.rc_nnodes_g,
        r.rc_nnodes_b == src.rc_nnodes_b,
        r.rc_nodes_r == src.rc_nodes_r,
        r.rc_nodes_g == src.rc_nodes_g,
        r.rc_nodes_b == src.rc_nodes_b,
{
    lemma_group_named(ModuleGroup::RgbCurve);
    law_copy_moves_only_that_group(base, src, ModuleGroup::RgbCurve, ModuleGroup::RgbCurve);
    reveal(agree);
}

/// Copying "Base curve" takes over each of its settings.
pub proof fn law_base_curve_is_copied_by_name(base: PreviewParams, src: PreviewParams, r: PreviewParams)
    requires
        r == with_named(base, src, "Base curve"@),
    ensures
        r.bc_on == src.bc_on,
        r.bc_type == src.bc_type,
        r.bc_preserve == src.bc_preserve,
        r.bc_nnodes == src.bc_nnodes,
        r.bc_exposure_fusion == src.bc_exposure_fusion,
        r.bc_exposure_stops == src.bc_exposure_stops,
        r.bc_exposure_bias == src.bc_exposure_bias,
        r.bc_nodes == src.bc_nodes,
{
    lemma_group_named(ModuleGroup::BaseCurve);
    law_copy_moves_only_that_group(base, src, ModuleGroup::BaseCurve, ModuleGroup::BaseCurve);
    reveal(agree);
}

/// Copying "Lens correction" takes over each of its settings.
pub proof fn law_lens_correction_is_copied_by_name(base: PreviewParams, src: PreviewParams, r: PreviewParams)
    requires
        r == with_named(base, src, "Lens correction"@),
    ensures
        r.lens_on == src.lens_on,
        r.lens_inverse == src.lens_inverse,
        r.lens_modify_flags == src.lens_modify_flags,
        r.lens_scale == src.lens_scale,
        r.lens_focal == src.lens_focal,
        r.lens_aperture == src.lens_aperture,
        r.lens_distance == src.lens_distance,
        r.lens_target_geom == src.lens_target_geom,
{
    lemma_group_named(ModuleGroup::LensCorrection);
    law_copy_moves_only_that_group(base, src, ModuleGroup::LensCorrection, ModuleGroup::LensCorrection);
    reveal(agree);
}

/// The groups that are offered, by name and in their order.
pub proof fn law_offered_groups()
    ensures
        MODULE_GROUPS@.len() == 33,
        MODULE_GROUPS@[0]@ == "Exposure"@,
        MODULE_GROUPS@[1]@ == "Velvia"@,
        MODULE_GROUPS@[2]@ == "Split-toning"@,
        MODULE_GROUPS@[3]@ == "Monochrome"@,
        MODULE_GROUPS@[4]@ == "Sigmoid"@,
        MODULE_GROUPS@[5]@ == "Sharpen"@,
        MODULE_GROUPS@[6]@ == "Vibrance"@,
        MODULE_GROUPS@[7]@ == "Color contrast"@,
        MODULE_GROUPS@[8]@ == "Invert"@,
        MODULE_GROUPS@[9]@ == "White balance"@,
        MODULE_GROUPS@[10]@ == "Colorize"@,
        MODULE_GROUPS@[11]@ == "Color correction"@,
        MODULE_GROUPS@[12]@ == "Color zones"@,
        MODULE_GROUPS@[13]@ == "Levels"@,
        MODULE_GROUPS@[14]@ == "Vignetting"@,
        MODULE_GROUPS@[15]@ == "Lowlight vision"@,
        MODULE_GROUPS@[16]@ == "Graduated density"@,
        MODULE_GROUPS@[17]@ == "Contrast brightness saturation"@,
        MODULE_GROUPS@[18]@ == "Basic adjustments"@,
        MODULE_GROUPS@[19]@ == "Lowpass"@,
        MODULE_GROUPS@[20]@ == "Shadows/Highlights"@,
        MODULE_GROUPS@[21]@ == "Primaries"@,
        MODULE_GROUPS@[22]@ == "Negadoctor"@,
        MODULE_GROUPS@[23]@ == "Tone equalizer"@,
        MODULE_GROUPS@[24]@ == "Color balance RGB"@,
        MODULE_GROUPS@[25]@ == "Filmic RGB"@,
        MODULE_GROUPS@[26]@ == "Highlight reconstruction"@,
        MODULE_GROUPS@[27]@ == "Denoise (profiled)"@,
        MODULE_GROUPS@[28]@ == "Bloom"@,
        MODULE_GROUPS@[29]@ == "Tone curve"@,
        MODULE_GROUPS@[30]@ == "RGB curve"@,
        MODULE_GROUPS@[31]@ == "Base curve"@,
        MODULE_GROUPS@[32]@ == "Lens correction"@,
{
    let t = MODULE_GROUPS;
    assert(t@[0]@ == "Exposure"@);
    assert(t@[1]@ == "Velvia"@);
    assert(t@[2]@ == "Split-toning"@);
    assert(t@[3]@ == "Monochrome"@);
    assert(t@[4]@ == "Sigmoid"@);
    assert(t@[5]@ == "Sharpen"@);
    assert(t@[6]@ == "Vibrance"@);
    assert(t@[7]@ == "Color contrast"@);
    assert(t@[8]@ == "Invert"@);
    assert(t@[9]@ == "White balance"@);
    assert(t@[10]@ == "Colorize"@);
    assert(t@[11]@ == "Color correction"@);
    assert(t@[12]@ == "Color zones"@);
    assert(t@[13]@ == "Levels"@);
    assert(t@[14]@ == "Vignetting"@);
    assert(t@[15]@ == "Lowlight vision"@);
    assert(t@[16]@ == "Graduated density"@);
    assert(t@[17]@ == "Contrast brightness saturation"@);
    assert(t@[18]@ == "Basic adjustments"@);
    assert(t@[19]@ == "Lowpass"@);
    assert(t@[20]@ == "Shadows/Highlights"@);
    assert(t@[21]@ == "Primaries"@);
    assert(t@[22]@ == "Negadoctor"@);
    assert(t@[23]@ == "Tone equalizer"@);
    assert(t@[24]@ == "Color balance RGB"@);
    assert(t@[25]@ == "Filmic RGB"@);
    assert(t@[26]@ == "Highlight reconstruction"@);
    assert(t@[27]@ == "Denoise (profiled)"@);
    assert(t@[28]@ == "Bloom"@);
    assert(t@[29]@ == "Tone curve"@);
    assert(t@[30]@ == "RGB curve"@);
    assert(t@[31]@ == "Base curve"@);
    assert(t@[32]@ == "Lens correction"@);
}

} // verus!
