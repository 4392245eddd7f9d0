//! The develop parameters of an image and their neutral values.
use vstd::prelude::*;

use crate::float32::F32;

verus! {

/// Everything that the darkroom's controls set on one image. Each module has an
/// enable flag and its controls, in the units that the controls show.
#[derive(Clone, Copy, Debug, PartialEq)]
pub struct PreviewParams {
    /// Exposure: `black` is subtracted, then the image is scaled by two to the `ev`.
    pub exposure_on: bool,
    pub black: F32,
    pub ev: F32,
    /// Velvia: strength 0..100, mid-tones bias 0..1.
    pub velvia_on: bool,
    pub velvia_strength: F32,
    pub velvia_bias: F32,
    /// Split toning: hues and saturations 0..1, balance 0..1, compress 0..100.
    pub split_on: bool,
    pub split_shadow_hue: F32,
    pub split_shadow_sat: F32,
    pub split_highlight_hue: F32,
    pub split_highlight_sat: F32,
    pub split_balance: F32,
    pub split_compress: F32,
    /// Monochrome: the grey mix weights of the three channels.
    pub mono_on: bool,
    pub mono_r: F32,
    pub mono_g: F32,
    pub mono_b: F32,
    /// Sigmoid tone mapping: contrast 0.1..10, skew -1..1. On for raws, off for
    /// display-referred sources.
    pub sigmoid_on: bool,
    pub sigmoid_contrast: F32,
    pub sigmoid_skew: F32,
    /// Sharpen: radius, amount and detail threshold.
    pub sharpen_on: bool,
    pub sharpen_radius: F32,
    pub sharpen_amount: F32,
    pub sharpen_threshold: F32,
    /// Vibrance: amount 0..100.
    pub vibrance_on: bool,
    pub vibrance_amount: F32,
    /// Colour contrast: the two Lab steepnesses, one being neutral.
    pub color_contrast_on: bool,
    pub color_contrast_a_steepness: F32,
    pub color_contrast_b_steepness: F32,
    /// Invert: the film-back colour that the image is subtracted from.
    pub invert_on: bool,
    pub invert_r: F32,
    pub invert_g: F32,
    pub invert_b: F32,
    /// White balance: the channel multipliers, one being neutral.
    pub temperature_on: bool,
    pub temperature_r: F32,
    pub temperature_g: F32,
    pub temperature_b: F32,
    /// Colorize: hue and saturation 0..1, lightness and source mix 0..100.
    pub colorize_on: bool,
    pub colorize_hue: F32,
    pub colorize_sat: F32,
    pub colorize_lightness: F32,
    pub colorize_lightness_mix: F32,
    /// Colour correction: shadow and highlight offsets on Lab a and b, and a saturation.
    pub color_correction_on: bool,
    pub color_correction_loa: F32,
    pub color_correction_hia: F32,
    pub color_correction_lob: F32,
    pub color_correction_hib: F32,
    pub color_correction_saturation: F32,
    /// Colour zones: strength, the selecting channel (0 L, 1 C, 2 h), the mode, and for
    /// each channel a node count, a spline type and up to eight nodes.
    pub colorzones_on: bool,
    pub colorzones_strength: F32,
    pub colorzones_channel: F32,
    pub colorzones_mode: F32,
    pub colorzones_num_nodes: [F32; 3],
    pub colorzones_curve_type: [F32; 3],
    pub colorzones_curve_x: [[F32; 8]; 3],
    pub colorzones_curve_y: [[F32; 8]; 3],
    /// Levels: black, grey and white points on a 0..100 scale.
    pub levels_on: bool,
    pub levels_black: F32,
    pub levels_grey: F32,
    pub levels_white: F32,
    /// Vignetting: fall-off start and radius, the two strengths, the centre and the shape.
    pub vignette_on: bool,
    pub vignette_scale: F32,
    pub vignette_falloff: F32,
    pub vignette_brightness: F32,
    pub vignette_saturation: F32,
    pub vignette_center_x: F32,
    pub vignette_center_y: F32,
    pub vignette_shape: F32,
    /// Low light: blue shift, and the heights of the six transition bands.
    pub lowlight_on: bool,
    pub lowlight_blueness: F32,
    pub lowlight_transition: [F32; 6],
    /// Graduated density: density in EV, edge hardness, rotation, offset and tint.
    pub gradnd_on: bool,
    pub gradnd_density: F32,
    pub gradnd_hardness: F32,
    pub gradnd_rotation: F32,
    pub gradnd_offset: F32,
    pub gradnd_hue: F32,
    pub gradnd_saturation: F32,
    /// Contrast, brightness and saturation, zero being neutral for each.
    pub colisa_on: bool,
    pub colisa_contrast: F32,
    pub colisa_brightness: F32,
    pub colisa_saturation: F32,
    /// Basic adjustments. `basicadj_preserve_colors` holds the number of a colour norm.
    pub basicadj_on: bool,
    pub basicadj_black_point: F32,
    pub basicadj_exposure: F32,
    pub basicadj_hlcompr: F32,
    pub basicadj_hlcomprthresh: F32,
    pub basicadj_contrast: F32,
    pub basicadj_preserve_colors: F32,
    pub basicadj_middle_grey: F32,
    pub basicadj_brightness: F32,
    pub basicadj_saturation: F32,
    pub basicadj_vibrance: F32,
    /// Lowpass: blur radius, contrast, brightness and saturation.
    pub lowpass_on: bool,
    pub lowpass_radius: F32,
    pub lowpass_contrast: F32,
    pub lowpass_brightness: F32,
    pub lowpass_saturation: F32,
    /// Shadows and highlights.
    pub shadhi_on: bool,
    pub shadhi_shadows: F32,
    pub shadhi_highlights: F32,
    pub shadhi_whitepoint: F32,
    pub shadhi_radius: F32,
    pub shadhi_compress: F32,
    pub shadhi_shadows_ccorrect: F32,
    pub shadhi_highlights_ccorrect: F32,
    /// Primaries: hue shifts in degrees, and purities as multipliers.
    pub primaries_on: bool,
    pub primaries_achromatic_tint_hue: F32,
    pub primaries_achromatic_tint_purity: F32,
    pub primaries_red_hue: F32,
    pub primaries_red_purity: F32,
    pub primaries_green_hue: F32,
    pub primaries_green_purity: F32,
    pub primaries_blue_hue: F32,
    pub primaries_blue_purity: F32,
    /// Negadoctor (film scan inversion). Film stock 0 is black and white, 1 is colour.
    pub negadoctor_on: bool,
    pub negadoctor_film_stock: F32,
    pub negadoctor_dmin_r: F32,
    pub negadoctor_dmin_g: F32,
    pub negadoctor_dmin_b: F32,
    pub negadoctor_wb_high_r: F32,
    pub negadoctor_wb_high_g: F32,
    pub negadoctor_wb_high_b: F32,
    pub negadoctor_wb_low_r: F32,
    pub negadoctor_wb_low_g: F32,
    pub negadoctor_wb_low_b: F32,
    pub negadoctor_d_max: F32,
    pub negadoctor_offset: F32,
    pub negadoctor_black: F32,
    pub negadoctor_gamma: F32,
    pub negadoctor_soft_clip: F32,
    pub negadoctor_exposure: F32,
    /// Tone equalizer: one gain per exposure band from -8 EV to 0 EV.
    pub toneeq_on: bool,
    pub toneeq_noise: F32,
    pub toneeq_ultra_deep_blacks: F32,
    pub toneeq_deep_blacks: F32,
    pub toneeq_blacks: F32,
    pub toneeq_shadows: F32,
    pub toneeq_midtones: F32,
    pub toneeq_highlights: F32,
    pub toneeq_whites: F32,
    pub toneeq_speculars: F32,
    /// Colour balance RGB. Formula 0 is JzAzBz, 1 is dt-UCS.
    pub cb_on: bool,
    pub cb_shadows_y: F32,
    pub cb_shadows_c: F32,
    pub cb_shadows_h: F32,
    pub cb_midtones_y: F32,
    pub cb_midtones_c: F32,
    pub cb_midtones_h: F32,
    pub cb_highlights_y: F32,
    pub cb_highlights_c: F32,
    pub cb_highlights_h: F32,
    pub cb_global_y: F32,
    pub cb_global_c: F32,
    pub cb_global_h: F32,
    pub cb_shadows_weight: F32,
    pub cb_white_fulcrum: F32,
    pub cb_highlights_weight: F32,
    pub cb_chroma_shadows: F32,
    pub cb_chroma_highlights: F32,
    pub cb_chroma_global: F32,
    pub cb_chroma_midtones: F32,
    pub cb_saturation_global: F32,
    pub cb_saturation_highlights: F32,
    pub cb_saturation_midtones: F32,
    pub cb_saturation_shadows: F32,
    pub cb_hue_angle: F32,
    pub cb_brilliance_global: F32,
    pub cb_brilliance_highlights: F32,
    pub cb_brilliance_midtones: F32,
    pub cb_brilliance_shadows: F32,
    pub cb_mask_grey_fulcrum: F32,
    pub cb_vibrance: F32,
    pub cb_grey_fulcrum: F32,
    pub cb_contrast: F32,
    pub cb_formula: F32,
    /// Filmic RGB display transform.
    pub filmic_on: bool,
    pub filmic_black_point_source: F32,
    pub filmic_white_point_source: F32,
    pub filmic_output_power: F32,
    pub filmic_latitude: F32,
    pub filmic_contrast: F32,
    pub filmic_balance: F32,
    pub filmic_saturation: F32,
    /// Highlight reconstruction, which runs in the raw decode and not as a stage.
    pub hl_on: bool,
    pub hl_opposed: bool,
    pub hl_clip: F32,
    /// Profiled denoise.
    pub dn_on: bool,
    pub dn_mode_y0u0v0: bool,
    pub dn_strength: F32,
    pub dn_shadows: F32,
    pub dn_bias: F32,
    /// Bloom: size, threshold and strength.
    pub bl_on: bool,
    pub bl_size: F32,
    pub bl_threshold: F32,
    pub bl_strength: F32,
    /// Tone curve: the anchors of the L curve, of which the first `tc_nnodes` are in use.
    pub tc_on: bool,
    pub tc_type: F32,
    pub tc_autoscale: F32,
    pub tc_unbound: bool,
    pub tc_preserve: F32,
    pub tc_nnodes: F32,
    pub tc_nodes_l: [(F32, F32); 20],
    /// RGB curve: spline types, linking mode, colour norm, and the anchors of each channel.
    pub rc_on: bool,
    pub rc_type_r: F32,
    pub rc_type_g: F32,
    pub rc_type_b: F32,
    pub rc_autoscale: F32,
    pub rc_preserve: F32,
    pub rc_nnodes_r: F32,
    pub rc_nnodes_g: F32,
    pub rc_nnodes_b: F32,
    pub rc_nodes_r: [(F32, F32); 20],
    pub rc_nodes_g: [(F32, F32); 20],
    pub rc_nodes_b: [(F32, F32); 20],
    /// Base curve: spline type, colour norm, exposure fusion, and the anchors.
    pub bc_on: bool,
    pub bc_type: F32,
    pub bc_preserve: F32,
    pub bc_nnodes: F32,
    pub bc_exposure_fusion: F32,
    pub bc_exposure_stops: F32,
    pub bc_exposure_bias: F32,
    pub bc_nodes: [(F32, F32); 20],
    /// Lens correction sliders. The camera and lens themselves are kept elsewhere.
    pub lens_on: bool,
    pub lens_inverse: bool,
    pub lens_modify_flags: F32,
    pub lens_scale: F32,
    pub lens_focal: F32,
    pub lens_aperture: F32,
    pub lens_distance: F32,
    pub lens_target_geom: F32,
}

/// Curve anchors in the order they are stored: x, y, x, y, ...
pub open spec fn interleaved(nodes: [(F32, F32); 20]) -> Seq<F32> {
    Seq::new(
        40,
        |i: int|
            if i % 2 == 0 {
                nodes@[i / 2].0
            } else {
                nodes@[i / 2].1
            },
    )
}

/// Three channels of eight values, one channel after the other.
pub open spec fn rows_of_eight(grid: [[F32; 8]; 3]) -> Seq<F32> {
    Seq::new(24, |i: int| grid@[i / 8]@[i % 8])
}

impl PreviewParams {
    /// The flags, in stored order.
    #[verifier::opaque]
    pub open spec fn bools(self) -> Seq<bool> {
        seq![
            self.exposure_on,
            self.velvia_on,
            self.split_on,
            self.mono_on,
            self.sigmoid_on,
            self.sharpen_on,
            self.vibrance_on,
            self.color_contrast_on,
            self.temperature_on,
            self.invert_on,
            self.colorize_on,
            self.color_correction_on,
            self.colorzones_on,
            self.levels_on,
            self.vignette_on,
            self.lowlight_on,
            self.gradnd_on,
            self.colisa_on,
            self.basicadj_on,
            self.lowpass_on,
            self.shadhi_on,
            self.primaries_on,
            self.negadoctor_on,
            self.toneeq_on,
            self.cb_on,
            self.filmic_on,
            self.hl_on,
            self.hl_opposed,
            self.dn_on,
            self.dn_mode_y0u0v0,
            self.bl_on,
            self.tc_on,
            self.tc_unbound,
            self.rc_on,
            self.bc_on,
            self.lens_on,
            self.lens_inverse,
        ]
    }

    /// Exposure to the colour-zone scalars.
    #[verifier::opaque]
    pub open spec fn tone_floats(self) -> Seq<F32> {
        seq![
            self.black,
            self.ev,
            self.velvia_strength,
            self.velvia_bias,
            self.split_shadow_hue,
            self.split_shadow_sat,
            self.split_highlight_hue,
            self.split_highlight_sat,
            self.split_balance,
            self.split_compress,
            self.mono_r,
            self.mono_g,
            self.mono_b,
            self.sigmoid_contrast,
            self.sigmoid_skew,
            self.sharpen_radius,
            self.sharpen_amount,
            self.sharpen_threshold,
            self.vibrance_amount,
            self.color_contrast_a_steepness,
            self.color_contrast_b_steepness,
            self.temperature_r,
            self.temperature_g,
            self.temperature_b,
            self.invert_r,
            self.invert_g,
            self.invert_b,
            self.colorize_hue,
            self.colorize_sat,
            self.colorize_lightness,
            self.colorize_lightness_mix,
            self.color_correction_loa,
            self.color_correction_hia,
            self.color_correction_lob,
            self.color_correction_hib,
            self.color_correction_saturation,
            self.colorzones_strength,
            self.colorzones_channel,
            self.colorzones_mode,
        ]
    }

    /// The colour-zone curves.
    #[verifier::opaque]
    pub open spec fn zones_floats(self) -> Seq<F32> {
        self.colorzones_num_nodes@ + self.colorzones_curve_type@ + rows_of_eight(
            self.colorzones_curve_x,
        ) + rows_of_eight(self.colorzones_curve_y)
    }

    /// Levels to basic adjustments.
    #[verifier::opaque]
    pub open spec fn creative_floats(self) -> Seq<F32> {
        seq![
            self.levels_black,
            self.levels_grey,
            self.levels_white,
            self.vignette_scale,
            self.vignette_falloff,
            self.vignette_brightness,
            self.vignette_saturation,
            self.vignette_center_x,
            self.vignette_center_y,
            self.vignette_shape,
            self.lowlight_blueness,
        ] + self.lowlight_transition@ + seq![
            self.gradnd_density,
            self.gradnd_hardness,
            self.gradnd_rotation,
            self.gradnd_offset,
            self.gradnd_hue,
            self.gradnd_saturation,
            self.colisa_contrast,
            self.colisa_brightness,
            self.colisa_saturation,
            self.basicadj_black_point,
            self.basicadj_exposure,
            self.basicadj_hlcompr,
            self.basicadj_hlcomprthresh,
            self.basicadj_contrast,
            self.basicadj_preserve_colors,
            self.basicadj_middle_grey,
            self.basicadj_brightness,
            self.basicadj_saturation,
            self.basicadj_vibrance,
        ]
    }

    /// The numbers of `lowpass`.
    #[verifier::opaque]
    pub open spec fn lowpass_floats(self) -> Seq<F32> {
        seq![
            self.lowpass_radius,
            self.lowpass_contrast,
            self.lowpass_brightness,
            self.lowpass_saturation,
        ]
    }

    /// The numbers of `shadhi`.
    #[verifier::opaque]
    pub open spec fn shadhi_floats(self) -> Seq<F32> {
        seq![
            self.shadhi_shadows,
            self.shadhi_highlights,
            self.shadhi_whitepoint,
            self.shadhi_radius,
            self.shadhi_compress,
            self.shadhi_shadows_ccorrect,
            self.shadhi_highlights_ccorrect,
        ]
    }

    /// The numbers of `primaries`.
    #[verifier::opaque]
    pub open spec fn primaries_floats(self) -> Seq<F32> {
        seq![
            self.primaries_achromatic_tint_hue,
            self.primaries_achromatic_tint_purity,
            self.primaries_red_hue,
            self.primaries_red_purity,
            self.primaries_green_hue,
            self.primaries_green_purity,
            self.primaries_blue_hue,
            self.primaries_blue_purity,
        ]
    }

    /// The numbers of `negadoctor`.
    #[verifier::opaque]
    pub open spec fn negadoctor_floats(self) -> Seq<F32> {
        seq![
            self.negadoctor_film_stock,
            self.negadoctor_dmin_r,
            self.negadoctor_dmin_g,
            self.negadoctor_dmin_b,
            self.negadoctor_wb_high_r,
            self.negadoctor_wb_high_g,
            self.negadoctor_wb_high_b,
            self.negadoctor_wb_low_r,
            self.negadoctor_wb_low_g,
            self.negadoctor_wb_low_b,
            self.negadoctor_d_max,
            self.negadoctor_offset,
            self.negadoctor_black,
            self.negadoctor_gamma,
            self.negadoctor_soft_clip,
            self.negadoctor_exposure,
        ]
    }

    /// The numbers of `toneeq`.
    #[verifier::opaque]
    pub open spec fn toneeq_floats(self) -> Seq<F32> {
        seq![
            self.toneeq_noise,
            self.toneeq_ultra_deep_blacks,
            self.toneeq_deep_blacks,
            self.toneeq_blacks,
            self.toneeq_shadows,
            self.toneeq_midtones,
            self.toneeq_highlights,
            self.toneeq_whites,
            self.toneeq_speculars,
        ]
    }

    /// The numbers of `cb`.
    #[verifier::opaque]
    pub open spec fn cb_floats(self) -> Seq<F32> {
        seq![
            self.cb_shadows_y,
            self.cb_shadows_c,
            self.cb_shadows_h,
            self.cb_midtones_y,
            self.cb_midtones_c,
            self.cb_midtones_h,
            self.cb_highlights_y,
            self.cb_highlights_c,
            self.cb_highlights_h,
            self.cb_global_y,
            self.cb_global_c,
            self.cb_global_h,
            self.cb_shadows_weight,
            self.cb_white_fulcrum,
            self.cb_highlights_weight,
            self.cb_chroma_shadows,
            self.cb_chroma_highlights,
            self.cb_chroma_global,
            self.cb_chroma_midtones,
            self.cb_saturation_global,
            self.cb_saturation_highlights,
            self.cb_saturation_midtones,
            self.cb_saturation_shadows,
            self.cb_hue_angle,
            self.cb_brilliance_global,
            self.cb_brilliance_highlights,
            self.cb_brilliance_midtones,
            self.cb_brilliance_shadows,
            self.cb_mask_grey_fulcrum,
            self.cb_vibrance,
            self.cb_grey_fulcrum,
            self.cb_contrast,
            self.cb_formula,
        ]
    }

    /// The numbers of `filmic`.
    #[verifier::opaque]
    pub open spec fn filmic_floats(self) -> Seq<F32> {
        seq![
            self.filmic_black_point_source,
            self.filmic_white_point_source,
            self.filmic_output_power,
            self.filmic_latitude,
            self.filmic_contrast,
            self.filmic_balance,
            self.filmic_saturation,
        ]
    }

    /// The numbers of `hl`.
    #[verifier::opaque]
    pub open spec fn hl_floats(self) -> Seq<F32> {
        seq![
            self.hl_clip,
        ]
    }

    /// The numbers of `dn`.
    #[verifier::opaque]
    pub open spec fn dn_floats(self) -> Seq<F32> {
        seq![
            self.dn_strength,
            self.dn_shadows,
            self.dn_bias,
        ]
    }

    /// The numbers of `bl`.
    #[verifier::opaque]
    pub open spec fn bl_floats(self) -> Seq<F32> {
        seq![
            self.bl_size,
            self.bl_threshold,
            self.bl_strength,
        ]
    }

    /// The numbers of `tc`.
    #[verifier::opaque]
    pub open spec fn tc_floats(self) -> Seq<F32> {
        seq![
            self.tc_type,
            self.tc_autoscale,
            self.tc_preserve,
            self.tc_nnodes,
        ] + interleaved(self.tc_nodes_l)
    }

    /// The numbers of `rc`.
    #[verifier::opaque]
    pub open spec fn rc_floats(self) -> Seq<F32> {
        seq![
            self.rc_type_r,
            self.rc_type_g,
            self.rc_type_b,
            self.rc_autoscale,
            self.rc_preserve,
            self.rc_nnodes_r,
            self.rc_nnodes_g,
            self.rc_nnodes_b,
        ] + interleaved(self.rc_nodes_r) + interleaved(self.rc_nodes_g) + interleaved(self.rc_nodes_b)
    }

    /// The numbers of `bc`.
    #[verifier::opaque]
    pub open spec fn bc_floats(self) -> Seq<F32> {
        seq![
            self.bc_type,
            self.bc_preserve,
            self.bc_nnodes,
            self.bc_exposure_fusion,
            self.bc_exposure_stops,
            self.bc_exposure_bias,
        ] + interleaved(self.bc_nodes)
    }

    /// The numbers of `lens`.
    #[verifier::opaque]
    pub open spec fn lens_floats(self) -> Seq<F32> {
        seq![
            self.lens_modify_flags,
            self.lens_scale,
            self.lens_focal,
            self.lens_aperture,
            self.lens_distance,
            self.lens_target_geom,
        ]
    }

    /// Every number, in stored order. New modules only ever append.
    pub open spec fn floats(self) -> Seq<F32> {
        self.tone_floats() + self.zones_floats() + self.creative_floats() + self.lowpass_floats()
            + self.shadhi_floats()
            + self.primaries_floats()
            + self.negadoctor_floats()
            + self.toneeq_floats()
            + self.cb_floats()
            + self.filmic_floats()
            + self.hl_floats()
            + self.dn_floats()
            + self.bl_floats()
            + self.tc_floats()
            + self.rc_floats()
            + self.bc_floats()
            + self.lens_floats()
    }

    /// The values of a fresh edit.
    #[verifier::opaque]
    pub open spec fn defaults() -> PreviewParams {
        PreviewParams {
            exposure_on: true,
            black: F32 { bits: 0x00000000 },  // 0
            ev: F32 { bits: 0x00000000 },  // 0
            velvia_on: false,
            velvia_strength: F32 { bits: 0x41c80000 },  // 25
            velvia_bias: F32 { bits: 0x3f800000 },  // 1
            split_on: false,
            split_shadow_hue: F32 { bits: 0x00000000 },  // 0
            split_shadow_sat: F32 { bits: 0x3f000000 },  // 0.5
            split_highlight_hue: F32 { bits: 0x3e4ccccd },  // 0.2
            split_highlight_sat: F32 { bits: 0x3f000000 },  // 0.5
            split_balance: F32 { bits: 0x3f000000 },  // 0.5
            split_compress: F32 { bits: 0x42040000 },  // 33
            mono_on: false,
            mono_r: F32 { bits: 0x3e570a3d },  // 0.21
            mono_g: F32 { bits: 0x3f3851ec },  // 0.72
            mono_b: F32 { bits: 0x3d8f5c29 },  // 0.07
            sigmoid_on: false,
            sigmoid_contrast: F32 { bits: 0x3fc00000 },  // 1.5
            sigmoid_skew: F32 { bits: 0x00000000 },  // 0
            sharpen_on: false,
            sharpen_radius: F32 { bits: 0x40000000 },  // 2
            sharpen_amount: F32 { bits: 0x3f000000 },  // 0.5
            sharpen_threshold: F32 { bits: 0x3f000000 },  // 0.5
            vibrance_on: false,
            vibrance_amount: F32 { bits: 0x00000000 },  // 0
            color_contrast_on: false,
            color_contrast_a_steepness: F32 { bits: 0x3f800000 },  // 1
            color_contrast_b_steepness: F32 { bits: 0x3f800000 },  // 1
            invert_on: false,
            invert_r: F32 { bits: 0x3f800000 },  // 1
            invert_g: F32 { bits: 0x3f800000 },  // 1
            invert_b: F32 { bits: 0x3f800000 },  // 1
            temperature_on: false,
            temperature_r: F32 { bits: 0x3f800000 },  // 1
            temperature_g: F32 { bits: 0x3f800000 },  // 1
            temperature_b: F32 { bits: 0x3f800000 },  // 1
            colorize_on: false,
            colorize_hue: F32 { bits: 0x00000000 },  // 0
            colorize_sat: F32 { bits: 0x00000000 },  // 0
            colorize_lightness: F32 { bits: 0x42480000 },  // 50
            colorize_lightness_mix: F32 { bits: 0x42480000 },  // 50
            color_correction_on: false,
            color_correction_loa: F32 { bits: 0x00000000 },  // 0
            color_correction_hia: F32 { bits: 0x00000000 },  // 0
            color_correction_lob: F32 { bits: 0x00000000 },  // 0
            color_correction_hib: F32 { bits: 0x00000000 },  // 0
            color_correction_saturation: F32 { bits: 0x3f800000 },  // 1
            colorzones_on: false,
            colorzones_strength: F32 { bits: 0x00000000 },  // 0
            colorzones_channel: F32 { bits: 0x40000000 },  // 2
            colorzones_mode: F32 { bits: 0x00000000 },  // 0
            colorzones_num_nodes: [F32 { bits: 0x40000000 }, F32 { bits: 0x40000000 }, F32 { bits: 0x40000000 }],
            colorzones_curve_type: [F32 { bits: 0x3f800000 }, F32 { bits: 0x3f800000 }, F32 { bits: 0x3f800000 }],
            colorzones_curve_x: [zone_x(), zone_x(), zone_x()],
            colorzones_curve_y: [zone_y(), zone_y(), zone_y()],
            levels_on: false,
            levels_black: F32 { bits: 0x00000000 },  // 0
            levels_grey: F32 { bits: 0x42480000 },  // 50
            levels_white: F32 { bits: 0x42c80000 },  // 100
            vignette_on: false,
            vignette_scale: F32 { bits: 0x42a00000 },  // 80
            vignette_falloff: F32 { bits: 0x42480000 },  // 50
            vignette_brightness: F32 { bits: 0xbf000000 },  // -0.5
            vignette_saturation: F32 { bits: 0xbf000000 },  // -0.5
            vignette_center_x: F32 { bits: 0x00000000 },  // 0
            vignette_center_y: F32 { bits: 0x00000000 },  // 0
            vignette_shape: F32 { bits: 0x3f800000 },  // 1
            lowlight_on: false,
            lowlight_blueness: F32 { bits: 0x00000000 },  // 0
            lowlight_transition: [
                F32 { bits: 0x3f000000 },
                F32 { bits: 0x3f000000 },
                F32 { bits: 0x3f000000 },
                F32 { bits: 0x3f000000 },
                F32 { bits: 0x3f000000 },
                F32 { bits: 0x3f000000 },
            ],
            gradnd_on: false,
            gradnd_density: F32 { bits: 0x3f800000 },  // 1
            gradnd_hardness: F32 { bits: 0x00000000 },  // 0
            gradnd_rotation: F32 { bits: 0x00000000 },  // 0
            gradnd_offset: F32 { bits: 0x42480000 },  // 50
            gradnd_hue: F32 { bits: 0x00000000 },  // 0
            gradnd_saturation: F32 { bits: 0x00000000 },  // 0
            colisa_on: false,
            colisa_contrast: F32 { bits: 0x00000000 },  // 0
            colisa_brightness: F32 { bits: 0x00000000 },  // 0
            colisa_saturation: F32 { bits: 0x00000000 },  // 0
            basicadj_on: false,
            basicadj_black_point: F32 { bits: 0x00000000 },  // 0
            basicadj_exposure: F32 { bits: 0x00000000 },  // 0
            basicadj_hlcompr: F32 { bits: 0x00000000 },  // 0
            basicadj_hlcomprthresh: F32 { bits: 0x00000000 },  // 0
            basicadj_contrast: F32 { bits: 0x00000000 },  // 0
            basicadj_preserve_colors: F32 { bits: 0x3f800000 },  // 1
            basicadj_middle_grey: F32 { bits: 0x41935c29 },  // 18.42
            basicadj_brightness: F32 { bits: 0x00000000 },  // 0
            basicadj_saturation: F32 { bits: 0x00000000 },  // 0
            basicadj_vibrance: F32 { bits: 0x00000000 },  // 0
            lowpass_on: false,
            lowpass_radius: F32 { bits: 0x41200000 },  // 10
            lowpass_contrast: F32 { bits: 0x3f800000 },  // 1
            lowpass_brightness: F32 { bits: 0x00000000 },  // 0
            lowpass_saturation: F32 { bits: 0x3f800000 },  // 1
            shadhi_on: false,
            shadhi_shadows: F32 { bits: 0x42480000 },  // 50
            shadhi_highlights: F32 { bits: 0xc2480000 },  // -50
            shadhi_whitepoint: F32 { bits: 0x00000000 },  // 0
            shadhi_radius: F32 { bits: 0x42c80000 },  // 100
            shadhi_compress: F32 { bits: 0x42480000 },  // 50
            shadhi_shadows_ccorrect: F32 { bits: 0x42c80000 },  // 100
            shadhi_highlights_ccorrect: F32 { bits: 0x42480000 },  // 50
            primaries_on: false,
            primaries_achromatic_tint_hue: F32 { bits: 0x00000000 },  // 0
            primaries_achromatic_tint_purity: F32 { bits: 0x00000000 },  // 0
            primaries_red_hue: F32 { bits: 0x00000000 },  // 0
            primaries_red_purity: F32 { bits: 0x3f800000 },  // 1
            primaries_green_hue: F32 { bits: 0x00000000 },  // 0
            primaries_green_purity: F32 { bits: 0x3f800000 },  // 1
            primaries_blue_hue: F32 { bits: 0x00000000 },  // 0
            primaries_blue_purity: F32 { bits: 0x3f800000 },  // 1
            negadoctor_on: false,
            negadoctor_film_stock: F32 { bits: 0x3f800000 },  // 1
            negadoctor_dmin_r: F32 { bits: 0x3f800000 },  // 1
            negadoctor_dmin_g: F32 { bits: 0x3ee66666 },  // 0.45
            negadoctor_dmin_b: F32 { bits: 0x3e800000 },  // 0.25
            negadoctor_wb_high_r: F32 { bits: 0x3f800000 },  // 1
            negadoctor_wb_high_g: F32 { bits: 0x3f800000 },  // 1
            negadoctor_wb_high_b: F32 { bits: 0x3f800000 },  // 1
            negadoctor_wb_low_r: F32 { bits: 0x3f800000 },  // 1
            negadoctor_wb_low_g: F32 { bits: 0x3f800000 },  // 1
            negadoctor_wb_low_b: F32 { bits: 0x3f800000 },  // 1
            negadoctor_d_max: F32 { bits: 0x4002f1aa },  // 2.046
            negadoctor_offset: F32 { bits: 0xbd4ccccd },  // -0.05
            negadoctor_black: F32 { bits: 0x3d9a9fbe },  // 0.0755
            negadoctor_gamma: F32 { bits: 0x40800000 },  // 4
            negadoctor_soft_clip: F32 { bits: 0x3f400000 },  // 0.75
            negadoctor_exposure: F32 { bits: 0x3f6cac08 },  // 0.9245
            toneeq_on: false,
            toneeq_noise: F32 { bits: 0x00000000 },  // 0
            toneeq_ultra_deep_blacks: F32 { bits: 0x00000000 },  // 0
            toneeq_deep_blacks: F32 { bits: 0x00000000 },  // 0
            toneeq_blacks: F32 { bits: 0x00000000 },  // 0
            toneeq_shadows: F32 { bits: 0x00000000 },  // 0
            toneeq_midtones: F32 { bits: 0x00000000 },  // 0
            toneeq_highlights: F32 { bits: 0x00000000 },  // 0
            toneeq_whites: F32 { bits: 0x00000000 },  // 0
            toneeq_speculars: F32 { bits: 0x00000000 },  // 0
            cb_on: false,
            cb_shadows_y: F32 { bits: 0x00000000 },  // 0
            cb_shadows_c: F32 { bits: 0x00000000 },  // 0
            cb_shadows_h: F32 { bits: 0x00000000 },  // 0
            cb_midtones_y: F32 { bits: 0x00000000 },  // 0
            cb_midtones_c: F32 { bits: 0x00000000 },  // 0
            cb_midtones_h: F32 { bits: 0x00000000 },  // 0
            cb_highlights_y: F32 { bits: 0x00000000 },  // 0
            cb_highlights_c: F32 { bits: 0x00000000 },  // 0
            cb_highlights_h: F32 { bits: 0x00000000 },  // 0
            cb_global_y: F32 { bits: 0x00000000 },  // 0
            cb_global_c: F32 { bits: 0x00000000 },  // 0
            cb_global_h: F32 { bits: 0x00000000 },  // 0
            cb_shadows_weight: F32 { bits: 0x3f800000 },  // 1
            cb_white_fulcrum: F32 { bits: 0x00000000 },  // 0
            cb_highlights_weight: F32 { bits: 0x3f800000 },  // 1
            cb_chroma_shadows: F32 { bits: 0x00000000 },  // 0
            cb_chroma_highlights: F32 { bits: 0x00000000 },  // 0
            cb_chroma_global: F32 { bits: 0x00000000 },  // 0
            cb_chroma_midtones: F32 { bits: 0x00000000 },  // 0
            cb_saturation_global: F32 { bits: 0x00000000 },  // 0
            cb_saturation_highlights: F32 { bits: 0x00000000 },  // 0
            cb_saturation_midtones: F32 { bits: 0x00000000 },  // 0
            cb_saturation_shadows: F32 { bits: 0x00000000 },  // 0
            cb_hue_angle: F32 { bits: 0x00000000 },  // 0
            cb_brilliance_global: F32 { bits: 0x00000000 },  // 0
            cb_brilliance_highlights: F32 { bits: 0x00000000 },  // 0
            cb_brilliance_midtones: F32 { bits: 0x00000000 },  // 0
            cb_brilliance_shadows: F32 { bits: 0x00000000 },  // 0
            cb_mask_grey_fulcrum: F32 { bits: 0x3e3ced91 },  // 0.1845
            cb_vibrance: F32 { bits: 0x00000000 },  // 0
            cb_grey_fulcrum: F32 { bits: 0x3e3ced91 },  // 0.1845
            cb_contrast: F32 { bits: 0x00000000 },  // 0
            cb_formula: F32 { bits: 0x3f800000 },  // 1
            filmic_on: false,
            filmic_black_point_source: F32 { bits: 0xc1000000 },  // -8
            filmic_white_point_source: F32 { bits: 0x40800000 },  // 4
            filmic_output_power: F32 { bits: 0x40800000 },  // 4
            filmic_latitude: F32 { bits: 0x3c23d70a },  // 0.01
            filmic_contrast: F32 { bits: 0x3f800000 },  // 1
            filmic_balance: F32 { bits: 0x00000000 },  // 0
            filmic_saturation: F32 { bits: 0x00000000 },  // 0
            hl_on: false,
            hl_opposed: true,
            hl_clip: F32 { bits: 0x3f800000 },  // 1
            dn_on: false,
            dn_mode_y0u0v0: true,
            dn_strength: F32 { bits: 0x3f800000 },  // 1
            dn_shadows: F32 { bits: 0x3f800000 },  // 1
            dn_bias: F32 { bits: 0x00000000 },  // 0
            bl_on: false,
            bl_size: F32 { bits: 0x41a00000 },  // 20
            bl_threshold: F32 { bits: 0x42b40000 },  // 90
            bl_strength: F32 { bits: 0x41c80000 },  // 25
            tc_on: false,
            tc_type: F32 { bits: 0x40000000 },  // 2
            tc_autoscale: F32 { bits: 0x40400000 },  // 3
            tc_unbound: true,
            tc_preserve: F32 { bits: 0x40400000 },  // 3
            tc_nnodes: F32 { bits: 0x40000000 },  // 2
            tc_nodes_l: identity_nodes(),
            rc_on: false,
            rc_type_r: F32 { bits: 0x40000000 },  // 2
            rc_type_g: F32 { bits: 0x40000000 },  // 2
            rc_type_b: F32 { bits: 0x40000000 },  // 2
            rc_autoscale: F32 { bits: 0x00000000 },  // 0
            rc_preserve: F32 { bits: 0x3f800000 },  // 1
            rc_nnodes_r: F32 { bits: 0x40000000 },  // 2
            rc_nnodes_g: F32 { bits: 0x40000000 },  // 2
            rc_nnodes_b: F32 { bits: 0x40000000 },  // 2
            rc_nodes_r: identity_nodes(),
            rc_nodes_g: identity_nodes(),
            rc_nodes_b: identity_nodes(),
            bc_on: false,
            bc_type: F32 { bits: 0x40000000 },  // 2
            bc_preserve: F32 { bits: 0x3f800000 },  // 1
            bc_nnodes: F32 { bits: 0x40000000 },  // 2
            bc_exposure_fusion: F32 { bits: 0x00000000 },  // 0
            bc_exposure_stops: F32 { bits: 0x3f800000 },  // 1
            bc_exposure_bias: F32 { bits: 0x3f800000 },  // 1
            bc_nodes: identity_nodes(),
            lens_on: false,
            lens_inverse: false,
            lens_modify_flags: F32 { bits: 0x40e00000 },  // 7
            lens_scale: F32 { bits: 0x3f800000 },  // 1
            lens_focal: F32 { bits: 0x42480000 },  // 50
            lens_aperture: F32 { bits: 0x40600000 },  // 3.5
            lens_distance: F32 { bits: 0x447a0000 },  // 1000
            lens_target_geom: F32 { bits: 0x3f800000 },  // 1
        }
    }
}

/// Where the nodes of a neutral zone curve lie: two of them, a quarter in from each end.
pub open spec fn zone_x() -> [F32; 8] {
    [
        F32 { bits: 0x3e800000 },
        F32 { bits: 0x3f400000 },
        F32 { bits: 0x00000000 },
        F32 { bits: 0x00000000 },
        F32 { bits: 0x00000000 },
        F32 { bits: 0x00000000 },
        F32 { bits: 0x00000000 },
        F32 { bits: 0x00000000 },
    ]
}

/// The heights of a neutral zone curve.
pub open spec fn zone_y() -> [F32; 8] {
    [
        F32 { bits: 0x3f000000 },
        F32 { bits: 0x3f000000 },
        F32 { bits: 0x3f000000 },
        F32 { bits: 0x3f000000 },
        F32 { bits: 0x3f000000 },
        F32 { bits: 0x3f000000 },
        F32 { bits: 0x3f000000 },
        F32 { bits: 0x3f000000 },
    ]
}

/// The straight curve: two anchors from corner to corner, the other slots zero.
pub open spec fn identity_nodes() -> [(F32, F32); 20] {
    [
        (F32 { bits: 0x00000000 }, F32 { bits: 0x00000000 }),
        (F32 { bits: 0x3f800000 }, F32 { bits: 0x3f800000 }),
        (F32 { bits: 0x00000000 }, F32 { bits: 0x00000000 }),
        (F32 { bits: 0x00000000 }, F32 { bits: 0x00000000 }),
        (F32 { bits: 0x00000000 }, F32 { bits: 0x00000000 }),
        (F32 { bits: 0x00000000 }, F32 { bits: 0x00000000 }),
        (F32 { bits: 0x00000000 }, F32 { bits: 0x00000000 }),
        (F32 { bits: 0x00000000 }, F32 { bits: 0x00000000 }),
        (F32 { bits: 0x00000000 }, F32 { bits: 0x00000000 }),
        (F32 { bits: 0x00000000 }, F32 { bits: 0x00000000 }),
        (F32 { bits: 0x00000000 }, F32 { bits: 0x00000000 }),
        (F32 { bits: 0x00000000 }, F32 { bits: 0x00000000 }),
        (F32 { bits: 0x00000000 }, F32 { bits: 0x00000000 }),
        (F32 { bits: 0x00000000 }, F32 { bits: 0x00000000 }),
        (F32 { bits: 0x00000000 }, F32 { bits: 0x00000000 }),
        (F32 { bits: 0x00000000 }, F32 { bits: 0x00000000 }),
        (F32 { bits: 0x00000000 }, F32 { bits: 0x00000000 }),
        (F32 { bits: 0x00000000 }, F32 { bits: 0x00000000 }),
        (F32 { bits: 0x00000000 }, F32 { bits: 0x00000000 }),
        (F32 { bits: 0x00000000 }, F32 { bits: 0x00000000 }),
    ]
}

fn zone_x_8() -> (r: [F32; 8])
    ensures
        r == zone_x(),
        r@[0].bits == 0x3e800000,
        r@[1].bits == 0x3f400000,
        forall|i: int| 2 <= i < 8 ==> (#[trigger] r@[i]).bits == 0,
{
    [
        F32 { bits: 0x3e800000 },
        F32 { bits: 0x3f400000 },
        F32 { bits: 0x00000000 },
        F32 { bits: 0x00000000 },
        F32 { bits: 0x00000000 },
        F32 { bits: 0x00000000 },
        F32 { bits: 0x00000000 },
        F32 { bits: 0x00000000 },
    ]
}

fn zone_y_8() -> (r: [F32; 8])
    ensures
        r == zone_y(),
        forall|i: int| 0 <= i < 8 ==> (#[trigger] r@[i]).bits == 0x3f000000,
{
    [
        F32 { bits: 0x3f000000 },
        F32 { bits: 0x3f000000 },
        F32 { bits: 0x3f000000 },
        F32 { bits: 0x3f000000 },
        F32 { bits: 0x3f000000 },
        F32 { bits: 0x3f000000 },
        F32 { bits: 0x3f000000 },
        F32 { bits: 0x3f000000 },
    ]
}

/// The straight curve that tone, RGB and base curves start from.
pub fn identity_nodes_20() -> (r: [(F32, F32); 20])
    ensures
        r == identity_nodes(),
        r@[0].0.bits == 0 && r@[0].1.bits == 0,
        r@[1].0.bits == 0x3f800000 && r@[1].1.bits == 0x3f800000,
        forall|i: int| 2 <= i < 20 ==> (#[trigger] r@[i]).0.bits == 0 && r@[i].1.bits == 0,
{
    [
        (F32 { bits: 0x00000000 }, F32 { bits: 0x00000000 }),
        (F32 { bits: 0x3f800000 }, F32 { bits: 0x3f800000 }),
        (F32 { bits: 0x00000000 }, F32 { bits: 0x00000000 }),
        (F32 { bits: 0x00000000 }, F32 { bits: 0x00000000 }),
        (F32 { bits: 0x00000000 }, F32 { bits: 0x00000000 }),
        (F32 { bits: 0x00000000 }, F32 { bits: 0x00000000 }),
        (F32 { bits: 0x00000000 }, F32 { bits: 0x00000000 }),
        (F32 { bits: 0x00000000 }, F32 { bits: 0x00000000 }),
        (F32 { bits: 0x00000000 }, F32 { bits: 0x00000000 }),
        (F32 { bits: 0x00000000 }, F32 { bits: 0x00000000 }),
        (F32 { bits: 0x00000000 }, F32 { bits: 0x00000000 }),
        (F32 { bits: 0x00000000 }, F32 { bits: 0x00000000 }),
        (F32 { bits: 0x00000000 }, F32 { bits: 0x00000000 }),
        (F32 { bits: 0x00000000 }, F32 { bits: 0x00000000 }),
        (F32 { bits: 0x00000000 }, F32 { bits: 0x00000000 }),
        (F32 { bits: 0x00000000 }, F32 { bits: 0x00000000 }),
        (F32 { bits: 0x00000000 }, F32 { bits: 0x00000000 }),
        (F32 { bits: 0x00000000 }, F32 { bits: 0x00000000 }),
        (F32 { bits: 0x00000000 }, F32 { bits: 0x00000000 }),
        (F32 { bits: 0x00000000 }, F32 { bits: 0x00000000 }),
    ]
}

impl Default for PreviewParams {
    fn default() -> (r: PreviewParams)
        ensures
            r == PreviewParams::defaults(),
            r.tc_nodes_l == identity_nodes(),
            r.rc_nodes_r == identity_nodes(),
            r.rc_nodes_g == identity_nodes(),
            r.rc_nodes_b == identity_nodes(),
            r.bc_nodes == identity_nodes(),
            r.colorzones_curve_x@[0] == zone_x(),
            r.colorzones_curve_x@[1] == zone_x(),
            r.colorzones_curve_x@[2] == zone_x(),
            r.colorzones_curve_y@[0] == zone_y(),
            r.colorzones_curve_y@[1] == zone_y(),
            r.colorzones_curve_y@[2] == zone_y(),
            forall|i: int|
                0 <= i < 3 ==> (#[trigger] r.colorzones_num_nodes@[i]).bits == 0x40000000,
            forall|i: int|
                0 <= i < 3 ==> (#[trigger] r.colorzones_curve_type@[i]).bits == 0x3f800000,
            forall|i: int| 0 <= i < 6 ==> (#[trigger] r.lowlight_transition@[i]).bits == 0x3f000000,
            r.exposure_on,
            r.black.bits == 0x00000000,
            r.ev.bits == 0x00000000,
            !r.velvia_on,
            r.velvia_strength.bits == 0x41c80000,
            r.velvia_bias.bits == 0x3f800000,
            !r.split_on,
            r.split_shadow_hue.bits == 0x00000000,
            r.split_shadow_sat.bits == 0x3f000000,
            r.split_highlight_hue.bits == 0x3e4ccccd,
            r.split_highlight_sat.bits == 0x3f000000,
            r.split_balance.bits == 0x3f000000,
            r.split_compress.bits == 0x42040000,
            !r.mono_on,
            r.mono_r.bits == 0x3e570a3d,
            r.mono_g.bits == 0x3f3851ec,
            r.mono_b.bits == 0x3d8f5c29,
            !r.sigmoid_on,
            r.sigmoid_contrast.bits == 0x3fc00000,
            r.sigmoid_skew.bits == 0x00000000,
            !r.sharpen_on,
            r.sharpen_radius.bits == 0x40000000,
            r.sharpen_amount.bits == 0x3f000000,
            r.sharpen_threshold.bits == 0x3f000000,
            !r.vibrance_on,
            r.vibrance_amount.bits == 0x00000000,
            !r.color_contrast_on,
            r.color_contrast_a_steepness.bits == 0x3f800000,
            r.color_contrast_b_steepness.bits == 0x3f800000,
            !r.temperature_on,
            r.temperature_r.bits == 0x3f800000,
            r.temperature_g.bits == 0x3f800000,
            r.temperature_b.bits == 0x3f800000,
            !r.invert_on,
            r.invert_r.bits == 0x3f800000,
            r.invert_g.bits == 0x3f800000,
            r.invert_b.bits == 0x3f800000,
            !r.colorize_on,
            r.colorize_hue.bits == 0x00000000,
            r.colorize_sat.bits == 0x00000000,
            r.colorize_lightness.bits == 0x42480000,
            r.colorize_lightness_mix.bits == 0x42480000,
            !r.color_correction_on,
            r.color_correction_loa.bits == 0x00000000,
            r.color_correction_hia.bits == 0x00000000,
            r.color_correction_lob.bits == 0x00000000,
            r.color_correction_hib.bits == 0x00000000,
            r.color_correction_saturation.bits == 0x3f800000,
            !r.colorzones_on,
            r.colorzones_strength.bits == 0x00000000,
            r.colorzones_channel.bits == 0x40000000,
            r.colorzones_mode.bits == 0x00000000,
            !r.levels_on,
            r.levels_black.bits == 0x00000000,
            r.levels_grey.bits == 0x42480000,
            r.levels_white.bits == 0x42c80000,
            !r.vignette_on,
            r.vignette_scale.bits == 0x42a00000,
            r.vignette_falloff.bits == 0x42480000,
            r.vignette_brightness.bits == 0xbf000000,
            r.vignette_saturation.bits == 0xbf000000,
            r.vignette_center_x.bits == 0x00000000,
            r.vignette_center_y.bits == 0x00000000,
            r.vignette_shape.bits == 0x3f800000,
            !r.lowlight_on,
            r.lowlight_blueness.bits == 0x00000000,
            !r.gradnd_on,
            r.gradnd_density.bits == 0x3f800000,
            r.gradnd_hardness.bits == 0x00000000,
            r.gradnd_rotation.bits == 0x00000000,
            r.gradnd_offset.bits == 0x42480000,
            r.gradnd_hue.bits == 0x00000000,
            r.gradnd_saturation.bits == 0x00000000,
            !r.colisa_on,
            r.colisa_contrast.bits == 0x00000000,
            r.colisa_brightness.bits == 0x00000000,
            r.colisa_saturation.bits == 0x00000000,
            !r.basicadj_on,
            r.basicadj_black_point.bits == 0x00000000,
            r.basicadj_exposure.bits == 0x00000000,
            r.basicadj_hlcompr.bits == 0x00000000,
            r.basicadj_hlcomprthresh.bits == 0x00000000,
            r.basicadj_contrast.bits == 0x00000000,
            r.basicadj_preserve_colors.bits == 0x3f800000,
            r.basicadj_middle_grey.bits == 0x41935c29,
            r.basicadj_brightness.bits == 0x00000000,
            r.basicadj_saturation.bits == 0x00000000,
            r.basicadj_vibrance.bits == 0x00000000,
            !r.lowpass_on,
            r.lowpass_radius.bits == 0x41200000,
            r.lowpass_contrast.bits == 0x3f800000,
            r.lowpass_brightness.bits == 0x00000000,
            r.lowpass_saturation.bits == 0x3f800000,
            !r.shadhi_on,
            r.shadhi_shadows.bits == 0x42480000,
            r.shadhi_highlights.bits == 0xc2480000,
            r.shadhi_whitepoint.bits == 0x00000000,
            r.shadhi_radius.bits == 0x42c80000,
            r.shadhi_compress.bits == 0x42480000,
            r.shadhi_shadows_ccorrect.bits == 0x42c80000,
            r.shadhi_highlights_ccorrect.bits == 0x42480000,
            !r.primaries_on,
            r.primaries_achromatic_tint_hue.bits == 0x00000000,
            r.primaries_achromatic_tint_purity.bits == 0x00000000,
            r.primaries_red_hue.bits == 0x00000000,
            r.primaries_red_purity.bits == 0x3f800000,
            r.primaries_green_hue.bits == 0x00000000,
            r.primaries_green_purity.bits == 0x3f800000,
            r.primaries_blue_hue.bits == 0x00000000,
            r.primaries_blue_purity.bits == 0x3f800000,
            !r.negadoctor_on,
            r.negadoctor_film_stock.bits == 0x3f800000,
            r.negadoctor_dmin_r.bits == 0x3f800000,
            r.negadoctor_dmin_g.bits == 0x3ee66666,
            r.negadoctor_dmin_b.bits == 0x3e800000,
            r.negadoctor_wb_high_r.bits == 0x3f800000,
            r.negadoctor_wb_high_g.bits == 0x3f800000,
            r.negadoctor_wb_high_b.bits == 0x3f800000,
            r.negadoctor_wb_low_r.bits == 0x3f800000,
            r.negadoctor_wb_low_g.bits == 0x3f800000,
            r.negadoctor_wb_low_b.bits == 0x3f800000,
            r.negadoctor_d_max.bits == 0x4002f1aa,
            r.negadoctor_offset.bits == 0xbd4ccccd,
            r.negadoctor_black.bits == 0x3d9a9fbe,
            r.negadoctor_gamma.bits == 0x40800000,
            r.negadoctor_soft_clip.bits == 0x3f400000,
            r.negadoctor_exposure.bits == 0x3f6cac08,
            !r.toneeq_on,
            r.toneeq_noise.bits == 0x00000000,
            r.toneeq_ultra_deep_blacks.bits == 0x00000000,
            r.toneeq_deep_blacks.bits == 0x00000000,
            r.toneeq_blacks.bits == 0x00000000,
            r.toneeq_shadows.bits == 0x00000000,
            r.toneeq_midtones.bits == 0x00000000,
            r.toneeq_highlights.bits == 0x00000000,
            r.toneeq_whites.bits == 0x00000000,
            r.toneeq_speculars.bits == 0x00000000,
            !r.cb_on,
            r.cb_shadows_y.bits == 0x00000000,
            r.cb_shadows_c.bits == 0x00000000,
            r.cb_shadows_h.bits == 0x00000000,
            r.cb_midtones_y.bits == 0x00000000,
            r.cb_midtones_c.bits == 0x00000000,
            r.cb_midtones_h.bits == 0x00000000,
            r.cb_highlights_y.bits == 0x00000000,
            r.cb_highlights_c.bits == 0x00000000,
            r.cb_highlights_h.bits == 0x00000000,
            r.cb_global_y.bits == 0x00000000,
            r.cb_global_c.bits == 0x00000000,
            r.cb_global_h.bits == 0x00000000,
            r.cb_shadows_weight.bits == 0x3f800000,
            r.cb_white_fulcrum.bits == 0x00000000,
            r.cb_highlights_weight.bits == 0x3f800000,
            r.cb_chroma_shadows.bits == 0x00000000,
            r.cb_chroma_highlights.bits == 0x00000000,
            r.cb_chroma_global.bits == 0x00000000,
            r.cb_chroma_midtones.bits == 0x00000000,
            r.cb_saturation_global.bits == 0x00000000,
            r.cb_saturation_highlights.bits == 0x00000000,
            r.cb_saturation_midtones.bits == 0x00000000,
            r.cb_saturation_shadows.bits == 0x00000000,
            r.cb_hue_angle.bits == 0x00000000,
            r.cb_brilliance_global.bits == 0x00000000,
            r.cb_brilliance_highlights.bits == 0x00000000,
            r.cb_brilliance_midtones.bits == 0x00000000,
            r.cb_brilliance_shadows.bits == 0x00000000,
            r.cb_mask_grey_fulcrum.bits == 0x3e3ced91,
            r.cb_vibrance.bits == 0x00000000,
            r.cb_grey_fulcrum.bits == 0x3e3ced91,
            r.cb_contrast.bits == 0x00000000,
            r.cb_formula.bits == 0x3f800000,
            !r.filmic_on,
            r.filmic_black_point_source.bits == 0xc1000000,
            r.filmic_white_point_source.bits == 0x40800000,
            r.filmic_output_power.bits == 0x40800000,
            r.filmic_latitude.bits == 0x3c23d70a,
            r.filmic_contrast.bits == 0x3f800000,
            r.filmic_balance.bits == 0x00000000,
            r.filmic_saturation.bits == 0x00000000,
            !r.hl_on,
            r.hl_opposed,
            r.hl_clip.bits == 0x3f800000,
            !r.dn_on,
            r.dn_mode_y0u0v0,
            r.dn_strength.bits == 0x3f800000,
            r.dn_shadows.bits == 0x3f800000,
            r.dn_bias.bits == 0x00000000,
            !r.bl_on,
            r.bl_size.bits == 0x41a00000,
            r.bl_threshold.bits == 0x42b40000,
            r.bl_strength.bits == 0x41c80000,
            !r.tc_on,
            r.tc_type.bits == 0x40000000,
            r.tc_autoscale.bits == 0x40400000,
            r.tc_unbound,
            r.tc_preserve.bits == 0x40400000,
            r.tc_nnodes.bits == 0x40000000,
            !r.rc_on,
            r.rc_type_r.bits == 0x40000000,
            r.rc_type_g.bits == 0x40000000,
            r.rc_type_b.bits == 0x40000000,
            r.rc_autoscale.bits == 0x00000000,
            r.rc_preserve.bits == 0x3f800000,
            r.rc_nnodes_r.bits == 0x40000000,
            r.rc_nnodes_g.bits == 0x40000000,
            r.rc_nnodes_b.bits == 0x40000000,
            !r.bc_on,
            r.bc_type.bits == 0x40000000,
            r.bc_preserve.bits == 0x3f800000,
            r.bc_nnodes.bits == 0x40000000,
            r.bc_exposure_fusion.bits == 0x00000000,
            r.bc_exposure_stops.bits == 0x3f800000,
            r.bc_exposure_bias.bits == 0x3f800000,
            !r.lens_on,
            !r.lens_inverse,
            r.lens_modify_flags.bits == 0x40e00000,
            r.lens_scale.bits == 0x3f800000,
            r.lens_focal.bits == 0x42480000,
            r.lens_aperture.bits == 0x40600000,
            r.lens_distance.bits == 0x447a0000,
            r.lens_target_geom.bits == 0x3f800000,
    {
        proof {
            reveal(PreviewParams::defaults);
        }
        PreviewParams {
            exposure_on: true,
            black: F32 { bits: 0x00000000 },  // 0
            ev: F32 { bits: 0x00000000 },  // 0
            velvia_on: false,
            velvia_strength: F32 { bits: 0x41c80000 },  // 25
            velvia_bias: F32 { bits: 0x3f800000 },  // 1
            split_on: false,
            split_shadow_hue: F32 { bits: 0x00000000 },  // 0
            split_shadow_sat: F32 { bits: 0x3f000000 },  // 0.5
            split_highlight_hue: F32 { bits: 0x3e4ccccd },  // 0.2
            split_highlight_sat: F32 { bits: 0x3f000000 },  // 0.5
            split_balance: F32 { bits: 0x3f000000 },  // 0.5
            split_compress: F32 { bits: 0x42040000 },  // 33
            mono_on: false,
            mono_r: F32 { bits: 0x3e570a3d },  // 0.21
            mono_g: F32 { bits: 0x3f3851ec },  // 0.72
            mono_b: F32 { bits: 0x3d8f5c29 },  // 0.07
            sigmoid_on: false,
            sigmoid_contrast: F32 { bits: 0x3fc00000 },  // 1.5
            sigmoid_skew: F32 { bits: 0x00000000 },  // 0
            sharpen_on: false,
            sharpen_radius: F32 { bits: 0x40000000 },  // 2
            sharpen_amount: F32 { bits: 0x3f000000 },  // 0.5
            sharpen_threshold: F32 { bits: 0x3f000000 },  // 0.5
            vibrance_on: false,
            vibrance_amount: F32 { bits: 0x00000000 },  // 0
            color_contrast_on: false,
            color_contrast_a_steepness: F32 { bits: 0x3f800000 },  // 1
            color_contrast_b_steepness: F32 { bits: 0x3f800000 },  // 1
            invert_on: false,
            invert_r: F32 { bits: 0x3f800000 },  // 1
            invert_g: F32 { bits: 0x3f800000 },  // 1
            invert_b: F32 { bits: 0x3f800000 },  // 1
            temperature_on: false,
            temperature_r: F32 { bits: 0x3f800000 },  // 1
            temperature_g: F32 { bits: 0x3f800000 },  // 1
            temperature_b: F32 { bits: 0x3f800000 },  // 1
            colorize_on: false,
            colorize_hue: F32 { bits: 0x00000000 },  // 0
            colorize_sat: F32 { bits: 0x00000000 },  // 0
            colorize_lightness: F32 { bits: 0x42480000 },  // 50
            colorize_lightness_mix: F32 { bits: 0x42480000 },  // 50
            color_correction_on: false,
            color_correction_loa: F32 { bits: 0x00000000 },  // 0
            color_correction_hia: F32 { bits: 0x00000000 },  // 0
            color_correction_lob: F32 { bits: 0x00000000 },  // 0
            color_correction_hib: F32 { bits: 0x00000000 },  // 0
            color_correction_saturation: F32 { bits: 0x3f800000 },  // 1
            colorzones_on: false,
            colorzones_strength: F32 { bits: 0x00000000 },  // 0
            colorzones_channel: F32 { bits: 0x40000000 },  // 2
            colorzones_mode: F32 { bits: 0x00000000 },  // 0
            colorzones_num_nodes: [F32 { bits: 0x40000000 }, F32 { bits: 0x40000000 }, F32 { bits: 0x40000000 }],
            colorzones_curve_type: [F32 { bits: 0x3f800000 }, F32 { bits: 0x3f800000 }, F32 { bits: 0x3f800000 }],
            colorzones_curve_x: [zone_x_8(), zone_x_8(), zone_x_8()],
            colorzones_curve_y: [zone_y_8(), zone_y_8(), zone_y_8()],
            levels_on: false,
            levels_black: F32 { bits: 0x00000000 },  // 0
            levels_grey: F32 { bits: 0x42480000 },  // 50
            levels_white: F32 { bits: 0x42c80000 },  // 100
            vignette_on: false,
            vignette_scale: F32 { bits: 0x42a00000 },  // 80
            vignette_falloff: F32 { bits: 0x42480000 },  // 50
            vignette_brightness: F32 { bits: 0xbf000000 },  // -0.5
            vignette_saturation: F32 { bits: 0xbf000000 },  // -0.5
            vignette_center_x: F32 { bits: 0x00000000 },  // 0
            vignette_center_y: F32 { bits: 0x00000000 },  // 0
            vignette_shape: F32 { bits: 0x3f800000 },  // 1
            lowlight_on: false,
            lowlight_blueness: F32 { bits: 0x00000000 },  // 0
            lowlight_transition: [
                F32 { bits: 0x3f000000 },
                F32 { bits: 0x3f000000 },
                F32 { bits: 0x3f000000 },
                F32 { bits: 0x3f000000 },
                F32 { bits: 0x3f000000 },
                F32 { bits: 0x3f000000 },
            ],
            gradnd_on: false,
            gradnd_density: F32 { bits: 0x3f800000 },  // 1
            gradnd_hardness: F32 { bits: 0x00000000 },  // 0
            gradnd_rotation: F32 { bits: 0x00000000 },  // 0
            gradnd_offset: F32 { bits: 0x42480000 },  // 50
            gradnd_hue: F32 { bits: 0x00000000 },  // 0
            gradnd_saturation: F32 { bits: 0x00000000 },  // 0
            colisa_on: false,
            colisa_contrast: F32 { bits: 0x00000000 },  // 0
            colisa_brightness: F32 { bits: 0x00000000 },  // 0
            colisa_saturation: F32 { bits: 0x00000000 },  // 0
            basicadj_on: false,
            basicadj_black_point: F32 { bits: 0x00000000 },  // 0
            basicadj_exposure: F32 { bits: 0x00000000 },  // 0
            basicadj_hlcompr: F32 { bits: 0x00000000 },  // 0
            basicadj_hlcomprthresh: F32 { bits: 0x00000000 },  // 0
            basicadj_contrast: F32 { bits: 0x00000000 },  // 0
            basicadj_preserve_colors: F32 { bits: 0x3f800000 },  // 1
            basicadj_middle_grey: F32 { bits: 0x41935c29 },  // 18.42
            basicadj_brightness: F32 { bits: 0x00000000 },  // 0
            basicadj_saturation: F32 { bits: 0x00000000 },  // 0
            basicadj_vibrance: F32 { bits: 0x00000000 },  // 0
            lowpass_on: false,
            lowpass_radius: F32 { bits: 0x41200000 },  // 10
            lowpass_contrast: F32 { bits: 0x3f800000 },  // 1
            lowpass_brightness: F32 { bits: 0x00000000 },  // 0
            lowpass_saturation: F32 { bits: 0x3f800000 },  // 1
            shadhi_on: false,
            shadhi_shadows: F32 { bits: 0x42480000 },  // 50
            shadhi_highlights: F32 { bits: 0xc2480000 },  // -50
            shadhi_whitepoint: F32 { bits: 0x00000000 },  // 0
            shadhi_radius: F32 { bits: 0x42c80000 },  // 100
            shadhi_compress: F32 { bits: 0x42480000 },  // 50
            shadhi_shadows_ccorrect: F32 { bits: 0x42c80000 },  // 100
            shadhi_highlights_ccorrect: F32 { bits: 0x42480000 },  // 50
            primaries_on: false,
            primaries_achromatic_tint_hue: F32 { bits: 0x00000000 },  // 0
            primaries_achromatic_tint_purity: F32 { bits: 0x00000000 },  // 0
            primaries_red_hue: F32 { bits: 0x00000000 },  // 0
            primaries_red_purity: F32 { bits: 0x3f800000 },  // 1
            primaries_green_hue: F32 { bits: 0x00000000 },  // 0
            primaries_green_purity: F32 { bits: 0x3f800000 },  // 1
            primaries_blue_hue: F32 { bits: 0x00000000 },  // 0
            primaries_blue_purity: F32 { bits: 0x3f800000 },  // 1
            negadoctor_on: false,
            negadoctor_film_stock: F32 { bits: 0x3f800000 },  // 1
            negadoctor_dmin_r: F32 { bits: 0x3f800000 },  // 1
            negadoctor_dmin_g: F32 { bits: 0x3ee66666 },  // 0.45
            negadoctor_dmin_b: F32 { bits: 0x3e800000 },  // 0.25
            negadoctor_wb_high_r: F32 { bits: 0x3f800000 },  // 1
            negadoctor_wb_high_g: F32 { bits: 0x3f800000 },  // 1
            negadoctor_wb_high_b: F32 { bits: 0x3f800000 },  // 1
            negadoctor_wb_low_r: F32 { bits: 0x3f800000 },  // 1
            negadoctor_wb_low_g: F32 { bits: 0x3f800000 },  // 1
            negadoctor_wb_low_b: F32 { bits: 0x3f800000 },  // 1
            negadoctor_d_max: F32 { bits: 0x4002f1aa },  // 2.046
            negadoctor_offset: F32 { bits: 0xbd4ccccd },  // -0.05
            negadoctor_black: F32 { bits: 0x3d9a9fbe },  // 0.0755
            negadoctor_gamma: F32 { bits: 0x40800000 },  // 4
            negadoctor_soft_clip: F32 { bits: 0x3f400000 },  // 0.75
            negadoctor_exposure: F32 { bits: 0x3f6cac08 },  // 0.9245
            toneeq_on: false,
            toneeq_noise: F32 { bits: 0x00000000 },  // 0
            toneeq_ultra_deep_blacks: F32 { bits: 0x00000000 },  // 0
            toneeq_deep_blacks: F32 { bits: 0x00000000 },  // 0
            toneeq_blacks: F32 { bits: 0x00000000 },  // 0
            toneeq_shadows: F32 { bits: 0x00000000 },  // 0
            toneeq_midtones: F32 { bits: 0x00000000 },  // 0
            toneeq_highlights: F32 { bits: 0x00000000 },  // 0
            toneeq_whites: F32 { bits: 0x00000000 },  // 0
            toneeq_speculars: F32 { bits: 0x00000000 },  // 0
            cb_on: false,
            cb_shadows_y: F32 { bits: 0x00000000 },  // 0
            cb_shadows_c: F32 { bits: 0x00000000 },  // 0
            cb_shadows_h: F32 { bits: 0x00000000 },  // 0
            cb_midtones_y: F32 { bits: 0x00000000 },  // 0
            cb_midtones_c: F32 { bits: 0x00000000 },  // 0
            cb_midtones_h: F32 { bits: 0x00000000 },  // 0
            cb_highlights_y: F32 { bits: 0x00000000 },  // 0
            cb_highlights_c: F32 { bits: 0x00000000 },  // 0
            cb_highlights_h: F32 { bits: 0x00000000 },  // 0
            cb_global_y: F32 { bits: 0x00000000 },  // 0
            cb_global_c: F32 { bits: 0x00000000 },  // 0
            cb_global_h: F32 { bits: 0x00000000 },  // 0
            cb_shadows_weight: F32 { bits: 0x3f800000 },  // 1
            cb_white_fulcrum: F32 { bits: 0x00000000 },  // 0
            cb_highlights_weight: F32 { bits: 0x3f800000 },  // 1
            cb_chroma_shadows: F32 { bits: 0x00000000 },  // 0
            cb_chroma_highlights: F32 { bits: 0x00000000 },  // 0
            cb_chroma_global: F32 { bits: 0x00000000 },  // 0
            cb_chroma_midtones: F32 { bits: 0x00000000 },  // 0
            cb_saturation_global: F32 { bits: 0x00000000 },  // 0
            cb_saturation_highlights: F32 { bits: 0x00000000 },  // 0
            cb_saturation_midtones: F32 { bits: 0x00000000 },  // 0
            cb_saturation_shadows: F32 { bits: 0x00000000 },  // 0
            cb_hue_angle: F32 { bits: 0x00000000 },  // 0
            cb_brilliance_global: F32 { bits: 0x00000000 },  // 0
            cb_brilliance_highlights: F32 { bits: 0x00000000 },  // 0
            cb_brilliance_midtones: F32 { bits: 0x00000000 },  // 0
            cb_brilliance_shadows: F32 { bits: 0x00000000 },  // 0
            cb_mask_grey_fulcrum: F32 { bits: 0x3e3ced91 },  // 0.1845
            cb_vibrance: F32 { bits: 0x00000000 },  // 0
            cb_grey_fulcrum: F32 { bits: 0x3e3ced91 },  // 0.1845
            cb_contrast: F32 { bits: 0x00000000 },  // 0
            cb_formula: F32 { bits: 0x3f800000 },  // 1
            filmic_on: false,
            filmic_black_point_source: F32 { bits: 0xc1000000 },  // -8
            filmic_white_point_source: F32 { bits: 0x40800000 },  // 4
            filmic_output_power: F32 { bits: 0x40800000 },  // 4
            filmic_latitude: F32 { bits: 0x3c23d70a },  // 0.01
            filmic_contrast: F32 { bits: 0x3f800000 },  // 1
            filmic_balance: F32 { bits: 0x00000000 },  // 0
            filmic_saturation: F32 { bits: 0x00000000 },  // 0
            hl_on: false,
            hl_opposed: true,
            hl_clip: F32 { bits: 0x3f800000 },  // 1
            dn_on: false,
            dn_mode_y0u0v0: true,
            dn_strength: F32 { bits: 0x3f800000 },  // 1
            dn_shadows: F32 { bits: 0x3f800000 },  // 1
            dn_bias: F32 { bits: 0x00000000 },  // 0
            bl_on: false,
            bl_size: F32 { bits: 0x41a00000 },  // 20
            bl_threshold: F32 { bits: 0x42b40000 },  // 90
            bl_strength: F32 { bits: 0x41c80000 },  // 25
            tc_on: false,
            tc_type: F32 { bits: 0x40000000 },  // 2
            tc_autoscale: F32 { bits: 0x40400000 },  // 3
            tc_unbound: true,
            tc_preserve: F32 { bits: 0x40400000 },  // 3
            tc_nnodes: F32 { bits: 0x40000000 },  // 2
            tc_nodes_l: identity_nodes_20(),
            rc_on: false,
            rc_type_r: F32 { bits: 0x40000000 },  // 2
            rc_type_g: F32 { bits: 0x40000000 },  // 2
            rc_type_b: F32 { bits: 0x40000000 },  // 2
            rc_autoscale: F32 { bits: 0x00000000 },  // 0
            rc_preserve: F32 { bits: 0x3f800000 },  // 1
            rc_nnodes_r: F32 { bits: 0x40000000 },  // 2
            rc_nnodes_g: F32 { bits: 0x40000000 },  // 2
            rc_nnodes_b: F32 { bits: 0x40000000 },  // 2
            rc_nodes_r: identity_nodes_20(),
            rc_nodes_g: identity_nodes_20(),
            rc_nodes_b: identity_nodes_20(),
            bc_on: false,
            bc_type: F32 { bits: 0x40000000 },  // 2
            bc_preserve: F32 { bits: 0x3f800000 },  // 1
            bc_nnodes: F32 { bits: 0x40000000 },  // 2
            bc_exposure_fusion: F32 { bits: 0x00000000 },  // 0
            bc_exposure_stops: F32 { bits: 0x3f800000 },  // 1
            bc_exposure_bias: F32 { bits: 0x3f800000 },  // 1
            bc_nodes: identity_nodes_20(),
            lens_on: false,
            lens_inverse: false,
            lens_modify_flags: F32 { bits: 0x40e00000 },  // 7
            lens_scale: F32 { bits: 0x3f800000 },  // 1
            lens_focal: F32 { bits: 0x42480000 },  // 50
            lens_aperture: F32 { bits: 0x40600000 },  // 3.5
            lens_distance: F32 { bits: 0x447a0000 },  // 1000
            lens_target_geom: F32 { bits: 0x3f800000 },  // 1
        }
    }
}

} // verus!
