//! Module groups: which parameters belong to which module, and how an edit takes over
//! some modules of another.
use vstd::prelude::*;

use crate::params::PreviewParams;
use crate::text::same_text;

verus! {

/// The modules that a style can carry.
#[derive(Clone, Copy, Debug, PartialEq, Eq, Structural)]
pub enum ModuleGroup {
    Exposure,
    Velvia,
    SplitToning,
    Monochrome,
    Sigmoid,
    Sharpen,
    Vibrance,
    ColorContrast,
    Invert,
    WhiteBalance,
    Colorize,
    ColorCorrection,
    ColorZones,
    Levels,
    Vignetting,
    LowlightVision,
    GraduatedDensity,
    ContrastBrightnessSaturation,
    BasicAdjustments,
    Lowpass,
    ShadowsHighlights,
    Primaries,
    Negadoctor,
    ToneEqualizer,
    ColorBalanceRgb,
    FilmicRgb,
    HighlightReconstruction,
    DenoiseProfiled,
    Bloom,
    ToneCurve,
    RgbCurve,
    BaseCurve,
    LensCorrection,
}

/// The names of the module groups, in panel order.
pub const MODULE_GROUPS: [&'static str; 33] = [
    "Exposure",
    "Velvia",
    "Split-toning",
    "Monochrome",
    "Sigmoid",
    "Sharpen",
    "Vibrance",
    "Color contrast",
    "Invert",
    "White balance",
    "Colorize",
    "Color correction",
    "Color zones",
    "Levels",
    "Vignetting",
    "Lowlight vision",
    "Graduated density",
    "Contrast brightness saturation",
    "Basic adjustments",
    "Lowpass",
    "Shadows/Highlights",
    "Primaries",
    "Negadoctor",
    "Tone equalizer",
    "Color balance RGB",
    "Filmic RGB",
    "Highlight reconstruction",
    "Denoise (profiled)",
    "Bloom",
    "Tone curve",
    "RGB curve",
    "Base curve",
    "Lens correction",
];

/// The module groups, in panel order.
pub open spec fn all_groups() -> Seq<ModuleGroup> {
    seq![
        ModuleGroup::Exposure,
        ModuleGroup::Velvia,
        ModuleGroup::SplitToning,
        ModuleGroup::Monochrome,
        ModuleGroup::Sigmoid,
        ModuleGroup::Sharpen,
        ModuleGroup::Vibrance,
        ModuleGroup::ColorContrast,
        ModuleGroup::Invert,
        ModuleGroup::WhiteBalance,
        ModuleGroup::Colorize,
        ModuleGroup::ColorCorrection,
        ModuleGroup::ColorZones,
        ModuleGroup::Levels,
        ModuleGroup::Vignetting,
        ModuleGroup::LowlightVision,
        ModuleGroup::GraduatedDensity,
        ModuleGroup::ContrastBrightnessSaturation,
        ModuleGroup::BasicAdjustments,
        ModuleGroup::Lowpass,
        ModuleGroup::ShadowsHighlights,
        ModuleGroup::Primaries,
        ModuleGroup::Negadoctor,
        ModuleGroup::ToneEqualizer,
        ModuleGroup::ColorBalanceRgb,
        ModuleGroup::FilmicRgb,
        ModuleGroup::HighlightReconstruction,
        ModuleGroup::DenoiseProfiled,
        ModuleGroup::Bloom,
        ModuleGroup::ToneCurve,
        ModuleGroup::RgbCurve,
        ModuleGroup::BaseCurve,
        ModuleGroup::LensCorrection,
    ]
}

impl ModuleGroup {
    /// The name under which styles list this group.
    pub open spec fn label(self) -> Seq<char> {
        match self {
            ModuleGroup::Exposure => "Exposure"@,
            ModuleGroup::Velvia => "Velvia"@,
            ModuleGroup::SplitToning => "Split-toning"@,
            ModuleGroup::Monochrome => "Monochrome"@,
            ModuleGroup::Sigmoid => "Sigmoid"@,
            ModuleGroup::Sharpen => "Sharpen"@,
            ModuleGroup::Vibrance => "Vibrance"@,
            ModuleGroup::ColorContrast => "Color contrast"@,
            ModuleGroup::Invert => "Invert"@,
            ModuleGroup::WhiteBalance => "White balance"@,
            ModuleGroup::Colorize => "Colorize"@,
            ModuleGroup::ColorCorrection => "Color correction"@,
            ModuleGroup::ColorZones => "Color zones"@,
            ModuleGroup::Levels => "Levels"@,
            ModuleGroup::Vignetting => "Vignetting"@,
            ModuleGroup::LowlightVision => "Lowlight vision"@,
            ModuleGroup::GraduatedDensity => "Graduated density"@,
            ModuleGroup::ContrastBrightnessSaturation => "Contrast brightness saturation"@,
            ModuleGroup::BasicAdjustments => "Basic adjustments"@,
            ModuleGroup::Lowpass => "Lowpass"@,
            ModuleGroup::ShadowsHighlights => "Shadows/Highlights"@,
            ModuleGroup::Primaries => "Primaries"@,
            ModuleGroup::Negadoctor => "Negadoctor"@,
            ModuleGroup::ToneEqualizer => "Tone equalizer"@,
            ModuleGroup::ColorBalanceRgb => "Color balance RGB"@,
            ModuleGroup::FilmicRgb => "Filmic RGB"@,
            ModuleGroup::HighlightReconstruction => "Highlight reconstruction"@,
            ModuleGroup::DenoiseProfiled => "Denoise (profiled)"@,
            ModuleGroup::Bloom => "Bloom"@,
            ModuleGroup::ToneCurve => "Tone curve"@,
            ModuleGroup::RgbCurve => "RGB curve"@,
            ModuleGroup::BaseCurve => "Base curve"@,
            ModuleGroup::LensCorrection => "Lens correction"@,
        }
    }

    /// The group with the given name, if there is one.
    pub fn from_name(name: &str) -> (r: Option<ModuleGroup>)
        ensures
            r == group_named(name@),
            match r {
                Some(g) => g.label() == name@,
                None => forall|g: ModuleGroup| #[trigger] g.label() != name@,
            },
    {
        if same_text(name, "Exposure") {
            proof {
                lemma_group_named(ModuleGroup::Exposure);
            }
            return Some(ModuleGroup::Exposure);
        }
        if same_text(name, "Velvia") {
            proof {
                lemma_group_named(ModuleGroup::Velvia);
            }
            return Some(ModuleGroup::Velvia);
        }
        if same_text(name, "Split-toning") {
            proof {
                lemma_group_named(ModuleGroup::SplitToning);
            }
            return Some(ModuleGroup::SplitToning);
        }
        if same_text(name, "Monochrome") {
            proof {
                lemma_group_named(ModuleGroup::Monochrome);
            }
            return Some(ModuleGroup::Monochrome);
        }
        if same_text(name, "Sigmoid") {
            proof {
                lemma_group_named(ModuleGroup::Sigmoid);
            }
            return Some(ModuleGroup::Sigmoid);
        }
        if same_text(name, "Sharpen") {
            proof {
                lemma_group_named(ModuleGroup::Sharpen);
            }
            return Some(ModuleGroup::Sharpen);
        }
        if same_text(name, "Vibrance") {
            proof {
                lemma_group_named(ModuleGroup::Vibrance);
            }
            return Some(ModuleGroup::Vibrance);
        }
        if same_text(name, "Color contrast") {
            proof {
                lemma_group_named(ModuleGroup::ColorContrast);
            }
            return Some(ModuleGroup::ColorContrast);
        }
        if same_text(name, "Invert") {
            proof {
                lemma_group_named(ModuleGroup::Invert);
            }
            return Some(ModuleGroup::Invert);
        }
        if same_text(name, "White balance") {
            proof {
                lemma_group_named(ModuleGroup::WhiteBalance);
            }
            return Some(ModuleGroup::WhiteBalance);
        }
        if same_text(name, "Colorize") {
            proof {
                lemma_group_named(ModuleGroup::Colorize);
            }
            return Some(ModuleGroup::Colorize);
        }
        if same_text(name, "Color correction") {
            proof {
                lemma_group_named(ModuleGroup::ColorCorrection);
            }
            return Some(ModuleGroup::ColorCorrection);
        }
        if same_text(name, "Color zones") {
            proof {
                lemma_group_named(ModuleGroup::ColorZones);
            }
            return Some(ModuleGroup::ColorZones);
        }
        if same_text(name, "Levels") {
            proof {
                lemma_group_named(ModuleGroup::Levels);
            }
            return Some(ModuleGroup::Levels);
        }
        if same_text(name, "Vignetting") {
            proof {
                lemma_group_named(ModuleGroup::Vignetting);
            }
            return Some(ModuleGroup::Vignetting);
        }
        if same_text(name, "Lowlight vision") {
            proof {
                lemma_group_named(ModuleGroup::LowlightVision);
            }
            return Some(ModuleGroup::LowlightVision);
        }
        if same_text(name, "Graduated density") {
            proof {
                lemma_group_named(ModuleGroup::GraduatedDensity);
            }
            return Some(ModuleGroup::GraduatedDensity);
        }
        if same_text(name, "Contrast brightness saturation") {
            proof {
                lemma_group_named(ModuleGroup::ContrastBrightnessSaturation);
            }
            return Some(ModuleGroup::ContrastBrightnessSaturation);
        }
        if same_text(name, "Basic adjustments") {
            proof {
                lemma_group_named(ModuleGroup::BasicAdjustments);
            }
            return Some(ModuleGroup::BasicAdjustments);
        }
        if same_text(name, "Lowpass") {
            proof {
                lemma_group_named(ModuleGroup::Lowpass);
            }
            return Some(ModuleGroup::Lowpass);
        }
        if same_text(name, "Shadows/Highlights") {
            proof {
                lemma_group_named(ModuleGroup::ShadowsHighlights);
            }
            return Some(ModuleGroup::ShadowsHighlights);
        }
        if same_text(name, "Primaries") {
            proof {
                lemma_group_named(ModuleGroup::Primaries);
            }
            return Some(ModuleGroup::Primaries);
        }
        if same_text(name, "Negadoctor") {
            proof {
                lemma_group_named(ModuleGroup::Negadoctor);
            }
            return Some(ModuleGroup::Negadoctor);
        }
        if same_text(name, "Tone equalizer") {
            proof {
                lemma_group_named(ModuleGroup::ToneEqualizer);
            }
            return Some(ModuleGroup::ToneEqualizer);
        }
        if same_text(name, "Color balance RGB") {
            proof {
                lemma_group_named(ModuleGroup::ColorBalanceRgb);
            }
            return Some(ModuleGroup::ColorBalanceRgb);
        }
        if same_text(name, "Filmic RGB") {
            proof {
                lemma_group_named(ModuleGroup::FilmicRgb);
            }
            return Some(ModuleGroup::FilmicRgb);
        }
        if same_text(name, "Highlight reconstruction") {
            proof {
                lemma_group_named(ModuleGroup::HighlightReconstruction);
            }
            return Some(ModuleGroup::HighlightReconstruction);
        }
        if same_text(name, "Denoise (profiled)") {
            proof {
                lemma_group_named(ModuleGroup::DenoiseProfiled);
            }
            return Some(ModuleGroup::DenoiseProfiled);
        }
        if same_text(name, "Bloom") {
            proof {
                lemma_group_named(ModuleGroup::Bloom);
            }
            return Some(ModuleGroup::Bloom);
        }
        if same_text(name, "Tone curve") {
            proof {
                lemma_group_named(ModuleGroup::ToneCurve);
            }
            return Some(ModuleGroup::ToneCurve);
        }
        if same_text(name, "RGB curve") {
            proof {
                lemma_group_named(ModuleGroup::RgbCurve);
            }
            return Some(ModuleGroup::RgbCurve);
        }
        if same_text(name, "Base curve") {
            proof {
                lemma_group_named(ModuleGroup::BaseCurve);
            }
            return Some(ModuleGroup::BaseCurve);
        }
        if same_text(name, "Lens correction") {
            proof {
                lemma_group_named(ModuleGroup::LensCorrection);
            }
            return Some(ModuleGroup::LensCorrection);
        }
        None
    }
}

/// The group with the given name, if there is one.
pub open spec fn group_named(name: Seq<char>) -> Option<ModuleGroup> {
    if exists|g: ModuleGroup| g.label() == name {
        Some(choose|g: ModuleGroup| g.label() == name)
    } else {
        None
    }
}

/// How long a name is and how it begins, which no two names share.
proof fn lemma_label_key(g: ModuleGroup)
    ensures
        match g {
            ModuleGroup::Exposure => g.label().len() == 8 && g.label()[0] == 'E' && g.label()[1] == 'x',
            ModuleGroup::Velvia => g.label().len() == 6 && g.label()[0] == 'V' && g.label()[1] == 'e',
            ModuleGroup::SplitToning => g.label().len() == 12 && g.label()[0] == 'S' && g.label()[1] == 'p',
            ModuleGroup::Monochrome => g.label().len() == 10 && g.label()[0] == 'M' && g.label()[1] == 'o',
            ModuleGroup::Sigmoid => g.label().len() == 7 && g.label()[0] == 'S' && g.label()[1] == 'i',
            ModuleGroup::Sharpen => g.label().len() == 7 && g.label()[0] == 'S' && g.label()[1] == 'h',
            ModuleGroup::Vibrance => g.label().len() == 8 && g.label()[0] == 'V' && g.label()[1] == 'i',
            ModuleGroup::ColorContrast => g.label().len() == 14 && g.label()[0] == 'C' && g.label()[1] == 'o',
            ModuleGroup::Invert => g.label().len() == 6 && g.label()[0] == 'I' && g.label()[1] == 'n',
            ModuleGroup::WhiteBalance => g.label().len() == 13 && g.label()[0] == 'W' && g.label()[1] == 'h',
            ModuleGroup::Colorize => g.label().len() == 8 && g.label()[0] == 'C' && g.label()[1] == 'o',
            ModuleGroup::ColorCorrection => g.label().len() == 16 && g.label()[0] == 'C' && g.label()[1] == 'o',
            ModuleGroup::ColorZones => g.label().len() == 11 && g.label()[0] == 'C' && g.label()[1] == 'o',
            ModuleGroup::Levels => g.label().len() == 6 && g.label()[0] == 'L' && g.label()[1] == 'e',
            ModuleGroup::Vignetting => g.label().len() == 10 && g.label()[0] == 'V' && g.label()[1] == 'i',
            ModuleGroup::LowlightVision => g.label().len() == 15 && g.label()[0] == 'L' && g.label()[1] == 'o',
            ModuleGroup::GraduatedDensity => g.label().len() == 17 && g.label()[0] == 'G' && g.label()[1] == 'r',
            ModuleGroup::ContrastBrightnessSaturation => g.label().len() == 30 && g.label()[0] == 'C' && g.label()[1] == 'o',
            ModuleGroup::BasicAdjustments => g.label().len() == 17 && g.label()[0] == 'B' && g.label()[1] == 'a',
            ModuleGroup::Lowpass => g.label().len() == 7 && g.label()[0] == 'L' && g.label()[1] == 'o',
            ModuleGroup::ShadowsHighlights => g.label().len() == 18 && g.label()[0] == 'S' && g.label()[1] == 'h',
            ModuleGroup::Primaries => g.label().len() == 9 && g.label()[0] == 'P' && g.label()[1] == 'r',
            ModuleGroup::Negadoctor => g.label().len() == 10 && g.label()[0] == 'N' && g.label()[1] == 'e',
            ModuleGroup::ToneEqualizer => g.label().len() == 14 && g.label()[0] == 'T' && g.label()[1] == 'o',
            ModuleGroup::ColorBalanceRgb => g.label().len() == 17 && g.label()[0] == 'C' && g.label()[1] == 'o',
            ModuleGroup::FilmicRgb => g.label().len() == 10 && g.label()[0] == 'F' && g.label()[1] == 'i',
            ModuleGroup::HighlightReconstruction => g.label().len() == 24 && g.label()[0] == 'H' && g.label()[1] == 'i',
            ModuleGroup::DenoiseProfiled => g.label().len() == 18 && g.label()[0] == 'D' && g.label()[1] == 'e',
            ModuleGroup::Bloom => g.label().len() == 5 && g.label()[0] == 'B' && g.label()[1] == 'l',
            ModuleGroup::ToneCurve => g.label().len() == 10 && g.label()[0] == 'T' && g.label()[1] == 'o',
            ModuleGroup::RgbCurve => g.label().len() == 9 && g.label()[0] == 'R' && g.label()[1] == 'G',
            ModuleGroup::BaseCurve => g.label().len() == 10 && g.label()[0] == 'B' && g.label()[1] == 'a',
            ModuleGroup::LensCorrection => g.label().len() == 15 && g.label()[0] == 'L' && g.label()[1] == 'e',
        },
{
    reveal_strlit("Exposure");
    reveal_strlit("Velvia");
    reveal_strlit("Split-toning");
    reveal_strlit("Monochrome");
    reveal_strlit("Sigmoid");
    reveal_strlit("Sharpen");
    reveal_strlit("Vibrance");
    reveal_strlit("Color contrast");
    reveal_strlit("Invert");
    reveal_strlit("White balance");
    reveal_strlit("Colorize");
    reveal_strlit("Color correction");
    reveal_strlit("Color zones");
    reveal_strlit("Levels");
    reveal_strlit("Vignetting");
    reveal_strlit("Lowlight vision");
    reveal_strlit("Graduated density");
    reveal_strlit("Contrast brightness saturation");
    reveal_strlit("Basic adjustments");
    reveal_strlit("Lowpass");
    reveal_strlit("Shadows/Highlights");
    reveal_strlit("Primaries");
    reveal_strlit("Negadoctor");
    reveal_strlit("Tone equalizer");
    reveal_strlit("Color balance RGB");
    reveal_strlit("Filmic RGB");
    reveal_strlit("Highlight reconstruction");
    reveal_strlit("Denoise (profiled)");
    reveal_strlit("Bloom");
    reveal_strlit("Tone curve");
    reveal_strlit("RGB curve");
    reveal_strlit("Base curve");
    reveal_strlit("Lens correction");
}

/// No two groups share a name.
pub proof fn law_group_names_are_distinct(g: ModuleGroup, h: ModuleGroup)
    requires
        g.label() == h.label(),
    ensures
        g == h,
{
    lemma_label_key(g);
    lemma_label_key(h);
}

/// A group is the one with its name.
pub proof fn lemma_group_named(g: ModuleGroup)
    ensures
        group_named(g.label()) == Some(g),
{
    let h = choose|h: ModuleGroup| h.label() == g.label();
    assert(g.label() == g.label());
    law_group_names_are_distinct(g, h);
}

/// `base` with the parameters of one group taken from `src`.
#[verifier::opaque]
pub open spec fn with_group(base: PreviewParams, src: PreviewParams, g: ModuleGroup) -> PreviewParams {
    match g {
        ModuleGroup::Exposure => PreviewParams {
            exposure_on: src.exposure_on,
            black: src.black,
            ev: src.ev,
            ..base
        },
        ModuleGroup::Velvia => PreviewParams {
            velvia_on: src.velvia_on,
            velvia_strength: src.velvia_strength,
            velvia_bias: src.velvia_bias,
            ..base
        },
        ModuleGroup::SplitToning => PreviewParams {
            split_on: src.split_on,
            split_shadow_hue: src.split_shadow_hue,
            split_shadow_sat: src.split_shadow_sat,
            split_highlight_hue: src.split_highlight_hue,
            split_highlight_sat: src.split_highlight_sat,
            split_balance: src.split_balance,
            split_compress: src.split_compress,
            ..base
        },
        ModuleGroup::Monochrome => PreviewParams {
            mono_on: src.mono_on,
            mono_r: src.mono_r,
            mono_g: src.mono_g,
            mono_b: src.mono_b,
            ..base
        },
        ModuleGroup::Sigmoid => PreviewParams {
            sigmoid_on: src.sigmoid_on,
            sigmoid_contrast: src.sigmoid_contrast,
            sigmoid_skew: src.sigmoid_skew,
            ..base
        },
        ModuleGroup::Sharpen => PreviewParams {
            sharpen_on: src.sharpen_on,
            sharpen_radius: src.sharpen_radius,
            sharpen_amount: src.sharpen_amount,
            sharpen_threshold: src.sharpen_threshold,
            ..base
        },
        ModuleGroup::Vibrance => PreviewParams {
            vibrance_on: src.vibrance_on,
            vibrance_amount: src.vibrance_amount,
            ..base
        },
        ModuleGroup::ColorContrast => PreviewParams {
            color_contrast_on: src.color_contrast_on,
            color_contrast_a_steepness: src.color_contrast_a_steepness,
            color_contrast_b_steepness: src.color_contrast_b_steepness,
            ..base
        },
        ModuleGroup::Invert => PreviewParams {
            invert_on: src.invert_on,
            invert_r: src.invert_r,
            invert_g: src.invert_g,
            invert_b: src.invert_b,
            ..base
        },
        ModuleGroup::WhiteBalance => PreviewParams {
            temperature_on: src.temperature_on,
            temperature_r: src.temperature_r,
            temperature_g: src.temperature_g,
            temperature_b: src.temperature_b,
            ..base
        },
        ModuleGroup::Colorize => PreviewParams {
            colorize_on: src.colorize_on,
            colorize_hue: src.colorize_hue,
            colorize_sat: src.colorize_sat,
            colorize_lightness: src.colorize_lightness,
            colorize_lightness_mix: src.colorize_lightness_mix,
            ..base
        },
        ModuleGroup::ColorCorrection => PreviewParams {
            color_correction_on: src.color_correction_on,
            color_correction_loa: src.color_correction_loa,
            color_correction_hia: src.color_correction_hia,
            color_correction_lob: src.color_correction_lob,
            color_correction_hib: src.color_correction_hib,
            color_correction_saturation: src.color_correction_saturation,
            ..base
        },
        ModuleGroup::ColorZones => PreviewParams {
            colorzones_on: src.colorzones_on,
            colorzones_strength: src.colorzones_strength,
            colorzones_channel: src.colorzones_channel,
            colorzones_mode: src.colorzones_mode,
            colorzones_num_nodes: src.colorzones_num_nodes,
            colorzones_curve_type: src.colorzones_curve_type,
            colorzones_curve_x: src.colorzones_curve_x,
            colorzones_curve_y: src.colorzones_curve_y,
            ..base
        },
        ModuleGroup::Levels => PreviewParams {
            levels_on: src.levels_on,
            levels_black: src.levels_black,
            levels_grey: src.levels_grey,
            levels_white: src.levels_white,
            ..base
        },
        ModuleGroup::Vignetting => PreviewParams {
            vignette_on: src.vignette_on,
            vignette_scale: src.vignette_scale,
            vignette_falloff: src.vignette_falloff,
            vignette_brightness: src.vignette_brightness,
            vignette_saturation: src.vignette_saturation,
            vignette_center_x: src.vignette_center_x,
            vignette_center_y: src.vignette_center_y,
            vignette_shape: src.vignette_shape,
            ..base
        },
        ModuleGroup::LowlightVision => PreviewParams {
            lowlight_on: src.lowlight_on,
            lowlight_blueness: src.lowlight_blueness,
            lowlight_transition: src.lowlight_transition,
            ..base
        },
        ModuleGroup::GraduatedDensity => PreviewParams {
            gradnd_on: src.gradnd_on,
            gradnd_density: src.gradnd_density,
            gradnd_hardness: src.gradnd_hardness,
            gradnd_rotation: src.gradnd_rotation,
            gradnd_offset: src.gradnd_offset,
            gradnd_hue: src.gradnd_hue,
            gradnd_saturation: src.gradnd_saturation,
            ..base
        },
        ModuleGroup::ContrastBrightnessSaturation => PreviewParams {
            colisa_on: src.colisa_on,
            colisa_contrast: src.colisa_contrast,
            colisa_brightness: src.colisa_brightness,
            colisa_saturation: src.colisa_saturation,
            ..base
        },
        ModuleGroup::BasicAdjustments => PreviewParams {
            basicadj_on: src.basicadj_on,
            basicadj_black_point: src.basicadj_black_point,
            basicadj_exposure: src.basicadj_exposure,
            basicadj_hlcompr: src.basicadj_hlcompr,
            basicadj_hlcomprthresh: src.basicadj_hlcomprthresh,
            basicadj_contrast: src.basicadj_contrast,
            basicadj_preserve_colors: src.basicadj_preserve_colors,
            basicadj_middle_grey: src.basicadj_middle_grey,
            basicadj_brightness: src.basicadj_brightness,
            basicadj_saturation: src.basicadj_saturation,
            basicadj_vibrance: src.basicadj_vibrance,
            ..base
        },
        ModuleGroup::Lowpass => PreviewParams {
            lowpass_on: src.lowpass_on,
            lowpass_radius: src.lowpass_radius,
            lowpass_contrast: src.lowpass_contrast,
            lowpass_brightness: src.lowpass_brightness,
            lowpass_saturation: src.lowpass_saturation,
            ..base
        },
        ModuleGroup::ShadowsHighlights => PreviewParams {
            shadhi_on: src.shadhi_on,
            shadhi_shadows: src.shadhi_shadows,
            shadhi_highlights: src.shadhi_highlights,
            shadhi_whitepoint: src.shadhi_whitepoint,
            shadhi_radius: src.shadhi_radius,
            shadhi_compress: src.shadhi_compress,
            shadhi_shadows_ccorrect: src.shadhi_shadows_ccorrect,
            shadhi_highlights_ccorrect: src.shadhi_highlights_ccorrect,
            ..base
        },
        ModuleGroup::Primaries => PreviewParams {
            primaries_on: src.primaries_on,
            primaries_achromatic_tint_hue: src.primaries_achromatic_tint_hue,
            primaries_achromatic_tint_purity: src.primaries_achromatic_tint_purity,
            primaries_red_hue: src.primaries_red_hue,
            primaries_red_purity: src.primaries_red_purity,
            primaries_green_hue: src.primaries_green_hue,
            primaries_green_purity: src.primaries_green_purity,
            primaries_blue_hue: src.primaries_blue_hue,
            primaries_blue_purity: src.primaries_blue_purity,
            ..base
        },
        ModuleGroup::Negadoctor => PreviewParams {
            negadoctor_on: src.negadoctor_on,
            negadoctor_film_stock: src.negadoctor_film_stock,
            negadoctor_dmin_r: src.negadoctor_dmin_r,
            negadoctor_dmin_g: src.negadoctor_dmin_g,
            negadoctor_dmin_b: src.negadoctor_dmin_b,
            negadoctor_wb_high_r: src.negadoctor_wb_high_r,
            negadoctor_wb_high_g: src.negadoctor_wb_high_g,
            negadoctor_wb_high_b: src.negadoctor_wb_high_b,
            negadoctor_wb_low_r: src.negadoctor_wb_low_r,
            negadoctor_wb_low_g: src.negadoctor_wb_low_g,
            negadoctor_wb_low_b: src.negadoctor_wb_low_b,
            negadoctor_d_max: src.negadoctor_d_max,
            negadoctor_offset: src.negadoctor_offset,
            negadoctor_black: src.negadoctor_black,
            negadoctor_gamma: src.negadoctor_gamma,
            negadoctor_soft_clip: src.negadoctor_soft_clip,
            negadoctor_exposure: src.negadoctor_exposure,
            ..base
        },
        ModuleGroup::ToneEqualizer => PreviewParams {
            toneeq_on: src.toneeq_on,
            toneeq_noise: src.toneeq_noise,
            toneeq_ultra_deep_blacks: src.toneeq_ultra_deep_blacks,
            toneeq_deep_blacks: src.toneeq_deep_blacks,
            toneeq_blacks: src.toneeq_blacks,
            toneeq_shadows: src.toneeq_shadows,
            toneeq_midtones: src.toneeq_midtones,
            toneeq_highlights: src.toneeq_highlights,
            toneeq_whites: src.toneeq_whites,
            toneeq_speculars: src.toneeq_speculars,
            ..base
        },
        ModuleGroup::ColorBalanceRgb => PreviewParams {
            cb_on: src.cb_on,
            cb_shadows_y: src.cb_shadows_y,
            cb_shadows_c: src.cb_shadows_c,
            cb_shadows_h: src.cb_shadows_h,
            cb_midtones_y: src.cb_midtones_y,
            cb_midtones_c: src.cb_midtones_c,
            cb_midtones_h: src.cb_midtones_h,
            cb_highlights_y: src.cb_highlights_y,
            cb_highlights_c: src.cb_highlights_c,
            cb_highlights_h: src.cb_highlights_h,
            cb_global_y: src.cb_global_y,
            cb_global_c: src.cb_global_c,
            cb_global_h: src.cb_global_h,
            cb_shadows_weight: src.cb_shadows_weight,
            cb_white_fulcrum: src.cb_white_fulcrum,
            cb_highlights_weight: src.cb_highlights_weight,
            cb_chroma_shadows: src.cb_chroma_shadows,
            cb_chroma_highlights: src.cb_chroma_highlights,
            cb_chroma_global: src.cb_chroma_global,
            cb_chroma_midtones: src.cb_chroma_midtones,
            cb_saturation_global: src.cb_saturation_global,
            cb_saturation_highlights: src.cb_saturation_highlights,
            cb_saturation_midtones: src.cb_saturation_midtones,
            cb_saturation_shadows: src.cb_saturation_shadows,
            cb_hue_angle: src.cb_hue_angle,
            cb_brilliance_global: src.cb_brilliance_global,
            cb_brilliance_highlights: src.cb_brilliance_highlights,
            cb_brilliance_midtones: src.cb_brilliance_midtones,
            cb_brilliance_shadows: src.cb_brilliance_shadows,
            cb_mask_grey_fulcrum: src.cb_mask_grey_fulcrum,
            cb_vibrance: src.cb_vibrance,
            cb_grey_fulcrum: src.cb_grey_fulcrum,
            cb_contrast: src.cb_contrast,
            cb_formula: src.cb_formula,
            ..base
        },
        ModuleGroup::FilmicRgb => PreviewParams {
            filmic_on: src.filmic_on,
            filmic_black_point_source: src.filmic_black_point_source,
            filmic_white_point_source: src.filmic_white_point_source,
            filmic_output_power: src.filmic_output_power,
            filmic_latitude: src.filmic_latitude,
            filmic_contrast: src.filmic_contrast,
            filmic_balance: src.filmic_balance,
            filmic_saturation: src.filmic_saturation,
            ..base
        },
        ModuleGroup::HighlightReconstruction => PreviewParams {
            hl_on: src.hl_on,
            hl_opposed: src.hl_opposed,
            hl_clip: src.hl_clip,
            ..base
        },
        ModuleGroup::DenoiseProfiled => PreviewParams {
            dn_on: src.dn_on,
            dn_mode_y0u0v0: src.dn_mode_y0u0v0,
            dn_strength: src.dn_strength,
            dn_shadows: src.dn_shadows,
            dn_bias: src.dn_bias,
            ..base
        },
        ModuleGroup::Bloom => PreviewParams {
            bl_on: src.bl_on,
            bl_size: src.bl_size,
            bl_threshold: src.bl_threshold,
            bl_strength: src.bl_strength,
            ..base
        },
        ModuleGroup::ToneCurve => PreviewParams {
            tc_on: src.tc_on,
            tc_type: src.tc_type,
            tc_autoscale: src.tc_autoscale,
            tc_unbound: src.tc_unbound,
            tc_preserve: src.tc_preserve,
            tc_nnodes: src.tc_nnodes,
            tc_nodes_l: src.tc_nodes_l,
            ..base
        },
        ModuleGroup::RgbCurve => PreviewParams {
            rc_on: src.rc_on,
            rc_type_r: src.rc_type_r,
            rc_type_g: src.rc_type_g,
            rc_type_b: src.rc_type_b,
            rc_autoscale: src.rc_autoscale,
            rc_preserve: src.rc_preserve,
            rc_nnodes_r: src.rc_nnodes_r,
            rc_nnodes_g: src.rc_nnodes_g,
            rc_nnodes_b: src.rc_nnodes_b,
            rc_nodes_r: src.rc_nodes_r,
            rc_nodes_g: src.rc_nodes_g,
            rc_nodes_b: src.rc_nodes_b,
            ..base
        },
        ModuleGroup::BaseCurve => PreviewParams {
            bc_on: src.bc_on,
            bc_type: src.bc_type,
            bc_preserve: src.bc_preserve,
            bc_nnodes: src.bc_nnodes,
            bc_exposure_fusion: src.bc_exposure_fusion,
            bc_exposure_stops: src.bc_exposure_stops,
            bc_exposure_bias: src.bc_exposure_bias,
            bc_nodes: src.bc_nodes,
            ..base
        },
        ModuleGroup::LensCorrection => PreviewParams {
            lens_on: src.lens_on,
            lens_inverse: src.lens_inverse,
            lens_modify_flags: src.lens_modify_flags,
            lens_scale: src.lens_scale,
            lens_focal: src.lens_focal,
            lens_aperture: src.lens_aperture,
            lens_distance: src.lens_distance,
            lens_target_geom: src.lens_target_geom,
            ..base
        },
    }
}

/// `base` with the parameters of the group of that name taken from `src`; an unknown
/// name takes nothing.
pub open spec fn with_named(base: PreviewParams, src: PreviewParams, name: Seq<char>) -> PreviewParams {
    match group_named(name) {
        Some(g) => with_group(base, src, g),
        None => base,
    }
}

/// `base` with the named groups taken from `overlay`, one after the other.
pub open spec fn merged(
    base: PreviewParams,
    overlay: PreviewParams,
    names: Seq<Seq<char>>,
) -> PreviewParams
    decreases names.len(),
{
    if names.len() == 0 {
        base
    } else {
        with_named(merged(base, overlay, names.drop_last()), overlay, names.last())
    }
}

/// `base` with the parameters of one group taken from `src`.
fn take_group(base: &PreviewParams, src: &PreviewParams, g: ModuleGroup) -> (r: PreviewParams)
    ensures
        r == with_group(*base, *src, g),
{
    proof {
        reveal(with_group);
    }
    match g {
        ModuleGroup::Exposure => {
            return PreviewParams {
                exposure_on: src.exposure_on,
                black: src.black,
                ev: src.ev,
                ..*base
            };
        },
        ModuleGroup::Velvia => {
            return PreviewParams {
                velvia_on: src.velvia_on,
                velvia_strength: src.velvia_strength,
                velvia_bias: src.velvia_bias,
                ..*base
            };
        },
        ModuleGroup::SplitToning => {
            return PreviewParams {
                split_on: src.split_on,
                split_shadow_hue: src.split_shadow_hue,
                split_shadow_sat: src.split_shadow_sat,
                split_highlight_hue: src.split_highlight_hue,
                split_highlight_sat: src.split_highlight_sat,
                split_balance: src.split_balance,
                split_compress: src.split_compress,
                ..*base
            };
        },
        ModuleGroup::Monochrome => {
            return PreviewParams {
                mono_on: src.mono_on,
                mono_r: src.mono_r,
                mono_g: src.mono_g,
                mono_b: src.mono_b,
                ..*base
            };
        },
        ModuleGroup::Sigmoid => {
            return PreviewParams {
                sigmoid_on: src.sigmoid_on,
                sigmoid_contrast: src.sigmoid_contrast,
                sigmoid_skew: src.sigmoid_skew,
                ..*base
            };
        },
        ModuleGroup::Sharpen => {
            return PreviewParams {
                sharpen_on: src.sharpen_on,
                sharpen_radius: src.sharpen_radius,
                sharpen_amount: src.sharpen_amount,
                sharpen_threshold: src.sharpen_threshold,
                ..*base
            };
        },
        ModuleGroup::Vibrance => {
            return PreviewParams {
                vibrance_on: src.vibrance_on,
                vibrance_amount: src.vibrance_amount,
                ..*base
            };
        },
        ModuleGroup::ColorContrast => {
            return PreviewParams {
                color_contrast_on: src.color_contrast_on,
                color_contrast_a_steepness: src.color_contrast_a_steepness,
                color_contrast_b_steepness: src.color_contrast_b_steepness,
                ..*base
            };
        },
        ModuleGroup::Invert => {
            return PreviewParams {
                invert_on: src.invert_on,
                invert_r: src.invert_r,
                invert_g: src.invert_g,
                invert_b: src.invert_b,
                ..*base
            };
        },
        ModuleGroup::WhiteBalance => {
            return PreviewParams {
                temperature_on: src.temperature_on,
                temperature_r: src.temperature_r,
                temperature_g: src.temperature_g,
                temperature_b: src.temperature_b,
                ..*base
            };
        },
        ModuleGroup::Colorize => {
            return PreviewParams {
                colorize_on: src.colorize_on,
                colorize_hue: src.colorize_hue,
                colorize_sat: src.colorize_sat,
                colorize_lightness: src.colorize_lightness,
                colorize_lightness_mix: src.colorize_lightness_mix,
                ..*base
            };
        },
        ModuleGroup::ColorCorrection => {
            return PreviewParams {
                color_correction_on: src.color_correction_on,
                color_correction_loa: src.color_correction_loa,
                color_correction_hia: src.color_correction_hia,
                color_correction_lob: src.color_correction_lob,
                color_correction_hib: src.color_correction_hib,
                color_correction_saturation: src.color_correction_saturation,
                ..*base
            };
        },
        ModuleGroup::ColorZones => {
            return PreviewParams {
                colorzones_on: src.colorzones_on,
                colorzones_strength: src.colorzones_strength,
                colorzones_channel: src.colorzones_channel,
                colorzones_mode: src.colorzones_mode,
                colorzones_num_nodes: src.colorzones_num_nodes,
                colorzones_curve_type: src.colorzones_curve_type,
                colorzones_curve_x: src.colorzones_curve_x,
                colorzones_curve_y: src.colorzones_curve_y,
                ..*base
            };
        },
        ModuleGroup::Levels => {
            return PreviewParams {
                levels_on: src.levels_on,
                levels_black: src.levels_black,
                levels_grey: src.levels_grey,
                levels_white: src.levels_white,
                ..*base
            };
        },
        ModuleGroup::Vignetting => {
            return PreviewParams {
                vignette_on: src.vignette_on,
                vignette_scale: src.vignette_scale,
                vignette_falloff: src.vignette_falloff,
                vignette_brightness: src.vignette_brightness,
                vignette_saturation: src.vignette_saturation,
                vignette_center_x: src.vignette_center_x,
                vignette_center_y: src.vignette_center_y,
                vignette_shape: src.vignette_shape,
                ..*base
            };
        },
        ModuleGroup::LowlightVision => {
            return PreviewParams {
                lowlight_on: src.lowlight_on,
                lowlight_blueness: src.lowlight_blueness,
                lowlight_transition: src.lowlight_transition,
                ..*base
            };
        },
        ModuleGroup::GraduatedDensity => {
            return PreviewParams {
                gradnd_on: src.gradnd_on,
                gradnd_density: src.gradnd_density,
                gradnd_hardness: src.gradnd_hardness,
                gradnd_rotation: src.gradnd_rotation,
                gradnd_offset: src.gradnd_offset,
                gradnd_hue: src.gradnd_hue,
                gradnd_saturation: src.gradnd_saturation,
                ..*base
            };
        },
        ModuleGroup::ContrastBrightnessSaturation => {
            return PreviewParams {
                colisa_on: src.colisa_on,
                colisa_contrast: src.colisa_contrast,
                colisa_brightness: src.colisa_brightness,
                colisa_saturation: src.colisa_saturation,
                ..*base
            };
        },
        ModuleGroup::BasicAdjustments => {
            return PreviewParams {
                basicadj_on: src.basicadj_on,
                basicadj_black_point: src.basicadj_black_point,
                basicadj_exposure: src.basicadj_exposure,
                basicadj_hlcompr: src.basicadj_hlcompr,
                basicadj_hlcomprthresh: src.basicadj_hlcomprthresh,
                basicadj_contrast: src.basicadj_contrast,
                basicadj_preserve_colors: src.basicadj_preserve_colors,
                basicadj_middle_grey: src.basicadj_middle_grey,
                basicadj_brightness: src.basicadj_brightness,
                basicadj_saturation: src.basicadj_saturation,
                basicadj_vibrance: src.basicadj_vibrance,
                ..*base
            };
        },
        ModuleGroup::Lowpass => {
            return PreviewParams {
                lowpass_on: src.lowpass_on,
                lowpass_radius: src.lowpass_radius,
                lowpass_contrast: src.lowpass_contrast,
                lowpass_brightness: src.lowpass_brightness,
                lowpass_saturation: src.lowpass_saturation,
                ..*base
            };
        },
        ModuleGroup::ShadowsHighlights => {
            return PreviewParams {
                shadhi_on: src.shadhi_on,
                shadhi_shadows: src.shadhi_shadows,
                shadhi_highlights: src.shadhi_highlights,
                shadhi_whitepoint: src.shadhi_whitepoint,
                shadhi_radius: src.shadhi_radius,
                shadhi_compress: src.shadhi_compress,
                shadhi_shadows_ccorrect: src.shadhi_shadows_ccorrect,
                shadhi_highlights_ccorrect: src.shadhi_highlights_ccorrect,
                ..*base
            };
        },
        ModuleGroup::Primaries => {
            return PreviewParams {
                primaries_on: src.primaries_on,
                primaries_achromatic_tint_hue: src.primaries_achromatic_tint_hue,
                primaries_achromatic_tint_purity: src.primaries_achromatic_tint_purity,
                primaries_red_hue: src.primaries_red_hue,
                primaries_red_purity: src.primaries_red_purity,
                primaries_green_hue: src.primaries_green_hue,
                primaries_green_purity: src.primaries_green_purity,
                primaries_blue_hue: src.primaries_blue_hue,
                primaries_blue_purity: src.primaries_blue_purity,
                ..*base
            };
        },
        ModuleGroup::Negadoctor => {
            return PreviewParams {
                negadoctor_on: src.negadoctor_on,
                negadoctor_film_stock: src.negadoctor_film_stock,
                negadoctor_dmin_r: src.negadoctor_dmin_r,
                negadoctor_dmin_g: src.negadoctor_dmin_g,
                negadoctor_dmin_b: src.negadoctor_dmin_b,
                negadoctor_wb_high_r: src.negadoctor_wb_high_r,
                negadoctor_wb_high_g: src.negadoctor_wb_high_g,
                negadoctor_wb_high_b: src.negadoctor_wb_high_b,
                negadoctor_wb_low_r: src.negadoctor_wb_low_r,
                negadoctor_wb_low_g: src.negadoctor_wb_low_g,
                negadoctor_wb_low_b: src.negadoctor_wb_low_b,
                negadoctor_d_max: src.negadoctor_d_max,
                negadoctor_offset: src.negadoctor_offset,
                negadoctor_black: src.negadoctor_black,
                negadoctor_gamma: src.negadoctor_gamma,
                negadoctor_soft_clip: src.negadoctor_soft_clip,
                negadoctor_exposure: src.negadoctor_exposure,
                ..*base
            };
        },
        ModuleGroup::ToneEqualizer => {
            return PreviewParams {
                toneeq_on: src.toneeq_on,
                toneeq_noise: src.toneeq_noise,
                toneeq_ultra_deep_blacks: src.toneeq_ultra_deep_blacks,
                toneeq_deep_blacks: src.toneeq_deep_blacks,
                toneeq_blacks: src.toneeq_blacks,
                toneeq_shadows: src.toneeq_shadows,
                toneeq_midtones: src.toneeq_midtones,
                toneeq_highlights: src.toneeq_highlights,
                toneeq_whites: src.toneeq_whites,
                toneeq_speculars: src.toneeq_speculars,
                ..*base
            };
        },
        ModuleGroup::ColorBalanceRgb => {
            return PreviewParams {
                cb_on: src.cb_on,
                cb_shadows_y: src.cb_shadows_y,
                cb_shadows_c: src.cb_shadows_c,
                cb_shadows_h: src.cb_shadows_h,
                cb_midtones_y: src.cb_midtones_y,
                cb_midtones_c: src.cb_midtones_c,
                cb_midtones_h: src.cb_midtones_h,
                cb_highlights_y: src.cb_highlights_y,
                cb_highlights_c: src.cb_highlights_c,
                cb_highlights_h: src.cb_highlights_h,
                cb_global_y: src.cb_global_y,
                cb_global_c: src.cb_global_c,
                cb_global_h: src.cb_global_h,
                cb_shadows_weight: src.cb_shadows_weight,
                cb_white_fulcrum: src.cb_white_fulcrum,
                cb_highlights_weight: src.cb_highlights_weight,
                cb_chroma_shadows: src.cb_chroma_shadows,
                cb_chroma_highlights: src.cb_chroma_highlights,
                cb_chroma_global: src.cb_chroma_global,
                cb_chroma_midtones: src.cb_chroma_midtones,
                cb_saturation_global: src.cb_saturation_global,
                cb_saturation_highlights: src.cb_saturation_highlights,
                cb_saturation_midtones: src.cb_saturation_midtones,
                cb_saturation_shadows: src.cb_saturation_shadows,
                cb_hue_angle: src.cb_hue_angle,
                cb_brilliance_global: src.cb_brilliance_global,
                cb_brilliance_highlights: src.cb_brilliance_highlights,
                cb_brilliance_midtones: src.cb_brilliance_midtones,
                cb_brilliance_shadows: src.cb_brilliance_shadows,
                cb_mask_grey_fulcrum: src.cb_mask_grey_fulcrum,
                cb_vibrance: src.cb_vibrance,
                cb_grey_fulcrum: src.cb_grey_fulcrum,
                cb_contrast: src.cb_contrast,
                cb_formula: src.cb_formula,
                ..*base
            };
        },
        ModuleGroup::FilmicRgb => {
            return PreviewParams {
                filmic_on: src.filmic_on,
                filmic_black_point_source: src.filmic_black_point_source,
                filmic_white_point_source: src.filmic_white_point_source,
                filmic_output_power: src.filmic_output_power,
                filmic_latitude: src.filmic_latitude,
                filmic_contrast: src.filmic_contrast,
                filmic_balance: src.filmic_balance,
                filmic_saturation: src.filmic_saturation,
                ..*base
            };
        },
        ModuleGroup::HighlightReconstruction => {
            return PreviewParams {
                hl_on: src.hl_on,
                hl_opposed: src.hl_opposed,
                hl_clip: src.hl_clip,
                ..*base
            };
        },
        ModuleGroup::DenoiseProfiled => {
            return PreviewParams {
                dn_on: src.dn_on,
                dn_mode_y0u0v0: src.dn_mode_y0u0v0,
                dn_strength: src.dn_strength,
                dn_shadows: src.dn_shadows,
                dn_bias: src.dn_bias,
                ..*base
            };
        },
        ModuleGroup::Bloom => {
            return PreviewParams {
                bl_on: src.bl_on,
                bl_size: src.bl_size,
                bl_threshold: src.bl_threshold,
                bl_strength: src.bl_strength,
                ..*base
            };
        },
        ModuleGroup::ToneCurve => {
            return PreviewParams {
                tc_on: src.tc_on,
                tc_type: src.tc_type,
                tc_autoscale: src.tc_autoscale,
                tc_unbound: src.tc_unbound,
                tc_preserve: src.tc_preserve,
                tc_nnodes: src.tc_nnodes,
                tc_nodes_l: src.tc_nodes_l,
                ..*base
            };
        },
        ModuleGroup::RgbCurve => {
            return PreviewParams {
                rc_on: src.rc_on,
                rc_type_r: src.rc_type_r,
                rc_type_g: src.rc_type_g,
                rc_type_b: src.rc_type_b,
                rc_autoscale: src.rc_autoscale,
                rc_preserve: src.rc_preserve,
                rc_nnodes_r: src.rc_nnodes_r,
                rc_nnodes_g: src.rc_nnodes_g,
                rc_nnodes_b: src.rc_nnodes_b,
                rc_nodes_r: src.rc_nodes_r,
                rc_nodes_g: src.rc_nodes_g,
                rc_nodes_b: src.rc_nodes_b,
                ..*base
            };
        },
        ModuleGroup::BaseCurve => {
            return PreviewParams {
                bc_on: src.bc_on,
                bc_type: src.bc_type,
                bc_preserve: src.bc_preserve,
                bc_nnodes: src.bc_nnodes,
                bc_exposure_fusion: src.bc_exposure_fusion,
                bc_exposure_stops: src.bc_exposure_stops,
                bc_exposure_bias: src.bc_exposure_bias,
                bc_nodes: src.bc_nodes,
                ..*base
            };
        },
        ModuleGroup::LensCorrection => {
            return PreviewParams {
                lens_on: src.lens_on,
                lens_inverse: src.lens_inverse,
                lens_modify_flags: src.lens_modify_flags,
                lens_scale: src.lens_scale,
                lens_focal: src.lens_focal,
                lens_aperture: src.lens_aperture,
                lens_distance: src.lens_distance,
                lens_target_geom: src.lens_target_geom,
                ..*base
            };
        },
    }
}

/// Copies every parameter of one group from `src` into `target` and leaves the others
/// alone. Returns whether `group` names a module.
pub fn copy_module_group(target: &mut PreviewParams, src: &PreviewParams, group: &str) -> (r: bool)
    ensures
        r == (group_named(group@) is Some),
        *final(target) == with_named(*old(target), *src, group@),
{
    match ModuleGroup::from_name(group) {
        Some(g) => {
            *target = take_group(target, src, g);
            true
        },
        None => false,
    }
}

/// `base` with the named groups taken from `overlay`. Names that are no module's are
/// passed over.
pub fn merge_modules(base: &PreviewParams, overlay: &PreviewParams, groups: &[&str]) -> (r: PreviewParams)
    ensures
        r == merged(*base, *overlay, groups@.map_values(|s: &str| s@)),
{
    let mut result = *base;
    let ghost names = groups@.map_values(|s: &str| s@);
    let mut i: usize = 0;
    while i < groups.len()
        invariant
            i <= groups@.len(),
            names == groups@.map_values(|s: &str| s@),
            result == merged(*base, *overlay, names.take(i as int)),
        decreases groups@.len() - i,
    {
        copy_module_group(&mut result, overlay, groups[i]);
        assert(names.take(i + 1).drop_last() =~= names.take(i as int));
        i = i + 1;
    }
    assert(names.take(i as int) =~= names);
    result
}

} // verus!
