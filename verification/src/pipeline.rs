//! The stage plan: which processing stages an edit stands for, in which order, and
//! with which settings.
//!
//! Stages run in a fixed order. A stage is planned when its module is on and its
//! settings can change a pixel. Settings are carried in control units; the engine
//! that runs a stage turns them into physical ones.
use vstd::arithmetic::power2::*;
use vstd::prelude::*;

use crate::curves::{pin_curve, pinned_curve, CurveNodes};
use crate::fields::lemma_same_numbers;
use crate::float32::{clamped, F32, HALF, ONE, ZERO};
use crate::params::PreviewParams;
use crate::stagelaws::{
    law_basecurve_stage, law_basicadj_stage, law_bloom_stage, law_colisa_stage,
    law_color_balance_rgb_stage, law_color_contrast_stage, law_color_correction_stage,
    law_color_zones_stage, law_colorize_stage, law_denoise_profile_stage, law_exposure_stage,
    law_filmic_rgb_stage, law_graduated_nd_stage, law_invert_stage, law_lens_correction_stage,
    law_levels_stage, law_lowlight_stage, law_lowpass_stage, law_monochrome_stage,
    law_negadoctor_stage, law_primaries_stage, law_rgb_curve_stage, law_shadhi_stage,
    law_sharpen_stage, law_sigmoid_stage, law_splittoning_stage, law_temperature_stage,
    law_tone_curve_stage, law_tone_equal_stage, law_velvia_stage, law_vibrance_stage,
    law_vignette_stage,
};

verus! {

/// The working colour space that a plan is made for.
#[derive(Clone, Copy, Debug, PartialEq, Eq, Structural)]
pub enum ColorSpace {
    /// Linear sRGB, the space of decoded display-referred sources.
    LinearSrgb,
    /// Linear Rec.2020, the space of decoded raws.
    Rec2020,
}

/// The stages there are, in the order in which they run.
#[derive(Clone, Copy, Debug, PartialEq, Eq, Structural)]
pub enum StageKind {
    Invert,
    Temperature,
    DenoiseProfile,
    LensCorrection,
    Exposure,
    ToneEqual,
    GraduatedNd,
    Negadoctor,
    Primaries,
    Monochrome,
    Sharpen,
    Vibrance,
    Basicadj,
    ColorBalanceRgb,
    RgbCurve,
    Basecurve,
    Shadhi,
    Lowpass,
    ColorCorrection,
    ColorContrast,
    ColorZones,
    Sigmoid,
    FilmicRgb,
    Colisa,
    ToneCurve,
    Levels,
    Velvia,
    Bloom,
    Colorize,
    Splittoning,
    Lowlight,
    Vignette,
}

/// The order in which stages run.
pub const STAGE_ORDER: [StageKind; 32] = [
    StageKind::Invert,
    StageKind::Temperature,
    StageKind::DenoiseProfile,
    StageKind::LensCorrection,
    StageKind::Exposure,
    StageKind::ToneEqual,
    StageKind::GraduatedNd,
    StageKind::Negadoctor,
    StageKind::Primaries,
    StageKind::Monochrome,
    StageKind::Sharpen,
    StageKind::Vibrance,
    StageKind::Basicadj,
    StageKind::ColorBalanceRgb,
    StageKind::RgbCurve,
    StageKind::Basecurve,
    StageKind::Shadhi,
    StageKind::Lowpass,
    StageKind::ColorCorrection,
    StageKind::ColorContrast,
    StageKind::ColorZones,
    StageKind::Sigmoid,
    StageKind::FilmicRgb,
    StageKind::Colisa,
    StageKind::ToneCurve,
    StageKind::Levels,
    StageKind::Velvia,
    StageKind::Bloom,
    StageKind::Colorize,
    StageKind::Splittoning,
    StageKind::Lowlight,
    StageKind::Vignette,
];

/// The place of a stage in the order.
pub open spec fn rank(kind: StageKind) -> int {
    match kind {
        StageKind::Invert => 0,
        StageKind::Temperature => 1,
        StageKind::DenoiseProfile => 2,
        StageKind::LensCorrection => 3,
        StageKind::Exposure => 4,
        StageKind::ToneEqual => 5,
        StageKind::GraduatedNd => 6,
        StageKind::Negadoctor => 7,
        StageKind::Primaries => 8,
        StageKind::Monochrome => 9,
        StageKind::Sharpen => 10,
        StageKind::Vibrance => 11,
        StageKind::Basicadj => 12,
        StageKind::ColorBalanceRgb => 13,
        StageKind::RgbCurve => 14,
        StageKind::Basecurve => 15,
        StageKind::Shadhi => 16,
        StageKind::Lowpass => 17,
        StageKind::ColorCorrection => 18,
        StageKind::ColorContrast => 19,
        StageKind::ColorZones => 20,
        StageKind::Sigmoid => 21,
        StageKind::FilmicRgb => 22,
        StageKind::Colisa => 23,
        StageKind::ToneCurve => 24,
        StageKind::Levels => 25,
        StageKind::Velvia => 26,
        StageKind::Bloom => 27,
        StageKind::Colorize => 28,
        StageKind::Splittoning => 29,
        StageKind::Lowlight => 30,
        StageKind::Vignette => 31,
    }
}

/// The order lists every stage once, each at its place.
pub proof fn law_stage_order_is_complete(kind: StageKind)
    ensures
        0 <= rank(kind) < 32,
        STAGE_ORDER@[rank(kind)] == kind,
        forall|i: int| 0 <= i < 32 ==> rank(#[trigger] STAGE_ORDER@[i]) == i,
{
    let t = STAGE_ORDER;
    assert(t@[0] == StageKind::Invert);
    assert(t@[1] == StageKind::Temperature);
    assert(t@[2] == StageKind::DenoiseProfile);
    assert(t@[3] == StageKind::LensCorrection);
    assert(t@[4] == StageKind::Exposure);
    assert(t@[5] == StageKind::ToneEqual);
    assert(t@[6] == StageKind::GraduatedNd);
    assert(t@[7] == StageKind::Negadoctor);
    assert(t@[8] == StageKind::Primaries);
    assert(t@[9] == StageKind::Monochrome);
    assert(t@[10] == StageKind::Sharpen);
    assert(t@[11] == StageKind::Vibrance);
    assert(t@[12] == StageKind::Basicadj);
    assert(t@[13] == StageKind::ColorBalanceRgb);
    assert(t@[14] == StageKind::RgbCurve);
    assert(t@[15] == StageKind::Basecurve);
    assert(t@[16] == StageKind::Shadhi);
    assert(t@[17] == StageKind::Lowpass);
    assert(t@[18] == StageKind::ColorCorrection);
    assert(t@[19] == StageKind::ColorContrast);
    assert(t@[20] == StageKind::ColorZones);
    assert(t@[21] == StageKind::Sigmoid);
    assert(t@[22] == StageKind::FilmicRgb);
    assert(t@[23] == StageKind::Colisa);
    assert(t@[24] == StageKind::ToneCurve);
    assert(t@[25] == StageKind::Levels);
    assert(t@[26] == StageKind::Velvia);
    assert(t@[27] == StageKind::Bloom);
    assert(t@[28] == StageKind::Colorize);
    assert(t@[29] == StageKind::Splittoning);
    assert(t@[30] == StageKind::Lowlight);
    assert(t@[31] == StageKind::Vignette);
    assert forall|i: int| 0 <= i < 32 implies rank(#[trigger] t@[i]) == i by {
        if i == 0 {
        } else if i == 1 {
        } else if i == 2 {
        } else if i == 3 {
        } else if i == 4 {
        } else if i == 5 {
        } else if i == 6 {
        } else if i == 7 {
        } else if i == 8 {
        } else if i == 9 {
        } else if i == 10 {
        } else if i == 11 {
        } else if i == 12 {
        } else if i == 13 {
        } else if i == 14 {
        } else if i == 15 {
        } else if i == 16 {
        } else if i == 17 {
        } else if i == 18 {
        } else if i == 19 {
        } else if i == 20 {
        } else if i == 21 {
        } else if i == 22 {
        } else if i == 23 {
        } else if i == 24 {
        } else if i == 25 {
        } else if i == 26 {
        } else if i == 27 {
        } else if i == 28 {
        } else if i == 29 {
        } else if i == 30 {
        } else if i == 31 {
        }
    }
}

/// The saturation formula of colour balance.
#[derive(Clone, Copy, Debug, PartialEq, Eq, Structural)]
pub enum SaturationFormula {
    Jzazbz,
    DtUcs,
}

/// The settings of colour balance.
#[derive(Clone, Copy, Debug, PartialEq)]
pub struct CbRgbParams {
    pub shadows_y: F32,
    pub shadows_c: F32,
    pub shadows_h: F32,
    pub midtones_y: F32,
    pub midtones_c: F32,
    pub midtones_h: F32,
    pub highlights_y: F32,
    pub highlights_c: F32,
    pub highlights_h: F32,
    pub global_y: F32,
    pub global_c: F32,
    pub global_h: F32,
    pub shadows_weight: F32,
    pub white_fulcrum: F32,
    pub highlights_weight: F32,
    pub chroma_shadows: F32,
    pub chroma_highlights: F32,
    pub chroma_global: F32,
    pub chroma_midtones: F32,
    pub saturation_global: F32,
    pub saturation_highlights: F32,
    pub saturation_midtones: F32,
    pub saturation_shadows: F32,
    pub hue_angle: F32,
    pub brilliance_global: F32,
    pub brilliance_highlights: F32,
    pub brilliance_midtones: F32,
    pub brilliance_shadows: F32,
    pub mask_grey_fulcrum: F32,
    pub vibrance: F32,
    pub grey_fulcrum: F32,
    pub contrast: F32,
    pub saturation_formula: SaturationFormula,
}

/// The settings of the filmic transform.
#[derive(Clone, Copy, Debug, PartialEq)]
pub struct FilmicParams {
    pub black_point_source: F32,
    pub white_point_source: F32,
    pub grey_point_target: F32,
    pub black_point_target: F32,
    pub white_point_target: F32,
    pub output_power: F32,
    pub latitude: F32,
    pub contrast: F32,
    pub balance: F32,
    pub saturation: F32,
    pub custom_grey: bool,
}

/// How clipped highlights are treated in the raw decode.
#[derive(Clone, Copy, Debug, PartialEq, Eq, Structural)]
pub enum HlMode {
    Clip,
    Opposed,
}

/// Options of highlight reconstruction.
#[derive(Clone, Copy, Debug, PartialEq)]
pub struct HlOpts {
    pub mode: HlMode,
    pub clip: F32,
}

/// A camera and a lens, as found in the lens database.
#[derive(Clone, Debug, PartialEq)]
pub struct LensGear {
    pub camera_maker: String,
    pub camera_model: String,
    pub crop_factor: F32,
    pub lens_model: String,
}

/// The settings of lens correction: the gear, and the sliders.
#[derive(Clone, Debug, PartialEq)]
pub struct LensParams {
    pub camera_maker: String,
    pub camera_model: String,
    pub lens: String,
    pub modify_flags: i32,
    pub inverse: bool,
    pub scale: F32,
    pub crop: F32,
    pub focal: F32,
    pub aperture: F32,
    pub distance: F32,
    pub target_geom: i32,
}

/// A planned stage with its settings.
#[derive(Clone, Debug, PartialEq)]
pub enum Stage {
    /// Film negative: each channel is subtracted from a colour.
    Invert {
        color: [F32; 4],
    },
    /// White balance multipliers.
    Temperature {
        coeffs: [F32; 4],
    },
    /// Profiled denoise.
    DenoiseProfile {
        strength: F32,
        shadows: F32,
        bias: F32,
        mode_y0u0v0: bool,
    },
    /// Lens correction with the resolved gear.
    LensCorrection {
        correction: LensParams,
    },
    /// Black point, and the exponent of the exposure scale.
    Exposure {
        black: F32,
        ev: F32,
    },
    /// The nine band gains.
    ToneEqual {
        gains: [F32; 9],
    },
    /// Graduated density filter.
    GraduatedNd {
        density: F32,
        hardness: F32,
        rotation: F32,
        offset: F32,
        hue: F32,
        saturation: F32,
    },
    /// Film scan inversion; `d_max` is floored and black-and-white stock has one base colour.
    Negadoctor {
        dmin: [F32; 4],
        wb_high: [F32; 3],
        wb_low: [F32; 3],
        d_max: F32,
        offset: F32,
        black: F32,
        gamma: F32,
        soft_clip: F32,
        exposure: F32,
    },
    /// Hue shifts in degrees and purities of the primaries.
    Primaries {
        achromatic_tint_hue: F32,
        achromatic_tint_purity: F32,
        red_hue: F32,
        red_purity: F32,
        green_hue: F32,
        green_purity: F32,
        blue_hue: F32,
        blue_purity: F32,
        space: ColorSpace,
    },
    /// Grey mix weights.
    Monochrome {
        r: F32,
        g: F32,
        b: F32,
    },
    /// Unsharp mask.
    Sharpen {
        radius: F32,
        amount: F32,
        threshold: F32,
        space: ColorSpace,
        scale: F32,
    },
    /// Chroma boost, 0..100.
    Vibrance {
        amount: F32,
        space: ColorSpace,
    },
    /// Basic adjustments.
    Basicadj {
        black_point: F32,
        exposure: F32,
        hlcompr: F32,
        hlcomprthresh: F32,
        contrast: F32,
        preserve_colors: i32,
        middle_grey: F32,
        brightness: F32,
        saturation: F32,
        vibrance: F32,
        space: ColorSpace,
    },
    /// Colour balance.
    ColorBalanceRgb {
        grading: CbRgbParams,
        space: ColorSpace,
    },
    /// RGB curve: anchors and spline type of each channel.
    RgbCurve {
        nodes_r: CurveNodes,
        type_r: i32,
        nodes_g: CurveNodes,
        type_g: i32,
        nodes_b: CurveNodes,
        type_b: i32,
        autoscale: i32,
        preserve_colors: i32,
    },
    /// Base curve; `fusion` is 0, 1 or 2.
    Basecurve {
        nodes: CurveNodes,
        spline: i32,
        preserve_colors: i32,
        fusion: u32,
        stops: F32,
        bias: F32,
        space: ColorSpace,
    },
    /// Shadows and highlights.
    Shadhi {
        shadows: F32,
        highlights: F32,
        whitepoint: F32,
        radius: F32,
        compress: F32,
        shadows_ccorrect: F32,
        highlights_ccorrect: F32,
        scale: F32,
        space: ColorSpace,
    },
    /// Lowpass.
    Lowpass {
        radius: F32,
        contrast: F32,
        brightness: F32,
        saturation: F32,
        scale: F32,
        space: ColorSpace,
    },
    /// Offsets on Lab a and b, and a saturation.
    ColorCorrection {
        loa: F32,
        hia: F32,
        lob: F32,
        hib: F32,
        saturation: F32,
        space: ColorSpace,
    },
    /// Steepness on Lab a and b.
    ColorContrast {
        a_steepness: F32,
        b_steepness: F32,
        space: ColorSpace,
    },
    /// The zone curves; `periodic` when the hue selects.
    ColorZones {
        strength: F32,
        channel: i32,
        mode: i32,
        periodic: bool,
        num_nodes: [F32; 3],
        curve_type: [F32; 3],
        curve_x: [[F32; 8]; 3],
        curve_y: [[F32; 8]; 3],
        space: ColorSpace,
    },
    /// Contrast and skew of the tone map.
    Sigmoid {
        contrast: F32,
        skew: F32,
    },
    /// Filmic display transform.
    FilmicRgb {
        filmic: FilmicParams,
        space: ColorSpace,
    },
    /// Contrast, brightness and saturation.
    Colisa {
        contrast: F32,
        brightness: F32,
        saturation: F32,
        space: ColorSpace,
    },
    /// Tone curve: the anchors of L and the modes.
    ToneCurve {
        nodes: CurveNodes,
        spline: i32,
        autoscale_ab: i32,
        unbound_ab: bool,
        preserve_colors: i32,
        space: ColorSpace,
    },
    /// Black, grey and white points, 0..100.
    Levels {
        black: F32,
        grey: F32,
        white: F32,
        space: ColorSpace,
    },
    /// Strength 0..100 and mid-tones bias.
    Velvia {
        strength: F32,
        bias: F32,
    },
    /// Glow.
    Bloom {
        size: F32,
        threshold: F32,
        strength: F32,
        space: ColorSpace,
    },
    /// The colour, its lightness 0..100 and the source mix 0..100.
    Colorize {
        hue: F32,
        sat: F32,
        lightness: F32,
        lightness_mix: F32,
        space: ColorSpace,
    },
    /// Split toning; compress 0..100.
    Splittoning {
        shadow_hue: F32,
        shadow_sat: F32,
        highlight_hue: F32,
        highlight_sat: F32,
        balance: F32,
        compress: F32,
    },
    /// Blue shift and transition bands.
    Lowlight {
        blueness: F32,
        transition: [F32; 6],
        space: ColorSpace,
    },
    /// Vignetting.
    Vignette {
        scale: F32,
        falloff: F32,
        brightness: F32,
        saturation: F32,
        center_x: F32,
        center_y: F32,
        shape: F32,
    },
}

/// The number one.
pub open spec fn one() -> F32 {
    F32 { bits: ONE }
}

/// The smallest positive normal number.
pub const MIN_POSITIVE: u32 = 0x0080_0000;

/// Middle grey, 0.1845.
pub const GREY_FULCRUM: u32 = 0x3e3ced91;

/// The targets of the filmic transform: 18.45, 0.01517634 and 100.
pub const FILMIC_GREY_TARGET: u32 = 0x4193999a;

pub const FILMIC_BLACK_TARGET: u32 = 0x3c78a62f;

pub const FILMIC_WHITE_TARGET: u32 = 0x42c80000;

/// The default grey and white points of levels: 50 and 100.
pub const LEVELS_GREY: u32 = 0x42480000;

pub const LEVELS_WHITE: u32 = 0x42c80000;

/// An integer control that is stored as a number.
pub open spec fn as_i32(x: F32) -> i32 {
    clamped(x.trunc(), i32::MIN as int, i32::MAX as int) as i32
}

impl Stage {
    /// Which stage this is.
    pub open spec fn kind(self) -> StageKind {
        match self {
            Stage::Invert { .. } => StageKind::Invert,
            Stage::Temperature { .. } => StageKind::Temperature,
            Stage::DenoiseProfile { .. } => StageKind::DenoiseProfile,
            Stage::LensCorrection { .. } => StageKind::LensCorrection,
            Stage::Exposure { .. } => StageKind::Exposure,
            Stage::ToneEqual { .. } => StageKind::ToneEqual,
            Stage::GraduatedNd { .. } => StageKind::GraduatedNd,
            Stage::Negadoctor { .. } => StageKind::Negadoctor,
            Stage::Primaries { .. } => StageKind::Primaries,
            Stage::Monochrome { .. } => StageKind::Monochrome,
            Stage::Sharpen { .. } => StageKind::Sharpen,
            Stage::Vibrance { .. } => StageKind::Vibrance,
            Stage::Basicadj { .. } => StageKind::Basicadj,
            Stage::ColorBalanceRgb { .. } => StageKind::ColorBalanceRgb,
            Stage::RgbCurve { .. } => StageKind::RgbCurve,
            Stage::Basecurve { .. } => StageKind::Basecurve,
            Stage::Shadhi { .. } => StageKind::Shadhi,
            Stage::Lowpass { .. } => StageKind::Lowpass,
            Stage::ColorCorrection { .. } => StageKind::ColorCorrection,
            Stage::ColorContrast { .. } => StageKind::ColorContrast,
            Stage::ColorZones { .. } => StageKind::ColorZones,
            Stage::Sigmoid { .. } => StageKind::Sigmoid,
            Stage::FilmicRgb { .. } => StageKind::FilmicRgb,
            Stage::Colisa { .. } => StageKind::Colisa,
            Stage::ToneCurve { .. } => StageKind::ToneCurve,
            Stage::Levels { .. } => StageKind::Levels,
            Stage::Velvia { .. } => StageKind::Velvia,
            Stage::Bloom { .. } => StageKind::Bloom,
            Stage::Colorize { .. } => StageKind::Colorize,
            Stage::Splittoning { .. } => StageKind::Splittoning,
            Stage::Lowlight { .. } => StageKind::Lowlight,
            Stage::Vignette { .. } => StageKind::Vignette,
        }
    }
}

impl PreviewParams {
    /// Whether the primaries are at their neutral values.
    #[verifier::opaque]
    pub open spec fn primaries_neutral(self) -> bool {
        &&& self.primaries_achromatic_tint_hue.is_num(ZERO)
        &&& self.primaries_achromatic_tint_purity.is_num(ZERO)
        &&& self.primaries_red_hue.is_num(ZERO)
        &&& self.primaries_red_purity.is_num(ONE)
        &&& self.primaries_green_hue.is_num(ZERO)
        &&& self.primaries_green_purity.is_num(ONE)
        &&& self.primaries_blue_hue.is_num(ZERO)
        &&& self.primaries_blue_purity.is_num(ONE)
    }

    /// Whether temperature can change no pixel.
    #[verifier::opaque]
    pub open spec fn temperature_neutral(self) -> bool {
        &&& self.temperature_r.is_num(ONE)
        &&& self.temperature_g.is_num(ONE)
        &&& self.temperature_b.is_num(ONE)
    }

    /// Whether exposure can change no pixel.
    #[verifier::opaque]
    pub open spec fn exposure_neutral(self) -> bool {
        &&& self.ev.is_num(ZERO)
        &&& self.black.is_num(ZERO)
    }

    /// Whether toneeq can change no pixel.
    #[verifier::opaque]
    pub open spec fn toneeq_neutral(self) -> bool {
        &&& self.toneeq_noise.is_num(ZERO)
        &&& self.toneeq_ultra_deep_blacks.is_num(ZERO)
        &&& self.toneeq_deep_blacks.is_num(ZERO)
        &&& self.toneeq_blacks.is_num(ZERO)
        &&& self.toneeq_shadows.is_num(ZERO)
        &&& self.toneeq_midtones.is_num(ZERO)
        &&& self.toneeq_highlights.is_num(ZERO)
        &&& self.toneeq_whites.is_num(ZERO)
        &&& self.toneeq_speculars.is_num(ZERO)
    }

    /// Whether gradnd can change no pixel.
    #[verifier::opaque]
    pub open spec fn gradnd_neutral(self) -> bool {
        &&& self.gradnd_density.is_num(ZERO)
    }

    /// Whether basicadj can change no pixel.
    #[verifier::opaque]
    pub open spec fn basicadj_neutral(self) -> bool {
        &&& self.basicadj_black_point.is_num(ZERO)
        &&& self.basicadj_exposure.is_num(ZERO)
        &&& self.basicadj_hlcompr.is_num(ZERO)
        &&& self.basicadj_contrast.is_num(ZERO)
        &&& self.basicadj_brightness.is_num(ZERO)
        &&& self.basicadj_saturation.is_num(ZERO)
        &&& self.basicadj_vibrance.is_num(ZERO)
    }

    /// Whether shadhi can change no pixel.
    #[verifier::opaque]
    pub open spec fn shadhi_neutral(self) -> bool {
        &&& self.shadhi_shadows.is_num(ZERO)
        &&& self.shadhi_highlights.is_num(ZERO)
        &&& self.shadhi_whitepoint.is_num(ZERO)
    }

    /// Whether lowpass can change no pixel.
    #[verifier::opaque]
    pub open spec fn lowpass_neutral(self) -> bool {
        &&& self.lowpass_contrast.is_num(ONE)
        &&& self.lowpass_brightness.is_num(ZERO)
        &&& self.lowpass_saturation.is_num(ONE)
    }

    /// Whether color correction can change no pixel.
    #[verifier::opaque]
    pub open spec fn color_correction_neutral(self) -> bool {
        &&& self.color_correction_saturation.is_num(ONE)
        &&& self.color_correction_loa.is_num(ZERO)
        &&& self.color_correction_hia.is_num(ZERO)
        &&& self.color_correction_lob.is_num(ZERO)
        &&& self.color_correction_hib.is_num(ZERO)
    }

    /// Whether color contrast can change no pixel.
    #[verifier::opaque]
    pub open spec fn color_contrast_neutral(self) -> bool {
        &&& self.color_contrast_a_steepness.is_num(ONE)
        &&& self.color_contrast_b_steepness.is_num(ONE)
    }

    /// Whether colisa can change no pixel.
    #[verifier::opaque]
    pub open spec fn colisa_neutral(self) -> bool {
        &&& self.colisa_contrast.is_num(ZERO)
        &&& self.colisa_brightness.is_num(ZERO)
        &&& self.colisa_saturation.is_num(ZERO)
    }

    /// Whether vignette can change no pixel.
    #[verifier::opaque]
    pub open spec fn vignette_neutral(self) -> bool {
        &&& self.vignette_brightness.is_num(ZERO)
        &&& self.vignette_saturation.is_num(ZERO)
    }

    /// The colour-balance settings of these parameters.
    pub open spec fn cb_settings(self) -> CbRgbParams {
        CbRgbParams {
            shadows_y: self.cb_shadows_y,
            shadows_c: self.cb_shadows_c,
            shadows_h: self.cb_shadows_h,
            midtones_y: self.cb_midtones_y,
            midtones_c: self.cb_midtones_c,
            midtones_h: self.cb_midtones_h,
            highlights_y: self.cb_highlights_y,
            highlights_c: self.cb_highlights_c,
            highlights_h: self.cb_highlights_h,
            global_y: self.cb_global_y,
            global_c: self.cb_global_c,
            global_h: self.cb_global_h,
            shadows_weight: self.cb_shadows_weight,
            white_fulcrum: self.cb_white_fulcrum,
            highlights_weight: self.cb_highlights_weight,
            chroma_shadows: self.cb_chroma_shadows,
            chroma_highlights: self.cb_chroma_highlights,
            chroma_global: self.cb_chroma_global,
            chroma_midtones: self.cb_chroma_midtones,
            saturation_global: self.cb_saturation_global,
            saturation_highlights: self.cb_saturation_highlights,
            saturation_midtones: self.cb_saturation_midtones,
            saturation_shadows: self.cb_saturation_shadows,
            hue_angle: self.cb_hue_angle,
            brilliance_global: self.cb_brilliance_global,
            brilliance_highlights: self.cb_brilliance_highlights,
            brilliance_midtones: self.cb_brilliance_midtones,
            brilliance_shadows: self.cb_brilliance_shadows,
            mask_grey_fulcrum: self.cb_mask_grey_fulcrum,
            vibrance: self.cb_vibrance,
            grey_fulcrum: self.cb_grey_fulcrum,
            contrast: self.cb_contrast,
            saturation_formula: if self.cb_formula.ltv(F32 { bits: HALF }) {
                SaturationFormula::Jzazbz
            } else {
                SaturationFormula::DtUcs
            },
        }
    }

    /// Whether colour balance is at its neutral values.
    #[verifier::opaque]
    pub open spec fn cb_neutral(self) -> bool {
        &&& self.cb_shadows_y.is_num(ZERO)
        &&& self.cb_shadows_c.is_num(ZERO)
        &&& self.cb_shadows_h.is_num(ZERO)
        &&& self.cb_midtones_y.is_num(ZERO)
        &&& self.cb_midtones_c.is_num(ZERO)
        &&& self.cb_midtones_h.is_num(ZERO)
        &&& self.cb_highlights_y.is_num(ZERO)
        &&& self.cb_highlights_c.is_num(ZERO)
        &&& self.cb_highlights_h.is_num(ZERO)
        &&& self.cb_global_y.is_num(ZERO)
        &&& self.cb_global_c.is_num(ZERO)
        &&& self.cb_global_h.is_num(ZERO)
        &&& self.cb_shadows_weight.is_num(ONE)
        &&& self.cb_white_fulcrum.is_num(ZERO)
        &&& self.cb_highlights_weight.is_num(ONE)
        &&& self.cb_chroma_shadows.is_num(ZERO)
        &&& self.cb_chroma_highlights.is_num(ZERO)
        &&& self.cb_chroma_global.is_num(ZERO)
        &&& self.cb_chroma_midtones.is_num(ZERO)
        &&& self.cb_saturation_global.is_num(ZERO)
        &&& self.cb_saturation_highlights.is_num(ZERO)
        &&& self.cb_saturation_midtones.is_num(ZERO)
        &&& self.cb_saturation_shadows.is_num(ZERO)
        &&& self.cb_hue_angle.is_num(ZERO)
        &&& self.cb_brilliance_global.is_num(ZERO)
        &&& self.cb_brilliance_highlights.is_num(ZERO)
        &&& self.cb_brilliance_midtones.is_num(ZERO)
        &&& self.cb_brilliance_shadows.is_num(ZERO)
        &&& self.cb_mask_grey_fulcrum.is_num(GREY_FULCRUM)
        &&& self.cb_vibrance.is_num(ZERO)
        &&& self.cb_grey_fulcrum.is_num(GREY_FULCRUM)
        &&& self.cb_contrast.is_num(ZERO)
        &&& self.cb_settings().saturation_formula == SaturationFormula::DtUcs
    }

    /// The filmic settings of these parameters.
    pub open spec fn filmic_settings(self) -> FilmicParams {
        FilmicParams {
            black_point_source: self.filmic_black_point_source,
            white_point_source: self.filmic_white_point_source,
            grey_point_target: F32 { bits: FILMIC_GREY_TARGET },
            black_point_target: F32 { bits: FILMIC_BLACK_TARGET },
            white_point_target: F32 { bits: FILMIC_WHITE_TARGET },
            output_power: self.filmic_output_power,
            latitude: self.filmic_latitude,
            contrast: self.filmic_contrast,
            balance: self.filmic_balance,
            saturation: self.filmic_saturation,
            custom_grey: false,
        }
    }

    /// The lens-correction settings with the given gear.
    pub open spec fn lens_settings(self, gear: LensGear) -> LensParams {
        LensParams {
            camera_maker: gear.camera_maker,
            camera_model: gear.camera_model,
            lens: gear.lens_model,
            modify_flags: as_i32(self.lens_modify_flags),
            inverse: self.lens_inverse,
            scale: self.lens_scale,
            crop: gear.crop_factor,
            focal: self.lens_focal,
            aperture: self.lens_aperture,
            distance: self.lens_distance,
            target_geom: as_i32(self.lens_target_geom),
        }
    }

    /// Whether levels change anything: they are on, white lies one unit or more above
    /// black, and the three points are not the default ones.
    #[verifier::opaque]
    pub open spec fn levels_active(self) -> bool {
        &&& self.levels_on
        &&& F32::spans_one(self.levels_black, self.levels_white)
        &&& !(self.levels_black.is_num(ZERO) && self.levels_grey.is_num(LEVELS_GREY)
            && self.levels_white.is_num(LEVELS_WHITE))
    }

    /// Whether a stage belongs in the plan. `gear` says that camera and lens are known,
    /// `lens_stage` that the lens warp has not been applied already.
    #[verifier::opaque]
    pub open spec fn active(self, kind: StageKind, gear: bool, lens_stage: bool) -> bool {
        match kind {
            StageKind::Invert => self.invert_on,
            StageKind::Temperature => self.temperature_on && !self.temperature_neutral(),
            StageKind::DenoiseProfile => self.dn_on,
            StageKind::LensCorrection => lens_stage && self.lens_on && gear,
            StageKind::Exposure => self.exposure_on && !self.exposure_neutral(),
            StageKind::ToneEqual => self.toneeq_on && !self.toneeq_neutral(),
            StageKind::GraduatedNd => self.gradnd_on && !self.gradnd_neutral(),
            StageKind::Negadoctor => self.negadoctor_on,
            StageKind::Primaries => self.primaries_on && !self.primaries_neutral(),
            StageKind::Monochrome => self.mono_on,
            StageKind::Sharpen => self.sharpen_on && self.sharpen_amount.positive() && self.sharpen_radius.positive(),
            StageKind::Vibrance => self.vibrance_on && self.vibrance_amount.positive(),
            StageKind::Basicadj => self.basicadj_on && !self.basicadj_neutral(),
            StageKind::ColorBalanceRgb => self.cb_on && !self.cb_neutral(),
            StageKind::RgbCurve => self.rc_on,
            StageKind::Basecurve => self.bc_on,
            StageKind::Shadhi => self.shadhi_on && !self.shadhi_neutral(),
            StageKind::Lowpass => self.lowpass_on && !self.lowpass_neutral(),
            StageKind::ColorCorrection => self.color_correction_on && !self.color_correction_neutral(),
            StageKind::ColorContrast => self.color_contrast_on && !self.color_contrast_neutral(),
            StageKind::ColorZones => self.colorzones_on,
            StageKind::Sigmoid => self.sigmoid_on,
            StageKind::FilmicRgb => self.filmic_on,
            StageKind::Colisa => self.colisa_on && !self.colisa_neutral(),
            StageKind::ToneCurve => self.tc_on,
            StageKind::Levels => self.levels_active(),
            StageKind::Velvia => self.velvia_on && self.velvia_strength.positive(),
            StageKind::Bloom => self.bl_on,
            StageKind::Colorize => self.colorize_on,
            StageKind::Splittoning => self.split_on,
            StageKind::Lowlight => self.lowlight_on,
            StageKind::Vignette => self.vignette_on && !self.vignette_neutral(),
        }
    }

    /// Whether a module is off or can change no pixel. Lens correction counts as a
    /// change whenever it is on.
    #[verifier::opaque]
    pub open spec fn idle(self, kind: StageKind) -> bool {
        match kind {
            StageKind::Invert => !self.invert_on,
            StageKind::Temperature => !self.temperature_on || self.temperature_neutral(),
            StageKind::DenoiseProfile => !self.dn_on,
            StageKind::LensCorrection => !self.lens_on,
            StageKind::Exposure => !self.exposure_on || self.exposure_neutral(),
            StageKind::ToneEqual => !self.toneeq_on || self.toneeq_neutral(),
            StageKind::GraduatedNd => !self.gradnd_on || self.gradnd_neutral(),
            StageKind::Negadoctor => !self.negadoctor_on,
            StageKind::Primaries => !self.primaries_on || self.primaries_neutral(),
            StageKind::Monochrome => !self.mono_on,
            StageKind::Sharpen => !self.sharpen_on || self.sharpen_amount.not_positive() || self.sharpen_radius.not_positive(),
            StageKind::Vibrance => !self.vibrance_on || self.vibrance_amount.not_positive(),
            StageKind::Basicadj => !self.basicadj_on || self.basicadj_neutral(),
            StageKind::ColorBalanceRgb => !self.cb_on || self.cb_neutral(),
            StageKind::RgbCurve => !self.rc_on,
            StageKind::Basecurve => !self.bc_on,
            StageKind::Shadhi => !self.shadhi_on || self.shadhi_neutral(),
            StageKind::Lowpass => !self.lowpass_on || self.lowpass_neutral(),
            StageKind::ColorCorrection => !self.color_correction_on || self.color_correction_neutral(),
            StageKind::ColorContrast => !self.color_contrast_on || self.color_contrast_neutral(),
            StageKind::ColorZones => !self.colorzones_on,
            StageKind::Sigmoid => !self.sigmoid_on,
            StageKind::FilmicRgb => !self.filmic_on,
            StageKind::Colisa => !self.colisa_on || self.colisa_neutral(),
            StageKind::ToneCurve => !self.tc_on,
            StageKind::Levels => !self.levels_active(),
            StageKind::Velvia => !self.velvia_on || self.velvia_strength.not_positive(),
            StageKind::Bloom => !self.bl_on,
            StageKind::Colorize => !self.colorize_on,
            StageKind::Splittoning => !self.split_on,
            StageKind::Lowlight => !self.lowlight_on,
            StageKind::Vignette => !self.vignette_on || self.vignette_neutral(),
        }
    }

    /// Whether the edit leaves the image as it is.
    pub open spec fn identity(self) -> bool {
        !self.hl_on && forall|kind: StageKind| #[trigger] self.idle(kind)
    }

    /// The base colour of the film: one value for black-and-white stock.
    pub open spec fn film_base(self) -> [F32; 4] {
        if as_i32(self.negadoctor_film_stock) == 0 {
            [self.negadoctor_dmin_r, self.negadoctor_dmin_r, self.negadoctor_dmin_r, one()]
        } else {
            [self.negadoctor_dmin_r, self.negadoctor_dmin_g, self.negadoctor_dmin_b, one()]
        }
    }

    /// The film's largest density, never below the smallest positive normal number.
    pub open spec fn film_density(self) -> F32 {
        if (F32 { bits: MIN_POSITIVE }).ltv(self.negadoctor_d_max) {
            self.negadoctor_d_max
        } else {
            F32 { bits: MIN_POSITIVE }
        }
    }

    /// A stage with the settings that these parameters give it.
    #[verifier::opaque]
    pub open spec fn stage_of(
        self,
        kind: StageKind,
        space: ColorSpace,
        scale: F32,
        gear: Option<LensGear>,
    ) -> Stage {
        match kind {
            StageKind::Invert => Stage::Invert {
                color: [self.invert_r, self.invert_g, self.invert_b, one()],
            },
            StageKind::Temperature => Stage::Temperature {
                coeffs: [self.temperature_r, self.temperature_g, self.temperature_b, one()],
            },
            StageKind::DenoiseProfile => Stage::DenoiseProfile {
                strength: self.dn_strength,
                shadows: self.dn_shadows,
                bias: self.dn_bias,
                mode_y0u0v0: self.dn_mode_y0u0v0,
            },
            StageKind::LensCorrection => Stage::LensCorrection {
                correction: self.lens_settings(gear->0),
            },
            StageKind::Exposure => Stage::Exposure {
                black: self.black,
                ev: self.ev,
            },
            StageKind::ToneEqual => Stage::ToneEqual {
                gains: [
                    self.toneeq_noise,
                    self.toneeq_ultra_deep_blacks,
                    self.toneeq_deep_blacks,
                    self.toneeq_blacks,
                    self.toneeq_shadows,
                    self.toneeq_midtones,
                    self.toneeq_highlights,
                    self.toneeq_whites,
                    self.toneeq_speculars,
                ],
            },
            StageKind::GraduatedNd => Stage::GraduatedNd {
                density: self.gradnd_density,
                hardness: self.gradnd_hardness,
                rotation: self.gradnd_rotation,
                offset: self.gradnd_offset,
                hue: self.gradnd_hue,
                saturation: self.gradnd_saturation,
            },
            StageKind::Negadoctor => Stage::Negadoctor {
                dmin: self.film_base(),
                wb_high: [self.negadoctor_wb_high_r, self.negadoctor_wb_high_g, self.negadoctor_wb_high_b],
                wb_low: [self.negadoctor_wb_low_r, self.negadoctor_wb_low_g, self.negadoctor_wb_low_b],
                d_max: self.film_density(),
                offset: self.negadoctor_offset,
                black: self.negadoctor_black,
                gamma: self.negadoctor_gamma,
                soft_clip: self.negadoctor_soft_clip,
                exposure: self.negadoctor_exposure,
            },
            StageKind::Primaries => Stage::Primaries {
                achromatic_tint_hue: self.primaries_achromatic_tint_hue,
                achromatic_tint_purity: self.primaries_achromatic_tint_purity,
                red_hue: self.primaries_red_hue,
                red_purity: self.primaries_red_purity,
                green_hue: self.primaries_green_hue,
                green_purity: self.primaries_green_purity,
                blue_hue: self.primaries_blue_hue,
                blue_purity: self.primaries_blue_purity,
                space,
            },
            StageKind::Monochrome => Stage::Monochrome {
                r: self.mono_r,
                g: self.mono_g,
                b: self.mono_b,
            },
            StageKind::Sharpen => Stage::Sharpen {
                radius: self.sharpen_radius,
                amount: self.sharpen_amount,
                threshold: self.sharpen_threshold,
                space,
                scale,
            },
            StageKind::Vibrance => Stage::Vibrance {
                amount: self.vibrance_amount,
                space,
            },
            StageKind::Basicadj => Stage::Basicadj {
                black_point: self.basicadj_black_point,
                exposure: self.basicadj_exposure,
                hlcompr: self.basicadj_hlcompr,
                hlcomprthresh: self.basicadj_hlcomprthresh,
                contrast: self.basicadj_contrast,
                preserve_colors: as_i32(self.basicadj_preserve_colors),
                middle_grey: self.basicadj_middle_grey,
                brightness: self.basicadj_brightness,
                saturation: self.basicadj_saturation,
                vibrance: self.basicadj_vibrance,
                space,
            },
            StageKind::ColorBalanceRgb => Stage::ColorBalanceRgb {
                grading: self.cb_settings(),
                space,
            },
            StageKind::RgbCurve => Stage::RgbCurve {
                nodes_r: pinned_curve(self.rc_nnodes_r, self.rc_nodes_r),
                type_r: as_i32(self.rc_type_r),
                nodes_g: pinned_curve(self.rc_nnodes_g, self.rc_nodes_g),
                type_g: as_i32(self.rc_type_g),
                nodes_b: pinned_curve(self.rc_nnodes_b, self.rc_nodes_b),
                type_b: as_i32(self.rc_type_b),
                autoscale: as_i32(self.rc_autoscale),
                preserve_colors: as_i32(self.rc_preserve),
            },
            StageKind::Basecurve => Stage::Basecurve {
                nodes: pinned_curve(self.bc_nnodes, self.bc_nodes),
                spline: as_i32(self.bc_type),
                preserve_colors: as_i32(self.bc_preserve),
                fusion: clamped(self.bc_exposure_fusion.round(), 0, 2) as u32,
                stops: self.bc_exposure_stops,
                bias: self.bc_exposure_bias,
                space,
            },
            StageKind::Shadhi => Stage::Shadhi {
                shadows: self.shadhi_shadows,
                highlights: self.shadhi_highlights,
                whitepoint: self.shadhi_whitepoint,
                radius: self.shadhi_radius,
                compress: self.shadhi_compress,
                shadows_ccorrect: self.shadhi_shadows_ccorrect,
                highlights_ccorrect: self.shadhi_highlights_ccorrect,
                scale,
                space,
            },
            StageKind::Lowpass => Stage::Lowpass {
                radius: self.lowpass_radius,
                contrast: self.lowpass_contrast,
                brightness: self.lowpass_brightness,
                saturation: self.lowpass_saturation,
                scale,
                space,
            },
            StageKind::ColorCorrection => Stage::ColorCorrection {
                loa: self.color_correction_loa,
                hia: self.color_correction_hia,
                lob: self.color_correction_lob,
                hib: self.color_correction_hib,
                saturation: self.color_correction_saturation,
                space,
            },
            StageKind::ColorContrast => Stage::ColorContrast {
                a_steepness: self.color_contrast_a_steepness,
                b_steepness: self.color_contrast_b_steepness,
                space,
            },
            StageKind::ColorZones => Stage::ColorZones {
                strength: self.colorzones_strength,
                channel: as_i32(self.colorzones_channel),
                mode: as_i32(self.colorzones_mode),
                periodic: as_i32(self.colorzones_channel) == 2,
                num_nodes: self.colorzones_num_nodes,
                curve_type: self.colorzones_curve_type,
                curve_x: self.colorzones_curve_x,
                curve_y: self.colorzones_curve_y,
                space,
            },
            StageKind::Sigmoid => Stage::Sigmoid {
                contrast: self.sigmoid_contrast,
                skew: self.sigmoid_skew,
            },
            StageKind::FilmicRgb => Stage::FilmicRgb {
                filmic: self.filmic_settings(),
                space,
            },
            StageKind::Colisa => Stage::Colisa {
                contrast: self.colisa_contrast,
                brightness: self.colisa_brightness,
                saturation: self.colisa_saturation,
                space,
            },
            StageKind::ToneCurve => Stage::ToneCurve {
                nodes: pinned_curve(self.tc_nnodes, self.tc_nodes_l),
                spline: as_i32(self.tc_type),
                autoscale_ab: as_i32(self.tc_autoscale),
                unbound_ab: self.tc_unbound,
                preserve_colors: as_i32(self.tc_preserve),
                space,
            },
            StageKind::Levels => Stage::Levels {
                black: self.levels_black,
                grey: self.levels_grey,
                white: self.levels_white,
                space,
            },
            StageKind::Velvia => Stage::Velvia {
                strength: self.velvia_strength,
                bias: self.velvia_bias,
            },
            StageKind::Bloom => Stage::Bloom {
                size: self.bl_size,
                threshold: self.bl_threshold,
                strength: self.bl_strength,
                space,
            },
            StageKind::Colorize => Stage::Colorize {
                hue: self.colorize_hue,
                sat: self.colorize_sat,
                lightness: self.colorize_lightness,
                lightness_mix: self.colorize_lightness_mix,
                space,
            },
            StageKind::Splittoning => Stage::Splittoning {
                shadow_hue: self.split_shadow_hue,
                shadow_sat: self.split_shadow_sat,
                highlight_hue: self.split_highlight_hue,
                highlight_sat: self.split_highlight_sat,
                balance: self.split_balance,
                compress: self.split_compress,
            },
            StageKind::Lowlight => Stage::Lowlight {
                blueness: self.lowlight_blueness,
                transition: self.lowlight_transition,
                space,
            },
            StageKind::Vignette => Stage::Vignette {
                scale: self.vignette_scale,
                falloff: self.vignette_falloff,
                brightness: self.vignette_brightness,
                saturation: self.vignette_saturation,
                center_x: self.vignette_center_x,
                center_y: self.vignette_center_y,
                shape: self.vignette_shape,
            },
        }
    }

    /// The plan made of the first `n` stages of the order: those that are active, with
    /// their settings.
    pub open spec fn plan_of_first(
        self,
        n: int,
        space: ColorSpace,
        scale: F32,
        gear: Option<LensGear>,
        lens_stage: bool,
    ) -> Seq<Stage>
        decreases n,
    {
        if n <= 0 {
            seq![]
        } else {
            let before = self.plan_of_first(n - 1, space, scale, gear, lens_stage);
            let kind = STAGE_ORDER@[n - 1];
            if self.active(kind, gear is Some, lens_stage) {
                before.push(self.stage_of(kind, space, scale, gear))
            } else {
                before
            }
        }
    }

    /// The whole plan: the active stages in order.
    pub open spec fn plan(
        self,
        space: ColorSpace,
        scale: F32,
        gear: Option<LensGear>,
        lens_stage: bool,
    ) -> Seq<Stage> {
        self.plan_of_first(32, space, scale, gear, lens_stage)
    }
}

impl PreviewParams {
    /// Whether the primaries are at their neutral values: no hue shift, no tint, and
    /// every purity at one.
    pub fn primaries_is_neutral(&self) -> (r: bool)
        ensures
            r == self.primaries_neutral(),
            r <==> self.primaries_achromatic_tint_hue.is_num(ZERO)
                && self.primaries_achromatic_tint_purity.is_num(ZERO)
                && self.primaries_red_hue.is_num(ZERO)
                && self.primaries_red_purity.is_num(ONE)
                && self.primaries_green_hue.is_num(ZERO)
                && self.primaries_green_purity.is_num(ONE)
                && self.primaries_blue_hue.is_num(ZERO)
                && self.primaries_blue_purity.is_num(ONE),
    {
        proof {
            reveal(PreviewParams::primaries_neutral);
        }
        self.primaries_achromatic_tint_hue.equals(ZERO)
            && self.primaries_achromatic_tint_purity.equals(ZERO)
            && self.primaries_red_hue.equals(ZERO)
            && self.primaries_red_purity.equals(ONE)
            && self.primaries_green_hue.equals(ZERO)
            && self.primaries_green_purity.equals(ONE)
            && self.primaries_blue_hue.equals(ZERO)
            && self.primaries_blue_purity.equals(ONE)
    }

    fn is_temperature_neutral(&self) -> (r: bool)
        ensures
            r == self.temperature_neutral(),
            r <==> self.temperature_r.is_num(ONE)
                && self.temperature_g.is_num(ONE)
                && self.temperature_b.is_num(ONE),
    {
        proof {
            reveal(PreviewParams::temperature_neutral);
        }
        self.temperature_r.equals(ONE)
            && self.temperature_g.equals(ONE)
            && self.temperature_b.equals(ONE)
    }

    fn is_exposure_neutral(&self) -> (r: bool)
        ensures
            r == self.exposure_neutral(),
            r <==> self.ev.is_num(ZERO)
                && self.black.is_num(ZERO),
    {
        proof {
            reveal(PreviewParams::exposure_neutral);
        }
        self.ev.equals(ZERO)
            && self.black.equals(ZERO)
    }

    fn is_toneeq_neutral(&self) -> (r: bool)
        ensures
            r == self.toneeq_neutral(),
            r <==> self.toneeq_noise.is_num(ZERO)
                && self.toneeq_ultra_deep_blacks.is_num(ZERO)
                && self.toneeq_deep_blacks.is_num(ZERO)
                && self.toneeq_blacks.is_num(ZERO)
                && self.toneeq_shadows.is_num(ZERO)
                && self.toneeq_midtones.is_num(ZERO)
                && self.toneeq_highlights.is_num(ZERO)
                && self.toneeq_whites.is_num(ZERO)
                && self.toneeq_speculars.is_num(ZERO),
    {
        proof {
            reveal(PreviewParams::toneeq_neutral);
        }
        self.toneeq_noise.equals(ZERO)
            && self.toneeq_ultra_deep_blacks.equals(ZERO)
            && self.toneeq_deep_blacks.equals(ZERO)
            && self.toneeq_blacks.equals(ZERO)
            && self.toneeq_shadows.equals(ZERO)
            && self.toneeq_midtones.equals(ZERO)
            && self.toneeq_highlights.equals(ZERO)
            && self.toneeq_whites.equals(ZERO)
            && self.toneeq_speculars.equals(ZERO)
    }

    fn is_gradnd_neutral(&self) -> (r: bool)
        ensures
            r == self.gradnd_neutral(),
            r <==> self.gradnd_density.is_num(ZERO),
    {
        proof {
            reveal(PreviewParams::gradnd_neutral);
        }
        self.gradnd_density.equals(ZERO)
    }

    fn is_basicadj_neutral(&self) -> (r: bool)
        ensures
            r == self.basicadj_neutral(),
            r <==> self.basicadj_black_point.is_num(ZERO)
                && self.basicadj_exposure.is_num(ZERO)
                && self.basicadj_hlcompr.is_num(ZERO)
                && self.basicadj_contrast.is_num(ZERO)
                && self.basicadj_brightness.is_num(ZERO)
                && self.basicadj_saturation.is_num(ZERO)
                && self.basicadj_vibrance.is_num(ZERO),
    {
        proof {
            reveal(PreviewParams::basicadj_neutral);
        }
        self.basicadj_black_point.equals(ZERO)
            && self.basicadj_exposure.equals(ZERO)
            && self.basicadj_hlcompr.equals(ZERO)
            && self.basicadj_contrast.equals(ZERO)
            && self.basicadj_brightness.equals(ZERO)
            && self.basicadj_saturation.equals(ZERO)
            && self.basicadj_vibrance.equals(ZERO)
    }

    fn is_shadhi_neutral(&self) -> (r: bool)
        ensures
            r == self.shadhi_neutral(),
            r <==> self.shadhi_shadows.is_num(ZERO)
                && self.shadhi_highlights.is_num(ZERO)
                && self.shadhi_whitepoint.is_num(ZERO),
    {
        proof {
            reveal(PreviewParams::shadhi_neutral);
        }
        self.shadhi_shadows.equals(ZERO)
            && self.shadhi_highlights.equals(ZERO)
            && self.shadhi_whitepoint.equals(ZERO)
    }

    fn is_lowpass_neutral(&self) -> (r: bool)
        ensures
            r == self.lowpass_neutral(),
            r <==> self.lowpass_contrast.is_num(ONE)
                && self.lowpass_brightness.is_num(ZERO)
                && self.lowpass_saturation.is_num(ONE),
    {
        proof {
            reveal(PreviewParams::lowpass_neutral);
        }
        self.lowpass_contrast.equals(ONE)
            && self.lowpass_brightness.equals(ZERO)
            && self.lowpass_saturation.equals(ONE)
    }

    fn is_color_correction_neutral(&self) -> (r: bool)
        ensures
            r == self.color_correction_neutral(),
            r <==> self.color_correction_saturation.is_num(ONE)
                && self.color_correction_loa.is_num(ZERO)
                && self.color_correction_hia.is_num(ZERO)
                && self.color_correction_lob.is_num(ZERO)
                && self.color_correction_hib.is_num(ZERO),
    {
        proof {
            reveal(PreviewParams::color_correction_neutral);
        }
        self.color_correction_saturation.equals(ONE)
            && self.color_correction_loa.equals(ZERO)
            && self.color_correction_hia.equals(ZERO)
            && self.color_correction_lob.equals(ZERO)
            && self.color_correction_hib.equals(ZERO)
    }

    fn is_color_contrast_neutral(&self) -> (r: bool)
        ensures
            r == self.color_contrast_neutral(),
            r <==> self.color_contrast_a_steepness.is_num(ONE)
                && self.color_contrast_b_steepness.is_num(ONE),
    {
        proof {
            reveal(PreviewParams::color_contrast_neutral);
        }
        self.color_contrast_a_steepness.equals(ONE)
            && self.color_contrast_b_steepness.equals(ONE)
    }

    fn is_colisa_neutral(&self) -> (r: bool)
        ensures
            r == self.colisa_neutral(),
            r <==> self.colisa_contrast.is_num(ZERO)
                && self.colisa_brightness.is_num(ZERO)
                && self.colisa_saturation.is_num(ZERO),
    {
        proof {
            reveal(PreviewParams::colisa_neutral);
        }
        self.colisa_contrast.equals(ZERO)
            && self.colisa_brightness.equals(ZERO)
            && self.colisa_saturation.equals(ZERO)
    }

    fn is_vignette_neutral(&self) -> (r: bool)
        ensures
            r == self.vignette_neutral(),
            r <==> self.vignette_brightness.is_num(ZERO)
                && self.vignette_saturation.is_num(ZERO),
    {
        proof {
            reveal(PreviewParams::vignette_neutral);
        }
        self.vignette_brightness.equals(ZERO)
            && self.vignette_saturation.equals(ZERO)
    }

    /// The colour-balance settings of these parameters.
    pub fn cb_params(&self) -> (r: CbRgbParams)
        ensures
            r == self.cb_settings(),
            r.shadows_y == self.cb_shadows_y,
            r.shadows_c == self.cb_shadows_c,
            r.shadows_h == self.cb_shadows_h,
            r.midtones_y == self.cb_midtones_y,
            r.midtones_c == self.cb_midtones_c,
            r.midtones_h == self.cb_midtones_h,
            r.highlights_y == self.cb_highlights_y,
            r.highlights_c == self.cb_highlights_c,
            r.highlights_h == self.cb_highlights_h,
            r.global_y == self.cb_global_y,
            r.global_c == self.cb_global_c,
            r.global_h == self.cb_global_h,
            r.shadows_weight == self.cb_shadows_weight,
            r.white_fulcrum == self.cb_white_fulcrum,
            r.highlights_weight == self.cb_highlights_weight,
            r.chroma_shadows == self.cb_chroma_shadows,
            r.chroma_highlights == self.cb_chroma_highlights,
            r.chroma_global == self.cb_chroma_global,
            r.chroma_midtones == self.cb_chroma_midtones,
            r.saturation_global == self.cb_saturation_global,
            r.saturation_highlights == self.cb_saturation_highlights,
            r.saturation_midtones == self.cb_saturation_midtones,
            r.saturation_shadows == self.cb_saturation_shadows,
            r.hue_angle == self.cb_hue_angle,
            r.brilliance_global == self.cb_brilliance_global,
            r.brilliance_highlights == self.cb_brilliance_highlights,
            r.brilliance_midtones == self.cb_brilliance_midtones,
            r.brilliance_shadows == self.cb_brilliance_shadows,
            r.mask_grey_fulcrum == self.cb_mask_grey_fulcrum,
            r.vibrance == self.cb_vibrance,
            r.grey_fulcrum == self.cb_grey_fulcrum,
            r.contrast == self.cb_contrast,
            r.saturation_formula is Jzazbz <==> self.cb_formula.ltv(F32 { bits: HALF }),
    {
        CbRgbParams {
            shadows_y: self.cb_shadows_y,
            shadows_c: self.cb_shadows_c,
            shadows_h: self.cb_shadows_h,
            midtones_y: self.cb_midtones_y,
            midtones_c: self.cb_midtones_c,
            midtones_h: self.cb_midtones_h,
            highlights_y: self.cb_highlights_y,
            highlights_c: self.cb_highlights_c,
            highlights_h: self.cb_highlights_h,
            global_y: self.cb_global_y,
            global_c: self.cb_global_c,
            global_h: self.cb_global_h,
            shadows_weight: self.cb_shadows_weight,
            white_fulcrum: self.cb_white_fulcrum,
            highlights_weight: self.cb_highlights_weight,
            chroma_shadows: self.cb_chroma_shadows,
            chroma_highlights: self.cb_chroma_highlights,
            chroma_global: self.cb_chroma_global,
            chroma_midtones: self.cb_chroma_midtones,
            saturation_global: self.cb_saturation_global,
            saturation_highlights: self.cb_saturation_highlights,
            saturation_midtones: self.cb_saturation_midtones,
            saturation_shadows: self.cb_saturation_shadows,
            hue_angle: self.cb_hue_angle,
            brilliance_global: self.cb_brilliance_global,
            brilliance_highlights: self.cb_brilliance_highlights,
            brilliance_midtones: self.cb_brilliance_midtones,
            brilliance_shadows: self.cb_brilliance_shadows,
            mask_grey_fulcrum: self.cb_mask_grey_fulcrum,
            vibrance: self.cb_vibrance,
            grey_fulcrum: self.cb_grey_fulcrum,
            contrast: self.cb_contrast,
            saturation_formula: if self.cb_formula.num_lt(F32 { bits: HALF }) {
                SaturationFormula::Jzazbz
            } else {
                SaturationFormula::DtUcs
            },
        }
    }

    /// Whether colour balance is the neutral edit: its settings are the default ones.
    pub fn cb_is_neutral(&self) -> (r: bool)
        ensures
            r == self.cb_neutral(),
            r <==> self.cb_shadows_y.is_num(ZERO)
                && self.cb_shadows_c.is_num(ZERO)
                && self.cb_shadows_h.is_num(ZERO)
                && self.cb_midtones_y.is_num(ZERO)
                && self.cb_midtones_c.is_num(ZERO)
                && self.cb_midtones_h.is_num(ZERO)
                && self.cb_highlights_y.is_num(ZERO)
                && self.cb_highlights_c.is_num(ZERO)
                && self.cb_highlights_h.is_num(ZERO)
                && self.cb_global_y.is_num(ZERO)
                && self.cb_global_c.is_num(ZERO)
                && self.cb_global_h.is_num(ZERO)
                && self.cb_shadows_weight.is_num(ONE)
                && self.cb_white_fulcrum.is_num(ZERO)
                && self.cb_highlights_weight.is_num(ONE)
                && self.cb_chroma_shadows.is_num(ZERO)
                && self.cb_chroma_highlights.is_num(ZERO)
                && self.cb_chroma_global.is_num(ZERO)
                && self.cb_chroma_midtones.is_num(ZERO)
                && self.cb_saturation_global.is_num(ZERO)
                && self.cb_saturation_highlights.is_num(ZERO)
                && self.cb_saturation_midtones.is_num(ZERO)
                && self.cb_saturation_shadows.is_num(ZERO)
                && self.cb_hue_angle.is_num(ZERO)
                && self.cb_brilliance_global.is_num(ZERO)
                && self.cb_brilliance_highlights.is_num(ZERO)
                && self.cb_brilliance_midtones.is_num(ZERO)
                && self.cb_brilliance_shadows.is_num(ZERO)
                && self.cb_mask_grey_fulcrum.is_num(GREY_FULCRUM)
                && self.cb_vibrance.is_num(ZERO)
                && self.cb_grey_fulcrum.is_num(GREY_FULCRUM)
                && self.cb_contrast.is_num(ZERO)
                && !self.cb_formula.ltv(F32 { bits: HALF }),
    {
        proof {
            reveal(PreviewParams::cb_neutral);
        }
        let p = self.cb_params();
        p.shadows_y.equals(ZERO)
            && p.shadows_c.equals(ZERO)
            && p.shadows_h.equals(ZERO)
            && p.midtones_y.equals(ZERO)
            && p.midtones_c.equals(ZERO)
            && p.midtones_h.equals(ZERO)
            && p.highlights_y.equals(ZERO)
            && p.highlights_c.equals(ZERO)
            && p.highlights_h.equals(ZERO)
            && p.global_y.equals(ZERO)
            && p.global_c.equals(ZERO)
            && p.global_h.equals(ZERO)
            && p.shadows_weight.equals(ONE)
            && p.white_fulcrum.equals(ZERO)
            && p.highlights_weight.equals(ONE)
            && p.chroma_shadows.equals(ZERO)
            && p.chroma_highlights.equals(ZERO)
            && p.chroma_global.equals(ZERO)
            && p.chroma_midtones.equals(ZERO)
            && p.saturation_global.equals(ZERO)
            && p.saturation_highlights.equals(ZERO)
            && p.saturation_midtones.equals(ZERO)
            && p.saturation_shadows.equals(ZERO)
            && p.hue_angle.equals(ZERO)
            && p.brilliance_global.equals(ZERO)
            && p.brilliance_highlights.equals(ZERO)
            && p.brilliance_midtones.equals(ZERO)
            && p.brilliance_shadows.equals(ZERO)
            && p.mask_grey_fulcrum.equals(GREY_FULCRUM)
            && p.vibrance.equals(ZERO)
            && p.grey_fulcrum.equals(GREY_FULCRUM)
            && p.contrast.equals(ZERO)
            && p.saturation_formula == SaturationFormula::DtUcs
    }

    /// The filmic settings of these parameters.
    pub fn filmic_params(&self) -> (r: FilmicParams)
        ensures
            r == self.filmic_settings(),
            r.black_point_source == self.filmic_black_point_source,
            r.white_point_source == self.filmic_white_point_source,
            r.grey_point_target.bits == FILMIC_GREY_TARGET,
            r.black_point_target.bits == FILMIC_BLACK_TARGET,
            r.white_point_target.bits == FILMIC_WHITE_TARGET,
            r.output_power == self.filmic_output_power,
            r.latitude == self.filmic_latitude,
            r.contrast == self.filmic_contrast,
            r.balance == self.filmic_balance,
            r.saturation == self.filmic_saturation,
            !r.custom_grey,
    {
        FilmicParams {
            black_point_source: self.filmic_black_point_source,
            white_point_source: self.filmic_white_point_source,
            grey_point_target: F32 { bits: FILMIC_GREY_TARGET },
            black_point_target: F32 { bits: FILMIC_BLACK_TARGET },
            white_point_target: F32 { bits: FILMIC_WHITE_TARGET },
            output_power: self.filmic_output_power,
            latitude: self.filmic_latitude,
            contrast: self.filmic_contrast,
            balance: self.filmic_balance,
            saturation: self.filmic_saturation,
            custom_grey: false,
        }
    }

    /// The lens-correction settings with the given gear: names and crop factor come from
    /// the gear, the rest from the sliders.
    pub fn lens_params(&self, gear: &LensGear) -> (r: LensParams)
        ensures
            r == self.lens_settings(*gear),
            r.camera_maker == gear.camera_maker,
            r.camera_model == gear.camera_model,
            r.lens == gear.lens_model,
            r.modify_flags == as_i32(self.lens_modify_flags),
            r.inverse == self.lens_inverse,
            r.scale == self.lens_scale,
            r.crop == gear.crop_factor,
            r.focal == self.lens_focal,
            r.aperture == self.lens_aperture,
            r.distance == self.lens_distance,
            r.target_geom == as_i32(self.lens_target_geom),
    {
        LensParams {
            camera_maker: gear.camera_maker.clone(),
            camera_model: gear.camera_model.clone(),
            lens: gear.lens_model.clone(),
            modify_flags: self.lens_modify_flags.to_i32(),
            inverse: self.lens_inverse,
            scale: self.lens_scale,
            crop: gear.crop_factor,
            focal: self.lens_focal,
            aperture: self.lens_aperture,
            distance: self.lens_distance,
            target_geom: self.lens_target_geom.to_i32(),
        }
    }

    /// The options of highlight reconstruction; none while it is off.
    pub fn hl_opts(&self) -> (r: Option<HlOpts>)
        ensures
            r == if self.hl_on {
                Some(
                    (HlOpts {
                        mode: if self.hl_opposed {
                            HlMode::Opposed
                        } else {
                            HlMode::Clip
                        },
                        clip: self.hl_clip,
                    }),
                )
            } else {
                None
            },
    {
        if !self.hl_on {
            return None;
        }
        let mode = if self.hl_opposed {
            HlMode::Opposed
        } else {
            HlMode::Clip
        };
        Some(HlOpts { mode, clip: self.hl_clip })
    }

    /// Whether levels will be planned.
    pub fn levels_stage_active(&self) -> (r: bool)
        ensures
            r == self.levels_active(),
            r <==> self.levels_on && !self.levels_black.nan() && !self.levels_white.nan()
                && self.levels_white.units() - self.levels_black.units() >= pow2(149) - pow2(124)
                && !(self.levels_black.is_num(ZERO) && self.levels_grey.is_num(LEVELS_GREY)
                && self.levels_white.is_num(LEVELS_WHITE)),
    {
        proof {
            reveal(PreviewParams::levels_active);
            reveal(F32::spans_one);
        }
        self.levels_on && F32::reaches_one(self.levels_black, self.levels_white) && !(
        self.levels_black.equals(ZERO) && self.levels_grey.equals(LEVELS_GREY)
            && self.levels_white.equals(LEVELS_WHITE))
    }

    fn film_base_colour(&self) -> (r: [F32; 4])
        ensures
            r == self.film_base(),
    {
        let alpha = F32 { bits: ONE };
        if self.negadoctor_film_stock.to_i32() == 0 {
            [self.negadoctor_dmin_r, self.negadoctor_dmin_r, self.negadoctor_dmin_r, alpha]
        } else {
            [self.negadoctor_dmin_r, self.negadoctor_dmin_g, self.negadoctor_dmin_b, alpha]
        }
    }

    fn film_max_density(&self) -> (r: F32)
        ensures
            r == self.film_density(),
    {
        let floor = F32 { bits: MIN_POSITIVE };
        if floor.num_lt(self.negadoctor_d_max) {
            self.negadoctor_d_max
        } else {
            floor
        }
    }

    /// Whether a stage belongs in the plan.
    pub fn stage_active(&self, kind: StageKind, gear: bool, lens_stage: bool) -> (r: bool)
        ensures
            r == self.active(kind, gear, lens_stage),
    {
        proof {
            reveal(PreviewParams::active);
        }
        match kind {
            StageKind::Invert => {
                return self.invert_on;
            },
            StageKind::Temperature => {
                return self.temperature_on && !self.is_temperature_neutral();
            },
            StageKind::DenoiseProfile => {
                return self.dn_on;
            },
            StageKind::LensCorrection => {
                return lens_stage && self.lens_on && gear;
            },
            StageKind::Exposure => {
                return self.exposure_on && !self.is_exposure_neutral();
            },
            StageKind::ToneEqual => {
                return self.toneeq_on && !self.is_toneeq_neutral();
            },
            StageKind::GraduatedNd => {
                return self.gradnd_on && !self.is_gradnd_neutral();
            },
            StageKind::Negadoctor => {
                return self.negadoctor_on;
            },
            StageKind::Primaries => {
                return self.primaries_on && !self.primaries_is_neutral();
            },
            StageKind::Monochrome => {
                return self.mono_on;
            },
            StageKind::Sharpen => {
                return self.sharpen_on && self.sharpen_amount.is_positive() && self.sharpen_radius.is_positive();
            },
            StageKind::Vibrance => {
                return self.vibrance_on && self.vibrance_amount.is_positive();
            },
            StageKind::Basicadj => {
                return self.basicadj_on && !self.is_basicadj_neutral();
            },
            StageKind::ColorBalanceRgb => {
                return self.cb_on && !self.cb_is_neutral();
            },
            StageKind::RgbCurve => {
                return self.rc_on;
            },
            StageKind::Basecurve => {
                return self.bc_on;
            },
            StageKind::Shadhi => {
                return self.shadhi_on && !self.is_shadhi_neutral();
            },
            StageKind::Lowpass => {
                return self.lowpass_on && !self.is_lowpass_neutral();
            },
            StageKind::ColorCorrection => {
                return self.color_correction_on && !self.is_color_correction_neutral();
            },
            StageKind::ColorContrast => {
                return self.color_contrast_on && !self.is_color_contrast_neutral();
            },
            StageKind::ColorZones => {
                return self.colorzones_on;
            },
            StageKind::Sigmoid => {
                return self.sigmoid_on;
            },
            StageKind::FilmicRgb => {
                return self.filmic_on;
            },
            StageKind::Colisa => {
                return self.colisa_on && !self.is_colisa_neutral();
            },
            StageKind::ToneCurve => {
                return self.tc_on;
            },
            StageKind::Levels => {
                return self.levels_stage_active();
            },
            StageKind::Velvia => {
                return self.velvia_on && self.velvia_strength.is_positive();
            },
            StageKind::Bloom => {
                return self.bl_on;
            },
            StageKind::Colorize => {
                return self.colorize_on;
            },
            StageKind::Splittoning => {
                return self.split_on;
            },
            StageKind::Lowlight => {
                return self.lowlight_on;
            },
            StageKind::Vignette => {
                return self.vignette_on && !self.is_vignette_neutral();
            },
        }
    }

    /// Whether a module is off or can change no pixel.
    pub fn module_idle(&self, kind: StageKind) -> (r: bool)
        ensures
            r == self.idle(kind),
    {
        proof {
            reveal(PreviewParams::idle);
        }
        match kind {
            StageKind::Invert => {
                return !self.invert_on;
            },
            StageKind::Temperature => {
                return !self.temperature_on || self.is_temperature_neutral();
            },
            StageKind::DenoiseProfile => {
                return !self.dn_on;
            },
            StageKind::LensCorrection => {
                return !self.lens_on;
            },
            StageKind::Exposure => {
                return !self.exposure_on || self.is_exposure_neutral();
            },
            StageKind::ToneEqual => {
                return !self.toneeq_on || self.is_toneeq_neutral();
            },
            StageKind::GraduatedNd => {
                return !self.gradnd_on || self.is_gradnd_neutral();
            },
            StageKind::Negadoctor => {
                return !self.negadoctor_on;
            },
            StageKind::Primaries => {
                return !self.primaries_on || self.primaries_is_neutral();
            },
            StageKind::Monochrome => {
                return !self.mono_on;
            },
            StageKind::Sharpen => {
                return !self.sharpen_on || self.sharpen_amount.is_not_positive() || self.sharpen_radius.is_not_positive();
            },
            StageKind::Vibrance => {
                return !self.vibrance_on || self.vibrance_amount.is_not_positive();
            },
            StageKind::Basicadj => {
                return !self.basicadj_on || self.is_basicadj_neutral();
            },
            StageKind::ColorBalanceRgb => {
                return !self.cb_on || self.cb_is_neutral();
            },
            StageKind::RgbCurve => {
                return !self.rc_on;
            },
            StageKind::Basecurve => {
                return !self.bc_on;
            },
            StageKind::Shadhi => {
                return !self.shadhi_on || self.is_shadhi_neutral();
            },
            StageKind::Lowpass => {
                return !self.lowpass_on || self.is_lowpass_neutral();
            },
            StageKind::ColorCorrection => {
                return !self.color_correction_on || self.is_color_correction_neutral();
            },
            StageKind::ColorContrast => {
                return !self.color_contrast_on || self.is_color_contrast_neutral();
            },
            StageKind::ColorZones => {
                return !self.colorzones_on;
            },
            StageKind::Sigmoid => {
                return !self.sigmoid_on;
            },
            StageKind::FilmicRgb => {
                return !self.filmic_on;
            },
            StageKind::Colisa => {
                return !self.colisa_on || self.is_colisa_neutral();
            },
            StageKind::ToneCurve => {
                return !self.tc_on;
            },
            StageKind::Levels => {
                return !self.levels_stage_active();
            },
            StageKind::Velvia => {
                return !self.velvia_on || self.velvia_strength.is_not_positive();
            },
            StageKind::Bloom => {
                return !self.bl_on;
            },
            StageKind::Colorize => {
                return !self.colorize_on;
            },
            StageKind::Splittoning => {
                return !self.split_on;
            },
            StageKind::Lowlight => {
                return !self.lowlight_on;
            },
            StageKind::Vignette => {
                return !self.vignette_on || self.is_vignette_neutral();
            },
        }
    }

    /// Whether the edit leaves the image as it is, so that processing can be skipped.
    pub fn is_identity(&self) -> (r: bool)
        ensures
            r == self.identity(),
    {
        if self.hl_on {
            return false;
        }
        let order = STAGE_ORDER;
        let mut i: usize = 0;
        while i < 32
            invariant
                i <= 32,
                order == STAGE_ORDER,
                !self.hl_on,
                forall|j: int| 0 <= j < i ==> self.idle(#[trigger] STAGE_ORDER@[j]),
            decreases 32 - i,
        {
            if !self.module_idle(order[i]) {
                return false;
            }
            i = i + 1;
        }
        assert forall|kind: StageKind| #[trigger] self.idle(kind) by {
            law_stage_order_is_complete(kind);
            assert(self.idle(STAGE_ORDER@[rank(kind)]));
        }
        true
    }

    /// A stage with the settings that these parameters give it.
    fn stage(
        &self,
        kind: StageKind,
        space: ColorSpace,
        scale: F32,
        gear: &Option<LensGear>,
    ) -> (r: Stage)
        requires
            kind == StageKind::LensCorrection ==> gear is Some,
        ensures
            r == self.stage_of(kind, space, scale, *gear),
    {
        proof {
            reveal(PreviewParams::stage_of);
        }
        match kind {
            StageKind::Invert => Stage::Invert {
                color: [self.invert_r, self.invert_g, self.invert_b, F32 { bits: ONE }],
            },
            StageKind::Temperature => Stage::Temperature {
                coeffs: [self.temperature_r, self.temperature_g, self.temperature_b, F32 { bits: ONE }],
            },
            StageKind::DenoiseProfile => Stage::DenoiseProfile {
                strength: self.dn_strength,
                shadows: self.dn_shadows,
                bias: self.dn_bias,
                mode_y0u0v0: self.dn_mode_y0u0v0,
            },
            StageKind::LensCorrection => Stage::LensCorrection {
                correction: self.lens_params(gear.as_ref().unwrap()),
            },
            StageKind::Exposure => Stage::Exposure {
                black: self.black,
                ev: self.ev,
            },
            StageKind::ToneEqual => Stage::ToneEqual {
                gains: [
                    self.toneeq_noise,
                    self.toneeq_ultra_deep_blacks,
                    self.toneeq_deep_blacks,
                    self.toneeq_blacks,
                    self.toneeq_shadows,
                    self.toneeq_midtones,
                    self.toneeq_highlights,
                    self.toneeq_whites,
                    self.toneeq_speculars,
                ],
            },
            StageKind::GraduatedNd => Stage::GraduatedNd {
                density: self.gradnd_density,
                hardness: self.gradnd_hardness,
                rotation: self.gradnd_rotation,
                offset: self.gradnd_offset,
                hue: self.gradnd_hue,
                saturation: self.gradnd_saturation,
            },
            StageKind::Negadoctor => Stage::Negadoctor {
                dmin: self.film_base_colour(),
                wb_high: [self.negadoctor_wb_high_r, self.negadoctor_wb_high_g, self.negadoctor_wb_high_b],
                wb_low: [self.negadoctor_wb_low_r, self.negadoctor_wb_low_g, self.negadoctor_wb_low_b],
                d_max: self.film_max_density(),
                offset: self.negadoctor_offset,
                black: self.negadoctor_black,
                gamma: self.negadoctor_gamma,
                soft_clip: self.negadoctor_soft_clip,
                exposure: self.negadoctor_exposure,
            },
            StageKind::Primaries => Stage::Primaries {
                achromatic_tint_hue: self.primaries_achromatic_tint_hue,
                achromatic_tint_purity: self.primaries_achromatic_tint_purity,
                red_hue: self.primaries_red_hue,
                red_purity: self.primaries_red_purity,
                green_hue: self.primaries_green_hue,
                green_purity: self.primaries_green_purity,
                blue_hue: self.primaries_blue_hue,
                blue_purity: self.primaries_blue_purity,
                space,
            },
            StageKind::Monochrome => Stage::Monochrome {
                r: self.mono_r,
                g: self.mono_g,
                b: self.mono_b,
            },
            StageKind::Sharpen => Stage::Sharpen {
                radius: self.sharpen_radius,
                amount: self.sharpen_amount,
                threshold: self.sharpen_threshold,
                space,
                scale,
            },
            StageKind::Vibrance => Stage::Vibrance {
                amount: self.vibrance_amount,
                space,
            },
            StageKind::Basicadj => Stage::Basicadj {
                black_point: self.basicadj_black_point,
                exposure: self.basicadj_exposure,
                hlcompr: self.basicadj_hlcompr,
                hlcomprthresh: self.basicadj_hlcomprthresh,
                contrast: self.basicadj_contrast,
                preserve_colors: self.basicadj_preserve_colors.to_i32(),
                middle_grey: self.basicadj_middle_grey,
                brightness: self.basicadj_brightness,
                saturation: self.basicadj_saturation,
                vibrance: self.basicadj_vibrance,
                space,
            },
            StageKind::ColorBalanceRgb => Stage::ColorBalanceRgb {
                grading: self.cb_params(),
                space,
            },
            StageKind::RgbCurve => Stage::RgbCurve {
                nodes_r: pin_curve(self.rc_nnodes_r, self.rc_nodes_r),
                type_r: self.rc_type_r.to_i32(),
                nodes_g: pin_curve(self.rc_nnodes_g, self.rc_nodes_g),
                type_g: self.rc_type_g.to_i32(),
                nodes_b: pin_curve(self.rc_nnodes_b, self.rc_nodes_b),
                type_b: self.rc_type_b.to_i32(),
                autoscale: self.rc_autoscale.to_i32(),
                preserve_colors: self.rc_preserve.to_i32(),
            },
            StageKind::Basecurve => Stage::Basecurve {
                nodes: pin_curve(self.bc_nnodes, self.bc_nodes),
                spline: self.bc_type.to_i32(),
                preserve_colors: self.bc_preserve.to_i32(),
                fusion: self.bc_exposure_fusion.round_clamped(0, 2),
                stops: self.bc_exposure_stops,
                bias: self.bc_exposure_bias,
                space,
            },
            StageKind::Shadhi => Stage::Shadhi {
                shadows: self.shadhi_shadows,
                highlights: self.shadhi_highlights,
                whitepoint: self.shadhi_whitepoint,
                radius: self.shadhi_radius,
                compress: self.shadhi_compress,
                shadows_ccorrect: self.shadhi_shadows_ccorrect,
                highlights_ccorrect: self.shadhi_highlights_ccorrect,
                scale,
                space,
            },
            StageKind::Lowpass => Stage::Lowpass {
                radius: self.lowpass_radius,
                contrast: self.lowpass_contrast,
                brightness: self.lowpass_brightness,
                saturation: self.lowpass_saturation,
                scale,
                space,
            },
            StageKind::ColorCorrection => Stage::ColorCorrection {
                loa: self.color_correction_loa,
                hia: self.color_correction_hia,
                lob: self.color_correction_lob,
                hib: self.color_correction_hib,
                saturation: self.color_correction_saturation,
                space,
            },
            StageKind::ColorContrast => Stage::ColorContrast {
                a_steepness: self.color_contrast_a_steepness,
                b_steepness: self.color_contrast_b_steepness,
                space,
            },
            StageKind::ColorZones => Stage::ColorZones {
                strength: self.colorzones_strength,
                channel: self.colorzones_channel.to_i32(),
                mode: self.colorzones_mode.to_i32(),
                periodic: self.colorzones_channel.to_i32() == 2,
                num_nodes: self.colorzones_num_nodes,
                curve_type: self.colorzones_curve_type,
                curve_x: self.colorzones_curve_x,
                curve_y: self.colorzones_curve_y,
                space,
            },
            StageKind::Sigmoid => Stage::Sigmoid {
                contrast: self.sigmoid_contrast,
                skew: self.sigmoid_skew,
            },
            StageKind::FilmicRgb => Stage::FilmicRgb {
                filmic: self.filmic_params(),
                space,
            },
            StageKind::Colisa => Stage::Colisa {
                contrast: self.colisa_contrast,
                brightness: self.colisa_brightness,
                saturation: self.colisa_saturation,
                space,
            },
            StageKind::ToneCurve => Stage::ToneCurve {
                nodes: pin_curve(self.tc_nnodes, self.tc_nodes_l),
                spline: self.tc_type.to_i32(),
                autoscale_ab: self.tc_autoscale.to_i32(),
                unbound_ab: self.tc_unbound,
                preserve_colors: self.tc_preserve.to_i32(),
                space,
            },
            StageKind::Levels => Stage::Levels {
                black: self.levels_black,
                grey: self.levels_grey,
                white: self.levels_white,
                space,
            },
            StageKind::Velvia => Stage::Velvia {
                strength: self.velvia_strength,
                bias: self.velvia_bias,
            },
            StageKind::Bloom => Stage::Bloom {
                size: self.bl_size,
                threshold: self.bl_threshold,
                strength: self.bl_strength,
                space,
            },
            StageKind::Colorize => Stage::Colorize {
                hue: self.colorize_hue,
                sat: self.colorize_sat,
                lightness: self.colorize_lightness,
                lightness_mix: self.colorize_lightness_mix,
                space,
            },
            StageKind::Splittoning => Stage::Splittoning {
                shadow_hue: self.split_shadow_hue,
                shadow_sat: self.split_shadow_sat,
                highlight_hue: self.split_highlight_hue,
                highlight_sat: self.split_highlight_sat,
                balance: self.split_balance,
                compress: self.split_compress,
            },
            StageKind::Lowlight => Stage::Lowlight {
                blueness: self.lowlight_blueness,
                transition: self.lowlight_transition,
                space,
            },
            StageKind::Vignette => Stage::Vignette {
                scale: self.vignette_scale,
                falloff: self.vignette_falloff,
                brightness: self.vignette_brightness,
                saturation: self.vignette_saturation,
                center_x: self.vignette_center_x,
                center_y: self.vignette_center_y,
                shape: self.vignette_shape,
            },
        }
    }

    /// The plan for a source that has no lens gear.
    pub fn to_pipeline(&self, space: ColorSpace, scale: F32) -> (r: Vec<Stage>)
        ensures
            r@ == self.plan(space, scale, None, true),
            forall|i: int|
                0 <= i < r@.len() ==> match #[trigger] r@[i] {
                    Stage::Invert { color } => {
                        &&& color@[0] == self.invert_r
                        &&& color@[1] == self.invert_g
                        &&& color@[2] == self.invert_b
                        &&& color@[3] == (F32 { bits: ONE })
                    },
                    Stage::Temperature { coeffs } => {
                        &&& coeffs@[0] == self.temperature_r
                        &&& coeffs@[1] == self.temperature_g
                        &&& coeffs@[2] == self.temperature_b
                        &&& coeffs@[3] == (F32 { bits: ONE })
                    },
                    Stage::DenoiseProfile { strength, shadows, bias, mode_y0u0v0 } => {
                        &&& strength == self.dn_strength
                        &&& shadows == self.dn_shadows
                        &&& bias == self.dn_bias
                        &&& mode_y0u0v0 == self.dn_mode_y0u0v0
                    },
                    Stage::LensCorrection { .. } => false,
                    Stage::Exposure { black, ev } => {
                        &&& black == self.black
                        &&& ev == self.ev
                    },
                    Stage::ToneEqual { gains } => {
                        &&& gains@[0] == self.toneeq_noise
                        &&& gains@[1] == self.toneeq_ultra_deep_blacks
                        &&& gains@[2] == self.toneeq_deep_blacks
                        &&& gains@[3] == self.toneeq_blacks
                        &&& gains@[4] == self.toneeq_shadows
                        &&& gains@[5] == self.toneeq_midtones
                        &&& gains@[6] == self.toneeq_highlights
                        &&& gains@[7] == self.toneeq_whites
                        &&& gains@[8] == self.toneeq_speculars
                    },
                    Stage::GraduatedNd { density, hardness, rotation, offset, hue, saturation } => {
                        &&& density == self.gradnd_density
                        &&& hardness == self.gradnd_hardness
                        &&& rotation == self.gradnd_rotation
                        &&& offset == self.gradnd_offset
                        &&& hue == self.gradnd_hue
                        &&& saturation == self.gradnd_saturation
                    },
                    Stage::Negadoctor { dmin, wb_high, wb_low, d_max, offset, black, gamma, soft_clip, exposure } => {
                        &&& dmin@[0] == self.negadoctor_dmin_r
                        &&& dmin@[1] == if as_i32(self.negadoctor_film_stock) == 0 { self.negadoctor_dmin_r } else { self.negadoctor_dmin_g }
                        &&& dmin@[2] == if as_i32(self.negadoctor_film_stock) == 0 { self.negadoctor_dmin_r } else { self.negadoctor_dmin_b }
                        &&& dmin@[3] == (F32 { bits: ONE })
                        &&& wb_high@[0] == self.negadoctor_wb_high_r
                        &&& wb_high@[1] == self.negadoctor_wb_high_g
                        &&& wb_high@[2] == self.negadoctor_wb_high_b
                        &&& wb_low@[0] == self.negadoctor_wb_low_r
                        &&& wb_low@[1] == self.negadoctor_wb_low_g
                        &&& wb_low@[2] == self.negadoctor_wb_low_b
                        &&& ((F32 { bits: MIN_POSITIVE }).ltv(self.negadoctor_d_max) ==> d_max == self.negadoctor_d_max)
                        &&& (!(F32 { bits: MIN_POSITIVE }).ltv(self.negadoctor_d_max) ==> d_max.bits == MIN_POSITIVE)
                        &&& offset == self.negadoctor_offset
                        &&& black == self.negadoctor_black
                        &&& gamma == self.negadoctor_gamma
                        &&& soft_clip == self.negadoctor_soft_clip
                        &&& exposure == self.negadoctor_exposure
                    },
                    Stage::Primaries { achromatic_tint_hue, achromatic_tint_purity, red_hue, red_purity, green_hue, green_purity, blue_hue, blue_purity, space: sp } => {
                        &&& achromatic_tint_hue == self.primaries_achromatic_tint_hue
                        &&& achromatic_tint_purity == self.primaries_achromatic_tint_purity
                        &&& red_hue == self.primaries_red_hue
                        &&& red_purity == self.primaries_red_purity
                        &&& green_hue == self.primaries_green_hue
                        &&& green_purity == self.primaries_green_purity
                        &&& blue_hue == self.primaries_blue_hue
                        &&& blue_purity == self.primaries_blue_purity
                        &&& sp == space
                    },
                    Stage::Monochrome { r, g, b } => {
                        &&& r == self.mono_r
                        &&& g == self.mono_g
                        &&& b == self.mono_b
                    },
                    Stage::Sharpen { radius, amount, threshold, space: sp, scale: sc } => {
                        &&& radius == self.sharpen_radius
                        &&& amount == self.sharpen_amount
                        &&& threshold == self.sharpen_threshold
                        &&& sp == space
                        &&& sc == scale
                    },
                    Stage::Vibrance { amount, space: sp } => {
                        &&& amount == self.vibrance_amount
                        &&& sp == space
                    },
                    Stage::Basicadj { black_point, exposure, hlcompr, hlcomprthresh, contrast, preserve_colors, middle_grey, brightness, saturation, vibrance, space: sp } => {
                        &&& black_point == self.basicadj_black_point
                        &&& exposure == self.basicadj_exposure
                        &&& hlcompr == self.basicadj_hlcompr
                        &&& hlcomprthresh == self.basicadj_hlcomprthresh
                        &&& contrast == self.basicadj_contrast
                        &&& preserve_colors == as_i32(self.basicadj_preserve_colors)
                        &&& middle_grey == self.basicadj_middle_grey
                        &&& brightness == self.basicadj_brightness
                        &&& saturation == self.basicadj_saturation
                        &&& vibrance == self.basicadj_vibrance
                        &&& sp == space
                    },
                    Stage::ColorBalanceRgb { grading, space: sp } => {
                        &&& grading.shadows_y == self.cb_shadows_y
                        &&& grading.shadows_c == self.cb_shadows_c
                        &&& grading.shadows_h == self.cb_shadows_h
                        &&& grading.midtones_y == self.cb_midtones_y
                        &&& grading.midtones_c == self.cb_midtones_c
                        &&& grading.midtones_h == self.cb_midtones_h
                        &&& grading.highlights_y == self.cb_highlights_y
                        &&& grading.highlights_c == self.cb_highlights_c
                        &&& grading.highlights_h == self.cb_highlights_h
                        &&& grading.global_y == self.cb_global_y
                        &&& grading.global_c == self.cb_global_c
                        &&& grading.global_h == self.cb_global_h
                        &&& grading.shadows_weight == self.cb_shadows_weight
                        &&& grading.white_fulcrum == self.cb_white_fulcrum
                        &&& grading.highlights_weight == self.cb_highlights_weight
                        &&& grading.chroma_shadows == self.cb_chroma_shadows
                        &&& grading.chroma_highlights == self.cb_chroma_highlights
                        &&& grading.chroma_global == self.cb_chroma_global
                        &&& grading.chroma_midtones == self.cb_chroma_midtones
                        &&& grading.saturation_global == self.cb_saturation_global
                        &&& grading.saturation_highlights == self.cb_saturation_highlights
                        &&& grading.saturation_midtones == self.cb_saturation_midtones
                        &&& grading.saturation_shadows == self.cb_saturation_shadows
                        &&& grading.hue_angle == self.cb_hue_angle
                        &&& grading.brilliance_global == self.cb_brilliance_global
                        &&& grading.brilliance_highlights == self.cb_brilliance_highlights
                        &&& grading.brilliance_midtones == self.cb_brilliance_midtones
                        &&& grading.brilliance_shadows == self.cb_brilliance_shadows
                        &&& grading.mask_grey_fulcrum == self.cb_mask_grey_fulcrum
                        &&& grading.vibrance == self.cb_vibrance
                        &&& grading.grey_fulcrum == self.cb_grey_fulcrum
                        &&& grading.contrast == self.cb_contrast
                        &&& (grading.saturation_formula is Jzazbz <==> self.cb_formula.ltv(F32 { bits: HALF }))
                        &&& sp == space
                    },
                    Stage::RgbCurve { nodes_r, type_r, nodes_g, type_g, nodes_b, type_b, autoscale, preserve_colors } => {
                        &&& nodes_r == pinned_curve(self.rc_nnodes_r, self.rc_nodes_r)
                        &&& type_r == as_i32(self.rc_type_r)
                        &&& nodes_g == pinned_curve(self.rc_nnodes_g, self.rc_nodes_g)
                        &&& type_g == as_i32(self.rc_type_g)
                        &&& nodes_b == pinned_curve(self.rc_nnodes_b, self.rc_nodes_b)
                        &&& type_b == as_i32(self.rc_type_b)
                        &&& autoscale == as_i32(self.rc_autoscale)
                        &&& preserve_colors == as_i32(self.rc_preserve)
                    },
                    Stage::Basecurve { nodes, spline, preserve_colors, fusion, stops, bias, space: sp } => {
                        &&& nodes == pinned_curve(self.bc_nnodes, self.bc_nodes)
                        &&& spline == as_i32(self.bc_type)
                        &&& preserve_colors == as_i32(self.bc_preserve)
                        &&& fusion == clamped(self.bc_exposure_fusion.round(), 0, 2) as u32
                        &&& stops == self.bc_exposure_stops
                        &&& bias == self.bc_exposure_bias
                        &&& sp == space
                    },
                    Stage::Shadhi { shadows, highlights, whitepoint, radius, compress, shadows_ccorrect, highlights_ccorrect, scale: sc, space: sp } => {
                        &&& shadows == self.shadhi_shadows
                        &&& highlights == self.shadhi_highlights
                        &&& whitepoint == self.shadhi_whitepoint
                        &&& radius == self.shadhi_radius
                        &&& compress == self.shadhi_compress
                        &&& shadows_ccorrect == self.shadhi_shadows_ccorrect
                        &&& highlights_ccorrect == self.shadhi_highlights_ccorrect
                        &&& sc == scale
                        &&& sp == space
                    },
                    Stage::Lowpass { radius, contrast, brightness, saturation, scale: sc, space: sp } => {
                        &&& radius == self.lowpass_radius
                        &&& contrast == self.lowpass_contrast
                        &&& brightness == self.lowpass_brightness
                        &&& saturation == self.lowpass_saturation
                        &&& sc == scale
                        &&& sp == space
                    },
                    Stage::ColorCorrection { loa, hia, lob, hib, saturation, space: sp } => {
                        &&& loa == self.color_correction_loa
                        &&& hia == self.color_correction_hia
                        &&& lob == self.color_correction_lob
                        &&& hib == self.color_correction_hib
                        &&& saturation == self.color_correction_saturation
                        &&& sp == space
                    },
                    Stage::ColorContrast { a_steepness, b_steepness, space: sp } => {
                        &&& a_steepness == self.color_contrast_a_steepness
                        &&& b_steepness == self.color_contrast_b_steepness
                        &&& sp == space
                    },
                    Stage::ColorZones { strength, channel, mode, periodic, num_nodes, curve_type, curve_x, curve_y, space: sp } => {
                        &&& strength == self.colorzones_strength
                        &&& channel == as_i32(self.colorzones_channel)
                        &&& mode == as_i32(self.colorzones_mode)
                        &&& (periodic <==> channel == 2)
                        &&& num_nodes == self.colorzones_num_nodes
                        &&& curve_type == self.colorzones_curve_type
                        &&& curve_x == self.colorzones_curve_x
                        &&& curve_y == self.colorzones_curve_y
                        &&& sp == space
                    },
                    Stage::Sigmoid { contrast, skew } => {
                        &&& contrast == self.sigmoid_contrast
                        &&& skew == self.sigmoid_skew
                    },
                    Stage::FilmicRgb { filmic, space: sp } => {
                        &&& filmic.black_point_source == self.filmic_black_point_source
                        &&& filmic.white_point_source == self.filmic_white_point_source
                        &&& filmic.grey_point_target.bits == FILMIC_GREY_TARGET
                        &&& filmic.black_point_target.bits == FILMIC_BLACK_TARGET
                        &&& filmic.white_point_target.bits == FILMIC_WHITE_TARGET
                        &&& filmic.output_power == self.filmic_output_power
                        &&& filmic.latitude == self.filmic_latitude
                        &&& filmic.contrast == self.filmic_contrast
                        &&& filmic.balance == self.filmic_balance
                        &&& filmic.saturation == self.filmic_saturation
                        &&& !filmic.custom_grey
                        &&& sp == space
                    },
                    Stage::Colisa { contrast, brightness, saturation, space: sp } => {
                        &&& contrast == self.colisa_contrast
                        &&& brightness == self.colisa_brightness
                        &&& saturation == self.colisa_saturation
                        &&& sp == space
                    },
                    Stage::ToneCurve { nodes, spline, autoscale_ab, unbound_ab, preserve_colors, space: sp } => {
                        &&& nodes == pinned_curve(self.tc_nnodes, self.tc_nodes_l)
                        &&& spline == as_i32(self.tc_type)
                        &&& autoscale_ab == as_i32(self.tc_autoscale)
                        &&& unbound_ab == self.tc_unbound
                        &&& preserve_colors == as_i32(self.tc_preserve)
                        &&& sp == space
                    },
                    Stage::Levels { black, grey, white, space: sp } => {
                        &&& black == self.levels_black
                        &&& grey == self.levels_grey
                        &&& white == self.levels_white
                        &&& sp == space
                    },
                    Stage::Velvia { strength, bias } => {
                        &&& strength == self.velvia_strength
                        &&& bias == self.velvia_bias
                    },
                    Stage::Bloom { size, threshold, strength, space: sp } => {
                        &&& size == self.bl_size
                        &&& threshold == self.bl_threshold
                        &&& strength == self.bl_strength
                        &&& sp == space
                    },
                    Stage::Colorize { hue, sat, lightness, lightness_mix, space: sp } => {
                        &&& hue == self.colorize_hue
                        &&& sat == self.colorize_sat
                        &&& lightness == self.colorize_lightness
                        &&& lightness_mix == self.colorize_lightness_mix
                        &&& sp == space
                    },
                    Stage::Splittoning { shadow_hue, shadow_sat, highlight_hue, highlight_sat, balance, compress } => {
                        &&& shadow_hue == self.split_shadow_hue
                        &&& shadow_sat == self.split_shadow_sat
                        &&& highlight_hue == self.split_highlight_hue
                        &&& highlight_sat == self.split_highlight_sat
                        &&& balance == self.split_balance
                        &&& compress == self.split_compress
                    },
                    Stage::Lowlight { blueness, transition, space: sp } => {
                        &&& blueness == self.lowlight_blueness
                        &&& transition == self.lowlight_transition
                        &&& sp == space
                    },
                    Stage::Vignette { scale: sc, falloff, brightness, saturation, center_x, center_y, shape } => {
                        &&& sc == self.vignette_scale
                        &&& falloff == self.vignette_falloff
                        &&& brightness == self.vignette_brightness
                        &&& saturation == self.vignette_saturation
                        &&& center_x == self.vignette_center_x
                        &&& center_y == self.vignette_center_y
                        &&& shape == self.vignette_shape
                    },
                },
    {
        let r = self.to_pipeline_with(space, scale, &None);
        proof {
            let plan = r@;
            law_invert_stage(*self, space, scale, None, true, plan);
            law_temperature_stage(*self, space, scale, None, true, plan);
            law_denoise_profile_stage(*self, space, scale, None, true, plan);
            law_lens_correction_stage(*self, space, scale, None, true, plan);
            law_exposure_stage(*self, space, scale, None, true, plan);
            law_tone_equal_stage(*self, space, scale, None, true, plan);
            law_graduated_nd_stage(*self, space, scale, None, true, plan);
            law_negadoctor_stage(*self, space, scale, None, true, plan);
            law_primaries_stage(*self, space, scale, None, true, plan);
            law_monochrome_stage(*self, space, scale, None, true, plan);
            law_sharpen_stage(*self, space, scale, None, true, plan);
            law_vibrance_stage(*self, space, scale, None, true, plan);
            law_basicadj_stage(*self, space, scale, None, true, plan);
            law_color_balance_rgb_stage(*self, space, scale, None, true, plan);
            law_rgb_curve_stage(*self, space, scale, None, true, plan);
            law_basecurve_stage(*self, space, scale, None, true, plan);
            law_shadhi_stage(*self, space, scale, None, true, plan);
            law_lowpass_stage(*self, space, scale, None, true, plan);
            law_color_correction_stage(*self, space, scale, None, true, plan);
            law_color_contrast_stage(*self, space, scale, None, true, plan);
            law_color_zones_stage(*self, space, scale, None, true, plan);
            law_sigmoid_stage(*self, space, scale, None, true, plan);
            law_filmic_rgb_stage(*self, space, scale, None, true, plan);
            law_colisa_stage(*self, space, scale, None, true, plan);
            law_tone_curve_stage(*self, space, scale, None, true, plan);
            law_levels_stage(*self, space, scale, None, true, plan);
            law_velvia_stage(*self, space, scale, None, true, plan);
            law_bloom_stage(*self, space, scale, None, true, plan);
            law_colorize_stage(*self, space, scale, None, true, plan);
            law_splittoning_stage(*self, space, scale, None, true, plan);
            law_lowlight_stage(*self, space, scale, None, true, plan);
            law_vignette_stage(*self, space, scale, None, true, plan);
        }
        r
    }

    /// The plan for a source whose geometry has not run yet, so that the lens warp
    /// belongs in it.
    pub fn to_pipeline_with(
        &self,
        space: ColorSpace,
        scale: F32,
        lens_gear: &Option<LensGear>,
    ) -> (r: Vec<Stage>)
        ensures
            r@ == self.plan(space, scale, *lens_gear, true),
    {
        self.to_pipeline_inner(space, scale, lens_gear, true)
    }

    /// The plan for a source that the lens warp was applied to before it was cropped.
    pub fn to_pipeline_lens_preapplied(
        &self,
        space: ColorSpace,
        scale: F32,
        lens_gear: &Option<LensGear>,
    ) -> (r: Vec<Stage>)
        ensures
            r@ == self.plan(space, scale, *lens_gear, false),
    {
        self.to_pipeline_inner(space, scale, lens_gear, false)
    }

    fn to_pipeline_inner(
        &self,
        space: ColorSpace,
        scale: F32,
        lens_gear: &Option<LensGear>,
        lens_stage: bool,
    ) -> (r: Vec<Stage>)
        ensures
            r@ == self.plan(space, scale, *lens_gear, lens_stage),
    {
        let mut stages: Vec<Stage> = Vec::new();
        let order = STAGE_ORDER;
        let mut i: usize = 0;
        while i < 32
            invariant
                i <= 32,
                order == STAGE_ORDER,
                stages@ == self.plan_of_first(i as int, space, scale, *lens_gear, lens_stage),
            decreases 32 - i,
        {
            let kind = order[i];
            if self.stage_active(kind, lens_gear.is_some(), lens_stage) {
                proof {
                    reveal(PreviewParams::active);
                }
                stages.push(self.stage(kind, space, scale, lens_gear));
            }
            i = i + 1;
        }
        stages
    }

    /// These parameters with every module off and nothing else changed.
    pub open spec fn all_off(self) -> PreviewParams {
        PreviewParams {
            exposure_on: false,
            velvia_on: false,
            split_on: false,
            mono_on: false,
            sigmoid_on: false,
            sharpen_on: false,
            vibrance_on: false,
            color_contrast_on: false,
            temperature_on: false,
            invert_on: false,
            colorize_on: false,
            color_correction_on: false,
            colorzones_on: false,
            levels_on: false,
            vignette_on: false,
            lowlight_on: false,
            gradnd_on: false,
            colisa_on: false,
            basicadj_on: false,
            lowpass_on: false,
            shadhi_on: false,
            primaries_on: false,
            negadoctor_on: false,
            toneeq_on: false,
            cb_on: false,
            filmic_on: false,
            hl_on: false,
            dn_on: false,
            bl_on: false,
            tc_on: false,
            rc_on: false,
            bc_on: false,
            lens_on: false,
            ..self
        }
    }

    /// A copy with every module off, for showing the image before the edit.
    pub fn bypassed(&self) -> (r: PreviewParams)
        ensures
            r == self.all_off(),
            !r.exposure_on,
            !r.velvia_on,
            !r.split_on,
            !r.mono_on,
            !r.sigmoid_on,
            !r.sharpen_on,
            !r.vibrance_on,
            !r.color_contrast_on,
            !r.temperature_on,
            !r.invert_on,
            !r.colorize_on,
            !r.color_correction_on,
            !r.colorzones_on,
            !r.levels_on,
            !r.vignette_on,
            !r.lowlight_on,
            !r.gradnd_on,
            !r.colisa_on,
            !r.basicadj_on,
            !r.lowpass_on,
            !r.shadhi_on,
            !r.primaries_on,
            !r.negadoctor_on,
            !r.toneeq_on,
            !r.cb_on,
            !r.filmic_on,
            !r.hl_on,
            !r.dn_on,
            !r.bl_on,
            !r.tc_on,
            !r.rc_on,
            !r.bc_on,
            !r.lens_on,
            r.hl_opposed == self.hl_opposed,
            r.dn_mode_y0u0v0 == self.dn_mode_y0u0v0,
            r.tc_unbound == self.tc_unbound,
            r.lens_inverse == self.lens_inverse,
    {
        PreviewParams {
            exposure_on: false,
            velvia_on: false,
            split_on: false,
            mono_on: false,
            sigmoid_on: false,
            sharpen_on: false,
            vibrance_on: false,
            color_contrast_on: false,
            temperature_on: false,
            invert_on: false,
            colorize_on: false,
            color_correction_on: false,
            colorzones_on: false,
            levels_on: false,
            vignette_on: false,
            lowlight_on: false,
            gradnd_on: false,
            colisa_on: false,
            basicadj_on: false,
            lowpass_on: false,
            shadhi_on: false,
            primaries_on: false,
            negadoctor_on: false,
            toneeq_on: false,
            cb_on: false,
            filmic_on: false,
            hl_on: false,
            dn_on: false,
            bl_on: false,
            tc_on: false,
            rc_on: false,
            bc_on: false,
            lens_on: false,
            ..*self
        }
    }
}

/// A stage made for a kind is of that kind.
proof fn lemma_stage_kind(
    p: PreviewParams,
    kind: StageKind,
    space: ColorSpace,
    scale: F32,
    gear: Option<LensGear>,
)
    ensures
        p.stage_of(kind, space, scale, gear).kind() == kind,
{
    reveal(PreviewParams::stage_of);
}

/// A module that can change no pixel has no stage.
proof fn lemma_idle_is_not_active(p: PreviewParams, kind: StageKind, gear: bool, lens_stage: bool)
    ensures
        p.idle(kind) ==> !p.active(kind, gear, lens_stage),
{
    reveal(PreviewParams::idle);
    reveal(PreviewParams::active);
    reveal(F32::positive);
    reveal(F32::not_positive);
}

/// The numbers that a plan asks to be above zero. One that is no number is neither
/// above zero nor at it or below: its module then counts as a change but has no stage.
pub open spec fn strengths_are_numbers(p: PreviewParams) -> bool {
    &&& !p.velvia_strength.nan()
    &&& !p.sharpen_amount.nan()
    &&& !p.sharpen_radius.nan()
    &&& !p.vibrance_amount.nan()
}

/// With the gear known, a module that has no stage can change no pixel.
proof fn lemma_not_active_is_idle(p: PreviewParams, kind: StageKind, gear: bool)
    requires
        strengths_are_numbers(p),
        p.lens_on ==> gear,
    ensures
        p.idle(kind) == !p.active(kind, gear, true),
{
    reveal(PreviewParams::idle);
    reveal(PreviewParams::active);
    reveal(F32::positive);
    reveal(F32::not_positive);
}

/// What stands in a plan of the first `n` stages, and in which order.
proof fn lemma_plan(
    p: PreviewParams,
    n: int,
    space: ColorSpace,
    scale: F32,
    gear: Option<LensGear>,
    lens_stage: bool,
)
    requires
        0 <= n <= 32,
    ensures
        ({
            let plan = p.plan_of_first(n, space, scale, gear, lens_stage);
            &&& forall|i: int|
                0 <= i < plan.len() ==> {
                    let kind = (#[trigger] plan[i]).kind();
                    &&& rank(kind) < n
                    &&& p.active(kind, gear is Some, lens_stage)
                    &&& plan[i] == p.stage_of(kind, space, scale, gear)
                }
            &&& forall|i: int, j: int|
                0 <= i < j < plan.len() ==> rank((#[trigger] plan[i]).kind()) < rank(
                    (#[trigger] plan[j]).kind(),
                )
            &&& forall|kind: StageKind|
                #![trigger p.active(kind, gear is Some, lens_stage)]
                rank(kind) < n && p.active(kind, gear is Some, lens_stage) ==> plan.contains(
                    p.stage_of(kind, space, scale, gear),
                )
        }),
    decreases n,
{
    if n > 0 {
        lemma_plan(p, n - 1, space, scale, gear, lens_stage);
        let before = p.plan_of_first(n - 1, space, scale, gear, lens_stage);
        let plan = p.plan_of_first(n, space, scale, gear, lens_stage);
        let last = STAGE_ORDER@[n - 1];
        law_stage_order_is_complete(last);
        lemma_stage_kind(p, last, space, scale, gear);
        assert forall|kind: StageKind|
            #![trigger p.active(kind, gear is Some, lens_stage)]
            rank(kind) < n && p.active(kind, gear is Some, lens_stage) implies plan.contains(
            p.stage_of(kind, space, scale, gear),
        ) by {
            law_stage_order_is_complete(kind);
            let stage = p.stage_of(kind, space, scale, gear);
            if rank(kind) == n - 1 {
                assert(plan.last() == stage);
            } else {
                let i = choose|i: int| 0 <= i < before.len() && before[i] == stage;
                assert(plan[i] == stage);
            }
        }
    } else {
        assert forall|kind: StageKind|
            #![trigger p.active(kind, gear is Some, lens_stage)]
            rank(kind) < n implies false by {
            law_stage_order_is_complete(kind);
        }
    }
}

/// A plan keeps the canonical order: of two planned stages the earlier one stands first.
/// So no stage is planned twice.
pub proof fn law_plan_keeps_the_order(
    p: PreviewParams,
    space: ColorSpace,
    scale: F32,
    gear: Option<LensGear>,
    lens_stage: bool,
    i: int,
    j: int,
)
    requires
        0 <= i < j < p.plan(space, scale, gear, lens_stage).len(),
    ensures
        rank(p.plan(space, scale, gear, lens_stage)[i].kind()) < rank(
            p.plan(space, scale, gear, lens_stage)[j].kind(),
        ),
{
    lemma_plan(p, 32, space, scale, gear, lens_stage);
}

/// A plan holds the stages that are active, each with its settings, and no others.
pub proof fn law_plan_holds_the_active_stages(
    p: PreviewParams,
    space: ColorSpace,
    scale: F32,
    gear: Option<LensGear>,
    lens_stage: bool,
    stage: Stage,
)
    ensures
        p.plan(space, scale, gear, lens_stage).contains(stage) <==> p.active(
            stage.kind(),
            gear is Some,
            lens_stage,
        ) && stage == p.stage_of(stage.kind(), space, scale, gear),
{
    lemma_plan(p, 32, space, scale, gear, lens_stage);
    law_stage_order_is_complete(stage.kind());
}

/// An edit that leaves the image as it is plans no stage.
pub proof fn law_identity_plans_nothing(
    p: PreviewParams,
    space: ColorSpace,
    scale: F32,
    gear: Option<LensGear>,
    lens_stage: bool,
)
    requires
        p.identity(),
    ensures
        p.plan(space, scale, gear, lens_stage).len() == 0,
{
    lemma_plan(p, 32, space, scale, gear, lens_stage);
    let plan = p.plan(space, scale, gear, lens_stage);
    if plan.len() > 0 {
        let kind = plan[0].kind();
        assert(p.idle(kind));
        lemma_idle_is_not_active(p, kind, gear is Some, lens_stage);
    }
}

/// An edit that plans no stage leaves the image as it is, where no highlights are
/// reconstructed, the gear of an enabled lens correction is known, and the strengths
/// that a plan looks at are numbers.
pub proof fn law_empty_plan_is_identity(
    p: PreviewParams,
    space: ColorSpace,
    scale: F32,
    gear: Option<LensGear>,
)
    requires
        !p.hl_on,
        p.lens_on ==> gear is Some,
        strengths_are_numbers(p),
        p.plan(space, scale, gear, true).len() == 0,
    ensures
        p.identity(),
{
    lemma_plan(p, 32, space, scale, gear, true);
    assert forall|kind: StageKind| #[trigger] p.idle(kind) by {
        lemma_not_active_is_idle(p, kind, gear is Some);
        law_stage_order_is_complete(kind);
    }
}

proof fn lemma_preapplied(
    p: PreviewParams,
    n: int,
    space: ColorSpace,
    scale: F32,
    gear: Option<LensGear>,
)
    requires
        0 <= n <= 32,
    ensures
        p.plan_of_first(n, space, scale, gear, false) == p.plan_of_first(
            n,
            space,
            scale,
            gear,
            true,
        ).filter(|s: Stage| s.kind() != StageKind::LensCorrection),
    decreases n,
{
    reveal(Seq::filter);
    if n > 0 {
        lemma_preapplied(p, n - 1, space, scale, gear);
        let kind = STAGE_ORDER@[n - 1];
        lemma_stage_kind(p, kind, space, scale, gear);
        let whole = p.plan_of_first(n, space, scale, gear, true);
        let before = p.plan_of_first(n - 1, space, scale, gear, true);
        assert(p.active(kind, gear is Some, false) == (kind != StageKind::LensCorrection
            && p.active(kind, gear is Some, true))) by {
            reveal(PreviewParams::active);
        }
        if p.active(kind, gear is Some, true) {
            assert(whole.drop_last() =~= before);
        }
    }
}

/// Where the lens warp has been applied already, the plan is the usual one without the
/// lens stage, and nothing else changes.
pub proof fn law_preapplied_omits_only_the_lens_stage(
    p: PreviewParams,
    space: ColorSpace,
    scale: F32,
    gear: Option<LensGear>,
)
    ensures
        p.plan(space, scale, gear, false) == p.plan(space, scale, gear, true).filter(
            |s: Stage| s.kind() != StageKind::LensCorrection,
        ),
{
    lemma_preapplied(p, 32, space, scale, gear);
}

/// Without gear no lens stage is planned, whatever the switch says.
pub proof fn law_no_gear_no_lens_stage(
    p: PreviewParams,
    space: ColorSpace,
    scale: F32,
    lens_stage: bool,
    i: int,
)
    requires
        0 <= i < p.plan(space, scale, None, lens_stage).len(),
    ensures
        p.plan(space, scale, None, lens_stage)[i].kind() != StageKind::LensCorrection,
{
    lemma_plan(p, 32, space, scale, None, lens_stage);
    reveal(PreviewParams::active);
}

proof fn lemma_gear_not_set(
    p: PreviewParams,
    kind: StageKind,
    space: ColorSpace,
    scale: F32,
    gear: Option<LensGear>,
    other: Option<LensGear>,
)
    requires
        kind != StageKind::LensCorrection,
    ensures
        p.stage_of(kind, space, scale, gear) == p.stage_of(kind, space, scale, other),
{
    reveal(PreviewParams::stage_of);
}

proof fn lemma_preapplied_gear(
    p: PreviewParams,
    n: int,
    space: ColorSpace,
    scale: F32,
    gear: Option<LensGear>,
    other: Option<LensGear>,
)
    requires
        0 <= n <= 32,
    ensures
        p.plan_of_first(n, space, scale, gear, false) == p.plan_of_first(
            n,
            space,
            scale,
            other,
            false,
        ),
    decreases n,
{
    if n > 0 {
        lemma_preapplied_gear(p, n - 1, space, scale, gear, other);
        let kind = STAGE_ORDER@[n - 1];
        assert(p.active(kind, gear is Some, false) == p.active(kind, other is Some, false)) by {
            reveal(PreviewParams::active);
        }
        if kind == StageKind::LensCorrection {
            reveal(PreviewParams::active);
        } else {
            lemma_gear_not_set(p, kind, space, scale, gear, other);
        }
    }
}

/// Where the lens warp has been applied already, the plan is the same for any two gears.
pub proof fn law_preapplied_ignores_the_gear(
    p: PreviewParams,
    space: ColorSpace,
    scale: F32,
    gear: Option<LensGear>,
    other: Option<LensGear>,
)
    ensures
        p.plan(space, scale, gear, false) == p.plan(space, scale, other, false),
{
    lemma_preapplied_gear(p, 32, space, scale, gear, other);
}

/// Bypassing turns every module off and changes no setting; the result leaves the image
/// as it is, and bypassing again changes nothing.
pub proof fn law_bypassed_is_identity(p: PreviewParams)
    ensures
        p.all_off().identity(),
        p.all_off().floats() == p.floats(),
        p.all_off().hl_opposed == p.hl_opposed,
        p.all_off().dn_mode_y0u0v0 == p.dn_mode_y0u0v0,
        p.all_off().tc_unbound == p.tc_unbound,
        p.all_off().lens_inverse == p.lens_inverse,
        p.all_off().all_off() == p.all_off(),
{
    let q = p.all_off();
    reveal(PreviewParams::idle);
    reveal(PreviewParams::levels_active);
    assert forall|kind: StageKind| #[trigger] q.idle(kind) by {}
    lemma_same_numbers(p, q);
}

/// A fresh edit leaves the image as it is.
pub proof fn law_defaults_are_identity()
    ensures
        PreviewParams::defaults().identity(),
{
    let d = PreviewParams::defaults();
    reveal(PreviewParams::defaults);
    reveal(PreviewParams::idle);
    reveal(PreviewParams::levels_active);
    reveal(PreviewParams::exposure_neutral);
    reveal(F32::is_num);
    assert forall|kind: StageKind| #[trigger] d.idle(kind) by {}
}

} // verus!
