//! What stands in a plan, stage by stage: when a stage is planned, and from which setting of
//! the edit each of its own settings comes.
use vstd::arithmetic::power2::*;
use vstd::prelude::*;

use crate::curves::pinned_curve;
use crate::float32::{
    clamped, law_comparing_with_a_pattern, law_named_patterns, law_trunc_cuts_the_fraction, F32,
    HALF, ONE, ZERO,
};
use crate::params::PreviewParams;
use crate::pipeline::{
    as_i32, law_plan_holds_the_active_stages, law_plan_keeps_the_order, ColorSpace, LensGear, Stage,
    StageKind, FILMIC_BLACK_TARGET, FILMIC_GREY_TARGET, FILMIC_WHITE_TARGET, GREY_FULCRUM,
    LEVELS_GREY, LEVELS_WHITE, MIN_POSITIVE,
};

verus! {

/// A planned stage has the settings of its kind, and its kind is planned when it is active.
proof fn lemma_planned(
    p: PreviewParams,
    kind: StageKind,
    space: ColorSpace,
    scale: F32,
    gear: Option<LensGear>,
    lens_stage: bool,
    plan: Seq<Stage>,
)
    requires
        plan == p.plan(space, scale, gear, lens_stage),
    ensures
        forall|i: int|
            0 <= i < plan.len() && (#[trigger] plan[i]).kind() == kind ==> plan[i] == p.stage_of(
                kind,
                space,
                scale,
                gear,
            ) && p.active(kind, gear is Some, lens_stage),
        p.active(kind, gear is Some, lens_stage) && p.stage_of(kind, space, scale, gear).kind()
            == kind ==> exists|i: int|
            0 <= i < plan.len() && #[trigger] plan[i] == p.stage_of(kind, space, scale, gear),
        p.identity() ==> p.idle(kind),
{
    assert forall|i: int| 0 <= i < plan.len() && (#[trigger] plan[i]).kind() == kind implies plan[i]
        == p.stage_of(kind, space, scale, gear) && p.active(kind, gear is Some, lens_stage) by {
        assert(plan.contains(plan[i]));
        law_plan_holds_the_active_stages(p, space, scale, gear, lens_stage, plan[i]);
    }
    let stage = p.stage_of(kind, space, scale, gear);
    law_plan_holds_the_active_stages(p, space, scale, gear, lens_stage, stage);
    if p.active(kind, gear is Some, lens_stage) && stage.kind() == kind {
        assert(plan.contains(stage));
        let i = choose|i: int| 0 <= i < plan.len() && plan[i] == stage;
        assert(plan[i] == stage);
    }
}

/// When film inversion is planned, and with which settings.
pub proof fn law_invert_stage(
    p: PreviewParams,
    space: ColorSpace,
    scale: F32,
    gear: Option<LensGear>,
    lens_stage: bool,
    plan: Seq<Stage>,
)
    requires
        plan == p.plan(space, scale, gear, lens_stage),
    ensures
        (exists|i: int| 0 <= i < plan.len() && #[trigger] plan[i] is Invert)
            <==> p.invert_on,
        forall|i: int|
            0 <= i < plan.len() ==> match #[trigger] plan[i] {
                Stage::Invert { color } => {
                    &&& color@[0] == p.invert_r
                    &&& color@[1] == p.invert_g
                    &&& color@[2] == p.invert_b
                    &&& color@[3] == (F32 { bits: ONE })
                },
                _ => true,
            },
        p.identity() ==> !p.invert_on,
{
    lemma_planned(p, StageKind::Invert, space, scale, gear, lens_stage, plan);
    reveal(PreviewParams::active);
    reveal(PreviewParams::idle);
    reveal(PreviewParams::stage_of);
    assert forall|i: int| 0 <= i < plan.len() && #[trigger] plan[i] is Invert implies plan[i].kind()
        == StageKind::Invert by {}
    if p.active(StageKind::Invert, gear is Some, lens_stage) {
        let stage = p.stage_of(StageKind::Invert, space, scale, gear);
        let i = choose|i: int| 0 <= i < plan.len() && #[trigger] plan[i] == stage;
        assert(plan[i] is Invert);
    }
}

/// When white balance is planned, and with which settings.
pub proof fn law_temperature_stage(
    p: PreviewParams,
    space: ColorSpace,
    scale: F32,
    gear: Option<LensGear>,
    lens_stage: bool,
    plan: Seq<Stage>,
)
    requires
        plan == p.plan(space, scale, gear, lens_stage),
    ensures
        (exists|i: int| 0 <= i < plan.len() && #[trigger] plan[i] is Temperature)
            <==> p.temperature_on
            && !(p.temperature_r.is_num(ONE)
            && p.temperature_g.is_num(ONE)
            && p.temperature_b.is_num(ONE)),
        forall|i: int|
            0 <= i < plan.len() ==> match #[trigger] plan[i] {
                Stage::Temperature { coeffs } => {
                    &&& coeffs@[0] == p.temperature_r
                    &&& coeffs@[1] == p.temperature_g
                    &&& coeffs@[2] == p.temperature_b
                    &&& coeffs@[3] == (F32 { bits: ONE })
                },
                _ => true,
            },
        p.identity() ==> !p.temperature_on
            || (p.temperature_r.is_num(ONE)
            && p.temperature_g.is_num(ONE)
            && p.temperature_b.is_num(ONE)),
{
    lemma_planned(p, StageKind::Temperature, space, scale, gear, lens_stage, plan);
    reveal(PreviewParams::active);
    reveal(PreviewParams::idle);
    reveal(PreviewParams::stage_of);
    reveal(PreviewParams::temperature_neutral);
    assert forall|i: int| 0 <= i < plan.len() && #[trigger] plan[i] is Temperature implies plan[i].kind()
        == StageKind::Temperature by {}
    if p.active(StageKind::Temperature, gear is Some, lens_stage) {
        let stage = p.stage_of(StageKind::Temperature, space, scale, gear);
        let i = choose|i: int| 0 <= i < plan.len() && #[trigger] plan[i] == stage;
        assert(plan[i] is Temperature);
    }
}

/// When denoise is planned, and with which settings.
pub proof fn law_denoise_profile_stage(
    p: PreviewParams,
    space: ColorSpace,
    scale: F32,
    gear: Option<LensGear>,
    lens_stage: bool,
    plan: Seq<Stage>,
)
    requires
        plan == p.plan(space, scale, gear, lens_stage),
    ensures
        (exists|i: int| 0 <= i < plan.len() && #[trigger] plan[i] is DenoiseProfile)
            <==> p.dn_on,
        forall|i: int|
            0 <= i < plan.len() ==> match #[trigger] plan[i] {
                Stage::DenoiseProfile { strength, shadows, bias, mode_y0u0v0 } => {
                    &&& strength == p.dn_strength
                    &&& shadows == p.dn_shadows
                    &&& bias == p.dn_bias
                    &&& mode_y0u0v0 == p.dn_mode_y0u0v0
                },
                _ => true,
            },
        p.identity() ==> !p.dn_on,
{
    lemma_planned(p, StageKind::DenoiseProfile, space, scale, gear, lens_stage, plan);
    reveal(PreviewParams::active);
    reveal(PreviewParams::idle);
    reveal(PreviewParams::stage_of);
    assert forall|i: int| 0 <= i < plan.len() && #[trigger] plan[i] is DenoiseProfile implies plan[i].kind()
        == StageKind::DenoiseProfile by {}
    if p.active(StageKind::DenoiseProfile, gear is Some, lens_stage) {
        let stage = p.stage_of(StageKind::DenoiseProfile, space, scale, gear);
        let i = choose|i: int| 0 <= i < plan.len() && #[trigger] plan[i] == stage;
        assert(plan[i] is DenoiseProfile);
    }
}

/// When lens correction is planned, and with which settings.
pub proof fn law_lens_correction_stage(
    p: PreviewParams,
    space: ColorSpace,
    scale: F32,
    gear: Option<LensGear>,
    lens_stage: bool,
    plan: Seq<Stage>,
)
    requires
        plan == p.plan(space, scale, gear, lens_stage),
    ensures
        (exists|i: int| 0 <= i < plan.len() && #[trigger] plan[i] is LensCorrection)
            <==> lens_stage
            && p.lens_on
            && gear is Some,
        forall|i: int|
            0 <= i < plan.len() ==> match #[trigger] plan[i] {
                Stage::LensCorrection { correction } => {
                    &&& correction.camera_maker == gear->0.camera_maker
                    &&& correction.camera_model == gear->0.camera_model
                    &&& correction.lens == gear->0.lens_model
                    &&& correction.modify_flags == as_i32(p.lens_modify_flags)
                    &&& correction.inverse == p.lens_inverse
                    &&& correction.scale == p.lens_scale
                    &&& correction.crop == gear->0.crop_factor
                    &&& correction.focal == p.lens_focal
                    &&& correction.aperture == p.lens_aperture
                    &&& correction.distance == p.lens_distance
                    &&& correction.target_geom == as_i32(p.lens_target_geom)
                },
                _ => true,
            },
        p.identity() ==> !p.lens_on,
{
    lemma_planned(p, StageKind::LensCorrection, space, scale, gear, lens_stage, plan);
    reveal(PreviewParams::active);
    reveal(PreviewParams::idle);
    reveal(PreviewParams::stage_of);
    assert forall|i: int| 0 <= i < plan.len() && #[trigger] plan[i] is LensCorrection implies plan[i].kind()
        == StageKind::LensCorrection by {}
    if p.active(StageKind::LensCorrection, gear is Some, lens_stage) {
        let stage = p.stage_of(StageKind::LensCorrection, space, scale, gear);
        let i = choose|i: int| 0 <= i < plan.len() && #[trigger] plan[i] == stage;
        assert(plan[i] is LensCorrection);
    }
}

/// When exposure is planned, and with which settings.
pub proof fn law_exposure_stage(
    p: PreviewParams,
    space: ColorSpace,
    scale: F32,
    gear: Option<LensGear>,
    lens_stage: bool,
    plan: Seq<Stage>,
)
    requires
        plan == p.plan(space, scale, gear, lens_stage),
    ensures
        (exists|i: int| 0 <= i < plan.len() && #[trigger] plan[i] is Exposure)
            <==> p.exposure_on
            && !(p.ev.is_num(ZERO)
            && p.black.is_num(ZERO)),
        forall|i: int|
            0 <= i < plan.len() ==> match #[trigger] plan[i] {
                Stage::Exposure { black, ev } => {
                    &&& black == p.black
                    &&& ev == p.ev
                },
                _ => true,
            },
        p.identity() ==> !p.exposure_on
            || (p.ev.is_num(ZERO)
            && p.black.is_num(ZERO)),
{
    lemma_planned(p, StageKind::Exposure, space, scale, gear, lens_stage, plan);
    reveal(PreviewParams::active);
    reveal(PreviewParams::idle);
    reveal(PreviewParams::stage_of);
    reveal(PreviewParams::exposure_neutral);
    assert forall|i: int| 0 <= i < plan.len() && #[trigger] plan[i] is Exposure implies plan[i].kind()
        == StageKind::Exposure by {}
    if p.active(StageKind::Exposure, gear is Some, lens_stage) {
        let stage = p.stage_of(StageKind::Exposure, space, scale, gear);
        let i = choose|i: int| 0 <= i < plan.len() && #[trigger] plan[i] == stage;
        assert(plan[i] is Exposure);
    }
}

/// When the tone equalizer is planned, and with which settings.
pub proof fn law_tone_equal_stage(
    p: PreviewParams,
    space: ColorSpace,
    scale: F32,
    gear: Option<LensGear>,
    lens_stage: bool,
    plan: Seq<Stage>,
)
    requires
        plan == p.plan(space, scale, gear, lens_stage),
    ensures
        (exists|i: int| 0 <= i < plan.len() && #[trigger] plan[i] is ToneEqual)
            <==> p.toneeq_on
            && !(p.toneeq_noise.is_num(ZERO)
            && p.toneeq_ultra_deep_blacks.is_num(ZERO)
            && p.toneeq_deep_blacks.is_num(ZERO)
            && p.toneeq_blacks.is_num(ZERO)
            && p.toneeq_shadows.is_num(ZERO)
            && p.toneeq_midtones.is_num(ZERO)
            && p.toneeq_highlights.is_num(ZERO)
            && p.toneeq_whites.is_num(ZERO)
            && p.toneeq_speculars.is_num(ZERO)),
        forall|i: int|
            0 <= i < plan.len() ==> match #[trigger] plan[i] {
                Stage::ToneEqual { gains } => {
                    &&& gains@[0] == p.toneeq_noise
                    &&& gains@[1] == p.toneeq_ultra_deep_blacks
                    &&& gains@[2] == p.toneeq_deep_blacks
                    &&& gains@[3] == p.toneeq_blacks
                    &&& gains@[4] == p.toneeq_shadows
                    &&& gains@[5] == p.toneeq_midtones
                    &&& gains@[6] == p.toneeq_highlights
                    &&& gains@[7] == p.toneeq_whites
                    &&& gains@[8] == p.toneeq_speculars
                },
                _ => true,
            },
        p.identity() ==> !p.toneeq_on
            || (p.toneeq_noise.is_num(ZERO)
            && p.toneeq_ultra_deep_blacks.is_num(ZERO)
            && p.toneeq_deep_blacks.is_num(ZERO)
            && p.toneeq_blacks.is_num(ZERO)
            && p.toneeq_shadows.is_num(ZERO)
            && p.toneeq_midtones.is_num(ZERO)
            && p.toneeq_highlights.is_num(ZERO)
            && p.toneeq_whites.is_num(ZERO)
            && p.toneeq_speculars.is_num(ZERO)),
{
    lemma_planned(p, StageKind::ToneEqual, space, scale, gear, lens_stage, plan);
    reveal(PreviewParams::active);
    reveal(PreviewParams::idle);
    reveal(PreviewParams::stage_of);
    reveal(PreviewParams::toneeq_neutral);
    assert forall|i: int| 0 <= i < plan.len() && #[trigger] plan[i] is ToneEqual implies plan[i].kind()
        == StageKind::ToneEqual by {}
    if p.active(StageKind::ToneEqual, gear is Some, lens_stage) {
        let stage = p.stage_of(StageKind::ToneEqual, space, scale, gear);
        let i = choose|i: int| 0 <= i < plan.len() && #[trigger] plan[i] == stage;
        assert(plan[i] is ToneEqual);
    }
}

/// When the graduated density filter is planned, and with which settings.
pub proof fn law_graduated_nd_stage(
    p: PreviewParams,
    space: ColorSpace,
    scale: F32,
    gear: Option<LensGear>,
    lens_stage: bool,
    plan: Seq<Stage>,
)
    requires
        plan == p.plan(space, scale, gear, lens_stage),
    ensures
        (exists|i: int| 0 <= i < plan.len() && #[trigger] plan[i] is GraduatedNd)
            <==> p.gradnd_on
            && !(p.gradnd_density.is_num(ZERO)),
        forall|i: int|
            0 <= i < plan.len() ==> match #[trigger] plan[i] {
                Stage::GraduatedNd { density, hardness, rotation, offset, hue, saturation } => {
                    &&& density == p.gradnd_density
                    &&& hardness == p.gradnd_hardness
                    &&& rotation == p.gradnd_rotation
                    &&& offset == p.gradnd_offset
                    &&& hue == p.gradnd_hue
                    &&& saturation == p.gradnd_saturation
                },
                _ => true,
            },
        p.identity() ==> !p.gradnd_on
            || (p.gradnd_density.is_num(ZERO)),
{
    lemma_planned(p, StageKind::GraduatedNd, space, scale, gear, lens_stage, plan);
    reveal(PreviewParams::active);
    reveal(PreviewParams::idle);
    reveal(PreviewParams::stage_of);
    reveal(PreviewParams::gradnd_neutral);
    assert forall|i: int| 0 <= i < plan.len() && #[trigger] plan[i] is GraduatedNd implies plan[i].kind()
        == StageKind::GraduatedNd by {}
    if p.active(StageKind::GraduatedNd, gear is Some, lens_stage) {
        let stage = p.stage_of(StageKind::GraduatedNd, space, scale, gear);
        let i = choose|i: int| 0 <= i < plan.len() && #[trigger] plan[i] == stage;
        assert(plan[i] is GraduatedNd);
    }
}

/// When the film scan inversion is planned, and with which settings.
pub proof fn law_negadoctor_stage(
    p: PreviewParams,
    space: ColorSpace,
    scale: F32,
    gear: Option<LensGear>,
    lens_stage: bool,
    plan: Seq<Stage>,
)
    requires
        plan == p.plan(space, scale, gear, lens_stage),
    ensures
        (exists|i: int| 0 <= i < plan.len() && #[trigger] plan[i] is Negadoctor)
            <==> p.negadoctor_on,
        forall|i: int|
            0 <= i < plan.len() ==> match #[trigger] plan[i] {
                Stage::Negadoctor { dmin, wb_high, wb_low, d_max, offset, black, gamma, soft_clip, exposure } => {
                    &&& dmin@[0] == p.negadoctor_dmin_r
                    &&& dmin@[1] == if as_i32(p.negadoctor_film_stock) == 0 { p.negadoctor_dmin_r } else { p.negadoctor_dmin_g }
                    &&& dmin@[2] == if as_i32(p.negadoctor_film_stock) == 0 { p.negadoctor_dmin_r } else { p.negadoctor_dmin_b }
                    &&& dmin@[3] == (F32 { bits: ONE })
                    &&& wb_high@[0] == p.negadoctor_wb_high_r
                    &&& wb_high@[1] == p.negadoctor_wb_high_g
                    &&& wb_high@[2] == p.negadoctor_wb_high_b
                    &&& wb_low@[0] == p.negadoctor_wb_low_r
                    &&& wb_low@[1] == p.negadoctor_wb_low_g
                    &&& wb_low@[2] == p.negadoctor_wb_low_b
                    &&& ((F32 { bits: MIN_POSITIVE }).ltv(p.negadoctor_d_max) ==> d_max == p.negadoctor_d_max)
                    &&& (!(F32 { bits: MIN_POSITIVE }).ltv(p.negadoctor_d_max) ==> d_max.bits == MIN_POSITIVE)
                    &&& offset == p.negadoctor_offset
                    &&& black == p.negadoctor_black
                    &&& gamma == p.negadoctor_gamma
                    &&& soft_clip == p.negadoctor_soft_clip
                    &&& exposure == p.negadoctor_exposure
                },
                _ => true,
            },
        p.identity() ==> !p.negadoctor_on,
{
    lemma_planned(p, StageKind::Negadoctor, space, scale, gear, lens_stage, plan);
    reveal(PreviewParams::active);
    reveal(PreviewParams::idle);
    reveal(PreviewParams::stage_of);
    assert forall|i: int| 0 <= i < plan.len() && #[trigger] plan[i] is Negadoctor implies plan[i].kind()
        == StageKind::Negadoctor by {}
    if p.active(StageKind::Negadoctor, gear is Some, lens_stage) {
        let stage = p.stage_of(StageKind::Negadoctor, space, scale, gear);
        let i = choose|i: int| 0 <= i < plan.len() && #[trigger] plan[i] == stage;
        assert(plan[i] is Negadoctor);
    }
}

/// When the primaries are planned, and with which settings.
pub proof fn law_primaries_stage(
    p: PreviewParams,
    space: ColorSpace,
    scale: F32,
    gear: Option<LensGear>,
    lens_stage: bool,
    plan: Seq<Stage>,
)
    requires
        plan == p.plan(space, scale, gear, lens_stage),
    ensures
        (exists|i: int| 0 <= i < plan.len() && #[trigger] plan[i] is Primaries)
            <==> p.primaries_on
            && !(p.primaries_achromatic_tint_hue.is_num(ZERO)
            && p.primaries_achromatic_tint_purity.is_num(ZERO)
            && p.primaries_red_hue.is_num(ZERO)
            && p.primaries_red_purity.is_num(ONE)
            && p.primaries_green_hue.is_num(ZERO)
            && p.primaries_green_purity.is_num(ONE)
            && p.primaries_blue_hue.is_num(ZERO)
            && p.primaries_blue_purity.is_num(ONE)),
        forall|i: int|
            0 <= i < plan.len() ==> match #[trigger] plan[i] {
                Stage::Primaries { achromatic_tint_hue, achromatic_tint_purity, red_hue, red_purity, green_hue, green_purity, blue_hue, blue_purity, space: sp } => {
                    &&& achromatic_tint_hue == p.primaries_achromatic_tint_hue
                    &&& achromatic_tint_purity == p.primaries_achromatic_tint_purity
                    &&& red_hue == p.primaries_red_hue
                    &&& red_purity == p.primaries_red_purity
                    &&& green_hue == p.primaries_green_hue
                    &&& green_purity == p.primaries_green_purity
                    &&& blue_hue == p.primaries_blue_hue
                    &&& blue_purity == p.primaries_blue_purity
                    &&& sp == space
                },
                _ => true,
            },
        p.identity() ==> !p.primaries_on
            || (p.primaries_achromatic_tint_hue.is_num(ZERO)
            && p.primaries_achromatic_tint_purity.is_num(ZERO)
            && p.primaries_red_hue.is_num(ZERO)
            && p.primaries_red_purity.is_num(ONE)
            && p.primaries_green_hue.is_num(ZERO)
            && p.primaries_green_purity.is_num(ONE)
            && p.primaries_blue_hue.is_num(ZERO)
            && p.primaries_blue_purity.is_num(ONE)),
{
    lemma_planned(p, StageKind::Primaries, space, scale, gear, lens_stage, plan);
    reveal(PreviewParams::active);
    reveal(PreviewParams::idle);
    reveal(PreviewParams::stage_of);
    reveal(PreviewParams::primaries_neutral);
    assert forall|i: int| 0 <= i < plan.len() && #[trigger] plan[i] is Primaries implies plan[i].kind()
        == StageKind::Primaries by {}
    if p.active(StageKind::Primaries, gear is Some, lens_stage) {
        let stage = p.stage_of(StageKind::Primaries, space, scale, gear);
        let i = choose|i: int| 0 <= i < plan.len() && #[trigger] plan[i] == stage;
        assert(plan[i] is Primaries);
    }
}

/// When monochrome is planned, and with which settings.
pub proof fn law_monochrome_stage(
    p: PreviewParams,
    space: ColorSpace,
    scale: F32,
    gear: Option<LensGear>,
    lens_stage: bool,
    plan: Seq<Stage>,
)
    requires
        plan == p.plan(space, scale, gear, lens_stage),
    ensures
        (exists|i: int| 0 <= i < plan.len() && #[trigger] plan[i] is Monochrome)
            <==> p.mono_on,
        forall|i: int|
            0 <= i < plan.len() ==> match #[trigger] plan[i] {
                Stage::Monochrome { r, g, b } => {
                    &&& r == p.mono_r
                    &&& g == p.mono_g
                    &&& b == p.mono_b
                },
                _ => true,
            },
        p.identity() ==> !p.mono_on,
{
    lemma_planned(p, StageKind::Monochrome, space, scale, gear, lens_stage, plan);
    reveal(PreviewParams::active);
    reveal(PreviewParams::idle);
    reveal(PreviewParams::stage_of);
    assert forall|i: int| 0 <= i < plan.len() && #[trigger] plan[i] is Monochrome implies plan[i].kind()
        == StageKind::Monochrome by {}
    if p.active(StageKind::Monochrome, gear is Some, lens_stage) {
        let stage = p.stage_of(StageKind::Monochrome, space, scale, gear);
        let i = choose|i: int| 0 <= i < plan.len() && #[trigger] plan[i] == stage;
        assert(plan[i] is Monochrome);
    }
}

/// When sharpening is planned, and with which settings.
pub proof fn law_sharpen_stage(
    p: PreviewParams,
    space: ColorSpace,
    scale: F32,
    gear: Option<LensGear>,
    lens_stage: bool,
    plan: Seq<Stage>,
)
    requires
        plan == p.plan(space, scale, gear, lens_stage),
    ensures
        (exists|i: int| 0 <= i < plan.len() && #[trigger] plan[i] is Sharpen)
            <==> p.sharpen_on
            && p.sharpen_amount.positive()
            && p.sharpen_radius.positive(),
        forall|i: int|
            0 <= i < plan.len() ==> match #[trigger] plan[i] {
                Stage::Sharpen { radius, amount, threshold, space: sp, scale: sc } => {
                    &&& radius == p.sharpen_radius
                    &&& amount == p.sharpen_amount
                    &&& threshold == p.sharpen_threshold
                    &&& sp == space
                    &&& sc == scale
                },
                _ => true,
            },
        p.identity() ==> !p.sharpen_on
            || p.sharpen_amount.not_positive()
            || p.sharpen_radius.not_positive(),
{
    lemma_planned(p, StageKind::Sharpen, space, scale, gear, lens_stage, plan);
    reveal(PreviewParams::active);
    reveal(PreviewParams::idle);
    reveal(PreviewParams::stage_of);
    assert forall|i: int| 0 <= i < plan.len() && #[trigger] plan[i] is Sharpen implies plan[i].kind()
        == StageKind::Sharpen by {}
    if p.active(StageKind::Sharpen, gear is Some, lens_stage) {
        let stage = p.stage_of(StageKind::Sharpen, space, scale, gear);
        let i = choose|i: int| 0 <= i < plan.len() && #[trigger] plan[i] == stage;
        assert(plan[i] is Sharpen);
    }
}

/// When vibrance is planned, and with which settings.
pub proof fn law_vibrance_stage(
    p: PreviewParams,
    space: ColorSpace,
    scale: F32,
    gear: Option<LensGear>,
    lens_stage: bool,
    plan: Seq<Stage>,
)
    requires
        plan == p.plan(space, scale, gear, lens_stage),
    ensures
        (exists|i: int| 0 <= i < plan.len() && #[trigger] plan[i] is Vibrance)
            <==> p.vibrance_on
            && p.vibrance_amount.positive(),
        forall|i: int|
            0 <= i < plan.len() ==> match #[trigger] plan[i] {
                Stage::Vibrance { amount, space: sp } => {
                    &&& amount == p.vibrance_amount
                    &&& sp == space
                },
                _ => true,
            },
        p.identity() ==> !p.vibrance_on
            || p.vibrance_amount.not_positive(),
{
    lemma_planned(p, StageKind::Vibrance, space, scale, gear, lens_stage, plan);
    reveal(PreviewParams::active);
    reveal(PreviewParams::idle);
    reveal(PreviewParams::stage_of);
    assert forall|i: int| 0 <= i < plan.len() && #[trigger] plan[i] is Vibrance implies plan[i].kind()
        == StageKind::Vibrance by {}
    if p.active(StageKind::Vibrance, gear is Some, lens_stage) {
        let stage = p.stage_of(StageKind::Vibrance, space, scale, gear);
        let i = choose|i: int| 0 <= i < plan.len() && #[trigger] plan[i] == stage;
        assert(plan[i] is Vibrance);
    }
}

/// When basic adjustments are planned, and with which settings.
pub proof fn law_basicadj_stage(
    p: PreviewParams,
    space: ColorSpace,
    scale: F32,
    gear: Option<LensGear>,
    lens_stage: bool,
    plan: Seq<Stage>,
)
    requires
        plan == p.plan(space, scale, gear, lens_stage),
    ensures
        (exists|i: int| 0 <= i < plan.len() && #[trigger] plan[i] is Basicadj)
            <==> p.basicadj_on
            && !(p.basicadj_black_point.is_num(ZERO)
            && p.basicadj_exposure.is_num(ZERO)
            && p.basicadj_hlcompr.is_num(ZERO)
            && p.basicadj_contrast.is_num(ZERO)
            && p.basicadj_brightness.is_num(ZERO)
            && p.basicadj_saturation.is_num(ZERO)
            && p.basicadj_vibrance.is_num(ZERO)),
        forall|i: int|
            0 <= i < plan.len() ==> match #[trigger] plan[i] {
                Stage::Basicadj { black_point, exposure, hlcompr, hlcomprthresh, contrast, preserve_colors, middle_grey, brightness, saturation, vibrance, space: sp } => {
                    &&& black_point == p.basicadj_black_point
                    &&& exposure == p.basicadj_exposure
                    &&& hlcompr == p.basicadj_hlcompr
                    &&& hlcomprthresh == p.basicadj_hlcomprthresh
                    &&& contrast == p.basicadj_contrast
                    &&& preserve_colors == as_i32(p.basicadj_preserve_colors)
                    &&& middle_grey == p.basicadj_middle_grey
                    &&& brightness == p.basicadj_brightness
                    &&& saturation == p.basicadj_saturation
                    &&& vibrance == p.basicadj_vibrance
                    &&& sp == space
                },
                _ => true,
            },
        p.identity() ==> !p.basicadj_on
            || (p.basicadj_black_point.is_num(ZERO)
            && p.basicadj_exposure.is_num(ZERO)
            && p.basicadj_hlcompr.is_num(ZERO)
            && p.basicadj_contrast.is_num(ZERO)
            && p.basicadj_brightness.is_num(ZERO)
            && p.basicadj_saturation.is_num(ZERO)
            && p.basicadj_vibrance.is_num(ZERO)),
{
    lemma_planned(p, StageKind::Basicadj, space, scale, gear, lens_stage, plan);
    reveal(PreviewParams::active);
    reveal(PreviewParams::idle);
    reveal(PreviewParams::stage_of);
    reveal(PreviewParams::basicadj_neutral);
    assert forall|i: int| 0 <= i < plan.len() && #[trigger] plan[i] is Basicadj implies plan[i].kind()
        == StageKind::Basicadj by {}
    if p.active(StageKind::Basicadj, gear is Some, lens_stage) {
        let stage = p.stage_of(StageKind::Basicadj, space, scale, gear);
        let i = choose|i: int| 0 <= i < plan.len() && #[trigger] plan[i] == stage;
        assert(plan[i] is Basicadj);
    }
}

/// When colour balance is planned, and with which settings.
pub proof fn law_color_balance_rgb_stage(
    p: PreviewParams,
    space: ColorSpace,
    scale: F32,
    gear: Option<LensGear>,
    lens_stage: bool,
    plan: Seq<Stage>,
)
    requires
        plan == p.plan(space, scale, gear, lens_stage),
    ensures
        (exists|i: int| 0 <= i < plan.len() && #[trigger] plan[i] is ColorBalanceRgb)
            <==> p.cb_on
            && !(p.cb_shadows_y.is_num(ZERO)
            && p.cb_shadows_c.is_num(ZERO)
            && p.cb_shadows_h.is_num(ZERO)
            && p.cb_midtones_y.is_num(ZERO)
            && p.cb_midtones_c.is_num(ZERO)
            && p.cb_midtones_h.is_num(ZERO)
            && p.cb_highlights_y.is_num(ZERO)
            && p.cb_highlights_c.is_num(ZERO)
            && p.cb_highlights_h.is_num(ZERO)
            && p.cb_global_y.is_num(ZERO)
            && p.cb_global_c.is_num(ZERO)
            && p.cb_global_h.is_num(ZERO)
            && p.cb_shadows_weight.is_num(ONE)
            && p.cb_white_fulcrum.is_num(ZERO)
            && p.cb_highlights_weight.is_num(ONE)
            && p.cb_chroma_shadows.is_num(ZERO)
            && p.cb_chroma_highlights.is_num(ZERO)
            && p.cb_chroma_global.is_num(ZERO)
            && p.cb_chroma_midtones.is_num(ZERO)
            && p.cb_saturation_global.is_num(ZERO)
            && p.cb_saturation_highlights.is_num(ZERO)
            && p.cb_saturation_midtones.is_num(ZERO)
            && p.cb_saturation_shadows.is_num(ZERO)
            && p.cb_hue_angle.is_num(ZERO)
            && p.cb_brilliance_global.is_num(ZERO)
            && p.cb_brilliance_highlights.is_num(ZERO)
            && p.cb_brilliance_midtones.is_num(ZERO)
            && p.cb_brilliance_shadows.is_num(ZERO)
            && p.cb_mask_grey_fulcrum.is_num(GREY_FULCRUM)
            && p.cb_vibrance.is_num(ZERO)
            && p.cb_grey_fulcrum.is_num(GREY_FULCRUM)
            && p.cb_contrast.is_num(ZERO)
            && !p.cb_formula.ltv(F32 { bits: HALF })),
        forall|i: int|
            0 <= i < plan.len() ==> match #[trigger] plan[i] {
                Stage::ColorBalanceRgb { grading, space: sp } => {
                    &&& grading.shadows_y == p.cb_shadows_y
                    &&& grading.shadows_c == p.cb_shadows_c
                    &&& grading.shadows_h == p.cb_shadows_h
                    &&& grading.midtones_y == p.cb_midtones_y
                    &&& grading.midtones_c == p.cb_midtones_c
                    &&& grading.midtones_h == p.cb_midtones_h
                    &&& grading.highlights_y == p.cb_highlights_y
                    &&& grading.highlights_c == p.cb_highlights_c
                    &&& grading.highlights_h == p.cb_highlights_h
                    &&& grading.global_y == p.cb_global_y
                    &&& grading.global_c == p.cb_global_c
                    &&& grading.global_h == p.cb_global_h
                    &&& grading.shadows_weight == p.cb_shadows_weight
                    &&& grading.white_fulcrum == p.cb_white_fulcrum
                    &&& grading.highlights_weight == p.cb_highlights_weight
                    &&& grading.chroma_shadows == p.cb_chroma_shadows
                    &&& grading.chroma_highlights == p.cb_chroma_highlights
                    &&& grading.chroma_global == p.cb_chroma_global
                    &&& grading.chroma_midtones == p.cb_chroma_midtones
                    &&& grading.saturation_global == p.cb_saturation_global
                    &&& grading.saturation_highlights == p.cb_saturation_highlights
                    &&& grading.saturation_midtones == p.cb_saturation_midtones
                    &&& grading.saturation_shadows == p.cb_saturation_shadows
                    &&& grading.hue_angle == p.cb_hue_angle
                    &&& grading.brilliance_global == p.cb_brilliance_global
                    &&& grading.brilliance_highlights == p.cb_brilliance_highlights
                    &&& grading.brilliance_midtones == p.cb_brilliance_midtones
                    &&& grading.brilliance_shadows == p.cb_brilliance_shadows
                    &&& grading.mask_grey_fulcrum == p.cb_mask_grey_fulcrum
                    &&& grading.vibrance == p.cb_vibrance
                    &&& grading.grey_fulcrum == p.cb_grey_fulcrum
                    &&& grading.contrast == p.cb_contrast
                    &&& (grading.saturation_formula is Jzazbz <==> p.cb_formula.ltv(F32 { bits: HALF }))
                    &&& sp == space
                },
                _ => true,
            },
        p.identity() ==> !p.cb_on
            || (p.cb_shadows_y.is_num(ZERO)
            && p.cb_shadows_c.is_num(ZERO)
            && p.cb_shadows_h.is_num(ZERO)
            && p.cb_midtones_y.is_num(ZERO)
            && p.cb_midtones_c.is_num(ZERO)
            && p.cb_midtones_h.is_num(ZERO)
            && p.cb_highlights_y.is_num(ZERO)
            && p.cb_highlights_c.is_num(ZERO)
            && p.cb_highlights_h.is_num(ZERO)
            && p.cb_global_y.is_num(ZERO)
            && p.cb_global_c.is_num(ZERO)
            && p.cb_global_h.is_num(ZERO)
            && p.cb_shadows_weight.is_num(ONE)
            && p.cb_white_fulcrum.is_num(ZERO)
            && p.cb_highlights_weight.is_num(ONE)
            && p.cb_chroma_shadows.is_num(ZERO)
            && p.cb_chroma_highlights.is_num(ZERO)
            && p.cb_chroma_global.is_num(ZERO)
            && p.cb_chroma_midtones.is_num(ZERO)
            && p.cb_saturation_global.is_num(ZERO)
            && p.cb_saturation_highlights.is_num(ZERO)
            && p.cb_saturation_midtones.is_num(ZERO)
            && p.cb_saturation_shadows.is_num(ZERO)
            && p.cb_hue_angle.is_num(ZERO)
            && p.cb_brilliance_global.is_num(ZERO)
            && p.cb_brilliance_highlights.is_num(ZERO)
            && p.cb_brilliance_midtones.is_num(ZERO)
            && p.cb_brilliance_shadows.is_num(ZERO)
            && p.cb_mask_grey_fulcrum.is_num(GREY_FULCRUM)
            && p.cb_vibrance.is_num(ZERO)
            && p.cb_grey_fulcrum.is_num(GREY_FULCRUM)
            && p.cb_contrast.is_num(ZERO)
            && !p.cb_formula.ltv(F32 { bits: HALF })),
{
    lemma_planned(p, StageKind::ColorBalanceRgb, space, scale, gear, lens_stage, plan);
    reveal(PreviewParams::active);
    reveal(PreviewParams::idle);
    reveal(PreviewParams::stage_of);
    reveal(PreviewParams::cb_neutral);
    assert forall|i: int| 0 <= i < plan.len() && #[trigger] plan[i] is ColorBalanceRgb implies plan[i].kind()
        == StageKind::ColorBalanceRgb by {}
    if p.active(StageKind::ColorBalanceRgb, gear is Some, lens_stage) {
        let stage = p.stage_of(StageKind::ColorBalanceRgb, space, scale, gear);
        let i = choose|i: int| 0 <= i < plan.len() && #[trigger] plan[i] == stage;
        assert(plan[i] is ColorBalanceRgb);
    }
}

/// When the RGB curve is planned, and with which settings.
pub proof fn law_rgb_curve_stage(
    p: PreviewParams,
    space: ColorSpace,
    scale: F32,
    gear: Option<LensGear>,
    lens_stage: bool,
    plan: Seq<Stage>,
)
    requires
        plan == p.plan(space, scale, gear, lens_stage),
    ensures
        (exists|i: int| 0 <= i < plan.len() && #[trigger] plan[i] is RgbCurve)
            <==> p.rc_on,
        forall|i: int|
            0 <= i < plan.len() ==> match #[trigger] plan[i] {
                Stage::RgbCurve { nodes_r, type_r, nodes_g, type_g, nodes_b, type_b, autoscale, preserve_colors } => {
                    &&& nodes_r == pinned_curve(p.rc_nnodes_r, p.rc_nodes_r)
                    &&& type_r == as_i32(p.rc_type_r)
                    &&& nodes_g == pinned_curve(p.rc_nnodes_g, p.rc_nodes_g)
                    &&& type_g == as_i32(p.rc_type_g)
                    &&& nodes_b == pinned_curve(p.rc_nnodes_b, p.rc_nodes_b)
                    &&& type_b == as_i32(p.rc_type_b)
                    &&& autoscale == as_i32(p.rc_autoscale)
                    &&& preserve_colors == as_i32(p.rc_preserve)
                },
                _ => true,
            },
        p.identity() ==> !p.rc_on,
{
    lemma_planned(p, StageKind::RgbCurve, space, scale, gear, lens_stage, plan);
    reveal(PreviewParams::active);
    reveal(PreviewParams::idle);
    reveal(PreviewParams::stage_of);
    assert forall|i: int| 0 <= i < plan.len() && #[trigger] plan[i] is RgbCurve implies plan[i].kind()
        == StageKind::RgbCurve by {}
    if p.active(StageKind::RgbCurve, gear is Some, lens_stage) {
        let stage = p.stage_of(StageKind::RgbCurve, space, scale, gear);
        let i = choose|i: int| 0 <= i < plan.len() && #[trigger] plan[i] == stage;
        assert(plan[i] is RgbCurve);
    }
}

/// When the base curve is planned, and with which settings.
pub proof fn law_basecurve_stage(
    p: PreviewParams,
    space: ColorSpace,
    scale: F32,
    gear: Option<LensGear>,
    lens_stage: bool,
    plan: Seq<Stage>,
)
    requires
        plan == p.plan(space, scale, gear, lens_stage),
    ensures
        (exists|i: int| 0 <= i < plan.len() && #[trigger] plan[i] is Basecurve)
            <==> p.bc_on,
        forall|i: int|
            0 <= i < plan.len() ==> match #[trigger] plan[i] {
                Stage::Basecurve { nodes, spline, preserve_colors, fusion, stops, bias, space: sp } => {
                    &&& nodes == pinned_curve(p.bc_nnodes, p.bc_nodes)
                    &&& spline == as_i32(p.bc_type)
                    &&& preserve_colors == as_i32(p.bc_preserve)
                    &&& fusion == clamped(p.bc_exposure_fusion.round(), 0, 2) as u32
                    &&& stops == p.bc_exposure_stops
                    &&& bias == p.bc_exposure_bias
                    &&& sp == space
                },
                _ => true,
            },
        p.identity() ==> !p.bc_on,
{
    lemma_planned(p, StageKind::Basecurve, space, scale, gear, lens_stage, plan);
    reveal(PreviewParams::active);
    reveal(PreviewParams::idle);
    reveal(PreviewParams::stage_of);
    assert forall|i: int| 0 <= i < plan.len() && #[trigger] plan[i] is Basecurve implies plan[i].kind()
        == StageKind::Basecurve by {}
    if p.active(StageKind::Basecurve, gear is Some, lens_stage) {
        let stage = p.stage_of(StageKind::Basecurve, space, scale, gear);
        let i = choose|i: int| 0 <= i < plan.len() && #[trigger] plan[i] == stage;
        assert(plan[i] is Basecurve);
    }
}

/// When shadows and highlights are planned, and with which settings.
pub proof fn law_shadhi_stage(
    p: PreviewParams,
    space: ColorSpace,
    scale: F32,
    gear: Option<LensGear>,
    lens_stage: bool,
    plan: Seq<Stage>,
)
    requires
        plan == p.plan(space, scale, gear, lens_stage),
    ensures
        (exists|i: int| 0 <= i < plan.len() && #[trigger] plan[i] is Shadhi)
            <==> p.shadhi_on
            && !(p.shadhi_shadows.is_num(ZERO)
            && p.shadhi_highlights.is_num(ZERO)
            && p.shadhi_whitepoint.is_num(ZERO)),
        forall|i: int|
            0 <= i < plan.len() ==> match #[trigger] plan[i] {
                Stage::Shadhi { shadows, highlights, whitepoint, radius, compress, shadows_ccorrect, highlights_ccorrect, scale: sc, space: sp } => {
                    &&& shadows == p.shadhi_shadows
                    &&& highlights == p.shadhi_highlights
                    &&& whitepoint == p.shadhi_whitepoint
                    &&& radius == p.shadhi_radius
                    &&& compress == p.shadhi_compress
                    &&& shadows_ccorrect == p.shadhi_shadows_ccorrect
                    &&& highlights_ccorrect == p.shadhi_highlights_ccorrect
                    &&& sc == scale
                    &&& sp == space
                },
                _ => true,
            },
        p.identity() ==> !p.shadhi_on
            || (p.shadhi_shadows.is_num(ZERO)
            && p.shadhi_highlights.is_num(ZERO)
            && p.shadhi_whitepoint.is_num(ZERO)),
{
    lemma_planned(p, StageKind::Shadhi, space, scale, gear, lens_stage, plan);
    reveal(PreviewParams::active);
    reveal(PreviewParams::idle);
    reveal(PreviewParams::stage_of);
    reveal(PreviewParams::shadhi_neutral);
    assert forall|i: int| 0 <= i < plan.len() && #[trigger] plan[i] is Shadhi implies plan[i].kind()
        == StageKind::Shadhi by {}
    if p.active(StageKind::Shadhi, gear is Some, lens_stage) {
        let stage = p.stage_of(StageKind::Shadhi, space, scale, gear);
        let i = choose|i: int| 0 <= i < plan.len() && #[trigger] plan[i] == stage;
        assert(plan[i] is Shadhi);
    }
}

/// When lowpass is planned, and with which settings.
pub proof fn law_lowpass_stage(
    p: PreviewParams,
    space: ColorSpace,
    scale: F32,
    gear: Option<LensGear>,
    lens_stage: bool,
    plan: Seq<Stage>,
)
    requires
        plan == p.plan(space, scale, gear, lens_stage),
    ensures
        (exists|i: int| 0 <= i < plan.len() && #[trigger] plan[i] is Lowpass)
            <==> p.lowpass_on
            && !(p.lowpass_contrast.is_num(ONE)
            && p.lowpass_brightness.is_num(ZERO)
            && p.lowpass_saturation.is_num(ONE)),
        forall|i: int|
            0 <= i < plan.len() ==> match #[trigger] plan[i] {
                Stage::Lowpass { radius, contrast, brightness, saturation, scale: sc, space: sp } => {
                    &&& radius == p.lowpass_radius
                    &&& contrast == p.lowpass_contrast
                    &&& brightness == p.lowpass_brightness
                    &&& saturation == p.lowpass_saturation
                    &&& sc == scale
                    &&& sp == space
                },
                _ => true,
            },
        p.identity() ==> !p.lowpass_on
            || (p.lowpass_contrast.is_num(ONE)
            && p.lowpass_brightness.is_num(ZERO)
            && p.lowpass_saturation.is_num(ONE)),
{
    lemma_planned(p, StageKind::Lowpass, space, scale, gear, lens_stage, plan);
    reveal(PreviewParams::active);
    reveal(PreviewParams::idle);
    reveal(PreviewParams::stage_of);
    reveal(PreviewParams::lowpass_neutral);
    assert forall|i: int| 0 <= i < plan.len() && #[trigger] plan[i] is Lowpass implies plan[i].kind()
        == StageKind::Lowpass by {}
    if p.active(StageKind::Lowpass, gear is Some, lens_stage) {
        let stage = p.stage_of(StageKind::Lowpass, space, scale, gear);
        let i = choose|i: int| 0 <= i < plan.len() && #[trigger] plan[i] == stage;
        assert(plan[i] is Lowpass);
    }
}

/// When colour correction is planned, and with which settings.
pub proof fn law_color_correction_stage(
    p: PreviewParams,
    space: ColorSpace,
    scale: F32,
    gear: Option<LensGear>,
    lens_stage: bool,
    plan: Seq<Stage>,
)
    requires
        plan == p.plan(space, scale, gear, lens_stage),
    ensures
        (exists|i: int| 0 <= i < plan.len() && #[trigger] plan[i] is ColorCorrection)
            <==> p.color_correction_on
            && !(p.color_correction_saturation.is_num(ONE)
            && p.color_correction_loa.is_num(ZERO)
            && p.color_correction_hia.is_num(ZERO)
            && p.color_correction_lob.is_num(ZERO)
            && p.color_correction_hib.is_num(ZERO)),
        forall|i: int|
            0 <= i < plan.len() ==> match #[trigger] plan[i] {
                Stage::ColorCorrection { loa, hia, lob, hib, saturation, space: sp } => {
                    &&& loa == p.color_correction_loa
                    &&& hia == p.color_correction_hia
                    &&& lob == p.color_correction_lob
                    &&& hib == p.color_correction_hib
                    &&& saturation == p.color_correction_saturation
                    &&& sp == space
                },
                _ => true,
            },
        p.identity() ==> !p.color_correction_on
            || (p.color_correction_saturation.is_num(ONE)
            && p.color_correction_loa.is_num(ZERO)
            && p.color_correction_hia.is_num(ZERO)
            && p.color_correction_lob.is_num(ZERO)
            && p.color_correction_hib.is_num(ZERO)),
{
    lemma_planned(p, StageKind::ColorCorrection, space, scale, gear, lens_stage, plan);
    reveal(PreviewParams::active);
    reveal(PreviewParams::idle);
    reveal(PreviewParams::stage_of);
    reveal(PreviewParams::color_correction_neutral);
    assert forall|i: int| 0 <= i < plan.len() && #[trigger] plan[i] is ColorCorrection implies plan[i].kind()
        == StageKind::ColorCorrection by {}
    if p.active(StageKind::ColorCorrection, gear is Some, lens_stage) {
        let stage = p.stage_of(StageKind::ColorCorrection, space, scale, gear);
        let i = choose|i: int| 0 <= i < plan.len() && #[trigger] plan[i] == stage;
        assert(plan[i] is ColorCorrection);
    }
}

/// When colour contrast is planned, and with which settings.
pub proof fn law_color_contrast_stage(
    p: PreviewParams,
    space: ColorSpace,
    scale: F32,
    gear: Option<LensGear>,
    lens_stage: bool,
    plan: Seq<Stage>,
)
    requires
        plan == p.plan(space, scale, gear, lens_stage),
    ensures
        (exists|i: int| 0 <= i < plan.len() && #[trigger] plan[i] is ColorContrast)
            <==> p.color_contrast_on
            && !(p.color_contrast_a_steepness.is_num(ONE)
            && p.color_contrast_b_steepness.is_num(ONE)),
        forall|i: int|
            0 <= i < plan.len() ==> match #[trigger] plan[i] {
                Stage::ColorContrast { a_steepness, b_steepness, space: sp } => {
                    &&& a_steepness == p.color_contrast_a_steepness
                    &&& b_steepness == p.color_contrast_b_steepness
                    &&& sp == space
                },
                _ => true,
            },
        p.identity() ==> !p.color_contrast_on
            || (p.color_contrast_a_steepness.is_num(ONE)
            && p.color_contrast_b_steepness.is_num(ONE)),
{
    lemma_planned(p, StageKind::ColorContrast, space, scale, gear, lens_stage, plan);
    reveal(PreviewParams::active);
    reveal(PreviewParams::idle);
    reveal(PreviewParams::stage_of);
    reveal(PreviewParams::color_contrast_neutral);
    assert forall|i: int| 0 <= i < plan.len() && #[trigger] plan[i] is ColorContrast implies plan[i].kind()
        == StageKind::ColorContrast by {}
    if p.active(StageKind::ColorContrast, gear is Some, lens_stage) {
        let stage = p.stage_of(StageKind::ColorContrast, space, scale, gear);
        let i = choose|i: int| 0 <= i < plan.len() && #[trigger] plan[i] == stage;
        assert(plan[i] is ColorContrast);
    }
}

/// When the colour zones are planned, and with which settings.
pub proof fn law_color_zones_stage(
    p: PreviewParams,
    space: ColorSpace,
    scale: F32,
    gear: Option<LensGear>,
    lens_stage: bool,
    plan: Seq<Stage>,
)
    requires
        plan == p.plan(space, scale, gear, lens_stage),
    ensures
        (exists|i: int| 0 <= i < plan.len() && #[trigger] plan[i] is ColorZones)
            <==> p.colorzones_on,
        forall|i: int|
            0 <= i < plan.len() ==> match #[trigger] plan[i] {
                Stage::ColorZones { strength, channel, mode, periodic, num_nodes, curve_type, curve_x, curve_y, space: sp } => {
                    &&& strength == p.colorzones_strength
                    &&& channel == as_i32(p.colorzones_channel)
                    &&& mode == as_i32(p.colorzones_mode)
                    &&& (periodic <==> channel == 2)
                    &&& num_nodes == p.colorzones_num_nodes
                    &&& curve_type == p.colorzones_curve_type
                    &&& curve_x == p.colorzones_curve_x
                    &&& curve_y == p.colorzones_curve_y
                    &&& sp == space
                },
                _ => true,
            },
        p.identity() ==> !p.colorzones_on,
{
    lemma_planned(p, StageKind::ColorZones, space, scale, gear, lens_stage, plan);
    reveal(PreviewParams::active);
    reveal(PreviewParams::idle);
    reveal(PreviewParams::stage_of);
    assert forall|i: int| 0 <= i < plan.len() && #[trigger] plan[i] is ColorZones implies plan[i].kind()
        == StageKind::ColorZones by {}
    if p.active(StageKind::ColorZones, gear is Some, lens_stage) {
        let stage = p.stage_of(StageKind::ColorZones, space, scale, gear);
        let i = choose|i: int| 0 <= i < plan.len() && #[trigger] plan[i] == stage;
        assert(plan[i] is ColorZones);
    }
}

/// When sigmoid is planned, and with which settings.
pub proof fn law_sigmoid_stage(
    p: PreviewParams,
    space: ColorSpace,
    scale: F32,
    gear: Option<LensGear>,
    lens_stage: bool,
    plan: Seq<Stage>,
)
    requires
        plan == p.plan(space, scale, gear, lens_stage),
    ensures
        (exists|i: int| 0 <= i < plan.len() && #[trigger] plan[i] is Sigmoid)
            <==> p.sigmoid_on,
        forall|i: int|
            0 <= i < plan.len() ==> match #[trigger] plan[i] {
                Stage::Sigmoid { contrast, skew } => {
                    &&& contrast == p.sigmoid_contrast
                    &&& skew == p.sigmoid_skew
                },
                _ => true,
            },
        p.identity() ==> !p.sigmoid_on,
{
    lemma_planned(p, StageKind::Sigmoid, space, scale, gear, lens_stage, plan);
    reveal(PreviewParams::active);
    reveal(PreviewParams::idle);
    reveal(PreviewParams::stage_of);
    assert forall|i: int| 0 <= i < plan.len() && #[trigger] plan[i] is Sigmoid implies plan[i].kind()
        == StageKind::Sigmoid by {}
    if p.active(StageKind::Sigmoid, gear is Some, lens_stage) {
        let stage = p.stage_of(StageKind::Sigmoid, space, scale, gear);
        let i = choose|i: int| 0 <= i < plan.len() && #[trigger] plan[i] == stage;
        assert(plan[i] is Sigmoid);
    }
}

/// When filmic is planned, and with which settings.
pub proof fn law_filmic_rgb_stage(
    p: PreviewParams,
    space: ColorSpace,
    scale: F32,
    gear: Option<LensGear>,
    lens_stage: bool,
    plan: Seq<Stage>,
)
    requires
        plan == p.plan(space, scale, gear, lens_stage),
    ensures
        (exists|i: int| 0 <= i < plan.len() && #[trigger] plan[i] is FilmicRgb)
            <==> p.filmic_on,
        forall|i: int|
            0 <= i < plan.len() ==> match #[trigger] plan[i] {
                Stage::FilmicRgb { filmic, space: sp } => {
                    &&& filmic.black_point_source == p.filmic_black_point_source
                    &&& filmic.white_point_source == p.filmic_white_point_source
                    &&& filmic.grey_point_target.bits == FILMIC_GREY_TARGET
                    &&& filmic.black_point_target.bits == FILMIC_BLACK_TARGET
                    &&& filmic.white_point_target.bits == FILMIC_WHITE_TARGET
                    &&& filmic.output_power == p.filmic_output_power
                    &&& filmic.latitude == p.filmic_latitude
                    &&& filmic.contrast == p.filmic_contrast
                    &&& filmic.balance == p.filmic_balance
                    &&& filmic.saturation == p.filmic_saturation
                    &&& !filmic.custom_grey
                    &&& sp == space
                },
                _ => true,
            },
        p.identity() ==> !p.filmic_on,
{
    lemma_planned(p, StageKind::FilmicRgb, space, scale, gear, lens_stage, plan);
    reveal(PreviewParams::active);
    reveal(PreviewParams::idle);
    reveal(PreviewParams::stage_of);
    assert forall|i: int| 0 <= i < plan.len() && #[trigger] plan[i] is FilmicRgb implies plan[i].kind()
        == StageKind::FilmicRgb by {}
    if p.active(StageKind::FilmicRgb, gear is Some, lens_stage) {
        let stage = p.stage_of(StageKind::FilmicRgb, space, scale, gear);
        let i = choose|i: int| 0 <= i < plan.len() && #[trigger] plan[i] == stage;
        assert(plan[i] is FilmicRgb);
    }
}

/// When contrast, brightness and saturation are planned, and with which settings.
pub proof fn law_colisa_stage(
    p: PreviewParams,
    space: ColorSpace,
    scale: F32,
    gear: Option<LensGear>,
    lens_stage: bool,
    plan: Seq<Stage>,
)
    requires
        plan == p.plan(space, scale, gear, lens_stage),
    ensures
        (exists|i: int| 0 <= i < plan.len() && #[trigger] plan[i] is Colisa)
            <==> p.colisa_on
            && !(p.colisa_contrast.is_num(ZERO)
            && p.colisa_brightness.is_num(ZERO)
            && p.colisa_saturation.is_num(ZERO)),
        forall|i: int|
            0 <= i < plan.len() ==> match #[trigger] plan[i] {
                Stage::Colisa { contrast, brightness, saturation, space: sp } => {
                    &&& contrast == p.colisa_contrast
                    &&& brightness == p.colisa_brightness
                    &&& saturation == p.colisa_saturation
                    &&& sp == space
                },
                _ => true,
            },
        p.identity() ==> !p.colisa_on
            || (p.colisa_contrast.is_num(ZERO)
            && p.colisa_brightness.is_num(ZERO)
            && p.colisa_saturation.is_num(ZERO)),
{
    lemma_planned(p, StageKind::Colisa, space, scale, gear, lens_stage, plan);
    reveal(PreviewParams::active);
    reveal(PreviewParams::idle);
    reveal(PreviewParams::stage_of);
    reveal(PreviewParams::colisa_neutral);
    assert forall|i: int| 0 <= i < plan.len() && #[trigger] plan[i] is Colisa implies plan[i].kind()
        == StageKind::Colisa by {}
    if p.active(StageKind::Colisa, gear is Some, lens_stage) {
        let stage = p.stage_of(StageKind::Colisa, space, scale, gear);
        let i = choose|i: int| 0 <= i < plan.len() && #[trigger] plan[i] == stage;
        assert(plan[i] is Colisa);
    }
}

/// When the tone curve is planned, and with which settings.
pub proof fn law_tone_curve_stage(
    p: PreviewParams,
    space: ColorSpace,
    scale: F32,
    gear: Option<LensGear>,
    lens_stage: bool,
    plan: Seq<Stage>,
)
    requires
        plan == p.plan(space, scale, gear, lens_stage),
    ensures
        (exists|i: int| 0 <= i < plan.len() && #[trigger] plan[i] is ToneCurve)
            <==> p.tc_on,
        forall|i: int|
            0 <= i < plan.len() ==> match #[trigger] plan[i] {
                Stage::ToneCurve { nodes, spline, autoscale_ab, unbound_ab, preserve_colors, space: sp } => {
                    &&& nodes == pinned_curve(p.tc_nnodes, p.tc_nodes_l)
                    &&& spline == as_i32(p.tc_type)
                    &&& autoscale_ab == as_i32(p.tc_autoscale)
                    &&& unbound_ab == p.tc_unbound
                    &&& preserve_colors == as_i32(p.tc_preserve)
                    &&& sp == space
                },
                _ => true,
            },
        p.identity() ==> !p.tc_on,
{
    lemma_planned(p, StageKind::ToneCurve, space, scale, gear, lens_stage, plan);
    reveal(PreviewParams::active);
    reveal(PreviewParams::idle);
    reveal(PreviewParams::stage_of);
    assert forall|i: int| 0 <= i < plan.len() && #[trigger] plan[i] is ToneCurve implies plan[i].kind()
        == StageKind::ToneCurve by {}
    if p.active(StageKind::ToneCurve, gear is Some, lens_stage) {
        let stage = p.stage_of(StageKind::ToneCurve, space, scale, gear);
        let i = choose|i: int| 0 <= i < plan.len() && #[trigger] plan[i] == stage;
        assert(plan[i] is ToneCurve);
    }
}

/// When levels are planned, and with which settings.
pub proof fn law_levels_stage(
    p: PreviewParams,
    space: ColorSpace,
    scale: F32,
    gear: Option<LensGear>,
    lens_stage: bool,
    plan: Seq<Stage>,
)
    requires
        plan == p.plan(space, scale, gear, lens_stage),
    ensures
        (exists|i: int| 0 <= i < plan.len() && #[trigger] plan[i] is Levels)
            <==> (p.levels_on
            && !p.levels_black.nan()
            && !p.levels_white.nan()
            && p.levels_white.units() - p.levels_black.units() >= pow2(149) - pow2(124)
            && !(p.levels_black.is_num(ZERO)
            && p.levels_grey.is_num(LEVELS_GREY)
            && p.levels_white.is_num(LEVELS_WHITE))),
        forall|i: int|
            0 <= i < plan.len() ==> match #[trigger] plan[i] {
                Stage::Levels { black, grey, white, space: sp } => {
                    &&& black == p.levels_black
                    &&& grey == p.levels_grey
                    &&& white == p.levels_white
                    &&& sp == space
                },
                _ => true,
            },
        p.identity() ==> !(p.levels_on
            && !p.levels_black.nan()
            && !p.levels_white.nan()
            && p.levels_white.units() - p.levels_black.units() >= pow2(149) - pow2(124)
            && !(p.levels_black.is_num(ZERO)
            && p.levels_grey.is_num(LEVELS_GREY)
            && p.levels_white.is_num(LEVELS_WHITE))),
{
    lemma_planned(p, StageKind::Levels, space, scale, gear, lens_stage, plan);
    reveal(PreviewParams::active);
    reveal(PreviewParams::idle);
    reveal(PreviewParams::stage_of);
    reveal(PreviewParams::levels_active);
    reveal(F32::spans_one);
    assert forall|i: int| 0 <= i < plan.len() && #[trigger] plan[i] is Levels implies plan[i].kind()
        == StageKind::Levels by {}
    if p.active(StageKind::Levels, gear is Some, lens_stage) {
        let stage = p.stage_of(StageKind::Levels, space, scale, gear);
        let i = choose|i: int| 0 <= i < plan.len() && #[trigger] plan[i] == stage;
        assert(plan[i] is Levels);
    }
}

/// When velvia is planned, and with which settings.
pub proof fn law_velvia_stage(
    p: PreviewParams,
    space: ColorSpace,
    scale: F32,
    gear: Option<LensGear>,
    lens_stage: bool,
    plan: Seq<Stage>,
)
    requires
        plan == p.plan(space, scale, gear, lens_stage),
    ensures
        (exists|i: int| 0 <= i < plan.len() && #[trigger] plan[i] is Velvia)
            <==> p.velvia_on
            && p.velvia_strength.positive(),
        forall|i: int|
            0 <= i < plan.len() ==> match #[trigger] plan[i] {
                Stage::Velvia { strength, bias } => {
                    &&& strength == p.velvia_strength
                    &&& bias == p.velvia_bias
                },
                _ => true,
            },
        p.identity() ==> !p.velvia_on
            || p.velvia_strength.not_positive(),
{
    lemma_planned(p, StageKind::Velvia, space, scale, gear, lens_stage, plan);
    reveal(PreviewParams::active);
    reveal(PreviewParams::idle);
    reveal(PreviewParams::stage_of);
    assert forall|i: int| 0 <= i < plan.len() && #[trigger] plan[i] is Velvia implies plan[i].kind()
        == StageKind::Velvia by {}
    if p.active(StageKind::Velvia, gear is Some, lens_stage) {
        let stage = p.stage_of(StageKind::Velvia, space, scale, gear);
        let i = choose|i: int| 0 <= i < plan.len() && #[trigger] plan[i] == stage;
        assert(plan[i] is Velvia);
    }
}

/// When bloom is planned, and with which settings.
pub proof fn law_bloom_stage(
    p: PreviewParams,
    space: ColorSpace,
    scale: F32,
    gear: Option<LensGear>,
    lens_stage: bool,
    plan: Seq<Stage>,
)
    requires
        plan == p.plan(space, scale, gear, lens_stage),
    ensures
        (exists|i: int| 0 <= i < plan.len() && #[trigger] plan[i] is Bloom)
            <==> p.bl_on,
        forall|i: int|
            0 <= i < plan.len() ==> match #[trigger] plan[i] {
                Stage::Bloom { size, threshold, strength, space: sp } => {
                    &&& size == p.bl_size
                    &&& threshold == p.bl_threshold
                    &&& strength == p.bl_strength
                    &&& sp == space
                },
                _ => true,
            },
        p.identity() ==> !p.bl_on,
{
    lemma_planned(p, StageKind::Bloom, space, scale, gear, lens_stage, plan);
    reveal(PreviewParams::active);
    reveal(PreviewParams::idle);
    reveal(PreviewParams::stage_of);
    assert forall|i: int| 0 <= i < plan.len() && #[trigger] plan[i] is Bloom implies plan[i].kind()
        == StageKind::Bloom by {}
    if p.active(StageKind::Bloom, gear is Some, lens_stage) {
        let stage = p.stage_of(StageKind::Bloom, space, scale, gear);
        let i = choose|i: int| 0 <= i < plan.len() && #[trigger] plan[i] == stage;
        assert(plan[i] is Bloom);
    }
}

/// When colorize is planned, and with which settings.
pub proof fn law_colorize_stage(
    p: PreviewParams,
    space: ColorSpace,
    scale: F32,
    gear: Option<LensGear>,
    lens_stage: bool,
    plan: Seq<Stage>,
)
    requires
        plan == p.plan(space, scale, gear, lens_stage),
    ensures
        (exists|i: int| 0 <= i < plan.len() && #[trigger] plan[i] is Colorize)
            <==> p.colorize_on,
        forall|i: int|
            0 <= i < plan.len() ==> match #[trigger] plan[i] {
                Stage::Colorize { hue, sat, lightness, lightness_mix, space: sp } => {
                    &&& hue == p.colorize_hue
                    &&& sat == p.colorize_sat
                    &&& lightness == p.colorize_lightness
                    &&& lightness_mix == p.colorize_lightness_mix
                    &&& sp == space
                },
                _ => true,
            },
        p.identity() ==> !p.colorize_on,
{
    lemma_planned(p, StageKind::Colorize, space, scale, gear, lens_stage, plan);
    reveal(PreviewParams::active);
    reveal(PreviewParams::idle);
    reveal(PreviewParams::stage_of);
    assert forall|i: int| 0 <= i < plan.len() && #[trigger] plan[i] is Colorize implies plan[i].kind()
        == StageKind::Colorize by {}
    if p.active(StageKind::Colorize, gear is Some, lens_stage) {
        let stage = p.stage_of(StageKind::Colorize, space, scale, gear);
        let i = choose|i: int| 0 <= i < plan.len() && #[trigger] plan[i] == stage;
        assert(plan[i] is Colorize);
    }
}

/// When split toning is planned, and with which settings.
pub proof fn law_splittoning_stage(
    p: PreviewParams,
    space: ColorSpace,
    scale: F32,
    gear: Option<LensGear>,
    lens_stage: bool,
    plan: Seq<Stage>,
)
    requires
        plan == p.plan(space, scale, gear, lens_stage),
    ensures
        (exists|i: int| 0 <= i < plan.len() && #[trigger] plan[i] is Splittoning)
            <==> p.split_on,
        forall|i: int|
            0 <= i < plan.len() ==> match #[trigger] plan[i] {
                Stage::Splittoning { shadow_hue, shadow_sat, highlight_hue, highlight_sat, balance, compress } => {
                    &&& shadow_hue == p.split_shadow_hue
                    &&& shadow_sat == p.split_shadow_sat
                    &&& highlight_hue == p.split_highlight_hue
                    &&& highlight_sat == p.split_highlight_sat
                    &&& balance == p.split_balance
                    &&& compress == p.split_compress
                },
                _ => true,
            },
        p.identity() ==> !p.split_on,
{
    lemma_planned(p, StageKind::Splittoning, space, scale, gear, lens_stage, plan);
    reveal(PreviewParams::active);
    reveal(PreviewParams::idle);
    reveal(PreviewParams::stage_of);
    assert forall|i: int| 0 <= i < plan.len() && #[trigger] plan[i] is Splittoning implies plan[i].kind()
        == StageKind::Splittoning by {}
    if p.active(StageKind::Splittoning, gear is Some, lens_stage) {
        let stage = p.stage_of(StageKind::Splittoning, space, scale, gear);
        let i = choose|i: int| 0 <= i < plan.len() && #[trigger] plan[i] == stage;
        assert(plan[i] is Splittoning);
    }
}

/// When lowlight vision is planned, and with which settings.
pub proof fn law_lowlight_stage(
    p: PreviewParams,
    space: ColorSpace,
    scale: F32,
    gear: Option<LensGear>,
    lens_stage: bool,
    plan: Seq<Stage>,
)
    requires
        plan == p.plan(space, scale, gear, lens_stage),
    ensures
        (exists|i: int| 0 <= i < plan.len() && #[trigger] plan[i] is Lowlight)
            <==> p.lowlight_on,
        forall|i: int|
            0 <= i < plan.len() ==> match #[trigger] plan[i] {
                Stage::Lowlight { blueness, transition, space: sp } => {
                    &&& blueness == p.lowlight_blueness
                    &&& transition == p.lowlight_transition
                    &&& sp == space
                },
                _ => true,
            },
        p.identity() ==> !p.lowlight_on,
{
    lemma_planned(p, StageKind::Lowlight, space, scale, gear, lens_stage, plan);
    reveal(PreviewParams::active);
    reveal(PreviewParams::idle);
    reveal(PreviewParams::stage_of);
    assert forall|i: int| 0 <= i < plan.len() && #[trigger] plan[i] is Lowlight implies plan[i].kind()
        == StageKind::Lowlight by {}
    if p.active(StageKind::Lowlight, gear is Some, lens_stage) {
        let stage = p.stage_of(StageKind::Lowlight, space, scale, gear);
        let i = choose|i: int| 0 <= i < plan.len() && #[trigger] plan[i] == stage;
        assert(plan[i] is Lowlight);
    }
}

/// When vignetting is planned, and with which settings.
pub proof fn law_vignette_stage(
    p: PreviewParams,
    space: ColorSpace,
    scale: F32,
    gear: Option<LensGear>,
    lens_stage: bool,
    plan: Seq<Stage>,
)
    requires
        plan == p.plan(space, scale, gear, lens_stage),
    ensures
        (exists|i: int| 0 <= i < plan.len() && #[trigger] plan[i] is Vignette)
            <==> p.vignette_on
            && !(p.vignette_brightness.is_num(ZERO)
            && p.vignette_saturation.is_num(ZERO)),
        forall|i: int|
            0 <= i < plan.len() ==> match #[trigger] plan[i] {
                Stage::Vignette { scale: sc, falloff, brightness, saturation, center_x, center_y, shape } => {
                    &&& sc == p.vignette_scale
                    &&& falloff == p.vignette_falloff
                    &&& brightness == p.vignette_brightness
                    &&& saturation == p.vignette_saturation
                    &&& center_x == p.vignette_center_x
                    &&& center_y == p.vignette_center_y
                    &&& shape == p.vignette_shape
                },
                _ => true,
            },
        p.identity() ==> !p.vignette_on
            || (p.vignette_brightness.is_num(ZERO)
            && p.vignette_saturation.is_num(ZERO)),
{
    lemma_planned(p, StageKind::Vignette, space, scale, gear, lens_stage, plan);
    reveal(PreviewParams::active);
    reveal(PreviewParams::idle);
    reveal(PreviewParams::stage_of);
    reveal(PreviewParams::vignette_neutral);
    assert forall|i: int| 0 <= i < plan.len() && #[trigger] plan[i] is Vignette implies plan[i].kind()
        == StageKind::Vignette by {}
    if p.active(StageKind::Vignette, gear is Some, lens_stage) {
        let stage = p.stage_of(StageKind::Vignette, space, scale, gear);
        let i = choose|i: int| 0 <= i < plan.len() && #[trigger] plan[i] == stage;
        assert(plan[i] is Vignette);
    }
}

/// An edit leaves the image as it is exactly where highlights are not reconstructed and each
/// module is off or at settings that change nothing.
pub proof fn law_identity_is_every_module_at_rest(p: PreviewParams)
    ensures
        p.identity() <==> {
            &&& !p.hl_on
            &&& !p.invert_on
            &&& (!p.temperature_on
                || (p.temperature_r.is_num(ONE)
                && p.temperature_g.is_num(ONE)
                && p.temperature_b.is_num(ONE)))
            &&& !p.dn_on
            &&& !p.lens_on
            &&& (!p.exposure_on
                || (p.ev.is_num(ZERO)
                && p.black.is_num(ZERO)))
            &&& (!p.toneeq_on
                || (p.toneeq_noise.is_num(ZERO)
                && p.toneeq_ultra_deep_blacks.is_num(ZERO)
                && p.toneeq_deep_blacks.is_num(ZERO)
                && p.toneeq_blacks.is_num(ZERO)
                && p.toneeq_shadows.is_num(ZERO)
                && p.toneeq_midtones.is_num(ZERO)
                && p.toneeq_highlights.is_num(ZERO)
                && p.toneeq_whites.is_num(ZERO)
                && p.toneeq_speculars.is_num(ZERO)))
            &&& (!p.gradnd_on
                || (p.gradnd_density.is_num(ZERO)))
            &&& !p.negadoctor_on
            &&& (!p.primaries_on
                || (p.primaries_achromatic_tint_hue.is_num(ZERO)
                && p.primaries_achromatic_tint_purity.is_num(ZERO)
                && p.primaries_red_hue.is_num(ZERO)
                && p.primaries_red_purity.is_num(ONE)
                && p.primaries_green_hue.is_num(ZERO)
                && p.primaries_green_purity.is_num(ONE)
                && p.primaries_blue_hue.is_num(ZERO)
                && p.primaries_blue_purity.is_num(ONE)))
            &&& !p.mono_on
            &&& (!p.sharpen_on
                || p.sharpen_amount.not_positive()
                || p.sharpen_radius.not_positive())
            &&& (!p.vibrance_on
                || p.vibrance_amount.not_positive())
            &&& (!p.basicadj_on
                || (p.basicadj_black_point.is_num(ZERO)
                && p.basicadj_exposure.is_num(ZERO)
                && p.basicadj_hlcompr.is_num(ZERO)
                && p.basicadj_contrast.is_num(ZERO)
                && p.basicadj_brightness.is_num(ZERO)
                && p.basicadj_saturation.is_num(ZERO)
                && p.basicadj_vibrance.is_num(ZERO)))
            &&& (!p.cb_on
                || (p.cb_shadows_y.is_num(ZERO)
                && p.cb_shadows_c.is_num(ZERO)
                && p.cb_shadows_h.is_num(ZERO)
                && p.cb_midtones_y.is_num(ZERO)
                && p.cb_midtones_c.is_num(ZERO)
                && p.cb_midtones_h.is_num(ZERO)
                && p.cb_highlights_y.is_num(ZERO)
                && p.cb_highlights_c.is_num(ZERO)
                && p.cb_highlights_h.is_num(ZERO)
                && p.cb_global_y.is_num(ZERO)
                && p.cb_global_c.is_num(ZERO)
                && p.cb_global_h.is_num(ZERO)
                && p.cb_shadows_weight.is_num(ONE)
                && p.cb_white_fulcrum.is_num(ZERO)
                && p.cb_highlights_weight.is_num(ONE)
                && p.cb_chroma_shadows.is_num(ZERO)
                && p.cb_chroma_highlights.is_num(ZERO)
                && p.cb_chroma_global.is_num(ZERO)
                && p.cb_chroma_midtones.is_num(ZERO)
                && p.cb_saturation_global.is_num(ZERO)
                && p.cb_saturation_highlights.is_num(ZERO)
                && p.cb_saturation_midtones.is_num(ZERO)
                && p.cb_saturation_shadows.is_num(ZERO)
                && p.cb_hue_angle.is_num(ZERO)
                && p.cb_brilliance_global.is_num(ZERO)
                && p.cb_brilliance_highlights.is_num(ZERO)
                && p.cb_brilliance_midtones.is_num(ZERO)
                && p.cb_brilliance_shadows.is_num(ZERO)
                && p.cb_mask_grey_fulcrum.is_num(GREY_FULCRUM)
                && p.cb_vibrance.is_num(ZERO)
                && p.cb_grey_fulcrum.is_num(GREY_FULCRUM)
                && p.cb_contrast.is_num(ZERO)
                && !p.cb_formula.ltv(F32 { bits: HALF })))
            &&& !p.rc_on
            &&& !p.bc_on
            &&& (!p.shadhi_on
                || (p.shadhi_shadows.is_num(ZERO)
                && p.shadhi_highlights.is_num(ZERO)
                && p.shadhi_whitepoint.is_num(ZERO)))
            &&& (!p.lowpass_on
                || (p.lowpass_contrast.is_num(ONE)
                && p.lowpass_brightness.is_num(ZERO)
                && p.lowpass_saturation.is_num(ONE)))
            &&& (!p.color_correction_on
                || (p.color_correction_saturation.is_num(ONE)
                && p.color_correction_loa.is_num(ZERO)
                && p.color_correction_hia.is_num(ZERO)
                && p.color_correction_lob.is_num(ZERO)
                && p.color_correction_hib.is_num(ZERO)))
            &&& (!p.color_contrast_on
                || (p.color_contrast_a_steepness.is_num(ONE)
                && p.color_contrast_b_steepness.is_num(ONE)))
            &&& !p.colorzones_on
            &&& !p.sigmoid_on
            &&& !p.filmic_on
            &&& (!p.colisa_on
                || (p.colisa_contrast.is_num(ZERO)
                && p.colisa_brightness.is_num(ZERO)
                && p.colisa_saturation.is_num(ZERO)))
            &&& !p.tc_on
            &&& (!(p.levels_on
                && !p.levels_black.nan()
                && !p.levels_white.nan()
                && p.levels_white.units() - p.levels_black.units() >= pow2(149) - pow2(124)
                && !(p.levels_black.is_num(ZERO)
                && p.levels_grey.is_num(LEVELS_GREY)
                && p.levels_white.is_num(LEVELS_WHITE))))
            &&& (!p.velvia_on
                || p.velvia_strength.not_positive())
            &&& !p.bl_on
            &&& !p.colorize_on
            &&& !p.split_on
            &&& !p.lowlight_on
            &&& (!p.vignette_on
                || (p.vignette_brightness.is_num(ZERO)
                && p.vignette_saturation.is_num(ZERO)))
        },
{
    reveal(PreviewParams::idle);
    reveal(PreviewParams::temperature_neutral);
    reveal(PreviewParams::exposure_neutral);
    reveal(PreviewParams::toneeq_neutral);
    reveal(PreviewParams::gradnd_neutral);
    reveal(PreviewParams::primaries_neutral);
    reveal(PreviewParams::basicadj_neutral);
    reveal(PreviewParams::cb_neutral);
    reveal(PreviewParams::shadhi_neutral);
    reveal(PreviewParams::lowpass_neutral);
    reveal(PreviewParams::color_correction_neutral);
    reveal(PreviewParams::color_contrast_neutral);
    reveal(PreviewParams::colisa_neutral);
    reveal(PreviewParams::levels_active);
    reveal(PreviewParams::vignette_neutral);
    reveal(F32::spans_one);
    let invert = p.idle(StageKind::Invert);
    let temperature = p.idle(StageKind::Temperature);
    let denoise_profile = p.idle(StageKind::DenoiseProfile);
    let lens_correction = p.idle(StageKind::LensCorrection);
    let exposure = p.idle(StageKind::Exposure);
    let tone_equal = p.idle(StageKind::ToneEqual);
    let graduated_nd = p.idle(StageKind::GraduatedNd);
    let negadoctor = p.idle(StageKind::Negadoctor);
    let primaries = p.idle(StageKind::Primaries);
    let monochrome = p.idle(StageKind::Monochrome);
    let sharpen = p.idle(StageKind::Sharpen);
    let vibrance = p.idle(StageKind::Vibrance);
    let basicadj = p.idle(StageKind::Basicadj);
    let color_balance_rgb = p.idle(StageKind::ColorBalanceRgb);
    let rgb_curve = p.idle(StageKind::RgbCurve);
    let basecurve = p.idle(StageKind::Basecurve);
    let shadhi = p.idle(StageKind::Shadhi);
    let lowpass = p.idle(StageKind::Lowpass);
    let color_correction = p.idle(StageKind::ColorCorrection);
    let color_contrast = p.idle(StageKind::ColorContrast);
    let color_zones = p.idle(StageKind::ColorZones);
    let sigmoid = p.idle(StageKind::Sigmoid);
    let filmic_rgb = p.idle(StageKind::FilmicRgb);
    let colisa = p.idle(StageKind::Colisa);
    let tone_curve = p.idle(StageKind::ToneCurve);
    let levels = p.idle(StageKind::Levels);
    let velvia = p.idle(StageKind::Velvia);
    let bloom = p.idle(StageKind::Bloom);
    let colorize = p.idle(StageKind::Colorize);
    let splittoning = p.idle(StageKind::Splittoning);
    let lowlight = p.idle(StageKind::Lowlight);
    let vignette = p.idle(StageKind::Vignette);
    if !p.hl_on
        && invert
        && temperature
        && denoise_profile
        && lens_correction
        && exposure
        && tone_equal
        && graduated_nd
        && negadoctor
        && primaries
        && monochrome
        && sharpen
        && vibrance
        && basicadj
        && color_balance_rgb
        && rgb_curve
        && basecurve
        && shadhi
        && lowpass
        && color_correction
        && color_contrast
        && color_zones
        && sigmoid
        && filmic_rgb
        && colisa
        && tone_curve
        && levels
        && velvia
        && bloom
        && colorize
        && splittoning
        && lowlight
        && vignette
    {
        assert forall|kind: StageKind| #[trigger] p.idle(kind) by {
            match kind {
                StageKind::Invert => {},
                StageKind::Temperature => {},
                StageKind::DenoiseProfile => {},
                StageKind::LensCorrection => {},
                StageKind::Exposure => {},
                StageKind::ToneEqual => {},
                StageKind::GraduatedNd => {},
                StageKind::Negadoctor => {},
                StageKind::Primaries => {},
                StageKind::Monochrome => {},
                StageKind::Sharpen => {},
                StageKind::Vibrance => {},
                StageKind::Basicadj => {},
                StageKind::ColorBalanceRgb => {},
                StageKind::RgbCurve => {},
                StageKind::Basecurve => {},
                StageKind::Shadhi => {},
                StageKind::Lowpass => {},
                StageKind::ColorCorrection => {},
                StageKind::ColorContrast => {},
                StageKind::ColorZones => {},
                StageKind::Sigmoid => {},
                StageKind::FilmicRgb => {},
                StageKind::Colisa => {},
                StageKind::ToneCurve => {},
                StageKind::Levels => {},
                StageKind::Velvia => {},
                StageKind::Bloom => {},
                StageKind::Colorize => {},
                StageKind::Splittoning => {},
                StageKind::Lowlight => {},
                StageKind::Vignette => {},
            }
        }
    }
}

/// Stages run in the canonical order.
pub proof fn law_stages_run_in_order(
    p: PreviewParams,
    space: ColorSpace,
    scale: F32,
    gear: Option<LensGear>,
    lens_stage: bool,
    plan: Seq<Stage>,
    i: int,
    j: int,
)
    requires
        plan == p.plan(space, scale, gear, lens_stage),
        0 <= i < j < plan.len(),
    ensures
        ({
            let place = |stage: Stage|
                match stage {
                    Stage::Invert { .. } => 0int,
                    Stage::Temperature { .. } => 1int,
                    Stage::DenoiseProfile { .. } => 2int,
                    Stage::LensCorrection { .. } => 3int,
                    Stage::Exposure { .. } => 4int,
                    Stage::ToneEqual { .. } => 5int,
                    Stage::GraduatedNd { .. } => 6int,
                    Stage::Negadoctor { .. } => 7int,
                    Stage::Primaries { .. } => 8int,
                    Stage::Monochrome { .. } => 9int,
                    Stage::Sharpen { .. } => 10int,
                    Stage::Vibrance { .. } => 11int,
                    Stage::Basicadj { .. } => 12int,
                    Stage::ColorBalanceRgb { .. } => 13int,
                    Stage::RgbCurve { .. } => 14int,
                    Stage::Basecurve { .. } => 15int,
                    Stage::Shadhi { .. } => 16int,
                    Stage::Lowpass { .. } => 17int,
                    Stage::ColorCorrection { .. } => 18int,
                    Stage::ColorContrast { .. } => 19int,
                    Stage::ColorZones { .. } => 20int,
                    Stage::Sigmoid { .. } => 21int,
                    Stage::FilmicRgb { .. } => 22int,
                    Stage::Colisa { .. } => 23int,
                    Stage::ToneCurve { .. } => 24int,
                    Stage::Levels { .. } => 25int,
                    Stage::Velvia { .. } => 26int,
                    Stage::Bloom { .. } => 27int,
                    Stage::Colorize { .. } => 28int,
                    Stage::Splittoning { .. } => 29int,
                    Stage::Lowlight { .. } => 30int,
                    Stage::Vignette { .. } => 31int,
                };
            place(plan[i]) < place(plan[j])
        }),
{
    law_plan_keeps_the_order(p, space, scale, gear, lens_stage, i, j);
}

/// An integer control: the stored number with its fraction cut off, at the nearer end of the
/// range where it lies outside, zero where it is no number.
pub proof fn law_integer_control(x: F32)
    ensures
        x.nan() ==> as_i32(x) == 0,
        !x.nan() && 0 <= x.units() < (i32::MAX + 1) * pow2(149) ==> 0 <= x.units() - as_i32(x)
            * pow2(149) < pow2(149),
        !x.nan() && (i32::MIN - 1) * pow2(149) < x.units() <= 0 ==> 0 <= as_i32(x) * pow2(149)
            - x.units() < pow2(149),
        !x.nan() && x.units() >= i32::MAX * pow2(149) ==> as_i32(x) == i32::MAX,
        !x.nan() && x.units() <= i32::MIN * pow2(149) ==> as_i32(x) == i32::MIN,
{
    law_trunc_cuts_the_fraction(x);
    if !x.nan() {
        let (t, u, p) = (x.trunc(), x.units(), pow2(149) as int);
        assert(u >= i32::MAX * p ==> t >= i32::MAX) by (nonlinear_arith)
            requires
                u >= 0 ==> 0 <= u - t * p < p,
                p > 0,
        ;
        assert(u <= i32::MIN * p ==> t <= i32::MIN) by (nonlinear_arith)
            requires
                u <= 0 ==> 0 <= t * p - u < p,
                p > 0,
        ;
        assert(0 <= u < (i32::MAX + 1) * p ==> 0 <= t <= i32::MAX) by (nonlinear_arith)
            requires
                u >= 0 ==> 0 <= u - t * p < p,
                p > 0,
        ;
        assert((i32::MIN - 1) * p < u <= 0 ==> i32::MIN <= t <= 0) by (nonlinear_arith)
            requires
                u <= 0 ==> 0 <= t * p - u < p,
                p > 0,
        ;
    }
}

/// What the named numbers of the plan stand for. A pattern is that of the number nearest to a
/// decimal fraction: 0.1845 for middle grey; 18.45, 0.01517634 and 100 for the targets of the
/// filmic transform; 50 and 100 for the default points of levels.
pub proof fn law_named_settings()
    ensures
        (F32 { bits: MIN_POSITIVE }).units() == pow2(23),
        (F32 { bits: LEVELS_GREY }).units() == 50 * pow2(149),
        (F32 { bits: LEVELS_WHITE }).units() == 100 * pow2(149),
        (F32 { bits: FILMIC_WHITE_TARGET }).units() == 100 * pow2(149),
        -10000 * pow2(123) <= 2 * (10000 * (F32 { bits: GREY_FULCRUM }).units() - 1845 * pow2(149))
            <= 10000 * pow2(123),
        -100 * pow2(130) <= 2 * (100 * (F32 { bits: FILMIC_GREY_TARGET }).units() - 1845 * pow2(
            149,
        )) <= 100 * pow2(130),
        -100000000 * pow2(119) <= 2 * (100000000 * (F32 { bits: FILMIC_BLACK_TARGET }).units()
            - 1517634 * pow2(149)) <= 100000000 * pow2(119),
{
    lemma2_to64();
    lemma_pow2_adds(26, 123);
    lemma_pow2_adds(19, 130);
    lemma_pow2_adds(30, 119);
    lemma_pow2_adds(18, 131);
    lemma_pow2_adds(17, 132);
    let (a, b, c, d, e) = (
        pow2(123) as int,
        pow2(130) as int,
        pow2(119) as int,
        pow2(131) as int,
        pow2(132) as int,
    );
    assert(pow2(149) == 0x400_0000 * a);
    assert(pow2(149) == 0x8_0000 * b);
    assert(pow2(149) == 0x4000_0000 * c);
    assert(pow2(149) == 0x4_0000 * d);
    assert(pow2(149) == 0x2_0000 * e);
    assert(a > 0 && b > 0 && c > 0) by {
        lemma_pow2_pos(123);
        lemma_pow2_pos(130);
        lemma_pow2_pos(119);
    }
    assert((F32 { bits: GREY_FULCRUM }).units() == 0xbced91 * a);
    assert((F32 { bits: FILMIC_GREY_TARGET }).units() == 0x93999a * b);
    assert((F32 { bits: FILMIC_BLACK_TARGET }).units() == 0xf8a62f * c);
    assert((F32 { bits: LEVELS_GREY }).units() == 0xc80000 * d);
    assert((F32 { bits: LEVELS_WHITE }).units() == 0xc80000 * e);
    assert((F32 { bits: MIN_POSITIVE }).units() == 0x80_0000 * pow2(0));
}

/// White balance is never skipped where it changes the image: while it is on, a multiplier
/// that is not one, whichever it is, has its stage planned with the three multipliers, and
/// the edit does not count as leaving the image as it is. Three ones plan no stage.
pub proof fn law_white_balance_is_never_skipped(
    p: PreviewParams,
    space: ColorSpace,
    scale: F32,
    gear: Option<LensGear>,
    lens_stage: bool,
    plan: Seq<Stage>,
)
    requires
        plan == p.plan(space, scale, gear, lens_stage),
        p.temperature_on,
    ensures
        ({
            let is_one = |x: F32| !x.nan() && x.units() == pow2(149);
            let ones = is_one(p.temperature_r) && is_one(p.temperature_g) && is_one(
                p.temperature_b,
            );
            &&& !ones ==> !p.identity() && exists|i: int|
                0 <= i < plan.len() && (#[trigger] plan[i] matches Stage::Temperature { coeffs }
                    && coeffs@[0] == p.temperature_r && coeffs@[1] == p.temperature_g && coeffs@[2]
                    == p.temperature_b)
            &&& ones ==> forall|i: int| 0 <= i < plan.len() ==> !(#[trigger] plan[i] is Temperature)
        }),
{
    law_temperature_stage(p, space, scale, gear, lens_stage, plan);
    law_named_patterns();
    law_comparing_with_a_pattern(p.temperature_r, ONE);
    law_comparing_with_a_pattern(p.temperature_g, ONE);
    law_comparing_with_a_pattern(p.temperature_b, ONE);
    if exists|i: int| 0 <= i < plan.len() && #[trigger] plan[i] is Temperature {
        let i = choose|i: int| 0 <= i < plan.len() && #[trigger] plan[i] is Temperature;
        assert(plan[i] is Temperature);
    }
}

} // verus!
