//! What a plan depends on: each stage on the settings of its own module alone.
use vstd::prelude::*;

use crate::float32::F32;
use crate::params::PreviewParams;
use crate::pipeline::{
    law_empty_plan_is_identity, law_identity_plans_nothing, strengths_are_numbers, ColorSpace,
    LensGear, StageKind, STAGE_ORDER,
};
use crate::stylelaws::{
    agree, law_copy_moves_only_that_group, lemma_agree_symmetric, lemma_agree_transitive,
};
use crate::stylemodules::{with_group, ModuleGroup};

verus! {

/// The group whose settings a stage has.
pub open spec fn group_of(kind: StageKind) -> ModuleGroup {
    match kind {
        StageKind::Invert => ModuleGroup::Invert,
        StageKind::Temperature => ModuleGroup::WhiteBalance,
        StageKind::DenoiseProfile => ModuleGroup::DenoiseProfiled,
        StageKind::LensCorrection => ModuleGroup::LensCorrection,
        StageKind::Exposure => ModuleGroup::Exposure,
        StageKind::ToneEqual => ModuleGroup::ToneEqualizer,
        StageKind::GraduatedNd => ModuleGroup::GraduatedDensity,
        StageKind::Negadoctor => ModuleGroup::Negadoctor,
        StageKind::Primaries => ModuleGroup::Primaries,
        StageKind::Monochrome => ModuleGroup::Monochrome,
        StageKind::Sharpen => ModuleGroup::Sharpen,
        StageKind::Vibrance => ModuleGroup::Vibrance,
        StageKind::Basicadj => ModuleGroup::BasicAdjustments,
        StageKind::ColorBalanceRgb => ModuleGroup::ColorBalanceRgb,
        StageKind::RgbCurve => ModuleGroup::RgbCurve,
        StageKind::Basecurve => ModuleGroup::BaseCurve,
        StageKind::Shadhi => ModuleGroup::ShadowsHighlights,
        StageKind::Lowpass => ModuleGroup::Lowpass,
        StageKind::ColorCorrection => ModuleGroup::ColorCorrection,
        StageKind::ColorContrast => ModuleGroup::ColorContrast,
        StageKind::ColorZones => ModuleGroup::ColorZones,
        StageKind::Sigmoid => ModuleGroup::Sigmoid,
        StageKind::FilmicRgb => ModuleGroup::FilmicRgb,
        StageKind::Colisa => ModuleGroup::ContrastBrightnessSaturation,
        StageKind::ToneCurve => ModuleGroup::ToneCurve,
        StageKind::Levels => ModuleGroup::Levels,
        StageKind::Velvia => ModuleGroup::Velvia,
        StageKind::Bloom => ModuleGroup::Bloom,
        StageKind::Colorize => ModuleGroup::Colorize,
        StageKind::Splittoning => ModuleGroup::SplitToning,
        StageKind::Lowlight => ModuleGroup::LowlightVision,
        StageKind::Vignette => ModuleGroup::Vignetting,
    }
}

/// A stage depends on the settings of its own module alone.
pub proof fn law_stage_depends_on_its_module(
    p: PreviewParams,
    q: PreviewParams,
    kind: StageKind,
    space: ColorSpace,
    scale: F32,
    gear: Option<LensGear>,
)
    requires
        agree(p, q, group_of(kind)),
    ensures
        p.stage_of(kind, space, scale, gear) == q.stage_of(kind, space, scale, gear),
{
    reveal(agree);
    reveal(PreviewParams::stage_of);
    match kind {
        StageKind::Invert => {},
        StageKind::Temperature => {},
        StageKind::DenoiseProfile => {},
        StageKind::LensCorrection => {},
        StageKind::Exposure => {},
        StageKind::ToneEqual => {},
        StageKind::GraduatedNd => {},
        StageKind::Negadoctor => {},
        StageKind::Primaries => {},
        StageKind::Monochrome => {},
        StageKind::Sharpen => {},
        StageKind::Vibrance => {},
        StageKind::Basicadj => {},
        StageKind::ColorBalanceRgb => {},
        StageKind::RgbCurve => {},
        StageKind::Basecurve => {},
        StageKind::Shadhi => {},
        StageKind::Lowpass => {},
        StageKind::ColorCorrection => {},
        StageKind::ColorContrast => {},
        StageKind::ColorZones => {},
        StageKind::Sigmoid => {},
        StageKind::FilmicRgb => {},
        StageKind::Colisa => {},
        StageKind::ToneCurve => {},
        StageKind::Levels => {},
        StageKind::Velvia => {},
        StageKind::Bloom => {},
        StageKind::Colorize => {},
        StageKind::Splittoning => {},
        StageKind::Lowlight => {},
        StageKind::Vignette => {},
    }
}

proof fn lemma_invert(p: PreviewParams, q: PreviewParams, gear: bool, stage: bool)
    requires
        agree(p, q, ModuleGroup::Invert),
    ensures
        p.active(StageKind::Invert, gear, stage) == q.active(StageKind::Invert, gear, stage),
{
    reveal(agree);
    reveal(PreviewParams::active);
}

proof fn lemma_temperature(p: PreviewParams, q: PreviewParams, gear: bool, stage: bool)
    requires
        agree(p, q, ModuleGroup::WhiteBalance),
    ensures
        p.active(StageKind::Temperature, gear, stage) == q.active(StageKind::Temperature, gear, stage),
{
    reveal(agree);
    assert(p.temperature_neutral() == q.temperature_neutral()) by {
        reveal(PreviewParams::temperature_neutral);
    }
    reveal(PreviewParams::active);
}

proof fn lemma_denoise_profile(p: PreviewParams, q: PreviewParams, gear: bool, stage: bool)
    requires
        agree(p, q, ModuleGroup::DenoiseProfiled),
    ensures
        p.active(StageKind::DenoiseProfile, gear, stage) == q.active(StageKind::DenoiseProfile, gear, stage),
{
    reveal(agree);
    reveal(PreviewParams::active);
}

proof fn lemma_lens_correction(p: PreviewParams, q: PreviewParams, gear: bool, stage: bool)
    requires
        agree(p, q, ModuleGroup::LensCorrection),
    ensures
        p.active(StageKind::LensCorrection, gear, stage) == q.active(StageKind::LensCorrection, gear, stage),
{
    reveal(agree);
    reveal(PreviewParams::active);
}

proof fn lemma_exposure(p: PreviewParams, q: PreviewParams, gear: bool, stage: bool)
    requires
        agree(p, q, ModuleGroup::Exposure),
    ensures
        p.active(StageKind::Exposure, gear, stage) == q.active(StageKind::Exposure, gear, stage),
{
    reveal(agree);
    assert(p.exposure_neutral() == q.exposure_neutral()) by {
        reveal(PreviewParams::exposure_neutral);
    }
    reveal(PreviewParams::active);
}

proof fn lemma_tone_equal(p: PreviewParams, q: PreviewParams, gear: bool, stage: bool)
    requires
        agree(p, q, ModuleGroup::ToneEqualizer),
    ensures
        p.active(StageKind::ToneEqual, gear, stage) == q.active(StageKind::ToneEqual, gear, stage),
{
    reveal(agree);
    assert(p.toneeq_neutral() == q.toneeq_neutral()) by {
        reveal(PreviewParams::toneeq_neutral);
    }
    reveal(PreviewParams::active);
}

proof fn lemma_graduated_nd(p: PreviewParams, q: PreviewParams, gear: bool, stage: bool)
    requires
        agree(p, q, ModuleGroup::GraduatedDensity),
    ensures
        p.active(StageKind::GraduatedNd, gear, stage) == q.active(StageKind::GraduatedNd, gear, stage),
{
    reveal(agree);
    assert(p.gradnd_neutral() == q.gradnd_neutral()) by {
        reveal(PreviewParams::gradnd_neutral);
    }
    reveal(PreviewParams::active);
}

proof fn lemma_negadoctor(p: PreviewParams, q: PreviewParams, gear: bool, stage: bool)
    requires
        agree(p, q, ModuleGroup::Negadoctor),
    ensures
        p.active(StageKind::Negadoctor, gear, stage) == q.active(StageKind::Negadoctor, gear, stage),
{
    reveal(agree);
    reveal(PreviewParams::active);
}

proof fn lemma_primaries(p: PreviewParams, q: PreviewParams, gear: bool, stage: bool)
    requires
        agree(p, q, ModuleGroup::Primaries),
    ensures
        p.active(StageKind::Primaries, gear, stage) == q.active(StageKind::Primaries, gear, stage),
{
    reveal(agree);
    assert(p.primaries_neutral() == q.primaries_neutral()) by {
        reveal(PreviewParams::primaries_neutral);
    }
    reveal(PreviewParams::active);
}

proof fn lemma_monochrome(p: PreviewParams, q: PreviewParams, gear: bool, stage: bool)
    requires
        agree(p, q, ModuleGroup::Monochrome),
    ensures
        p.active(StageKind::Monochrome, gear, stage) == q.active(StageKind::Monochrome, gear, stage),
{
    reveal(agree);
    reveal(PreviewParams::active);
}

proof fn lemma_sharpen(p: PreviewParams, q: PreviewParams, gear: bool, stage: bool)
    requires
        agree(p, q, ModuleGroup::Sharpen),
    ensures
        p.active(StageKind::Sharpen, gear, stage) == q.active(StageKind::Sharpen, gear, stage),
{
    reveal(agree);
    reveal(PreviewParams::active);
}

proof fn lemma_vibrance(p: PreviewParams, q: PreviewParams, gear: bool, stage: bool)
    requires
        agree(p, q, ModuleGroup::Vibrance),
    ensures
        p.active(StageKind::Vibrance, gear, stage) == q.active(StageKind::Vibrance, gear, stage),
{
    reveal(agree);
    reveal(PreviewParams::active);
}

proof fn lemma_basicadj(p: PreviewParams, q: PreviewParams, gear: bool, stage: bool)
    requires
        agree(p, q, ModuleGroup::BasicAdjustments),
    ensures
        p.active(StageKind::Basicadj, gear, stage) == q.active(StageKind::Basicadj, gear, stage),
{
    reveal(agree);
    assert(p.basicadj_neutral() == q.basicadj_neutral()) by {
        reveal(PreviewParams::basicadj_neutral);
    }
    reveal(PreviewParams::active);
}

proof fn lemma_color_balance_rgb(p: PreviewParams, q: PreviewParams, gear: bool, stage: bool)
    requires
        agree(p, q, ModuleGroup::ColorBalanceRgb),
    ensures
        p.active(StageKind::ColorBalanceRgb, gear, stage) == q.active(StageKind::ColorBalanceRgb, gear, stage),
{
    reveal(agree);
    assert(p.cb_neutral() == q.cb_neutral()) by {
        reveal(PreviewParams::cb_neutral);
    }
    reveal(PreviewParams::active);
}

proof fn lemma_rgb_curve(p: PreviewParams, q: PreviewParams, gear: bool, stage: bool)
    requires
        agree(p, q, ModuleGroup::RgbCurve),
    ensures
        p.active(StageKind::RgbCurve, gear, stage) == q.active(StageKind::RgbCurve, gear, stage),
{
    reveal(agree);
    reveal(PreviewParams::active);
}

proof fn lemma_basecurve(p: PreviewParams, q: PreviewParams, gear: bool, stage: bool)
    requires
        agree(p, q, ModuleGroup::BaseCurve),
    ensures
        p.active(StageKind::Basecurve, gear, stage) == q.active(StageKind::Basecurve, gear, stage),
{
    reveal(agree);
    reveal(PreviewParams::active);
}

proof fn lemma_shadhi(p: PreviewParams, q: PreviewParams, gear: bool, stage: bool)
    requires
        agree(p, q, ModuleGroup::ShadowsHighlights),
    ensures
        p.active(StageKind::Shadhi, gear, stage) == q.active(StageKind::Shadhi, gear, stage),
{
    reveal(agree);
    assert(p.shadhi_neutral() == q.shadhi_neutral()) by {
        reveal(PreviewParams::shadhi_neutral);
    }
    reveal(PreviewParams::active);
}

proof fn lemma_lowpass(p: PreviewParams, q: PreviewParams, gear: bool, stage: bool)
    requires
        agree(p, q, ModuleGroup::Lowpass),
    ensures
        p.active(StageKind::Lowpass, gear, stage) == q.active(StageKind::Lowpass, gear, stage),
{
    reveal(agree);
    assert(p.lowpass_neutral() == q.lowpass_neutral()) by {
        reveal(PreviewParams::lowpass_neutral);
    }
    reveal(PreviewParams::active);
}

proof fn lemma_color_correction(p: PreviewParams, q: PreviewParams, gear: bool, stage: bool)
    requires
        agree(p, q, ModuleGroup::ColorCorrection),
    ensures
        p.active(StageKind::ColorCorrection, gear, stage) == q.active(StageKind::ColorCorrection, gear, stage),
{
    reveal(agree);
    assert(p.color_correction_neutral() == q.color_correction_neutral()) by {
        reveal(PreviewParams::color_correction_neutral);
    }
    reveal(PreviewParams::active);
}

proof fn lemma_color_contrast(p: PreviewParams, q: PreviewParams, gear: bool, stage: bool)
    requires
        agree(p, q, ModuleGroup::ColorContrast),
    ensures
        p.active(StageKind::ColorContrast, gear, stage) == q.active(StageKind::ColorContrast, gear, stage),
{
    reveal(agree);
    assert(p.color_contrast_neutral() == q.color_contrast_neutral()) by {
        reveal(PreviewParams::color_contrast_neutral);
    }
    reveal(PreviewParams::active);
}

proof fn lemma_color_zones(p: PreviewParams, q: PreviewParams, gear: bool, stage: bool)
    requires
        agree(p, q, ModuleGroup::ColorZones),
    ensures
        p.active(StageKind::ColorZones, gear, stage) == q.active(StageKind::ColorZones, gear, stage),
{
    reveal(agree);
    reveal(PreviewParams::active);
}

proof fn lemma_sigmoid(p: PreviewParams, q: PreviewParams, gear: bool, stage: bool)
    requires
        agree(p, q, ModuleGroup::Sigmoid),
    ensures
        p.active(StageKind::Sigmoid, gear, stage) == q.active(StageKind::Sigmoid, gear, stage),
{
    reveal(agree);
    reveal(PreviewParams::active);
}

proof fn lemma_filmic_rgb(p: PreviewParams, q: PreviewParams, gear: bool, stage: bool)
    requires
        agree(p, q, ModuleGroup::FilmicRgb),
    ensures
        p.active(StageKind::FilmicRgb, gear, stage) == q.active(StageKind::FilmicRgb, gear, stage),
{
    reveal(agree);
    reveal(PreviewParams::active);
}

proof fn lemma_colisa(p: PreviewParams, q: PreviewParams, gear: bool, stage: bool)
    requires
        agree(p, q, ModuleGroup::ContrastBrightnessSaturation),
    ensures
        p.active(StageKind::Colisa, gear, stage) == q.active(StageKind::Colisa, gear, stage),
{
    reveal(agree);
    assert(p.colisa_neutral() == q.colisa_neutral()) by {
        reveal(PreviewParams::colisa_neutral);
    }
    reveal(PreviewParams::active);
}

proof fn lemma_tone_curve(p: PreviewParams, q: PreviewParams, gear: bool, stage: bool)
    requires
        agree(p, q, ModuleGroup::ToneCurve),
    ensures
        p.active(StageKind::ToneCurve, gear, stage) == q.active(StageKind::ToneCurve, gear, stage),
{
    reveal(agree);
    reveal(PreviewParams::active);
}

proof fn lemma_levels(p: PreviewParams, q: PreviewParams, gear: bool, stage: bool)
    requires
        agree(p, q, ModuleGroup::Levels),
    ensures
        p.active(StageKind::Levels, gear, stage) == q.active(StageKind::Levels, gear, stage),
{
    reveal(agree);
    assert(p.levels_active() == q.levels_active()) by {
        reveal(PreviewParams::levels_active);
    }
    reveal(PreviewParams::active);
}

proof fn lemma_velvia(p: PreviewParams, q: PreviewParams, gear: bool, stage: bool)
    requires
        agree(p, q, ModuleGroup::Velvia),
    ensures
        p.active(StageKind::Velvia, gear, stage) == q.active(StageKind::Velvia, gear, stage),
{
    reveal(agree);
    reveal(PreviewParams::active);
}

proof fn lemma_bloom(p: PreviewParams, q: PreviewParams, gear: bool, stage: bool)
    requires
        agree(p, q, ModuleGroup::Bloom),
    ensures
        p.active(StageKind::Bloom, gear, stage) == q.active(StageKind::Bloom, gear, stage),
{
    reveal(agree);
    reveal(PreviewParams::active);
}

proof fn lemma_colorize(p: PreviewParams, q: PreviewParams, gear: bool, stage: bool)
    requires
        agree(p, q, ModuleGroup::Colorize),
    ensures
        p.active(StageKind::Colorize, gear, stage) == q.active(StageKind::Colorize, gear, stage),
{
    reveal(agree);
    reveal(PreviewParams::active);
}

proof fn lemma_splittoning(p: PreviewParams, q: PreviewParams, gear: bool, stage: bool)
    requires
        agree(p, q, ModuleGroup::SplitToning),
    ensures
        p.active(StageKind::Splittoning, gear, stage) == q.active(StageKind::Splittoning, gear, stage),
{
    reveal(agree);
    reveal(PreviewParams::active);
}

proof fn lemma_lowlight(p: PreviewParams, q: PreviewParams, gear: bool, stage: bool)
    requires
        agree(p, q, ModuleGroup::LowlightVision),
    ensures
        p.active(StageKind::Lowlight, gear, stage) == q.active(StageKind::Lowlight, gear, stage),
{
    reveal(agree);
    reveal(PreviewParams::active);
}

proof fn lemma_vignette(p: PreviewParams, q: PreviewParams, gear: bool, stage: bool)
    requires
        agree(p, q, ModuleGroup::Vignetting),
    ensures
        p.active(StageKind::Vignette, gear, stage) == q.active(StageKind::Vignette, gear, stage),
{
    reveal(agree);
    assert(p.vignette_neutral() == q.vignette_neutral()) by {
        reveal(PreviewParams::vignette_neutral);
    }
    reveal(PreviewParams::active);
}

/// Whether a stage is planned depends on the settings of its own module alone.
pub proof fn law_planning_depends_on_the_module(
    p: PreviewParams,
    q: PreviewParams,
    kind: StageKind,
    gear: bool,
    lens_stage: bool,
)
    requires
        agree(p, q, group_of(kind)),
    ensures
        p.active(kind, gear, lens_stage) == q.active(kind, gear, lens_stage),
{
    match kind {
        StageKind::Invert => lemma_invert(p, q, gear, lens_stage),
        StageKind::Temperature => lemma_temperature(p, q, gear, lens_stage),
        StageKind::DenoiseProfile => lemma_denoise_profile(p, q, gear, lens_stage),
        StageKind::LensCorrection => lemma_lens_correction(p, q, gear, lens_stage),
        StageKind::Exposure => lemma_exposure(p, q, gear, lens_stage),
        StageKind::ToneEqual => lemma_tone_equal(p, q, gear, lens_stage),
        StageKind::GraduatedNd => lemma_graduated_nd(p, q, gear, lens_stage),
        StageKind::Negadoctor => lemma_negadoctor(p, q, gear, lens_stage),
        StageKind::Primaries => lemma_primaries(p, q, gear, lens_stage),
        StageKind::Monochrome => lemma_monochrome(p, q, gear, lens_stage),
        StageKind::Sharpen => lemma_sharpen(p, q, gear, lens_stage),
        StageKind::Vibrance => lemma_vibrance(p, q, gear, lens_stage),
        StageKind::Basicadj => lemma_basicadj(p, q, gear, lens_stage),
        StageKind::ColorBalanceRgb => lemma_color_balance_rgb(p, q, gear, lens_stage),
        StageKind::RgbCurve => lemma_rgb_curve(p, q, gear, lens_stage),
        StageKind::Basecurve => lemma_basecurve(p, q, gear, lens_stage),
        StageKind::Shadhi => lemma_shadhi(p, q, gear, lens_stage),
        StageKind::Lowpass => lemma_lowpass(p, q, gear, lens_stage),
        StageKind::ColorCorrection => lemma_color_correction(p, q, gear, lens_stage),
        StageKind::ColorContrast => lemma_color_contrast(p, q, gear, lens_stage),
        StageKind::ColorZones => lemma_color_zones(p, q, gear, lens_stage),
        StageKind::Sigmoid => lemma_sigmoid(p, q, gear, lens_stage),
        StageKind::FilmicRgb => lemma_filmic_rgb(p, q, gear, lens_stage),
        StageKind::Colisa => lemma_colisa(p, q, gear, lens_stage),
        StageKind::ToneCurve => lemma_tone_curve(p, q, gear, lens_stage),
        StageKind::Levels => lemma_levels(p, q, gear, lens_stage),
        StageKind::Velvia => lemma_velvia(p, q, gear, lens_stage),
        StageKind::Bloom => lemma_bloom(p, q, gear, lens_stage),
        StageKind::Colorize => lemma_colorize(p, q, gear, lens_stage),
        StageKind::Splittoning => lemma_splittoning(p, q, gear, lens_stage),
        StageKind::Lowlight => lemma_lowlight(p, q, gear, lens_stage),
        StageKind::Vignette => lemma_vignette(p, q, gear, lens_stage),
    }
}

/// Whether two edits are the same in every module but highlight reconstruction, which has
/// no stage, and lens correction, which has none without gear.
pub open spec fn same_stages(p: PreviewParams, q: PreviewParams) -> bool {
    forall|g: ModuleGroup|
        g != ModuleGroup::HighlightReconstruction && g != ModuleGroup::LensCorrection
            ==> #[trigger] agree(p, q, g)
}

proof fn lemma_plan_of_first(
    p: PreviewParams,
    q: PreviewParams,
    n: int,
    space: ColorSpace,
    scale: F32,
    lens_stage: bool,
)
    requires
        0 <= n <= 32,
        same_stages(p, q),
    ensures
        p.plan_of_first(n, space, scale, None, lens_stage) == q.plan_of_first(
            n,
            space,
            scale,
            None,
            lens_stage,
        ),
    decreases n,
{
    if n > 0 {
        lemma_plan_of_first(p, q, n - 1, space, scale, lens_stage);
        let kind = STAGE_ORDER@[n - 1];
        if kind == StageKind::LensCorrection {
            lemma_no_gear(p, lens_stage);
            lemma_no_gear(q, lens_stage);
        } else {
            assert(agree(p, q, group_of(kind)));
            law_planning_depends_on_the_module(p, q, kind, false, lens_stage);
            law_stage_depends_on_its_module(p, q, kind, space, scale, None);
        }
    }
}

proof fn lemma_no_gear(p: PreviewParams, lens_stage: bool)
    ensures
        !p.active(StageKind::LensCorrection, false, lens_stage),
{
    reveal(PreviewParams::active);
}

/// In a plan without gear neither highlight reconstruction nor lens correction has a say.
pub proof fn law_plan_without_gear(
    p: PreviewParams,
    q: PreviewParams,
    space: ColorSpace,
    scale: F32,
    lens_stage: bool,
)
    requires
        same_stages(p, q),
    ensures
        p.plan(space, scale, None, lens_stage) == q.plan(space, scale, None, lens_stage),
{
    lemma_plan_of_first(p, q, 32, space, scale, lens_stage);
}

/// The edit with highlight reconstruction and lens correction switched off: the two modules
/// are those of the edit with every module off, which has the same settings.
pub open spec fn without_both(p: PreviewParams) -> PreviewParams {
    with_group(
        with_group(p, p.all_off(), ModuleGroup::HighlightReconstruction),
        p.all_off(),
        ModuleGroup::LensCorrection,
    )
}

/// Switching the two modules off one after the other leaves every other module alone.
proof fn lemma_switched_off(p: PreviewParams, off: PreviewParams, g: ModuleGroup)
    requires
        g != ModuleGroup::HighlightReconstruction,
        g != ModuleGroup::LensCorrection,
    ensures
        agree(
            p,
            with_group(
                with_group(p, off, ModuleGroup::HighlightReconstruction),
                off,
                ModuleGroup::LensCorrection,
            ),
            g,
        ),
{
    let once = with_group(p, off, ModuleGroup::HighlightReconstruction);
    let twice = with_group(once, off, ModuleGroup::LensCorrection);
    law_copy_moves_only_that_group(p, off, ModuleGroup::HighlightReconstruction, g);
    law_copy_moves_only_that_group(once, off, ModuleGroup::LensCorrection, g);
    lemma_agree_transitive(twice, once, p, g);
    lemma_agree_symmetric(twice, p, g);
}

proof fn lemma_identity_is_empty(q: PreviewParams, space: ColorSpace, scale: F32)
    requires
        !q.hl_on,
        !q.lens_on,
        strengths_are_numbers(q),
    ensures
        q.identity() <==> q.plan(space, scale, None, true).len() == 0,
{
    if q.identity() {
        law_identity_plans_nothing(q, space, scale, None, true);
    } else if q.plan(space, scale, None, true).len() == 0 {
        law_empty_plan_is_identity(q, space, scale, None);
    }
}

proof fn lemma_on_is_a_change(p: PreviewParams)
    requires
        p.hl_on || p.lens_on,
    ensures
        !p.identity(),
{
    if p.lens_on {
        assert(!p.idle(StageKind::LensCorrection)) by {
            reveal(PreviewParams::idle);
        }
    }
}

proof fn lemma_both_are_off(p: PreviewParams)
    ensures
        !without_both(p).hl_on,
        !without_both(p).lens_on,
{
    let off = p.all_off();
    let once = with_group(p, off, ModuleGroup::HighlightReconstruction);
    law_copy_moves_only_that_group(
        p,
        off,
        ModuleGroup::HighlightReconstruction,
        ModuleGroup::LensCorrection,
    );
    law_copy_moves_only_that_group(
        once,
        off,
        ModuleGroup::LensCorrection,
        ModuleGroup::HighlightReconstruction,
    );
    assert(!off.hl_on && !off.lens_on);
    lemma_switches_agree(once, off, without_both(p));
}

proof fn lemma_switches_agree(once: PreviewParams, off: PreviewParams, twice: PreviewParams)
    requires
        agree(once, off, ModuleGroup::HighlightReconstruction),
        agree(twice, once, ModuleGroup::HighlightReconstruction),
        agree(twice, off, ModuleGroup::LensCorrection),
    ensures
        twice.hl_on == off.hl_on,
        twice.lens_on == off.lens_on,
{
    reveal(agree);
}

proof fn lemma_strengths_agree(p: PreviewParams, q: PreviewParams)
    requires
        agree(p, q, ModuleGroup::Velvia),
        agree(p, q, ModuleGroup::Sharpen),
        agree(p, q, ModuleGroup::Vibrance),
    ensures
        strengths_are_numbers(p) == strengths_are_numbers(q),
{
    reveal(agree);
}

/// Switching highlight reconstruction and lens correction off leaves the other modules
/// alone.
pub proof fn law_switching_both_off(p: PreviewParams)
    ensures
        same_stages(p, without_both(p)),
        !without_both(p).hl_on,
        !without_both(p).lens_on,
{
    let q = without_both(p);
    assert forall|g: ModuleGroup|
        g != ModuleGroup::HighlightReconstruction && g
            != ModuleGroup::LensCorrection implies #[trigger] agree(p, q, g) by {
        lemma_switched_off(p, p.all_off(), g);
    }
    lemma_both_are_off(p);
}

/// Without gear nothing is planned for an edit exactly where it leaves the image as it is
/// once highlight reconstruction and lens correction are off: `q` is the edit with both
/// off. An edit with either on never counts as leaving the image as it is. The strengths
/// that a plan looks at are numbers.
pub proof fn law_identity_matches_the_empty_plan(
    p: PreviewParams,
    q: PreviewParams,
    space: ColorSpace,
    scale: F32,
)
    requires
        strengths_are_numbers(p),
        same_stages(p, q),
        !q.hl_on,
        !q.lens_on,
    ensures
        p.identity() ==> p.plan(space, scale, None, true).len() == 0,
        q.identity() <==> p.plan(space, scale, None, true).len() == 0,
        p.hl_on || p.lens_on ==> !p.identity(),
{
    law_plan_without_gear(p, q, space, scale, true);
    lemma_strengths_agree(p, q);
    lemma_identity_is_empty(q, space, scale);
    if p.identity() {
        law_identity_plans_nothing(p, space, scale, None, true);
    }
    if p.hl_on || p.lens_on {
        lemma_on_is_a_change(p);
    }
}

} // verus!
