use c41_ui::float32::F32;
use c41_ui::params::PreviewParams;
use c41_ui::pipeline::{
    ColorSpace, HlMode, HlOpts, LensGear, SaturationFormula, Stage, STAGE_ORDER,
};
use c41_ui::render::{image_plan, lens_prepass, missing_frame, rgb16_plan};

fn num(x: f32) -> F32 {
    F32::from_bits(x.to_bits())
}

fn name(stage: &Stage) -> &'static str {
    match stage {
        Stage::Invert { .. } => "invert",
        Stage::Temperature { .. } => "temperature",
        Stage::DenoiseProfile { .. } => "denoiseprofile",
        Stage::LensCorrection { .. } => "lens",
        Stage::Exposure { .. } => "exposure",
        Stage::ToneEqual { .. } => "toneequal",
        Stage::GraduatedNd { .. } => "graduatednd",
        Stage::Negadoctor { .. } => "negadoctor",
        Stage::Primaries { .. } => "primaries",
        Stage::Monochrome { .. } => "channelmixer",
        Stage::Sharpen { .. } => "sharpen",
        Stage::Vibrance { .. } => "vibrance",
        Stage::Basicadj { .. } => "basicadj",
        Stage::ColorBalanceRgb { .. } => "colorbalancergb",
        Stage::RgbCurve { .. } => "rgbcurve",
        Stage::Basecurve { .. } => "basecurve",
        Stage::Shadhi { .. } => "shadhi",
        Stage::Lowpass { .. } => "lowpass",
        Stage::ColorCorrection { .. } => "colorcorrection",
        Stage::ColorContrast { .. } => "colorcontrast",
        Stage::ColorZones { .. } => "colorzones",
        Stage::Sigmoid { .. } => "sigmoid",
        Stage::FilmicRgb { .. } => "filmicrgb",
        Stage::Colisa { .. } => "colisa",
        Stage::ToneCurve { .. } => "tonecurve",
        Stage::Levels { .. } => "levels",
        Stage::Velvia { .. } => "velvia",
        Stage::Bloom { .. } => "bloom",
        Stage::Colorize { .. } => "colorize",
        Stage::Splittoning { .. } => "splittoning",
        Stage::Lowlight { .. } => "lowlight",
        Stage::Vignette { .. } => "vignette",
    }
}

fn plan(p: &PreviewParams) -> Vec<Stage> {
    p.to_pipeline(ColorSpace::LinearSrgb, num(1.0))
}

fn names(stages: &[Stage]) -> Vec<&'static str> {
    stages.iter().map(name).collect()
}

fn gear() -> Option<LensGear> {
    Some(LensGear {
        camera_maker: "Canon".to_string(),
        camera_model: "Canon EOS 5D Mark II".to_string(),
        crop_factor: num(1.0),
        lens_model: "Canon EF 50mm f/1.4 USM".to_string(),
    })
}

#[test]
fn identity_params_leave_image_unchanged() {
    let p = PreviewParams::default();
    assert!(p.is_identity());
    assert!(image_plan(6, 2, 1, 6, 3, &p, &None).is_none());
}

#[test]
fn respects_rowstride_padding() {
    assert!(image_plan(10, 1, 2, 5, 3, &PreviewParams::default(), &None).is_none());
}

#[test]
fn degenerate_input_returns_copy_without_panicking() {
    let mut p = PreviewParams::default();
    p.ev = num(1.0);
    assert!(image_plan(0, 0, 0, 0, 0, &p, &None).is_none());
    assert!(image_plan(3, 0, 1, 3, 3, &p, &None).is_none());
    assert!(image_plan(3, 1, 1, 3, 0, &p, &None).is_none());
    assert_eq!(image_plan(3, 1, 1, 3, 3, &p, &None).map(|s| names(&s)), Some(vec!["exposure"]));
}

#[test]
fn velvia_off_is_identity_even_at_high_strength() {
    let mut p = PreviewParams::default();
    p.velvia_on = false;
    p.velvia_strength = num(100.0);
    assert!(p.is_identity());
    assert!(image_plan(3, 1, 1, 3, 3, &p, &None).is_none());
}

#[test]
fn bypassed_disables_every_stage_and_returns_input() {
    let mut p = PreviewParams::default();
    p.ev = num(2.0);
    p.velvia_on = true;
    p.velvia_strength = num(80.0);
    p.split_on = true;
    let b = p.bypassed();
    assert!(b.is_identity());
    assert_eq!(b.velvia_strength, num(80.0));
    assert_eq!(b.ev, num(2.0));
    assert!(image_plan(3, 1, 1, 3, 3, &b, &None).is_none());
}

#[test]
fn monochrome_off_is_identity() {
    let mut p = PreviewParams::default();
    p.mono_on = false;
    assert!(p.is_identity());
    assert!(image_plan(3, 1, 1, 3, 3, &p, &None).is_none());
}

#[test]
fn splittoning_off_is_identity() {
    let mut p = PreviewParams::default();
    p.split_on = false;
    p.split_shadow_sat = num(1.0);
    assert!(p.is_identity());
    assert!(image_plan(3, 1, 1, 3, 3, &p, &None).is_none());
}

#[test]
fn is_identity_matches_empty_pipeline() {
    let mut cfgs = vec![PreviewParams::default(), PreviewParams::default().bypassed()];
    let mut on = PreviewParams::default();
    on.ev = num(0.5);
    cfgs.push(on);
    let mut v = PreviewParams::default();
    v.velvia_on = true;
    v.velvia_strength = num(10.0);
    cfgs.push(v);
    let mut s = PreviewParams::default();
    s.split_on = true;
    cfgs.push(s);
    let mut m = PreviewParams::default();
    m.mono_on = true;
    cfgs.push(m);
    let mut sig = PreviewParams::default();
    sig.sigmoid_on = true;
    cfgs.push(sig);
    let mut v0 = PreviewParams::default();
    v0.velvia_on = true;
    v0.velvia_strength = num(0.0);
    cfgs.push(v0);
    let mut sh0 = PreviewParams::default();
    sh0.sharpen_on = true;
    sh0.sharpen_amount = num(0.0);
    cfgs.push(sh0);
    let mut shr0 = PreviewParams::default();
    shr0.sharpen_on = true;
    shr0.sharpen_amount = num(1.0);
    shr0.sharpen_radius = num(0.0);
    cfgs.push(shr0);
    let mut sh = PreviewParams::default();
    sh.sharpen_on = true;
    sh.sharpen_amount = num(1.0);
    cfgs.push(sh);
    let mut lv_def = PreviewParams::default();
    lv_def.levels_on = true;
    cfgs.push(lv_def);
    let mut lv_inv = PreviewParams::default();
    lv_inv.levels_on = true;
    lv_inv.levels_black = num(60.0);
    lv_inv.levels_white = num(40.0);
    cfgs.push(lv_inv);
    let mut lv = PreviewParams::default();
    lv.levels_on = true;
    lv.levels_grey = num(35.0);
    cfgs.push(lv);
    let mut cz = PreviewParams::default();
    cz.colorize_on = true;
    cfgs.push(cz);
    let mut cc_id = PreviewParams::default();
    cc_id.color_correction_on = true;
    cc_id.color_correction_saturation = num(1.0);
    cfgs.push(cc_id);
    let mut cc = PreviewParams::default();
    cc.color_correction_on = true;
    cc.color_correction_saturation = num(1.5);
    cfgs.push(cc);
    cfgs.push(PreviewParams::default());
    let mut nd = PreviewParams::default();
    nd.negadoctor_on = true;
    cfgs.push(nd);
    cfgs.push(PreviewParams::default());
    let mut dn = PreviewParams::default();
    dn.dn_on = true;
    cfgs.push(dn);
    cfgs.push(PreviewParams::default());
    let mut bl = PreviewParams::default();
    bl.bl_on = true;
    cfgs.push(bl);
    cfgs.push(PreviewParams::default());
    let mut tc = PreviewParams::default();
    tc.tc_on = true;
    cfgs.push(tc);
    let mut edited = 0;
    for c in cfgs {
        assert_eq!(
            c.is_identity(),
            plan(&c).is_empty(),
            "is_identity vs empty-pipeline disagree for {c:?}"
        );
        if !c.is_identity() {
            edited += 1;
        }
    }
    assert_eq!(edited, 13);
}

#[test]
fn to_pipeline_orders_stages_canonically() {
    let mut p = PreviewParams::default();
    p.exposure_on = true;
    p.ev = num(0.5);
    p.primaries_on = true;
    p.primaries_red_hue = num(10.0);
    p.mono_on = true;
    p.sigmoid_on = true;
    p.velvia_on = true;
    p.velvia_strength = num(50.0);
    p.split_on = true;
    p.sharpen_on = true;
    p.sharpen_amount = num(1.0);
    p.basicadj_on = true;
    p.basicadj_exposure = num(0.5);
    p.shadhi_on = true;
    p.shadhi_shadows = num(25.0);
    p.lowpass_on = true;
    p.lowpass_contrast = num(0.6);
    p.color_correction_on = true;
    p.color_correction_saturation = num(1.5);
    p.colorize_on = true;
    p.levels_on = true;
    p.levels_grey = num(40.0);
    p.negadoctor_on = true;
    p.toneeq_on = true;
    p.toneeq_shadows = num(0.5);
    p.cb_on = true;
    p.cb_contrast = num(0.3);
    p.filmic_on = true;
    p.gradnd_on = true;
    p.gradnd_density = num(-2.0);
    p.dn_on = true;
    p.bl_on = true;
    p.tc_on = true;
    p.rc_on = true;
    p.bc_on = true;
    let names = names(&plan(&p));
    assert_eq!(
        names,
        [
            "denoiseprofile", "exposure", "toneequal", "graduatednd", "negadoctor", "primaries",
            "channelmixer", "sharpen", "basicadj", "colorbalancergb", "rgbcurve", "basecurve",
            "shadhi", "lowpass", "colorcorrection", "sigmoid", "filmicrgb", "tonecurve", "levels",
            "velvia", "bloom", "colorize", "splittoning"
        ]
    );
    let at = |n: &str| names.iter().position(|m| *m == n).unwrap();
    assert!(at("basecurve") > at("rgbcurve"));
    assert!(at("basecurve") < at("sigmoid"));
    assert!(at("tonecurve") > at("sigmoid"));
    assert!(at("tonecurve") < at("levels"));
    assert!(at("bloom") > at("velvia"));
    assert!(at("bloom") < at("colorize"));
    assert!(at("denoiseprofile") < at("exposure"));
    assert!(at("colorbalancergb") < at("sigmoid"));
    assert!(at("filmicrgb") > at("sigmoid"));
    assert!(at("levels") > at("sigmoid"));
    assert!(at("levels") > at("filmicrgb"));
    assert!(at("rgbcurve") > at("colorbalancergb"));
    assert!(at("rgbcurve") < at("sigmoid"));
}

#[test]
fn to_pipeline_orders_lens_between_denoise_and_exposure() {
    let mut p = PreviewParams::default();
    p.lens_on = true;
    p.dn_on = true;
    p.exposure_on = true;
    p.ev = num(0.5);
    let stages = p.to_pipeline_with(ColorSpace::LinearSrgb, num(1.0), &gear());
    assert_eq!(names(&stages), ["denoiseprofile", "lens", "exposure"]);
}

#[test]
fn to_pipeline_lens_preapplied_omits_only_the_lens_stage() {
    let mut p = PreviewParams::default();
    p.lens_on = true;
    p.dn_on = true;
    p.exposure_on = true;
    p.ev = num(0.5);
    let with = p.to_pipeline_with(ColorSpace::LinearSrgb, num(1.0), &gear());
    assert!(with.iter().any(|s| name(s) == "lens"));
    let without = p.to_pipeline_lens_preapplied(ColorSpace::LinearSrgb, num(1.0), &gear());
    assert!(!without.iter().any(|s| name(s) == "lens"), "{:?}", without.len());
    let kept = names(&without);
    let expected: Vec<&str> = names(&with).into_iter().filter(|n| *n != "lens").collect();
    assert_eq!(kept, expected, "{kept:?} vs {expected:?}");
}

#[test]
fn lens_stage_omitted_without_gear() {
    let mut p = PreviewParams::default();
    p.lens_on = true;
    assert!(!p.is_identity());
    assert!(p.to_pipeline_with(ColorSpace::LinearSrgb, num(1.0), &None).is_empty());
}

#[test]
fn default_primaries_params_are_a_true_no_op() {
    let d = PreviewParams::default();
    assert!(d.primaries_is_neutral(), "default params must be neutral");
    let mut p = d;
    p.primaries_on = true;
    assert!(p.is_identity());
    p.primaries_blue_purity = num(1.5);
    assert!(!p.primaries_is_neutral());
    assert_eq!(names(&plan(&p)), ["primaries"]);
}

#[test]
fn levels_slider_domain_is_nan_free() {
    let vals = [0.0f32, 1.0, 25.0, 50.0, 75.0, 99.0, 100.0];
    for &black in &vals {
        for &grey in &vals {
            for &white in &vals {
                let mut p = PreviewParams::default();
                p.levels_on = true;
                p.levels_black = num(black);
                p.levels_grey = num(grey);
                p.levels_white = num(white);
                let stages = plan(&p);
                let identity = black == 0.0 && grey == 50.0 && white == 100.0;
                assert_eq!(stages.is_empty(), identity || white - black < 1.0);
                for s in stages {
                    match s {
                        Stage::Levels { black: b, grey: g, white: w, .. } => {
                            assert_eq!(b, num(black));
                            assert_eq!(g, num(grey));
                            assert_eq!(w, num(white));
                        }
                        other => panic!("unexpected {other:?}"),
                    }
                }
            }
        }
    }
}

#[test]
fn levels_default_stops_emit_no_stage() {
    let mut p = PreviewParams::default();
    p.levels_on = true;
    assert!(p.is_identity(), "default stops should be identity");
    assert!(!plan(&p).iter().any(|s| name(s) == "levels"));
    p.levels_black = num(60.0);
    p.levels_white = num(40.0);
    assert!(!plan(&p).iter().any(|s| name(s) == "levels"), "degenerate range must be skipped");
}

#[test]
fn negadoctor_commit_params_matches_darktable() {
    let mut p = PreviewParams::default();
    p.negadoctor_on = true;
    p.negadoctor_film_stock = num(1.0);
    p.negadoctor_dmin_r = num(1.13);
    p.negadoctor_dmin_g = num(0.49);
    p.negadoctor_dmin_b = num(0.27);
    p.negadoctor_wb_high_r = num(1.2);
    p.negadoctor_wb_high_g = num(0.8);
    p.negadoctor_wb_high_b = num(1.1);
    p.negadoctor_wb_low_r = num(1.1);
    p.negadoctor_wb_low_g = num(0.9);
    p.negadoctor_wb_low_b = num(1.3);
    p.negadoctor_d_max = num(2.0);
    p.negadoctor_offset = num(-0.03);
    p.negadoctor_black = num(0.0755);
    p.negadoctor_gamma = num(4.0);
    p.negadoctor_soft_clip = num(0.75);
    p.negadoctor_exposure = num(0.9245);
    match &plan(&p)[0] {
        Stage::Negadoctor {
            dmin,
            wb_high,
            wb_low,
            d_max,
            offset,
            black,
            gamma,
            soft_clip,
            exposure,
        } => {
            assert_eq!(dmin[..3], [num(1.13), num(0.49), num(0.27)]);
            assert_eq!(*wb_high, [num(1.2), num(0.8), num(1.1)]);
            assert_eq!(*wb_low, [num(1.1), num(0.9), num(1.3)]);
            assert_eq!(*d_max, num(2.0));
            assert_eq!(*offset, num(-0.03));
            assert_eq!(*black, num(0.0755));
            assert_eq!(*gamma, num(4.0));
            assert_eq!(*soft_clip, num(0.75));
            assert_eq!(*exposure, num(0.9245));
        }
        other => panic!("expected Stage::Negadoctor, got {other:?}"),
    }

    let mut p = PreviewParams::default();
    p.negadoctor_on = true;
    p.negadoctor_film_stock = num(0.0);
    p.negadoctor_dmin_r = num(1.0);
    p.negadoctor_dmin_g = num(0.5);
    p.negadoctor_dmin_b = num(0.3);
    p.negadoctor_d_max = num(2.2);
    match &plan(&p)[0] {
        Stage::Negadoctor { dmin, .. } => {
            for c in 0..3 {
                assert_eq!(dmin[c], num(1.0), "dmin channel {c} should collapse to Dmin[0]");
            }
        }
        other => panic!("expected Stage::Negadoctor, got {other:?}"),
    }
}

#[test]
fn toneequal_gains_reach_stage_raw_and_identity_gate_holds() {
    let mut p = PreviewParams::default();
    p.toneeq_on = true;
    p.toneeq_noise = num(-0.8);
    p.toneeq_ultra_deep_blacks = num(-0.7);
    p.toneeq_deep_blacks = num(-0.6);
    p.toneeq_blacks = num(-0.5);
    p.toneeq_shadows = num(1.0);
    p.toneeq_midtones = num(-0.3);
    p.toneeq_highlights = num(-0.2);
    p.toneeq_whites = num(-0.1);
    p.toneeq_speculars = num(0.9);
    match &plan(&p)[0] {
        Stage::ToneEqual { gains } => assert_eq!(
            gains,
            &[-0.8, -0.7, -0.6, -0.5, 1.0, -0.3, -0.2, -0.1, 0.9].map(num)
        ),
        other => panic!("expected Stage::ToneEqual, got {other:?}"),
    }
    let mut p = PreviewParams::default();
    p.toneeq_on = true;
    assert!(
        plan(&p).iter().all(|s| name(s) != "toneequal"),
        "all-zero gains must not emit a toneequal stage"
    );
}

#[test]
fn hl_opts_maps_mode_and_threshold() {
    let mut p = PreviewParams::default();
    assert!(p.hl_opts().is_none());
    p.hl_on = true;
    assert_eq!(p.hl_opts(), Some(HlOpts { mode: HlMode::Opposed, clip: num(1.0) }));
    p.hl_opposed = false;
    assert_eq!(p.hl_opts(), Some(HlOpts { mode: HlMode::Clip, clip: num(1.0) }));
    p.hl_clip = num(1.5);
    assert_eq!(p.hl_opts(), Some(HlOpts { mode: HlMode::Clip, clip: num(1.5) }));
}

#[test]
fn filmic_params_map_into_the_stage_and_gate_holds() {
    let mut p = PreviewParams::default();
    p.filmic_on = true;
    p.filmic_black_point_source = num(-6.5);
    p.filmic_white_point_source = num(3.5);
    p.filmic_output_power = num(3.0);
    p.filmic_latitude = num(10.0);
    p.filmic_contrast = num(1.4);
    p.filmic_balance = num(20.0);
    p.filmic_saturation = num(-50.0);
    let stages = p.to_pipeline(ColorSpace::Rec2020, num(1.0));
    match &stages[0] {
        Stage::FilmicRgb { filmic, space } => {
            assert_eq!(*space, ColorSpace::Rec2020);
            assert_eq!(*filmic, p.filmic_params());
            assert_eq!(filmic.black_point_source, num(-6.5));
            assert_eq!(filmic.white_point_source, num(3.5));
            assert_eq!(filmic.output_power, num(3.0));
            assert_eq!(filmic.latitude, num(10.0));
            assert_eq!(filmic.contrast, num(1.4));
            assert_eq!(filmic.balance, num(20.0));
            assert_eq!(filmic.saturation, num(-50.0));
        }
        other => panic!("filmic stage missing: {other:?}"),
    }
}

#[test]
fn cbrgb_params_map_into_the_stage_and_gate_holds() {
    let mut p = PreviewParams::default();
    p.cb_on = true;
    p.cb_global_y = num(0.02);
    p.cb_shadows_h = num(30.0);
    p.cb_contrast = num(0.25);
    p.cb_formula = num(0.0);
    let stages = p.to_pipeline(ColorSpace::Rec2020, num(1.0));
    match &stages[0] {
        Stage::ColorBalanceRgb { grading, space } => {
            let mut expect = PreviewParams::default().cb_params();
            expect.global_y = num(0.02);
            expect.shadows_h = num(30.0);
            expect.contrast = num(0.25);
            expect.saturation_formula = SaturationFormula::Jzazbz;
            assert_eq!(*grading, expect);
            assert_eq!(*space, ColorSpace::Rec2020);
        }
        other => panic!("expected Stage::ColorBalanceRgb, got {other:?}"),
    }
    let mut q = PreviewParams::default();
    q.cb_on = true;
    q.cb_saturation_global = num(0.4);
    assert_ne!(
        q.to_pipeline(ColorSpace::Rec2020, num(1.0)),
        q.to_pipeline(ColorSpace::LinearSrgb, num(1.0)),
        "the stage must track the working space"
    );
    let mut p = PreviewParams::default();
    p.cb_on = true;
    assert!(
        p.to_pipeline(ColorSpace::Rec2020, num(1.0)).is_empty(),
        "neutral colorbalancergb params must not emit a stage"
    );
    let mut p = PreviewParams::default();
    p.cb_contrast = num(0.5);
    assert!(
        p.to_pipeline(ColorSpace::Rec2020, num(1.0)).is_empty(),
        "a disabled module must never emit a stage"
    );
    assert!(PreviewParams::default().cb_is_neutral());
}

#[test]
fn short_buffer_no_ops_without_panicking() {
    let buf = vec![10u8, 20, 30];
    assert_eq!(
        c41_ui::raster::compute_histogram(&buf, 2, 2, 6, 3),
        [[0u32; 256]; 3]
    );
    let p = PreviewParams { ev: num(1.0), ..PreviewParams::default() };
    assert!(image_plan(buf.len(), 2, 2, 6, 3, &p, &None).is_none());
}

#[test]
fn the_order_names_every_stage_once() {
    assert_eq!(STAGE_ORDER.len(), 32);
    for (i, a) in STAGE_ORDER.iter().enumerate() {
        for b in &STAGE_ORDER[i + 1..] {
            assert_ne!(a, b);
        }
    }
}

#[test]
fn packed_images_and_frames_are_measured() {
    let p = PreviewParams { ev: num(1.0), ..PreviewParams::default() };
    assert!(rgb16_plan(12, 2, 2, &p, &None).is_some());
    assert!(rgb16_plan(11, 2, 2, &p, &None).is_none());
    assert!(rgb16_plan(12, 0, 2, &p, &None).is_none());
    assert!(rgb16_plan(12, usize::MAX, 2, &p, &None).is_none());
    assert!(rgb16_plan(12, 2, 2, &PreviewParams::default(), &None).is_none());
    assert_eq!(missing_frame(16, 2, 2), None);
    assert_eq!(missing_frame(15, 2, 2), Some(12));
}

#[test]
fn the_prepass_applies_what_the_plan_would() {
    let mut p = PreviewParams::default();
    p.lens_focal = num(85.0);
    p.lens_modify_flags = num(5.0);
    assert!(lens_prepass(&p, &gear()).is_none());
    p.lens_on = true;
    assert!(lens_prepass(&p, &None).is_none());
    let found = lens_prepass(&p, &gear()).unwrap();
    assert_eq!(found.focal, num(85.0));
    assert_eq!(found.modify_flags, 5);
    assert_eq!(found.lens, "Canon EF 50mm f/1.4 USM");
    match &p.to_pipeline_with(ColorSpace::Rec2020, num(0.5), &gear())[0] {
        Stage::LensCorrection { correction } => assert_eq!(*correction, found),
        other => panic!("unexpected {other:?}"),
    }
}

#[test]
fn without_gear_neither_highlights_nor_the_lens_have_a_say() {
    let mut p = PreviewParams::default();
    p.dn_on = true;
    p.ev = num(0.5);
    p.hl_on = true;
    p.lens_on = true;
    let mut q = p.clone();
    q.hl_on = false;
    q.lens_on = false;
    assert_eq!(plan(&p), plan(&q));
    assert_eq!(names(&plan(&q)), ["denoiseprofile", "exposure"]);

    let mut only = PreviewParams::default();
    only.hl_on = true;
    only.lens_on = true;
    assert!(plan(&only).is_empty());
    assert!(!only.is_identity());
    only.hl_on = false;
    assert!(!only.is_identity());
    only.lens_on = false;
    assert!(only.is_identity());
}

#[test]
fn a_warped_frame_is_planned_alike_for_every_lens() {
    let mut p = PreviewParams::default();
    p.lens_on = true;
    p.dn_on = true;
    p.ev = num(0.5);
    let mut other = gear();
    if let Some(g) = &mut other {
        g.lens_model = "Canon EF 85mm f/1.8 USM".to_string();
        g.crop_factor = num(1.6);
    }
    let pre = |g: &Option<LensGear>| {
        p.to_pipeline_lens_preapplied(ColorSpace::LinearSrgb, num(1.0), g)
    };
    assert_eq!(pre(&gear()), pre(&other));
    assert_eq!(pre(&gear()), pre(&None));
    let with = |g: &Option<LensGear>| p.to_pipeline_with(ColorSpace::LinearSrgb, num(1.0), g);
    assert_ne!(with(&gear()), with(&other));
}
