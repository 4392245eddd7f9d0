//! What a render has to do: which stages run on an image, and where the lens correction
//! is applied.
use vstd::prelude::*;

use crate::float32::{F32, ONE};
use crate::params::PreviewParams;
use crate::pipeline::{
    law_identity_plans_nothing, law_plan_holds_the_active_stages, one, ColorSpace, LensGear,
    LensParams, Stage, StageKind,
};
use crate::raster::{has_image, holds_image};

verus! {

/// The stages that run on a display-referred image: none if the buffer does not hold it,
/// or if the edit plans none.
pub open spec fn stages_on(
    holds: bool,
    params: PreviewParams,
    gear: Option<LensGear>,
) -> Option<Seq<Stage>> {
    let plan = params.plan(ColorSpace::LinearSrgb, one(), gear, true);
    if holds && plan.len() > 0 {
        Some(plan)
    } else {
        None
    }
}

fn plan_if(holds: bool, params: &PreviewParams, gear: &Option<LensGear>) -> (r: Option<Vec<Stage>>)
    ensures
        r is Some <==> stages_on(holds, *params, *gear) is Some,
        r is Some ==> r->0@ == stages_on(holds, *params, *gear)->0,
{
    if !holds {
        return None;
    }
    let plan: Vec<Stage> = params.to_pipeline_with(
        ColorSpace::LinearSrgb,
        F32::from_bits(ONE),
        gear,
    );
    if plan.len() == 0 {
        None
    } else {
        Some(plan)
    }
}

/// The stages that run on an interleaved eight-bit image, or `None` if it is returned as
/// it is: the buffer does not hold it, or no stage is planned.
pub fn image_plan(
    len: usize,
    width: usize,
    height: usize,
    rowstride: usize,
    nch: usize,
    params: &PreviewParams,
    gear: &Option<LensGear>,
) -> (r: Option<Vec<Stage>>)
    ensures
        ({
            let stages = stages_on(
                holds_image(
                    len as int,
                    width as int,
                    height as int,
                    rowstride as int,
                    nch as int,
                ),
                *params,
                *gear,
            );
            &&& r is Some <==> stages is Some
            &&& r is Some ==> r->0@ == stages->0
        }),
        r is Some <==> 0 < nch && 0 < width && 0 < height && (height - 1) * rowstride + width * nch
            <= len && params.plan(ColorSpace::LinearSrgb, F32 { bits: ONE }, *gear, true).len() > 0,
        r is Some ==> r->0@ == params.plan(
            ColorSpace::LinearSrgb,
            F32 { bits: ONE },
            *gear,
            true,
        ),
{
    plan_if(has_image(len, width, height, rowstride, nch), params, gear)
}

/// Whether a buffer holds an image of packed pixels with `samples` values each.
pub open spec fn holds_packed(len: int, width: int, height: int, samples: int) -> bool {
    0 < width && 0 < height && width * height * samples <= len
}

/// `width * height * samples`, or `None` if it does not fit.
fn packed_len(width: usize, height: usize, samples: usize) -> (r: Option<usize>)
    ensures
        match r {
            Some(n) => n == width * height * samples,
            None => width * height * samples > usize::MAX,
        },
{
    match width.checked_mul(height) {
        Some(n) => n.checked_mul(samples),
        None => {
            if samples == 0 {
                assert(width * height * samples == 0) by (nonlinear_arith)
                    requires
                        samples == 0,
                ;
                return Some(0);
            }
            assert(width * height * samples >= width * height) by (nonlinear_arith)
                requires
                    samples >= 1,
                    width * height >= 0,
            ;
            None
        },
    }
}

/// The stages that run on a packed sixteen-bit RGB image, or `None` if it is returned as
/// it is.
pub fn rgb16_plan(
    len: usize,
    width: usize,
    height: usize,
    params: &PreviewParams,
    gear: &Option<LensGear>,
) -> (r: Option<Vec<Stage>>)
    ensures
        ({
            let stages = stages_on(
                holds_packed(len as int, width as int, height as int, 3),
                *params,
                *gear,
            );
            &&& r is Some <==> stages is Some
            &&& r is Some ==> r->0@ == stages->0
        }),
        r is Some <==> 0 < width && 0 < height && width * height * 3 <= len && params.plan(
            ColorSpace::LinearSrgb,
            F32 { bits: ONE },
            *gear,
            true,
        ).len() > 0,
        r is Some ==> r->0@ == params.plan(
            ColorSpace::LinearSrgb,
            F32 { bits: ONE },
            *gear,
            true,
        ),
{
    let fits = match packed_len(width, height, 3) {
        Some(n) => n <= len,
        None => false,
    };
    plan_if(width > 0 && height > 0 && fits, params, gear)
}

/// The size of the black frame that is shown in place of a linear RGBA frame that is too
/// short, or `None` if the frame is long enough.
pub fn missing_frame(len: usize, width: usize, height: usize) -> (r: Option<usize>)
    requires
        width * height * 4 <= usize::MAX,
    ensures
        r == if len < width * height * 4 {
            Some((width * height * 3) as usize)
        } else {
            None
        },
{
    assert(0 <= width * height) by (nonlinear_arith);
    let n: usize = width * height;
    if len < n * 4 {
        Some(n * 3)
    } else {
        None
    }
}

/// The lens correction that is applied to a whole raw frame before it is cropped.
pub open spec fn prepass(params: PreviewParams, gear: Option<LensGear>) -> Option<LensParams> {
    match gear {
        Some(g) => if params.lens_on {
            Some(params.lens_settings(g))
        } else {
            None
        },
        None => None,
    }
}

/// The settings with which a whole raw frame is corrected before it is cropped, or `None`
/// if it is not: the module is off, or camera and lens are not known.
pub fn lens_prepass(params: &PreviewParams, gear: &Option<LensGear>) -> (r: Option<LensParams>)
    ensures
        r == prepass(*params, *gear),
        r is Some <==> params.lens_on && gear is Some,
        r is Some ==> r->0.camera_maker == gear->0.camera_maker && r->0.camera_model
            == gear->0.camera_model && r->0.lens == gear->0.lens_model && r->0.crop
            == gear->0.crop_factor,
{
    match gear {
        Some(g) => if params.lens_on {
            Some(params.lens_params(g))
        } else {
            None
        },
        None => None,
    }
}

/// The pre-pass corrects a frame exactly when a plan with the lens stage would, and with
/// the same settings.
pub proof fn law_prepass_mirrors_the_plan(
    params: PreviewParams,
    space: ColorSpace,
    scale: F32,
    gear: Option<LensGear>,
    correction: LensParams,
)
    ensures
        prepass(params, gear) == Some(correction) <==> params.plan(
            space,
            scale,
            gear,
            true,
        ).contains(Stage::LensCorrection { correction }),
{
    let stage = Stage::LensCorrection { correction };
    law_plan_holds_the_active_stages(params, space, scale, gear, true, stage);
    reveal(PreviewParams::active);
    reveal(PreviewParams::stage_of);
    assert(stage.kind() == StageKind::LensCorrection);
}

/// An edit that changes nothing leaves every image as it is.
pub proof fn law_identity_leaves_the_image(
    holds: bool,
    params: PreviewParams,
    gear: Option<LensGear>,
)
    requires
        params.identity(),
    ensures
        stages_on(holds, params, gear) is None,
{
    law_identity_plans_nothing(params, ColorSpace::LinearSrgb, one(), gear, true);
}

} // verus!
