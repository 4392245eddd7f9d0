use c41_ui::float32::F32;
use c41_ui::params::PreviewParams;
use c41_ui::stylemodules::{copy_module_group, merge_modules, MODULE_GROUPS};
use c41_ui::styles::{apply_style, Style};

fn num(x: f32) -> F32 {
    F32::from_bits(x.to_bits())
}

/// Every flag flipped and every number unlike its default.
fn fully_populated_params() -> PreviewParams {
    let mut b = PreviewParams::default().encode();
    for i in 1..38 {
        b[i] = 1 - b[i];
    }
    for k in 0..444 {
        let at = 38 + 4 * k;
        b[at..at + 4].copy_from_slice(&(1000.0 + k as f32).to_le_bytes());
    }
    PreviewParams::decode(&b).unwrap()
}

#[test]
fn module_groups_are_unique_and_complete_in_pipeline_order() {
    assert_eq!(MODULE_GROUPS.len(), 33);
    let mut sorted = MODULE_GROUPS.to_vec();
    sorted.sort_unstable();
    let n = sorted.len();
    sorted.dedup();
    assert_eq!(sorted.len(), n, "duplicate group name");
    assert_eq!(MODULE_GROUPS[0], "Exposure", "pipeline order starts at exposure");
    assert_eq!(
        MODULE_GROUPS[MODULE_GROUPS.len() - 1],
        "Lens correction",
        "pipeline order ends at lens correction"
    );
}

#[test]
fn copying_one_group_moves_only_that_group() {
    let mut target = PreviewParams { ev: num(-1.5), ..PreviewParams::default() };
    let overlay = PreviewParams {
        ev: num(9.0),
        velvia_on: true,
        velvia_strength: num(42.0),
        ..PreviewParams::default()
    };
    assert!(copy_module_group(&mut target, &overlay, "Velvia"));
    assert!(target.velvia_on);
    assert_eq!(target.velvia_strength, num(42.0));
    assert_eq!(target.ev, num(-1.5), "another group's field must not move");
    assert_eq!(target.black, PreviewParams::default().black);
}

#[test]
fn unknown_group_is_reported_and_ignored_by_merge() {
    let mut target = PreviewParams { ev: num(-1.5), ..PreviewParams::default() };
    assert!(!copy_module_group(&mut target, &PreviewParams::default(), "Not A Module"));
    assert_eq!(target.ev, num(-1.5));

    let merged = merge_modules(
        &PreviewParams { ev: num(-1.5), ..PreviewParams::default() },
        &PreviewParams { ev: num(9.0), ..PreviewParams::default() },
        &["Not A Module"],
    );
    assert_eq!(merged.ev, num(-1.5));
}

#[test]
fn merging_every_group_equals_a_wholesale_copy() {
    let populated = fully_populated_params();
    let base = PreviewParams::default();
    let merged = merge_modules(&base, &populated, &MODULE_GROUPS);
    assert_eq!(merged, populated, "every field must belong to exactly one listed group");
}

#[test]
fn basic_adjustments_group_moves_the_non_user_control_too() {
    let overlay = PreviewParams {
        basicadj_hlcomprthresh: num(3.5),
        ..PreviewParams::default()
    };
    let mut target = PreviewParams::default();
    assert!(copy_module_group(&mut target, &overlay, "Basic adjustments"));
    assert_eq!(target.basicadj_hlcomprthresh, num(3.5));
}

#[test]
fn merge_moves_exactly_the_listed_groups() {
    let base = fully_populated_params();
    let merged = merge_modules(&base, &PreviewParams::default(), &["Velvia", "Levels"]);
    assert_eq!(merged.velvia_strength, PreviewParams::default().velvia_strength);
    assert_eq!(merged.levels_grey, PreviewParams::default().levels_grey);
    assert_eq!(merged.ev, base.ev, "Exposure is not listed");
    assert_eq!(merged.cb_contrast, base.cb_contrast, "Color balance RGB is not listed");
    assert_eq!(merged.lens_focal, base.lens_focal, "Lens correction is not listed");
}

fn style_with(params: PreviewParams, modules: Option<Vec<String>>) -> Style {
    Style { name: "test".into(), description: String::new(), params, modules }
}

#[test]
fn applying_a_whole_style_replaces_the_current_edit() {
    let current = fully_populated_params();
    let out = apply_style(&current, &style_with(PreviewParams::default(), None));
    assert_eq!(out, PreviewParams::default());
}

#[test]
fn applying_a_partial_style_merges_over_the_current_edit() {
    let current = fully_populated_params();
    let out = apply_style(
        &current,
        &style_with(PreviewParams::default(), Some(vec!["Velvia".into(), "Garbage".into()])),
    );
    assert_eq!(out.velvia_strength, PreviewParams::default().velvia_strength);
    assert_eq!(out.ev, current.ev, "Exposure is not in the style");
    assert_eq!(out.lens_focal, current.lens_focal, "Lens correction is not in the style");
}

#[test]
fn every_group_moves_something_and_nothing_twice() {
    let base = PreviewParams::default();
    let overlay = fully_populated_params();
    let mut seen = base;
    for group in MODULE_GROUPS {
        let before = seen.encode();
        let mut alone = base;
        assert!(copy_module_group(&mut alone, &overlay, group));
        assert!(alone != base, "{group} moves nothing");
        assert!(copy_module_group(&mut seen, &overlay, group));
        let moved_alone = alone.encode().iter().zip(base.encode()).filter(|(a, b)| **a != *b).count();
        let moved_here = seen.encode().iter().zip(before).filter(|(a, b)| **a != *b).count();
        assert_eq!(moved_alone, moved_here, "{group} shares a field with another group");
    }
}

#[test]
fn merging_twice_is_merging_once() {
    let base = PreviewParams::default();
    let overlay = fully_populated_params();
    let names = ["Exposure", "No such module", "Bloom", "Exposure"];
    let once = merge_modules(&base, &overlay, &names);
    assert_eq!(once.ev, overlay.ev);
    assert_eq!(once.velvia_strength, base.velvia_strength);
    assert_eq!(merge_modules(&once, &overlay, &names), once);
}

#[test]
fn module_names_fit_into_a_comma_separated_list() {
    for name in MODULE_GROUPS {
        assert!(!name.is_empty() && !name.contains(','), "{name}");
    }
}
