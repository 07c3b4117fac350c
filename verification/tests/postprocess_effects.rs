//! Tests of the post-process effect builder and presets.

use assimp::native::{
    POSTPROCESS_CALC_TANGENT_SPACE, POSTPROCESS_FLIP_UVS, POSTPROCESS_FLIP_WINDING_ORDER,
    POSTPROCESS_GEN_NORMALS, POSTPROCESS_JOIN_IDENTICAL_VERTICES, POSTPROCESS_MAKE_LEFT_HANDED,
    POSTPROCESS_SORT_BY_PTYPE, POSTPROCESS_TRANSFORM_VERTICES, POSTPROCESS_TRIANGULATE,
};
use assimp::postprocess::{presets, PostprocessEffect, PostprocessEffectBuilder};

#[test]
fn empty_builder_builds_no_effects() {
    assert_eq!(PostprocessEffectBuilder::new().build().bits(), 0);
}

#[test]
fn builder_sets_and_clears_bits() {
    let effects = PostprocessEffectBuilder::new()
        .triangulate(true)
        .gen_normals(true)
        .build();
    assert_eq!(effects.bits(), POSTPROCESS_TRIANGULATE | POSTPROCESS_GEN_NORMALS);

    let effects = PostprocessEffectBuilder::new()
        .triangulate(true)
        .triangulate(false)
        .build();
    assert_eq!(effects.bits(), 0);
}

#[test]
fn preset_convert_to_left_handed() {
    assert_eq!(
        presets::convert_to_left_handed().bits(),
        POSTPROCESS_MAKE_LEFT_HANDED | POSTPROCESS_FLIP_UVS | POSTPROCESS_FLIP_WINDING_ORDER
    );
}

#[test]
fn preset_target_realtime_fast() {
    assert_eq!(
        PostprocessEffectBuilder::target_realtime_fast().build().bits(),
        POSTPROCESS_CALC_TANGENT_SPACE | POSTPROCESS_JOIN_IDENTICAL_VERTICES
            | POSTPROCESS_TRIANGULATE | POSTPROCESS_SORT_BY_PTYPE
    );
}

#[test]
fn preset_builder_tweaks() {
    // Start from the heaviest preset, then flip steps as a caller would.
    let effects = PostprocessEffectBuilder::target_realtime_max_quality()
        .gen_normals(false)
        .transform_vertices(true)
        .gen_smooth_normals(false)
        .build();
    assert!(effects.contains(PostprocessEffect::from_bits_retain(
        POSTPROCESS_TRANSFORM_VERTICES
    )));
    assert!(effects.contains(PostprocessEffect::from_bits_retain(POSTPROCESS_TRIANGULATE)));
    assert!(!effects.contains(PostprocessEffect::from_bits_retain(POSTPROCESS_GEN_NORMALS)));
}

#[test]
fn quality_presets_nest() {
    let fast = PostprocessEffectBuilder::target_realtime_fast().build();
    let quality = PostprocessEffectBuilder::target_realtime_quality().build();
    let max = PostprocessEffectBuilder::target_realtime_max_quality().build();
    assert!(quality.contains(fast));
    assert!(max.contains(quality));
    assert_eq!(quality.union(max).bits(), max.bits());
}

#[test]
fn effect_set_operations() {
    let mut set = PostprocessEffect::empty();
    set.insert(PostprocessEffect::from_bits_retain(POSTPROCESS_TRIANGULATE));
    assert!(set.contains(PostprocessEffect::from_bits_retain(POSTPROCESS_TRIANGULATE)));
    set.remove(PostprocessEffect::from_bits_retain(POSTPROCESS_TRIANGULATE));
    assert_eq!(set.bits(), 0);
}
