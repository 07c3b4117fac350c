//! Preset effect sets for common import targets.

use vstd::prelude::*;

use crate::native::{
    POSTPROCESS_CALC_TANGENT_SPACE, POSTPROCESS_FIND_DEGENERATES, POSTPROCESS_FIND_INSTANCES,
    POSTPROCESS_FIND_INVALID_DATA, POSTPROCESS_FLIP_UVS, POSTPROCESS_FLIP_WINDING_ORDER,
    POSTPROCESS_GEN_UV_COORDS, POSTPROCESS_IMPROVE_CACHE_LOCALITY,
    POSTPROCESS_JOIN_IDENTICAL_VERTICES, POSTPROCESS_LIMIT_BONE_WEIGHTS,
    POSTPROCESS_MAKE_LEFT_HANDED, POSTPROCESS_OPTIMIZE_GRAPH, POSTPROCESS_OPTIMIZE_MESHES,
    POSTPROCESS_REMOVE_REDUNDANT_MATERIALS, POSTPROCESS_SORT_BY_PTYPE,
    POSTPROCESS_SPLIT_LARGE_MESHES, POSTPROCESS_TRIANGULATE, POSTPROCESS_VALIDATE_DATA_STRUCTURE,
};
use crate::postprocess::PostprocessEffect;

verus! {

/// Everything needed to convert a scene to left-handed conventions.
pub fn convert_to_left_handed() -> (r: PostprocessEffect)
    ensures
        r.spec_bits() == POSTPROCESS_MAKE_LEFT_HANDED | POSTPROCESS_FLIP_UVS
            | POSTPROCESS_FLIP_WINDING_ORDER,
{
    PostprocessEffect::from_bits_retain(
        POSTPROCESS_MAKE_LEFT_HANDED | POSTPROCESS_FLIP_UVS | POSTPROCESS_FLIP_WINDING_ORDER,
    )
}

/// A fast set of steps for real-time rendering.
pub fn target_realtime_fast() -> (r: PostprocessEffect)
    ensures
        r.spec_bits() == POSTPROCESS_CALC_TANGENT_SPACE | POSTPROCESS_JOIN_IDENTICAL_VERTICES | POSTPROCESS_TRIANGULATE | POSTPROCESS_SORT_BY_PTYPE,
{
    PostprocessEffect::from_bits_retain(
        POSTPROCESS_CALC_TANGENT_SPACE | POSTPROCESS_JOIN_IDENTICAL_VERTICES | POSTPROCESS_TRIANGULATE | POSTPROCESS_SORT_BY_PTYPE,
    )
}

/// A balanced set of steps for real-time rendering.
pub fn target_realtime_quality() -> (r: PostprocessEffect)
    ensures
        r.spec_bits() == POSTPROCESS_CALC_TANGENT_SPACE | POSTPROCESS_JOIN_IDENTICAL_VERTICES | POSTPROCESS_TRIANGULATE | POSTPROCESS_SORT_BY_PTYPE | POSTPROCESS_IMPROVE_CACHE_LOCALITY | POSTPROCESS_LIMIT_BONE_WEIGHTS | POSTPROCESS_OPTIMIZE_MESHES | POSTPROCESS_OPTIMIZE_GRAPH | POSTPROCESS_REMOVE_REDUNDANT_MATERIALS | POSTPROCESS_SPLIT_LARGE_MESHES | POSTPROCESS_GEN_UV_COORDS | POSTPROCESS_FIND_DEGENERATES | POSTPROCESS_FIND_INVALID_DATA,
{
    PostprocessEffect::from_bits_retain(
        POSTPROCESS_CALC_TANGENT_SPACE | POSTPROCESS_JOIN_IDENTICAL_VERTICES | POSTPROCESS_TRIANGULATE | POSTPROCESS_SORT_BY_PTYPE | POSTPROCESS_IMPROVE_CACHE_LOCALITY | POSTPROCESS_LIMIT_BONE_WEIGHTS | POSTPROCESS_OPTIMIZE_MESHES | POSTPROCESS_OPTIMIZE_GRAPH | POSTPROCESS_REMOVE_REDUNDANT_MATERIALS | POSTPROCESS_SPLIT_LARGE_MESHES | POSTPROCESS_GEN_UV_COORDS | POSTPROCESS_FIND_DEGENERATES | POSTPROCESS_FIND_INVALID_DATA,
    )
}

/// The most thorough set of steps for real-time rendering.
pub fn target_realtime_max_quality() -> (r: PostprocessEffect)
    ensures
        r.spec_bits() == POSTPROCESS_CALC_TANGENT_SPACE | POSTPROCESS_JOIN_IDENTICAL_VERTICES | POSTPROCESS_TRIANGULATE | POSTPROCESS_SORT_BY_PTYPE | POSTPROCESS_IMPROVE_CACHE_LOCALITY | POSTPROCESS_LIMIT_BONE_WEIGHTS | POSTPROCESS_OPTIMIZE_MESHES | POSTPROCESS_OPTIMIZE_GRAPH | POSTPROCESS_REMOVE_REDUNDANT_MATERIALS | POSTPROCESS_SPLIT_LARGE_MESHES | POSTPROCESS_GEN_UV_COORDS | POSTPROCESS_FIND_DEGENERATES | POSTPROCESS_FIND_INVALID_DATA | POSTPROCESS_FIND_INSTANCES | POSTPROCESS_VALIDATE_DATA_STRUCTURE,
{
    PostprocessEffect::from_bits_retain(
        POSTPROCESS_CALC_TANGENT_SPACE | POSTPROCESS_JOIN_IDENTICAL_VERTICES | POSTPROCESS_TRIANGULATE | POSTPROCESS_SORT_BY_PTYPE | POSTPROCESS_IMPROVE_CACHE_LOCALITY | POSTPROCESS_LIMIT_BONE_WEIGHTS | POSTPROCESS_OPTIMIZE_MESHES | POSTPROCESS_OPTIMIZE_GRAPH | POSTPROCESS_REMOVE_REDUNDANT_MATERIALS | POSTPROCESS_SPLIT_LARGE_MESHES | POSTPROCESS_GEN_UV_COORDS | POSTPROCESS_FIND_DEGENERATES | POSTPROCESS_FIND_INVALID_DATA | POSTPROCESS_FIND_INSTANCES | POSTPROCESS_VALIDATE_DATA_STRUCTURE,
    )
}

} // verus!
