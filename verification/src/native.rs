//! Constants and record shapes fixed by the native engine's C contract.
//!
//! The engine drives custom I/O through a table of function pointers; the
//! values here mirror the codes those functions exchange.  The raw pointer
//! surface itself stays outside the library — here the same contract is
//! modelled over ordinary values.

use vstd::prelude::*;

verus! {

/// Seek origin code: absolute from the start of the stream.
pub const AI_ORIGIN_SET: i32 = 0;
/// Seek origin code: relative to the current position.
pub const AI_ORIGIN_CUR: i32 = 1;
/// Seek origin code: relative to the end of the stream.
pub const AI_ORIGIN_END: i32 = 2;

/// Return code reported to the engine for a successful seek.
pub const AI_SUCCESS: i32 = 0;
/// Return code reported to the engine for a failed seek.
pub const AI_FAILURE: i32 = -1;

/// Scene flag: the scene is incomplete.
pub const SCENE_FLAG_INCOMPLETE: u32 = 0x1;
/// Scene flag: the scene passed validation.
pub const SCENE_FLAG_VALIDATED: u32 = 0x2;
/// Scene flag: validation reported warnings.
pub const SCENE_FLAG_VALIDATION_WARNING: u32 = 0x4;
/// Scene flag: the scene data is in a non-verbose format.
pub const SCENE_FLAG_NON_VERBOSE_FORMAT: u32 = 0x8;
/// Scene flag: the scene is a terrain.
pub const SCENE_FLAG_TERRAIN: u32 = 0x10;
/// Scene flag: the scene may share data between meshes.
pub const SCENE_FLAG_ALLOW_SHARED: u32 = 0x20;

/// Length of a texture's format hint field, terminator included.
pub const ARCH_FORMAT_HINT_LENGTH: usize = 9;

/// Post-process step: calculate tangents and bitangents.
pub const POSTPROCESS_CALC_TANGENT_SPACE: u32 = 0x1;
/// Post-process step: join identical vertices.
pub const POSTPROCESS_JOIN_IDENTICAL_VERTICES: u32 = 0x2;
/// Post-process step: convert to a left-handed coordinate system.
pub const POSTPROCESS_MAKE_LEFT_HANDED: u32 = 0x4;
/// Post-process step: triangulate polygons.
pub const POSTPROCESS_TRIANGULATE: u32 = 0x8;
/// Post-process step: remove chosen components of the data.
pub const POSTPROCESS_REMOVE_COMPONENT: u32 = 0x10;
/// Post-process step: generate per-face normals.
pub const POSTPROCESS_GEN_NORMALS: u32 = 0x20;
/// Post-process step: generate smooth per-vertex normals.
pub const POSTPROCESS_GEN_SMOOTH_NORMALS: u32 = 0x40;
/// Post-process step: split large meshes.
pub const POSTPROCESS_SPLIT_LARGE_MESHES: u32 = 0x80;
/// Post-process step: pre-transform vertices by node transforms.
pub const POSTPROCESS_TRANSFORM_VERTICES: u32 = 0x100;
/// Post-process step: limit bone weights per vertex.
pub const POSTPROCESS_LIMIT_BONE_WEIGHTS: u32 = 0x200;
/// Post-process step: validate the data structure.
pub const POSTPROCESS_VALIDATE_DATA_STRUCTURE: u32 = 0x400;
/// Post-process step: improve vertex cache locality.
pub const POSTPROCESS_IMPROVE_CACHE_LOCALITY: u32 = 0x800;
/// Post-process step: remove redundant materials.
pub const POSTPROCESS_REMOVE_REDUNDANT_MATERIALS: u32 = 0x1000;
/// Post-process step: fix normals facing inwards.
pub const POSTPROCESS_FIX_INFACING_NORMALS: u32 = 0x2000;
/// Post-process step: sort meshes by primitive type.
pub const POSTPROCESS_SORT_BY_PTYPE: u32 = 0x8000;
/// Post-process step: find degenerate primitives.
pub const POSTPROCESS_FIND_DEGENERATES: u32 = 0x10000;
/// Post-process step: find invalid data.
pub const POSTPROCESS_FIND_INVALID_DATA: u32 = 0x20000;
/// Post-process step: generate UV coordinates.
pub const POSTPROCESS_GEN_UV_COORDS: u32 = 0x40000;
/// Post-process step: apply per-texture UV transforms.
pub const POSTPROCESS_TRANSFORM_UV_COORDS: u32 = 0x80000;
/// Post-process step: find instanced meshes.
pub const POSTPROCESS_FIND_INSTANCES: u32 = 0x100000;
/// Post-process step: optimize meshes.
pub const POSTPROCESS_OPTIMIZE_MESHES: u32 = 0x200000;
/// Post-process step: optimize the scene graph.
pub const POSTPROCESS_OPTIMIZE_GRAPH: u32 = 0x400000;
/// Post-process step: flip UV coordinates along the y-axis.
pub const POSTPROCESS_FLIP_UVS: u32 = 0x800000;
/// Post-process step: flip face winding order.
pub const POSTPROCESS_FLIP_WINDING_ORDER: u32 = 0x1000000;
/// Post-process step: split meshes by bone count.
pub const POSTPROCESS_SPLIT_BY_BONE_COUNT: u32 = 0x2000000;
/// Post-process step: remove bones losslessly where possible.
pub const POSTPROCESS_DEBONE: u32 = 0x4000000;

/// Light source kind code: undefined.
pub const LIGHT_SOURCE_UNDEFINED: u32 = 0x0;
/// Light source kind code: directional light.
pub const LIGHT_SOURCE_DIRECTIONAL: u32 = 0x1;
/// Light source kind code: point light.
pub const LIGHT_SOURCE_POINT: u32 = 0x2;
/// Light source kind code: spot light.
pub const LIGHT_SOURCE_SPOT: u32 = 0x3;
/// Light source kind code: ambient light.
pub const LIGHT_SOURCE_AMBIENT: u32 = 0x4;
/// Light source kind code: area light.
pub const LIGHT_SOURCE_AREA: u32 = 0x5;

/// Primitive type bit: point.
pub const PRIMITIVE_TYPE_POINT: u32 = 0x1;
/// Primitive type bit: line.
pub const PRIMITIVE_TYPE_LINE: u32 = 0x2;
/// Primitive type bit: triangle.
pub const PRIMITIVE_TYPE_TRIANGLE: u32 = 0x4;
/// Primitive type bit: polygon.
pub const PRIMITIVE_TYPE_POLYGON: u32 = 0x8;

/// An open file record: the native-visible structure standing for one open
/// stream.
///
/// A record is created only by an opener procedure and destroyed only by the
/// matching closer procedure of the bridge named by `origin`; between the two
/// calls the engine owns it exclusively.  At the C boundary the record turns
/// into an opaque handle next to a dispatch table of the per-operation
/// procedures.
pub struct AiFile<S> {
    /// The stream this record owns.
    pub stream: S,
    /// The identity of the bridge whose opener created this record.
    pub origin: Ghost<int>,
}

/// A position to seek to, mirroring the engine's three origin codes.
#[derive(Debug, Clone, Copy, PartialEq, Eq, Structural)]
pub enum SeekFrom {
    Start(u64),
    Current(i64),
    End(i64),
}

/// Whether `origin` is one of the three origin codes the engine may pass.
pub open spec fn is_valid_origin(origin: i32) -> bool {
    origin == AI_ORIGIN_SET || origin == AI_ORIGIN_CUR || origin == AI_ORIGIN_END
}

/// The seek position encoded by an origin code and an offset, as the
/// file-operation procedures interpret it.
pub open spec fn origin_seek_from(origin: i32, pos: u64) -> SeekFrom
    recommends
        is_valid_origin(origin),
{
    if origin == AI_ORIGIN_SET {
        SeekFrom::Start(pos)
    } else if origin == AI_ORIGIN_CUR {
        SeekFrom::Current(pos as i64)
    } else {
        SeekFrom::End(pos as i64)
    }
}

/// Decodes an origin code and offset into a seek position.
///
/// Returns `None` exactly on origin codes outside the engine's contract; the
/// caller at the C boundary treats that as a fatal internal-contract breach.
pub fn decode_origin(origin: i32, pos: u64) -> (r: Option<SeekFrom>)
    ensures
        r is Some <==> is_valid_origin(origin),
        r is Some ==> r->Some_0 == origin_seek_from(origin, pos),
{
    if origin == AI_ORIGIN_SET {
        Some(SeekFrom::Start(pos))
    } else if origin == AI_ORIGIN_CUR {
        Some(SeekFrom::Current(pos as i64))
    } else if origin == AI_ORIGIN_END {
        Some(SeekFrom::End(pos as i64))
    } else {
        None
    }
}

} // verus!
