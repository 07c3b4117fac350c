//! Post-process effect bitmasks and their builder.
//!
//! An effect set is the bitmask handed to the engine's import and
//! post-process calls; composing one is pure bit arithmetic.

pub mod presets;

use vstd::prelude::*;

use crate::native::{
    POSTPROCESS_CALC_TANGENT_SPACE,
    POSTPROCESS_JOIN_IDENTICAL_VERTICES,
    POSTPROCESS_MAKE_LEFT_HANDED,
    POSTPROCESS_TRIANGULATE,
    POSTPROCESS_REMOVE_COMPONENT,
    POSTPROCESS_GEN_NORMALS,
    POSTPROCESS_GEN_SMOOTH_NORMALS,
    POSTPROCESS_SPLIT_LARGE_MESHES,
    POSTPROCESS_TRANSFORM_VERTICES,
    POSTPROCESS_LIMIT_BONE_WEIGHTS,
    POSTPROCESS_VALIDATE_DATA_STRUCTURE,
    POSTPROCESS_IMPROVE_CACHE_LOCALITY,
    POSTPROCESS_REMOVE_REDUNDANT_MATERIALS,
    POSTPROCESS_FIX_INFACING_NORMALS,
    POSTPROCESS_SORT_BY_PTYPE,
    POSTPROCESS_FIND_DEGENERATES,
    POSTPROCESS_FIND_INVALID_DATA,
    POSTPROCESS_GEN_UV_COORDS,
    POSTPROCESS_TRANSFORM_UV_COORDS,
    POSTPROCESS_FIND_INSTANCES,
    POSTPROCESS_OPTIMIZE_MESHES,
    POSTPROCESS_OPTIMIZE_GRAPH,
    POSTPROCESS_FLIP_UVS,
    POSTPROCESS_FLIP_WINDING_ORDER,
    POSTPROCESS_SPLIT_BY_BONE_COUNT,
    POSTPROCESS_DEBONE,
};

verus! {

/// A set of post-process effects, as the bitmask handed to the engine.
#[derive(Debug, Clone, Copy, PartialEq, Eq, Structural)]
pub struct PostprocessEffect {
    bits: u32,
}

impl PostprocessEffect {
    /// The bitmask this effect set stands for.
    pub closed spec fn spec_bits(&self) -> u32 {
        self.bits
    }

    /// The empty effect set.
    pub fn empty() -> (r: PostprocessEffect)
        ensures
            r.spec_bits() == 0,
    {
        PostprocessEffect { bits: 0 }
    }

    /// An effect set holding exactly the given bits.
    pub fn from_bits_retain(bits: u32) -> (r: PostprocessEffect)
        ensures
            r.spec_bits() == bits,
    {
        PostprocessEffect { bits }
    }

    /// The bitmask, for handing to the engine.
    pub fn bits(&self) -> (r: u32)
        ensures
            r == self.spec_bits(),
    {
        self.bits
    }

    /// Whether every effect of `other` is also in this set.
    pub fn contains(&self, other: PostprocessEffect) -> (r: bool)
        ensures
            r == (self.spec_bits() & other.spec_bits() == other.spec_bits()),
    {
        self.bits & other.bits == other.bits
    }

    /// Adds the effects of `other` to this set.
    pub fn insert(&mut self, other: PostprocessEffect)
        ensures
            final(self).spec_bits() == old(self).spec_bits() | other.spec_bits(),
    {
        self.bits = self.bits | other.bits;
    }

    /// Removes the effects of `other` from this set.
    pub fn remove(&mut self, other: PostprocessEffect)
        ensures
            final(self).spec_bits() == old(self).spec_bits() & !other.spec_bits(),
    {
        self.bits = self.bits & !other.bits;
    }

    /// The effects of both sets.
    pub fn union(self, other: PostprocessEffect) -> (r: PostprocessEffect)
        ensures
            r.spec_bits() == self.spec_bits() | other.spec_bits(),
    {
        PostprocessEffect { bits: self.bits | other.bits }
    }
}

/// Builds an effect set step by step, starting empty or from a preset.
pub struct PostprocessEffectBuilder {
    pub effects: PostprocessEffect,
}

impl PostprocessEffectBuilder {
    /// A builder holding no effects.
    pub fn new() -> (r: PostprocessEffectBuilder)
        ensures
            r.effects.spec_bits() == 0,
    {
        PostprocessEffectBuilder { effects: PostprocessEffect::empty() }
    }

    /// The effect set built so far.
    pub fn build(self) -> (r: PostprocessEffect)
        ensures
            r == self.effects,
    {
        self.effects
    }

    /// Builder starting from the preset of the same name.
    pub fn convert_to_left_handed() -> (r: PostprocessEffectBuilder)
        ensures
            r.effects.spec_bits() == POSTPROCESS_MAKE_LEFT_HANDED | POSTPROCESS_FLIP_UVS | POSTPROCESS_FLIP_WINDING_ORDER,
    {
        PostprocessEffectBuilder { effects: presets::convert_to_left_handed() }
    }

    /// Builder starting from the preset of the same name.
    pub fn target_realtime_fast() -> (r: PostprocessEffectBuilder)
        ensures
            r.effects.spec_bits() == POSTPROCESS_CALC_TANGENT_SPACE | POSTPROCESS_JOIN_IDENTICAL_VERTICES | POSTPROCESS_TRIANGULATE | POSTPROCESS_SORT_BY_PTYPE,
    {
        PostprocessEffectBuilder { effects: presets::target_realtime_fast() }
    }

    /// Builder starting from the preset of the same name.
    pub fn target_realtime_quality() -> (r: PostprocessEffectBuilder)
        ensures
            r.effects.spec_bits() == POSTPROCESS_CALC_TANGENT_SPACE | POSTPROCESS_JOIN_IDENTICAL_VERTICES | POSTPROCESS_TRIANGULATE | POSTPROCESS_SORT_BY_PTYPE | POSTPROCESS_IMPROVE_CACHE_LOCALITY | POSTPROCESS_LIMIT_BONE_WEIGHTS | POSTPROCESS_OPTIMIZE_MESHES | POSTPROCESS_OPTIMIZE_GRAPH | POSTPROCESS_REMOVE_REDUNDANT_MATERIALS | POSTPROCESS_SPLIT_LARGE_MESHES | POSTPROCESS_GEN_UV_COORDS | POSTPROCESS_FIND_DEGENERATES | POSTPROCESS_FIND_INVALID_DATA,
    {
        PostprocessEffectBuilder { effects: presets::target_realtime_quality() }
    }

    /// Builder starting from the preset of the same name.
    pub fn target_realtime_max_quality() -> (r: PostprocessEffectBuilder)
        ensures
            r.effects.spec_bits() == POSTPROCESS_CALC_TANGENT_SPACE | POSTPROCESS_JOIN_IDENTICAL_VERTICES | POSTPROCESS_TRIANGULATE | POSTPROCESS_SORT_BY_PTYPE | POSTPROCESS_IMPROVE_CACHE_LOCALITY | POSTPROCESS_LIMIT_BONE_WEIGHTS | POSTPROCESS_OPTIMIZE_MESHES | POSTPROCESS_OPTIMIZE_GRAPH | POSTPROCESS_REMOVE_REDUNDANT_MATERIALS | POSTPROCESS_SPLIT_LARGE_MESHES | POSTPROCESS_GEN_UV_COORDS | POSTPROCESS_FIND_DEGENERATES | POSTPROCESS_FIND_INVALID_DATA | POSTPROCESS_FIND_INSTANCES | POSTPROCESS_VALIDATE_DATA_STRUCTURE,
    {
        PostprocessEffectBuilder { effects: presets::target_realtime_max_quality() }
    }

    /// Enables or disables the calc tangent space step.
    pub fn calc_tangent_space(self, enable: bool) -> (r: PostprocessEffectBuilder)
        ensures
            r.effects.spec_bits() == if enable {
                self.effects.spec_bits() | POSTPROCESS_CALC_TANGENT_SPACE
            } else {
                self.effects.spec_bits() & !POSTPROCESS_CALC_TANGENT_SPACE
            },
    {
        let mut effects = self.effects;
        if enable {
            effects.insert(PostprocessEffect::from_bits_retain(POSTPROCESS_CALC_TANGENT_SPACE));
        } else {
            effects.remove(PostprocessEffect::from_bits_retain(POSTPROCESS_CALC_TANGENT_SPACE));
        }
        PostprocessEffectBuilder { effects }
    }

    /// Enables or disables the join identical vertices step.
    pub fn join_identical_vertices(self, enable: bool) -> (r: PostprocessEffectBuilder)
        ensures
            r.effects.spec_bits() == if enable {
                self.effects.spec_bits() | POSTPROCESS_JOIN_IDENTICAL_VERTICES
            } else {
                self.effects.spec_bits() & !POSTPROCESS_JOIN_IDENTICAL_VERTICES
            },
    {
        let mut effects = self.effects;
        if enable {
            effects.insert(PostprocessEffect::from_bits_retain(POSTPROCESS_JOIN_IDENTICAL_VERTICES));
        } else {
            effects.remove(PostprocessEffect::from_bits_retain(POSTPROCESS_JOIN_IDENTICAL_VERTICES));
        }
        PostprocessEffectBuilder { effects }
    }

    /// Enables or disables the make left handed step.
    pub fn make_left_handed(self, enable: bool) -> (r: PostprocessEffectBuilder)
        ensures
            r.effects.spec_bits() == if enable {
                self.effects.spec_bits() | POSTPROCESS_MAKE_LEFT_HANDED
            } else {
                self.effects.spec_bits() & !POSTPROCESS_MAKE_LEFT_HANDED
            },
    {
        let mut effects = self.effects;
        if enable {
            effects.insert(PostprocessEffect::from_bits_retain(POSTPROCESS_MAKE_LEFT_HANDED));
        } else {
            effects.remove(PostprocessEffect::from_bits_retain(POSTPROCESS_MAKE_LEFT_HANDED));
        }
        PostprocessEffectBuilder { effects }
    }

    /// Enables or disables the triangulate step.
    pub fn triangulate(self, enable: bool) -> (r: PostprocessEffectBuilder)
        ensures
            r.effects.spec_bits() == if enable {
                self.effects.spec_bits() | POSTPROCESS_TRIANGULATE
            } else {
                self.effects.spec_bits() & !POSTPROCESS_TRIANGULATE
            },
    {
        let mut effects = self.effects;
        if enable {
            effects.insert(PostprocessEffect::from_bits_retain(POSTPROCESS_TRIANGULATE));
        } else {
            effects.remove(PostprocessEffect::from_bits_retain(POSTPROCESS_TRIANGULATE));
        }
        PostprocessEffectBuilder { effects }
    }

    /// Enables or disables the remove component step.
    pub fn remove_component(self, enable: bool) -> (r: PostprocessEffectBuilder)
        ensures
            r.effects.spec_bits() == if enable {
                self.effects.spec_bits() | POSTPROCESS_REMOVE_COMPONENT
            } else {
                self.effects.spec_bits() & !POSTPROCESS_REMOVE_COMPONENT
            },
    {
        let mut effects = self.effects;
        if enable {
            effects.insert(PostprocessEffect::from_bits_retain(POSTPROCESS_REMOVE_COMPONENT));
        } else {
            effects.remove(PostprocessEffect::from_bits_retain(POSTPROCESS_REMOVE_COMPONENT));
        }
        PostprocessEffectBuilder { effects }
    }

    /// Enables or disables the gen normals step.
    pub fn gen_normals(self, enable: bool) -> (r: PostprocessEffectBuilder)
        ensures
            r.effects.spec_bits() == if enable {
                self.effects.spec_bits() | POSTPROCESS_GEN_NORMALS
            } else {
                self.effects.spec_bits() & !POSTPROCESS_GEN_NORMALS
            },
    {
        let mut effects = self.effects;
        if enable {
            effects.insert(PostprocessEffect::from_bits_retain(POSTPROCESS_GEN_NORMALS));
        } else {
            effects.remove(PostprocessEffect::from_bits_retain(POSTPROCESS_GEN_NORMALS));
        }
        PostprocessEffectBuilder { effects }
    }

    /// Enables or disables the gen smooth normals step.
    pub fn gen_smooth_normals(self, enable: bool) -> (r: PostprocessEffectBuilder)
        ensures
            r.effects.spec_bits() == if enable {
                self.effects.spec_bits() | POSTPROCESS_GEN_SMOOTH_NORMALS
            } else {
                self.effects.spec_bits() & !POSTPROCESS_GEN_SMOOTH_NORMALS
            },
    {
        let mut effects = self.effects;
        if enable {
            effects.insert(PostprocessEffect::from_bits_retain(POSTPROCESS_GEN_SMOOTH_NORMALS));
        } else {
            effects.remove(PostprocessEffect::from_bits_retain(POSTPROCESS_GEN_SMOOTH_NORMALS));
        }
        PostprocessEffectBuilder { effects }
    }

    /// Enables or disables the split large meshes step.
    pub fn split_large_meshes(self, enable: bool) -> (r: PostprocessEffectBuilder)
        ensures
            r.effects.spec_bits() == if enable {
                self.effects.spec_bits() | POSTPROCESS_SPLIT_LARGE_MESHES
            } else {
                self.effects.spec_bits() & !POSTPROCESS_SPLIT_LARGE_MESHES
            },
    {
        let mut effects = self.effects;
        if enable {
            effects.insert(PostprocessEffect::from_bits_retain(POSTPROCESS_SPLIT_LARGE_MESHES));
        } else {
            effects.remove(PostprocessEffect::from_bits_retain(POSTPROCESS_SPLIT_LARGE_MESHES));
        }
        PostprocessEffectBuilder { effects }
    }

    /// Enables or disables the transform vertices step.
    pub fn transform_vertices(self, enable: bool) -> (r: PostprocessEffectBuilder)
        ensures
            r.effects.spec_bits() == if enable {
                self.effects.spec_bits() | POSTPROCESS_TRANSFORM_VERTICES
            } else {
                self.effects.spec_bits() & !POSTPROCESS_TRANSFORM_VERTICES
            },
    {
        let mut effects = self.effects;
        if enable {
            effects.insert(PostprocessEffect::from_bits_retain(POSTPROCESS_TRANSFORM_VERTICES));
        } else {
            effects.remove(PostprocessEffect::from_bits_retain(POSTPROCESS_TRANSFORM_VERTICES));
        }
        PostprocessEffectBuilder { effects }
    }

    /// Enables or disables the limit bone weights step.
    pub fn limit_bone_weights(self, enable: bool) -> (r: PostprocessEffectBuilder)
        ensures
            r.effects.spec_bits() == if enable {
                self.effects.spec_bits() | POSTPROCESS_LIMIT_BONE_WEIGHTS
            } else {
                self.effects.spec_bits() & !POSTPROCESS_LIMIT_BONE_WEIGHTS
            },
    {
        let mut effects = self.effects;
        if enable {
            effects.insert(PostprocessEffect::from_bits_retain(POSTPROCESS_LIMIT_BONE_WEIGHTS));
        } else {
            effects.remove(PostprocessEffect::from_bits_retain(POSTPROCESS_LIMIT_BONE_WEIGHTS));
        }
        PostprocessEffectBuilder { effects }
    }

    /// Enables or disables the validate data structure step.
    pub fn validate_data_structure(self, enable: bool) -> (r: PostprocessEffectBuilder)
        ensures
            r.effects.spec_bits() == if enable {
                self.effects.spec_bits() | POSTPROCESS_VALIDATE_DATA_STRUCTURE
            } else {
                self.effects.spec_bits() & !POSTPROCESS_VALIDATE_DATA_STRUCTURE
            },
    {
        let mut effects = self.effects;
        if enable {
            effects.insert(PostprocessEffect::from_bits_retain(POSTPROCESS_VALIDATE_DATA_STRUCTURE));
        } else {
            effects.remove(PostprocessEffect::from_bits_retain(POSTPROCESS_VALIDATE_DATA_STRUCTURE));
        }
        PostprocessEffectBuilder { effects }
    }

    /// Enables or disables the improve cache locality step.
    pub fn improve_cache_locality(self, enable: bool) -> (r: PostprocessEffectBuilder)
        ensures
            r.effects.spec_bits() == if enable {
                self.effects.spec_bits() | POSTPROCESS_IMPROVE_CACHE_LOCALITY
            } else {
                self.effects.spec_bits() & !POSTPROCESS_IMPROVE_CACHE_LOCALITY
            },
    {
        let mut effects = self.effects;
        if enable {
            effects.insert(PostprocessEffect::from_bits_retain(POSTPROCESS_IMPROVE_CACHE_LOCALITY));
        } else {
            effects.remove(PostprocessEffect::from_bits_retain(POSTPROCESS_IMPROVE_CACHE_LOCALITY));
        }
        PostprocessEffectBuilder { effects }
    }

    /// Enables or disables the remove redundant materials step.
    pub fn remove_redundant_materials(self, enable: bool) -> (r: PostprocessEffectBuilder)
        ensures
            r.effects.spec_bits() == if enable {
                self.effects.spec_bits() | POSTPROCESS_REMOVE_REDUNDANT_MATERIALS
            } else {
                self.effects.spec_bits() & !POSTPROCESS_REMOVE_REDUNDANT_MATERIALS
            },
    {
        let mut effects = self.effects;
        if enable {
            effects.insert(PostprocessEffect::from_bits_retain(POSTPROCESS_REMOVE_REDUNDANT_MATERIALS));
        } else {
            effects.remove(PostprocessEffect::from_bits_retain(POSTPROCESS_REMOVE_REDUNDANT_MATERIALS));
        }
        PostprocessEffectBuilder { effects }
    }

    /// Enables or disables the fix infacing normals step.
    pub fn fix_infacing_normals(self, enable: bool) -> (r: PostprocessEffectBuilder)
        ensures
            r.effects.spec_bits() == if enable {
                self.effects.spec_bits() | POSTPROCESS_FIX_INFACING_NORMALS
            } else {
                self.effects.spec_bits() & !POSTPROCESS_FIX_INFACING_NORMALS
            },
    {
        let mut effects = self.effects;
        if enable {
            effects.insert(PostprocessEffect::from_bits_retain(POSTPROCESS_FIX_INFACING_NORMALS));
        } else {
            effects.remove(PostprocessEffect::from_bits_retain(POSTPROCESS_FIX_INFACING_NORMALS));
        }
        PostprocessEffectBuilder { effects }
    }

    /// Enables or disables the sort by ptype step.
    pub fn sort_by_ptype(self, enable: bool) -> (r: PostprocessEffectBuilder)
        ensures
            r.effects.spec_bits() == if enable {
                self.effects.spec_bits() | POSTPROCESS_SORT_BY_PTYPE
            } else {
                self.effects.spec_bits() & !POSTPROCESS_SORT_BY_PTYPE
            },
    {
        let mut effects = self.effects;
        if enable {
            effects.insert(PostprocessEffect::from_bits_retain(POSTPROCESS_SORT_BY_PTYPE));
        } else {
            effects.remove(PostprocessEffect::from_bits_retain(POSTPROCESS_SORT_BY_PTYPE));
        }
        PostprocessEffectBuilder { effects }
    }

    /// Enables or disables the find degenerates step.
    pub fn find_degenerates(self, enable: bool) -> (r: PostprocessEffectBuilder)
        ensures
            r.effects.spec_bits() == if enable {
                self.effects.spec_bits() | POSTPROCESS_FIND_DEGENERATES
            } else {
                self.effects.spec_bits() & !POSTPROCESS_FIND_DEGENERATES
            },
    {
        let mut effects = self.effects;
        if enable {
            effects.insert(PostprocessEffect::from_bits_retain(POSTPROCESS_FIND_DEGENERATES));
        } else {
            effects.remove(PostprocessEffect::from_bits_retain(POSTPROCESS_FIND_DEGENERATES));
        }
        PostprocessEffectBuilder { effects }
    }

    /// Enables or disables the find invalid data step.
    pub fn find_invalid_data(self, enable: bool) -> (r: PostprocessEffectBuilder)
        ensures
            r.effects.spec_bits() == if enable {
                self.effects.spec_bits() | POSTPROCESS_FIND_INVALID_DATA
            } else {
                self.effects.spec_bits() & !POSTPROCESS_FIND_INVALID_DATA
            },
    {
        let mut effects = self.effects;
        if enable {
            effects.insert(PostprocessEffect::from_bits_retain(POSTPROCESS_FIND_INVALID_DATA));
        } else {
            effects.remove(PostprocessEffect::from_bits_retain(POSTPROCESS_FIND_INVALID_DATA));
        }
        PostprocessEffectBuilder { effects }
    }

    /// Enables or disables the gen uv coords step.
    pub fn gen_uv_coords(self, enable: bool) -> (r: PostprocessEffectBuilder)
        ensures
            r.effects.spec_bits() == if enable {
                self.effects.spec_bits() | POSTPROCESS_GEN_UV_COORDS
            } else {
                self.effects.spec_bits() & !POSTPROCESS_GEN_UV_COORDS
            },
    {
        let mut effects = self.effects;
        if enable {
            effects.insert(PostprocessEffect::from_bits_retain(POSTPROCESS_GEN_UV_COORDS));
        } else {
            effects.remove(PostprocessEffect::from_bits_retain(POSTPROCESS_GEN_UV_COORDS));
        }
        PostprocessEffectBuilder { effects }
    }

    /// Enables or disables the transform uv coords step.
    pub fn transform_uv_coords(self, enable: bool) -> (r: PostprocessEffectBuilder)
        ensures
            r.effects.spec_bits() == if enable {
                self.effects.spec_bits() | POSTPROCESS_TRANSFORM_UV_COORDS
            } else {
                self.effects.spec_bits() & !POSTPROCESS_TRANSFORM_UV_COORDS
            },
    {
        let mut effects = self.effects;
        if enable {
            effects.insert(PostprocessEffect::from_bits_retain(POSTPROCESS_TRANSFORM_UV_COORDS));
        } else {
            effects.remove(PostprocessEffect::from_bits_retain(POSTPROCESS_TRANSFORM_UV_COORDS));
        }
        PostprocessEffectBuilder { effects }
    }

    /// Enables or disables the find instances step.
    pub fn find_instances(self, enable: bool) -> (r: PostprocessEffectBuilder)
        ensures
            r.effects.spec_bits() == if enable {
                self.effects.spec_bits() | POSTPROCESS_FIND_INSTANCES
            } else {
                self.effects.spec_bits() & !POSTPROCESS_FIND_INSTANCES
            },
    {
        let mut effects = self.effects;
        if enable {
            effects.insert(PostprocessEffect::from_bits_retain(POSTPROCESS_FIND_INSTANCES));
        } else {
            effects.remove(PostprocessEffect::from_bits_retain(POSTPROCESS_FIND_INSTANCES));
        }
        PostprocessEffectBuilder { effects }
    }

    /// Enables or disables the optimize meshes step.
    pub fn optimize_meshes(self, enable: bool) -> (r: PostprocessEffectBuilder)
        ensures
            r.effects.spec_bits() == if enable {
                self.effects.spec_bits() | POSTPROCESS_OPTIMIZE_MESHES
            } else {
                self.effects.spec_bits() & !POSTPROCESS_OPTIMIZE_MESHES
            },
    {
        let mut effects = self.effects;
        if enable {
            effects.insert(PostprocessEffect::from_bits_retain(POSTPROCESS_OPTIMIZE_MESHES));
        } else {
            effects.remove(PostprocessEffect::from_bits_retain(POSTPROCESS_OPTIMIZE_MESHES));
        }
        PostprocessEffectBuilder { effects }
    }

    /// Enables or disables the optimize graph step.
    pub fn optimize_graph(self, enable: bool) -> (r: PostprocessEffectBuilder)
        ensures
            r.effects.spec_bits() == if enable {
                self.effects.spec_bits() | POSTPROCESS_OPTIMIZE_GRAPH
            } else {
                self.effects.spec_bits() & !POSTPROCESS_OPTIMIZE_GRAPH
            },
    {
        let mut effects = self.effects;
        if enable {
            effects.insert(PostprocessEffect::from_bits_retain(POSTPROCESS_OPTIMIZE_GRAPH));
        } else {
            effects.remove(PostprocessEffect::from_bits_retain(POSTPROCESS_OPTIMIZE_GRAPH));
        }
        PostprocessEffectBuilder { effects }
    }

    /// Enables or disables the flip uvs step.
    pub fn flip_uvs(self, enable: bool) -> (r: PostprocessEffectBuilder)
        ensures
            r.effects.spec_bits() == if enable {
                self.effects.spec_bits() | POSTPROCESS_FLIP_UVS
            } else {
                self.effects.spec_bits() & !POSTPROCESS_FLIP_UVS
            },
    {
        let mut effects = self.effects;
        if enable {
            effects.insert(PostprocessEffect::from_bits_retain(POSTPROCESS_FLIP_UVS));
        } else {
            effects.remove(PostprocessEffect::from_bits_retain(POSTPROCESS_FLIP_UVS));
        }
        PostprocessEffectBuilder { effects }
    }

    /// Enables or disables the flip winding order step.
    pub fn flip_winding_order(self, enable: bool) -> (r: PostprocessEffectBuilder)
        ensures
            r.effects.spec_bits() == if enable {
                self.effects.spec_bits() | POSTPROCESS_FLIP_WINDING_ORDER
            } else {
                self.effects.spec_bits() & !POSTPROCESS_FLIP_WINDING_ORDER
            },
    {
        let mut effects = self.effects;
        if enable {
            effects.insert(PostprocessEffect::from_bits_retain(POSTPROCESS_FLIP_WINDING_ORDER));
        } else {
            effects.remove(PostprocessEffect::from_bits_retain(POSTPROCESS_FLIP_WINDING_ORDER));
        }
        PostprocessEffectBuilder { effects }
    }

    /// Enables or disables the split by bone count step.
    pub fn split_by_bone_count(self, enable: bool) -> (r: PostprocessEffectBuilder)
        ensures
            r.effects.spec_bits() == if enable {
                self.effects.spec_bits() | POSTPROCESS_SPLIT_BY_BONE_COUNT
            } else {
                self.effects.spec_bits() & !POSTPROCESS_SPLIT_BY_BONE_COUNT
            },
    {
        let mut effects = self.effects;
        if enable {
            effects.insert(PostprocessEffect::from_bits_retain(POSTPROCESS_SPLIT_BY_BONE_COUNT));
        } else {
            effects.remove(PostprocessEffect::from_bits_retain(POSTPROCESS_SPLIT_BY_BONE_COUNT));
        }
        PostprocessEffectBuilder { effects }
    }

    /// Enables or disables the debone step.
    pub fn debone(self, enable: bool) -> (r: PostprocessEffectBuilder)
        ensures
            r.effects.spec_bits() == if enable {
                self.effects.spec_bits() | POSTPROCESS_DEBONE
            } else {
                self.effects.spec_bits() & !POSTPROCESS_DEBONE
            },
    {
        let mut effects = self.effects;
        if enable {
            effects.insert(PostprocessEffect::from_bits_retain(POSTPROCESS_DEBONE));
        } else {
            effects.remove(PostprocessEffect::from_bits_retain(POSTPROCESS_DEBONE));
        }
        PostprocessEffectBuilder { effects }
    }
}

} // verus!
