//! The imported scene: flags, contents, and the import judgment.

use vstd::prelude::*;

use crate::components::animation::Animation;
use crate::components::camera::Camera;
use crate::components::light::Light;
use crate::components::material::Material;
use crate::components::mesh::Mesh;
use crate::components::node::Node;
use crate::components::texture::Texture;
use crate::error::{AiError, AiResult};
use crate::native::{
    SCENE_FLAG_ALLOW_SHARED, SCENE_FLAG_INCOMPLETE, SCENE_FLAG_NON_VERBOSE_FORMAT,
    SCENE_FLAG_TERRAIN, SCENE_FLAG_VALIDATED, SCENE_FLAG_VALIDATION_WARNING,
};

verus! {

/// All the scene flag bits the engine defines.
pub open spec fn scene_flags_all() -> u32 {
    SCENE_FLAG_INCOMPLETE | SCENE_FLAG_VALIDATED | SCENE_FLAG_VALIDATION_WARNING
        | SCENE_FLAG_NON_VERBOSE_FORMAT | SCENE_FLAG_TERRAIN | SCENE_FLAG_ALLOW_SHARED
}

/// The scene's status flags, as a bitmask.
#[derive(Debug, Clone, Copy, PartialEq, Eq, Structural)]
pub struct SceneFlags {
    bits: u32,
}

impl SceneFlags {
    /// The bitmask this flag set stands for.
    pub closed spec fn spec_bits(&self) -> u32 {
        self.bits
    }

    /// The empty flag set.
    pub fn empty() -> (r: SceneFlags)
        ensures
            r.spec_bits() == 0,
    {
        SceneFlags { bits: 0 }
    }

    /// The flag bits of `bits` that the engine defines; anything else is
    /// dropped.
    pub fn from_bits_truncate(bits: u32) -> (r: SceneFlags)
        ensures
            r.spec_bits() == bits & scene_flags_all(),
    {
        SceneFlags {
            bits: bits & (SCENE_FLAG_INCOMPLETE | SCENE_FLAG_VALIDATED
                | SCENE_FLAG_VALIDATION_WARNING | SCENE_FLAG_NON_VERBOSE_FORMAT
                | SCENE_FLAG_TERRAIN | SCENE_FLAG_ALLOW_SHARED),
        }
    }

    /// A flag set holding exactly the given bits.
    pub fn from_bits_retain(bits: u32) -> (r: SceneFlags)
        ensures
            r.spec_bits() == bits,
    {
        SceneFlags { bits }
    }

    /// The bitmask.
    pub fn bits(&self) -> (r: u32)
        ensures
            r == self.spec_bits(),
    {
        self.bits
    }

    /// Whether every flag of `other` is also set here.
    pub fn contains(&self, other: SceneFlags) -> (r: bool)
        ensures
            r == (self.spec_bits() & other.spec_bits() == other.spec_bits()),
    {
        self.bits & other.bits == other.bits
    }
}

/// An imported scene, read into plain values at the boundary.
///
/// A scene the engine failed to produce — a null pointer — never becomes a
/// `Scene` at all; see [`Scene::check_import`].
pub struct Scene {
    pub flags: u32,
    pub root: Option<Node>,
    pub meshes: Vec<Mesh>,
    pub materials: Vec<Material>,
    pub textures: Vec<Texture>,
    pub lights: Vec<Light>,
    pub cameras: Vec<Camera>,
    pub animations: Vec<Animation>,
    pub path: String,
}

impl Scene {
    /// Whether the scene is concrete and complete: the incomplete flag is
    /// clear and a root node is there.
    pub open spec fn valid_spec(&self) -> bool {
        &&& self.flags & SCENE_FLAG_INCOMPLETE == 0
        &&& self.root is Some
    }

    /// The scene's status flags.
    pub fn flags(&self) -> (r: SceneFlags)
        ensures
            r.spec_bits() == self.flags & scene_flags_all(),
    {
        SceneFlags::from_bits_truncate(self.flags)
    }

    /// Checks if the scene is concrete and complete.
    pub fn valid(&self) -> (r: bool)
        ensures
            r == self.valid_spec(),
    {
        self.flags & SCENE_FLAG_INCOMPLETE == 0 && self.root.is_some()
    }

    /// The path the scene was imported from, as an owned path.
    pub fn pathbuf(&self) -> (r: &String)
        ensures
            r@ == self.path@,
    {
        &self.path
    }

    /// The path the scene was imported from.
    pub fn path(&self) -> (r: &str)
        ensures
            r@ == self.path@,
    {
        self.path.as_str()
    }

    /// The root node of the scene graph.
    ///
    /// The engine hands every valid scene a root; asking an invalid scene
    /// for one is outside the contract.
    pub fn root(&self) -> (r: &Node)
        requires
            self.root is Some,
        ensures
            *r == self.root->Some_0,
    {
        match &self.root {
            Some(node) => node,
            None => vstd::pervasive::unreached(),
        }
    }

    /// A specific mesh; the index usually comes from some [`Node`].
    pub fn mesh(&self, index: usize) -> (r: Option<&Mesh>)
        ensures
            match r {
                Some(m) => index < self.meshes@.len() && *m == self.meshes@[index as int],
                None => index >= self.meshes@.len(),
            },
    {
        if index < self.meshes.len() {
            Some(&self.meshes[index])
        } else {
            None
        }
    }

    /// The scene's meshes; `None` when it has none.
    pub fn meshes(&self) -> (r: Option<&Vec<Mesh>>)
        ensures
            match r {
                Some(ms) => ms@ == self.meshes@ && self.meshes@.len() > 0,
                None => self.meshes@.len() == 0,
            },
    {
        if self.meshes.len() == 0 {
            None
        } else {
            Some(&self.meshes)
        }
    }

    /// The scene's materials; `None` when it has none.
    pub fn materials(&self) -> (r: Option<&Vec<Material>>)
        ensures
            match r {
                Some(ms) => ms@ == self.materials@ && self.materials@.len() > 0,
                None => self.materials@.len() == 0,
            },
    {
        if self.materials.len() == 0 {
            None
        } else {
            Some(&self.materials)
        }
    }

    /// The scene's embedded textures; `None` when it has none.
    pub fn textures(&self) -> (r: Option<&Vec<Texture>>)
        ensures
            match r {
                Some(ts) => ts@ == self.textures@ && self.textures@.len() > 0,
                None => self.textures@.len() == 0,
            },
    {
        if self.textures.len() == 0 {
            None
        } else {
            Some(&self.textures)
        }
    }

    /// The scene's lights; `None` when it has none.
    pub fn lights(&self) -> (r: Option<&Vec<Light>>)
        ensures
            match r {
                Some(ls) => ls@ == self.lights@ && self.lights@.len() > 0,
                None => self.lights@.len() == 0,
            },
    {
        if self.lights.len() == 0 {
            None
        } else {
            Some(&self.lights)
        }
    }

    /// The scene's cameras; `None` when it has none.
    pub fn cameras(&self) -> (r: Option<&Vec<Camera>>)
        ensures
            match r {
                Some(cs) => cs@ == self.cameras@ && self.cameras@.len() > 0,
                None => self.cameras@.len() == 0,
            },
    {
        if self.cameras.len() == 0 {
            None
        } else {
            Some(&self.cameras)
        }
    }

    /// The scene's animations; `None` when it has none.
    pub fn animations(&self) -> (r: Option<&Vec<Animation>>)
        ensures
            match r {
                Some(xs) => xs@ == self.animations@ && self.animations@.len() > 0,
                None => self.animations@.len() == 0,
            },
    {
        if self.animations.len() == 0 {
            None
        } else {
            Some(&self.animations)
        }
    }

    /// Judges the engine's answer to an import call.
    ///
    /// The engine reports failure as a null scene — here `None` — and may
    /// also hand back a scene that is incomplete or missing its root; all
    /// of these surface as the single coarse [`AiError::InvalidScene`].  A
    /// valid scene passes through untouched.
    pub fn check_import(scene: Option<Scene>) -> (r: AiResult<Scene>)
        ensures
            match r {
                Ok(s) => scene == Some(s) && s.valid_spec(),
                Err(e) => {
                    &&& e == AiError::InvalidScene
                    &&& match scene {
                        Some(s) => !s.valid_spec(),
                        None => true,
                    }
                },
            },
    {
        match scene {
            Some(s) => {
                if s.valid() {
                    Ok(s)
                } else {
                    Err(AiError::InvalidScene)
                }
            },
            None => Err(AiError::InvalidScene),
        }
    }
}

} // verus!
