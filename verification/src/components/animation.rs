//! Animations of an imported scene.

use vstd::prelude::*;

use crate::components::mesh::Mesh;
use crate::components::traits::Named;
use crate::scene::Scene;

verus! {

/// A key mapping a point in time to a mesh; the time itself is
/// floating-point data that stays on the engine's side of the boundary.
pub struct MeshKey {
    pub value: u32,
}

impl MeshKey {
    /// The index of the mesh this key refers to.
    pub fn value(&self) -> (r: u32)
        ensures
            r == self.value,
    {
        self.value
    }

    /// The mesh of `scene` this key refers to, if the scene has one at that
    /// index.
    pub fn mesh_from_scene<'a>(&self, scene: &'a Scene) -> (r: Option<&'a Mesh>)
        ensures
            match r {
                Some(m) => self.value < scene.meshes@.len()
                    && *m == scene.meshes@[self.value as int],
                None => self.value >= scene.meshes@.len(),
            },
    {
        scene.mesh(self.value as usize)
    }
}

/// An animation channel moving one node; its position, rotation and scaling
/// keys are floating-point data that stays on the engine's side of the
/// boundary.
pub struct NodeAnimation {
    pub name: String,
}

impl Named for NodeAnimation {
    open spec fn name_spec(&self) -> Seq<char> {
        self.name@
    }

    fn name(&self) -> (r: &str) {
        self.name.as_str()
    }
}

/// An animation channel replacing meshes over time.
pub struct MeshAnimation {
    pub name: String,
    pub keys: Vec<MeshKey>,
}

impl Named for MeshAnimation {
    open spec fn name_spec(&self) -> Seq<char> {
        self.name@
    }

    fn name(&self) -> (r: &str) {
        self.name.as_str()
    }
}

/// An animation: channels over nodes and meshes.
pub struct Animation {
    pub name: String,
    pub channels: Vec<NodeAnimation>,
    pub mesh_channels: Vec<MeshAnimation>,
}

impl Animation {
    /// The node channels; `None` when there are none.
    pub fn node_channels(&self) -> (r: Option<&Vec<NodeAnimation>>)
        ensures
            match r {
                Some(cs) => cs@ == self.channels@ && self.channels@.len() > 0,
                None => self.channels@.len() == 0,
            },
    {
        if self.channels.len() == 0 {
            None
        } else {
            Some(&self.channels)
        }
    }

    /// The mesh channels; `None` when there are none.
    pub fn mesh_channels(&self) -> (r: Option<&Vec<MeshAnimation>>)
        ensures
            match r {
                Some(cs) => cs@ == self.mesh_channels@ && self.mesh_channels@.len() > 0,
                None => self.mesh_channels@.len() == 0,
            },
    {
        if self.mesh_channels.len() == 0 {
            None
        } else {
            Some(&self.mesh_channels)
        }
    }
}

impl Named for Animation {
    open spec fn name_spec(&self) -> Seq<char> {
        self.name@
    }

    fn name(&self) -> (r: &str) {
        self.name.as_str()
    }
}

} // verus!
