//! The node hierarchy of an imported scene.

use vstd::prelude::*;

use crate::components::mesh::Mesh;
use crate::components::traits::Named;
use crate::scene::Scene;

verus! {

/// The meshes of `meshes` that `indices` name, in index order; an index
/// outside the meshes is passed over.
pub open spec fn meshes_at(indices: Seq<u32>, meshes: Seq<Mesh>) -> Seq<Mesh>
    decreases indices.len(),
{
    if indices.len() == 0 {
        Seq::empty()
    } else {
        meshes_at(indices.drop_last(), meshes) + if indices.last() < meshes.len() {
            seq![meshes[indices.last() as int]]
        } else {
            Seq::empty()
        }
    }
}

/// A node of the scene graph: a name, child nodes, and the indices of the
/// meshes attached to it.
///
/// Its transformation matrix is floating-point data that stays on the
/// engine's side of the boundary.
pub struct Node {
    pub name: String,
    pub children: Vec<Node>,
    pub meshes: Vec<u32>,
}

impl Node {
    /// The node's children; `None` when it has none.
    pub fn children(&self) -> (r: Option<&Vec<Node>>)
        ensures
            match r {
                Some(cs) => cs@ == self.children@ && self.children@.len() > 0,
                None => self.children@.len() == 0,
            },
    {
        if self.children.len() == 0 {
            None
        } else {
            Some(&self.children)
        }
    }

    /// The indices of the meshes attached to this node; `None` when there
    /// are none.
    pub fn meshes(&self) -> (r: Option<&Vec<u32>>)
        ensures
            match r {
                Some(ms) => ms@ == self.meshes@ && self.meshes@.len() > 0,
                None => self.meshes@.len() == 0,
            },
    {
        if self.meshes.len() == 0 {
            None
        } else {
            Some(&self.meshes)
        }
    }

    /// Maps this node's mesh indices to the meshes of a scene, passing over
    /// indices the scene has no mesh for; `None` when the node names no
    /// meshes at all.
    pub fn meshes_from_scene<'a>(&self, scene: &'a Scene) -> (r: Option<Vec<&'a Mesh>>)
        ensures
            match r {
                Some(v) => {
                    &&& self.meshes@.len() > 0
                    &&& v@.len() == meshes_at(self.meshes@, scene.meshes@).len()
                    &&& forall|k: int|
                        0 <= k < v@.len() ==> *(#[trigger] v@[k]) == meshes_at(
                            self.meshes@,
                            scene.meshes@,
                        )[k]
                },
                None => self.meshes@.len() == 0,
            },
    {
        if self.meshes.len() == 0 {
            return None;
        }
        let mut out: Vec<&'a Mesh> = Vec::new();
        let n = self.meshes.len();
        let mut i: usize = 0;
        while i < n
            invariant
                0 <= i <= n,
                n == self.meshes@.len(),
                out@.len() == meshes_at(self.meshes@.subrange(0, i as int), scene.meshes@).len(),
                forall|k: int|
                    0 <= k < out@.len() ==> *(#[trigger] out@[k]) == meshes_at(
                        self.meshes@.subrange(0, i as int),
                        scene.meshes@,
                    )[k],
            decreases n - i,
        {
            proof {
                assert(self.meshes@.subrange(0, i + 1).drop_last() =~= self.meshes@.subrange(
                    0,
                    i as int,
                ));
            }
            let index = self.meshes[i];
            if let Some(mesh) = scene.mesh(index as usize) {
                out.push(mesh);
            }
            i += 1;
        }
        proof {
            assert(self.meshes@.subrange(0, n as int) =~= self.meshes@);
        }
        Some(out)
    }
}

impl Named for Node {
    open spec fn name_spec(&self) -> Seq<char> {
        self.name@
    }

    fn name(&self) -> (r: &str) {
        self.name.as_str()
    }
}

} // verus!
