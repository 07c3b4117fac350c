//! Meshes of an imported scene: faces, bones and vertex weights.

use vstd::prelude::*;

use crate::components::traits::Named;
use crate::native::{
    PRIMITIVE_TYPE_LINE, PRIMITIVE_TYPE_POINT, PRIMITIVE_TYPE_POLYGON, PRIMITIVE_TYPE_TRIANGLE,
};

verus! {

/// One vertex a bone influences.
///
/// The weight itself is floating-point data that stays on the engine's side
/// of the boundary.
pub struct VertexWeight {
    pub vertex_id: u32,
}

impl VertexWeight {
    /// The index of the influenced vertex.
    pub fn id(&self) -> (r: u32)
        ensures
            r == self.vertex_id,
    {
        self.vertex_id
    }
}

/// A bone: a name, the vertices it influences, and — on the engine's side —
/// its offset matrix.
pub struct Bone {
    pub name: String,
    pub weights: Vec<VertexWeight>,
}

impl Bone {
    /// The vertex weights of the bone.
    pub fn weights(&self) -> (r: &Vec<VertexWeight>)
        ensures
            r@ == self.weights@,
    {
        &self.weights
    }
}

impl Named for Bone {
    open spec fn name_spec(&self) -> Seq<char> {
        self.name@
    }

    fn name(&self) -> (r: &str) {
        self.name.as_str()
    }
}

/// One face of a mesh: the indices of its vertices.
pub struct Face {
    pub indices: Vec<u32>,
}

impl Face {
    /// The vertex indices of the face.
    pub fn indices(&self) -> (r: &Vec<u32>)
        ensures
            r@ == self.indices@,
    {
        &self.indices
    }
}

/// The kind of primitive a mesh is made of.
#[derive(Debug, Clone, Copy, PartialEq, Eq, Structural)]
pub enum PrimitiveType {
    Point,
    Line,
    Triangle,
    Polygon,
}

/// The primitive type the engine's code stands for, if any.
pub open spec fn primitive_type_of(v: u32) -> Option<PrimitiveType> {
    if v == PRIMITIVE_TYPE_POINT {
        Some(PrimitiveType::Point)
    } else if v == PRIMITIVE_TYPE_LINE {
        Some(PrimitiveType::Line)
    } else if v == PRIMITIVE_TYPE_TRIANGLE {
        Some(PrimitiveType::Triangle)
    } else if v == PRIMITIVE_TYPE_POLYGON {
        Some(PrimitiveType::Polygon)
    } else {
        None
    }
}

impl PrimitiveType {
    /// Decodes the engine's primitive type code.
    pub fn from_u32(v: u32) -> (r: Option<PrimitiveType>)
        ensures
            r == primitive_type_of(v),
    {
        if v == PRIMITIVE_TYPE_POINT {
            Some(PrimitiveType::Point)
        } else if v == PRIMITIVE_TYPE_LINE {
            Some(PrimitiveType::Line)
        } else if v == PRIMITIVE_TYPE_TRIANGLE {
            Some(PrimitiveType::Triangle)
        } else if v == PRIMITIVE_TYPE_POLYGON {
            Some(PrimitiveType::Polygon)
        } else {
            None
        }
    }
}

/// All the faces' indices, in face order.
pub open spec fn flat_indices(faces: Seq<Face>) -> Seq<u32>
    decreases faces.len(),
{
    if faces.len() == 0 {
        Seq::empty()
    } else {
        flat_indices(faces.drop_last()) + faces.last().indices@
    }
}

/// How many entries of `s` are positive.
pub open spec fn count_positive(s: Seq<u32>) -> int
    decreases s.len(),
{
    if s.len() == 0 {
        0int
    } else {
        count_positive(s.drop_last()) + if s.last() > 0 {
            1int
        } else {
            0int
        }
    }
}

/// A mesh: faces over vertices, bones, and a material.
///
/// Vertex positions, normals and texture coordinates are floating-point
/// data that stays on the engine's side of the boundary; `num_uvs` records
/// how many dimensions each texture-coordinate channel uses.
pub struct Mesh {
    pub name: String,
    pub primitive_type: u32,
    pub num_vertices: u32,
    pub material_index: u32,
    pub faces: Vec<Face>,
    pub bones: Vec<Bone>,
    pub num_uvs: Vec<u32>,
}

impl Mesh {
    /// The primitive type of the mesh, if its code is one the library
    /// knows.
    pub fn primitive_type(&self) -> (r: Option<PrimitiveType>)
        ensures
            r == primitive_type_of(self.primitive_type),
    {
        PrimitiveType::from_u32(self.primitive_type)
    }

    /// The index of this mesh's material.
    pub fn material_index(&self) -> (r: u32)
        ensures
            r == self.material_index,
    {
        self.material_index
    }

    /// The faces of the mesh; `None` when it has none.
    pub fn faces(&self) -> (r: Option<&Vec<Face>>)
        ensures
            match r {
                Some(fs) => fs@ == self.faces@ && self.faces@.len() > 0,
                None => self.faces@.len() == 0,
            },
    {
        if self.faces.len() == 0 {
            None
        } else {
            Some(&self.faces)
        }
    }

    /// The bones of the mesh; `None` when it has none.
    pub fn bones(&self) -> (r: Option<&Vec<Bone>>)
        ensures
            match r {
                Some(bs) => bs@ == self.bones@ && self.bones@.len() > 0,
                None => self.bones@.len() == 0,
            },
    {
        if self.bones.len() == 0 {
            None
        } else {
            Some(&self.bones)
        }
    }

    /// Accumulates the indices of every face, in face order; `None` when
    /// the mesh has no faces.
    pub fn indices(&self) -> (r: Option<Vec<u32>>)
        requires
            flat_indices(self.faces@).len() <= usize::MAX,
        ensures
            match r {
                Some(v) => v@ == flat_indices(self.faces@) && self.faces@.len() > 0,
                None => self.faces@.len() == 0,
            },
    {
        if self.faces.len() == 0 {
            return None;
        }
        let mut acc: Vec<u32> = Vec::new();
        let n = self.faces.len();
        let mut i: usize = 0;
        while i < n
            invariant
                0 <= i <= n,
                n == self.faces@.len(),
                acc@ == flat_indices(self.faces@.subrange(0, i as int)),
                flat_indices(self.faces@).len() <= usize::MAX,
            decreases n - i,
        {
            proof {
                lemma_flat_indices_prefix(self.faces@, i as int);
            }
            let face = &self.faces[i];
            let m = face.indices.len();
            let mut j: usize = 0;
            while j < m
                invariant
                    0 <= j <= m,
                    i < n == self.faces@.len(),
                    m == self.faces@[i as int].indices@.len(),
                    acc@ == flat_indices(self.faces@.subrange(0, i as int))
                        + self.faces@[i as int].indices@.subrange(0, j as int),
                    flat_indices(self.faces@).len() <= usize::MAX,
                    flat_indices(self.faces@.subrange(0, i + 1)).len()
                        <= flat_indices(self.faces@).len(),
                decreases m - j,
            {
                acc.push(self.faces[i].indices[j]);
                proof {
                    assert(acc@ =~= flat_indices(self.faces@.subrange(0, i as int))
                        + self.faces@[i as int].indices@.subrange(0, j + 1));
                }
                j += 1;
            }
            proof {
                assert(self.faces@[i as int].indices@.subrange(
                    0,
                    self.faces@[i as int].indices@.len() as int,
                ) =~= self.faces@[i as int].indices@);
                lemma_flat_indices_prefix(self.faces@, i as int);
            }
            i += 1;
        }
        proof {
            assert(self.faces@.subrange(0, n as int) =~= self.faces@);
        }
        Some(acc)
    }

    /// How many indices the mesh's faces hold in all; `None` when it has no
    /// faces.
    pub fn count_indices(&self) -> (r: Option<usize>)
        requires
            flat_indices(self.faces@).len() <= usize::MAX,
        ensures
            match r {
                Some(c) => c == flat_indices(self.faces@).len() && self.faces@.len() > 0,
                None => self.faces@.len() == 0,
            },
    {
        match self.indices() {
            Some(v) => Some(v.len()),
            None => None,
        }
    }

    /// How many texture-coordinate channels of the mesh are in use.
    pub fn uv_channels(&self) -> (r: usize)
        ensures
            r == count_positive(self.num_uvs@),
    {
        let n = self.num_uvs.len();
        let mut count: usize = 0;
        let mut i: usize = 0;
        while i < n
            invariant
                0 <= i <= n,
                n == self.num_uvs@.len(),
                count == count_positive(self.num_uvs@.subrange(0, i as int)),
                count <= i,
            decreases n - i,
        {
            proof {
                assert(self.num_uvs@.subrange(0, i + 1).drop_last() =~= self.num_uvs@.subrange(
                    0,
                    i as int,
                ));
            }
            if self.num_uvs[i] > 0 {
                count += 1;
            }
            i += 1;
        }
        proof {
            assert(self.num_uvs@.subrange(0, n as int) =~= self.num_uvs@);
        }
        count
    }
}

/// Extending a prefix of faces by one face appends that face's indices.
proof fn lemma_flat_indices_prefix(faces: Seq<Face>, i: int)
    requires
        0 <= i < faces.len(),
    ensures
        flat_indices(faces.subrange(0, i + 1)) == flat_indices(faces.subrange(0, i))
            + faces[i].indices@,
        flat_indices(faces.subrange(0, i + 1)).len() <= flat_indices(faces).len(),
{
    assert(faces.subrange(0, i + 1).drop_last() =~= faces.subrange(0, i));
    assert(faces.subrange(0, i + 1).last() == faces[i]);
    lemma_flat_indices_len_monotone(faces, i + 1);
}

/// A prefix of the faces holds no more indices than all of them.
proof fn lemma_flat_indices_len_monotone(faces: Seq<Face>, k: int)
    requires
        0 <= k <= faces.len(),
    ensures
        flat_indices(faces.subrange(0, k)).len() <= flat_indices(faces).len(),
    decreases faces.len() - k,
{
    if k == faces.len() {
        assert(faces.subrange(0, k) =~= faces);
    } else {
        assert(faces.subrange(0, k + 1).drop_last() =~= faces.subrange(0, k));
        lemma_flat_indices_len_monotone(faces, k + 1);
    }
}

impl Named for Mesh {
    open spec fn name_spec(&self) -> Seq<char> {
        self.name@
    }

    fn name(&self) -> (r: &str) {
        self.name.as_str()
    }
}

} // verus!
