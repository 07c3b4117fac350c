//! Read-side views of the imported scene's contents, as plain values.
//!
//! The engine owns the imported data; the boundary reads what the library's
//! logic needs — names, counts, indices, codes — into these types.  What
//! only the engine's memory holds (vertex positions, weights, key values)
//! stays on its side of the boundary.

pub mod animation;
pub mod camera;
pub mod light;
pub mod material;
pub mod mesh;
pub mod node;
pub mod texture;
pub mod traits;

pub use animation::{Animation, MeshAnimation, MeshKey, NodeAnimation};
pub use camera::Camera;
pub use light::{Light, LightKind};
pub use material::{Material, MaterialProperty};
pub use mesh::{Bone, Face, Mesh, PrimitiveType, VertexWeight};
pub use node::Node;
pub use texture::{Texel, Texture};
pub use traits::Named;
