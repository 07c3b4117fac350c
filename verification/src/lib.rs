//! Safe-surface binding layer over a native 3D-asset-import engine.
//!
//! The heart of the crate is the custom I/O bridging subsystem: caller-supplied
//! stream abstractions stand in for the engine's own file access.  A bridge
//! owns a foreign I/O table and its backing handler state; per-open file
//! records are created by opener procedures and destroyed by the matching
//! closer procedures.  The raw C surface (pointer tables, process aborts)
//! lives outside this library; everything here is ordinary values and is
//! verified.

pub mod components;
pub mod error;
pub mod formats;
pub mod io;
pub mod native;
pub mod postprocess;
pub mod scene;
pub mod text;

pub use components::{
    Animation, Bone, Camera, Face, Light, LightKind, Material, MaterialProperty, Mesh,
    MeshAnimation, MeshKey, Named, Node, NodeAnimation, PrimitiveType, Texel, Texture,
    VertexWeight,
};
pub use error::{AiError, AiResult};
pub use postprocess::PostprocessEffect;
pub use scene::{Scene, SceneFlags};
