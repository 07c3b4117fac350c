//! Tests of the component views: meshes, textures, lights, materials.

use assimp::error::AiError;
use assimp::scene::Scene;
use assimp::Node;
use assimp::{
    Animation, Bone, Face, Light, LightKind, Material, MaterialProperty, Mesh, MeshKey, Named,
    NodeAnimation, PrimitiveType, Texture, VertexWeight,
};

fn mesh_with_faces(faces: Vec<Face>) -> Mesh {
    Mesh {
        name: String::from("m"),
        primitive_type: 4,
        num_vertices: 4,
        material_index: 2,
        faces,
        bones: vec![],
        num_uvs: vec![],
    }
}

#[test]
fn mesh_indices_accumulate_in_face_order() {
    let mesh = mesh_with_faces(vec![
        Face { indices: vec![0, 1, 2] },
        Face { indices: vec![2, 3, 0] },
    ]);
    assert_eq!(mesh.indices(), Some(vec![0, 1, 2, 2, 3, 0]));
    assert_eq!(mesh.count_indices(), Some(6));
    assert_eq!(mesh.material_index(), 2);
}

#[test]
fn mesh_without_faces_has_no_indices() {
    let mesh = mesh_with_faces(vec![]);
    assert_eq!(mesh.indices(), None);
    assert_eq!(mesh.count_indices(), None);
    assert!(mesh.faces().is_none());
}

#[test]
fn mesh_uv_channels_counts_active_channels() {
    let mut mesh = mesh_with_faces(vec![]);
    mesh.num_uvs = vec![2, 0, 3, 0, 0, 0, 0, 0];
    assert_eq!(mesh.uv_channels(), 2);
}

#[test]
fn primitive_type_codes() {
    assert_eq!(PrimitiveType::from_u32(0x1), Some(PrimitiveType::Point));
    assert_eq!(PrimitiveType::from_u32(0x2), Some(PrimitiveType::Line));
    assert_eq!(PrimitiveType::from_u32(0x4), Some(PrimitiveType::Triangle));
    assert_eq!(PrimitiveType::from_u32(0x8), Some(PrimitiveType::Polygon));
    assert_eq!(PrimitiveType::from_u32(0x3), None);
    assert_eq!(
        mesh_with_faces(vec![]).primitive_type(),
        Some(PrimitiveType::Triangle)
    );
}

#[test]
fn bone_weights_and_ids() {
    let bone = Bone {
        name: String::from("arm"),
        weights: vec![VertexWeight { vertex_id: 3 }, VertexWeight { vertex_id: 7 }],
    };
    assert_eq!(bone.name(), "arm");
    let ids: Vec<u32> = bone.weights().iter().map(|w| w.id()).collect();
    assert_eq!(ids, vec![3, 7]);
}

#[test]
fn texture_dimensions_and_format_check() {
    let tex = Texture { width: 64, height: 32, format_hint: b"png".to_vec(), data: vec![] };
    assert_eq!(tex.width(), 64);
    assert_eq!(tex.height(), 32);
    assert_eq!(tex.check_format("png"), Ok(true));
    assert_eq!(tex.check_format("jpg"), Ok(false));
    assert_eq!(tex.check_format("averylonghint"), Ok(false));
    assert_eq!(tex.check_format("pn\0g"), Err(AiError::NulError));
}

#[test]
fn light_kind_codes() {
    assert_eq!(LightKind::from_u32(0x0), Some(LightKind::Undefined));
    assert_eq!(LightKind::from_u32(0x1), Some(LightKind::Directional));
    assert_eq!(LightKind::from_u32(0x2), Some(LightKind::Point));
    assert_eq!(LightKind::from_u32(0x3), Some(LightKind::Spotlight));
    assert_eq!(LightKind::from_u32(0x4), Some(LightKind::Ambient));
    assert_eq!(LightKind::from_u32(0x5), Some(LightKind::Area));
    assert_eq!(LightKind::from_u32(0x6), None);
    let light = Light { name: String::from("sun"), kind: 0x1 };
    assert_eq!(light.kind(), Some(LightKind::Directional));
    assert_eq!(light.name(), "sun");
}

#[test]
fn material_properties_hidden_when_empty() {
    let empty = Material { properties: vec![] };
    assert!(empty.properties().is_none());
    let mat = Material {
        properties: vec![MaterialProperty {
            key: String::from("$clr.diffuse"),
            semantic: 0,
            index: 0,
            property_type: 1,
            data: vec![1, 2, 3, 4],
        }],
    };
    assert_eq!(mat.properties().unwrap().len(), 1);
}

#[test]
fn animation_channels_hidden_when_empty() {
    let anim = Animation {
        name: String::from("walk"),
        channels: vec![NodeAnimation { name: String::from("leg") }],
        mesh_channels: vec![],
    };
    assert_eq!(anim.name(), "walk");
    assert_eq!(anim.node_channels().unwrap().len(), 1);
    assert!(anim.mesh_channels().is_none());
}

#[test]
fn node_meshes_resolve_against_scene() {
    let scene = Scene {
        flags: 0,
        root: None,
        meshes: vec![mesh_with_faces(vec![]), mesh_with_faces(vec![Face { indices: vec![1] }])],
        materials: vec![],
        textures: vec![],
        lights: vec![],
        cameras: vec![],
        animations: vec![],
        path: String::new(),
    };
    let node = Node { name: String::from("n"), children: vec![], meshes: vec![1, 5, 0] };
    let resolved = node.meshes_from_scene(&scene).unwrap();
    // Index 5 has no mesh and is passed over.
    assert_eq!(resolved.len(), 2);
    assert_eq!(resolved[0].count_indices(), Some(1));
    assert_eq!(resolved[1].count_indices(), None);
    let empty = Node { name: String::from("e"), children: vec![], meshes: vec![] };
    assert!(empty.meshes_from_scene(&scene).is_none());
}

#[test]
fn mesh_key_resolves_against_scene() {
    let scene = Scene {
        flags: 0,
        root: None,
        meshes: vec![mesh_with_faces(vec![])],
        materials: vec![],
        textures: vec![],
        lights: vec![],
        cameras: vec![],
        animations: vec![],
        path: String::new(),
    };
    assert!(MeshKey { value: 0 }.mesh_from_scene(&scene).is_some());
    assert!(MeshKey { value: 1 }.mesh_from_scene(&scene).is_none());
}
