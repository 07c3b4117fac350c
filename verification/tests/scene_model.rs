//! Tests of the scene model, its flags, and the import judgment.

use assimp::error::AiError;
use assimp::native::{SCENE_FLAG_INCOMPLETE, SCENE_FLAG_VALIDATED};
use assimp::scene::{Scene, SceneFlags};
use assimp::{Face, Mesh, Named, Node};

fn empty_scene() -> Scene {
    Scene {
        flags: 0,
        root: None,
        meshes: vec![],
        materials: vec![],
        textures: vec![],
        lights: vec![],
        cameras: vec![],
        animations: vec![],
        path: String::from("mesh.obj"),
    }
}

fn mesh_named(name: &str) -> Mesh {
    Mesh {
        name: String::from(name),
        primitive_type: 4,
        num_vertices: 3,
        material_index: 0,
        faces: vec![Face { indices: vec![0, 1, 2] }],
        bones: vec![],
        num_uvs: vec![],
    }
}

#[test]
fn valid_scene_needs_root_and_completeness() {
    let mut scene = empty_scene();
    assert!(!scene.valid());
    scene.root = Some(Node { name: String::from("root"), children: vec![], meshes: vec![0] });
    assert!(scene.valid());
    scene.flags = SCENE_FLAG_INCOMPLETE;
    assert!(!scene.valid());
}

#[test]
fn import_of_null_scene_is_invalid() {
    assert!(matches!(Scene::check_import(None), Err(AiError::InvalidScene)));
}

#[test]
fn import_of_incomplete_scene_is_invalid() {
    let mut scene = empty_scene();
    scene.root = Some(Node { name: String::from("root"), children: vec![], meshes: vec![] });
    scene.flags = SCENE_FLAG_INCOMPLETE;
    assert!(matches!(
        Scene::check_import(Some(scene)),
        Err(AiError::InvalidScene)
    ));
}

#[test]
fn import_of_valid_scene_passes_through() {
    // A default-bridge import of "mesh.obj": the scene loads and its meshes
    // carry a non-empty face list.
    let mut scene = empty_scene();
    scene.root = Some(Node { name: String::from("root"), children: vec![], meshes: vec![0] });
    scene.meshes = vec![mesh_named("sphere")];
    let scene = Scene::check_import(Some(scene)).expect("valid scene imports");
    assert_eq!(scene.path(), "mesh.obj");
    assert_eq!(scene.pathbuf(), "mesh.obj");
    let meshes = scene.meshes().expect("one mesh");
    assert_eq!(meshes.len(), 1);
    assert_eq!(meshes[0].name(), "sphere");
    assert_eq!(meshes[0].count_indices(), Some(3));
    assert_eq!(scene.root().name(), "root");
    assert!(scene.mesh(0).is_some());
    assert!(scene.mesh(1).is_none());
}

#[test]
fn flags_truncate_to_known_bits() {
    let flags = SceneFlags::from_bits_truncate(SCENE_FLAG_VALIDATED | 0x4000_0000);
    assert_eq!(flags.bits(), SCENE_FLAG_VALIDATED);
    assert!(flags.contains(SceneFlags::from_bits_retain(SCENE_FLAG_VALIDATED)));
    assert!(!flags.contains(SceneFlags::from_bits_retain(SCENE_FLAG_INCOMPLETE)));
    assert_eq!(SceneFlags::empty().bits(), 0);
}

#[test]
fn scene_collections_are_none_when_empty() {
    let scene = empty_scene();
    assert!(scene.meshes().is_none());
    assert!(scene.materials().is_none());
    assert!(scene.textures().is_none());
    assert!(scene.lights().is_none());
    assert!(scene.cameras().is_none());
    assert!(scene.animations().is_none());
}
