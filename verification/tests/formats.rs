//! Tests of the import format and extension tables.

use assimp::formats::{
    import_extension_formats, import_extension_names, import_format_extensions,
    import_format_names, partially_supported_import_extensions,
    partially_supported_import_formats,
};

#[test]
fn test_matching_import_formats() {
    for format in partially_supported_import_formats() {
        assert!(import_format_extensions(format).is_some());
    }
}

#[test]
fn test_matching_import_extensions() {
    for ext in partially_supported_import_extensions() {
        assert!(import_extension_formats(ext).is_some());
    }
}

#[test]
fn format_lookup_gives_extensions() {
    assert_eq!(import_format_extensions("glTF"), Some(vec!["gltf", "glb"]));
    assert_eq!(import_format_extensions("Autodesk"), Some(vec!["fbx"]));
    assert_eq!(import_format_extensions("Doom 3"), Some(vec!["md5mesh", "md5anim"]));
    assert_eq!(import_format_extensions("Unheard Of"), None);
}

#[test]
fn extension_lookup_gives_formats() {
    assert_eq!(
        import_extension_formats("mdl"),
        Some(vec!["Quake I", "3D GameStudio (3DGS)"])
    );
    assert_eq!(
        import_extension_formats("nff"),
        Some(vec!["Neutral File Format", "Sense8 WorldToolKit"])
    );
    assert_eq!(import_extension_formats("obj"), Some(vec!["Wavefront Object"]));
    assert_eq!(import_extension_formats("docx"), None);
}

#[test]
fn table_sizes() {
    assert_eq!(import_format_names().len(), 43);
    assert_eq!(import_extension_names().len(), 47);
    assert_eq!(partially_supported_import_formats().len(), 8);
    assert_eq!(partially_supported_import_extensions().len(), 10);
}

#[test]
fn every_format_extension_resolves_back() {
    for format in import_format_names() {
        for ext in import_format_extensions(format).unwrap() {
            let formats = import_extension_formats(ext).unwrap();
            assert!(formats.contains(&format), "{} not found for {}", format, ext);
        }
    }
}
