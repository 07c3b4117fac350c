//! The file formats the engine imports, and their file extensions.
//!
//! Some formats have several extensions, and some extensions serve several
//! formats.  The partially-supported lists mark formats the engine reads
//! only in part.

use vstd::prelude::*;

use crate::text::str_eq;

verus! {

/// The extensions of an import format the engine supports, as a lookup by key.
pub open spec fn import_format_extensions_spec(name: Seq<char>) -> Option<Seq<Seq<char>>> {
    if name == "Autodesk"@ {
        Some(seq!["fbx"@])
    } else if name == "Collada"@ {
        Some(seq!["dae"@])
    } else if name == "glTF"@ {
        Some(seq!["gltf"@, "glb"@])
    } else if name == "Blender 3D"@ {
        Some(seq!["blend"@])
    } else if name == "3ds Max 3DS"@ {
        Some(seq!["3ds"@])
    } else if name == "3ds Max ASE"@ {
        Some(seq!["ase"@])
    } else if name == "Wavefront Object"@ {
        Some(seq!["obj"@])
    } else if name == "Industry Foundation Classes (IFC/Step)"@ {
        Some(seq!["ifc"@])
    } else if name == "XGL"@ {
        Some(seq!["xgl"@, "zgl"@])
    } else if name == "Stanford Polygon Library"@ {
        Some(seq!["ply"@])
    } else if name == "AutoCAD DXF"@ {
        Some(seq!["dxf"@])
    } else if name == "LightWave"@ {
        Some(seq!["lwo"@])
    } else if name == "LightWave Scene"@ {
        Some(seq!["lws"@])
    } else if name == "Modo"@ {
        Some(seq!["lxo"@])
    } else if name == "Stereolithography"@ {
        Some(seq!["stl"@])
    } else if name == "DirectX X"@ {
        Some(seq!["x"@])
    } else if name == "AC3D"@ {
        Some(seq!["ac"@])
    } else if name == "Milkshape 3D"@ {
        Some(seq!["ms3d"@])
    } else if name == "TrueSpace"@ {
        Some(seq!["cob"@, "scn"@])
    } else if name == "Biovision BVH"@ {
        Some(seq!["bvh"@])
    } else if name == "CharacterStudio Motion"@ {
        Some(seq!["csm"@])
    } else if name == "Ogre XML"@ {
        Some(seq!["xml"@])
    } else if name == "Irrlicht Mesh"@ {
        Some(seq!["irrmesh"@])
    } else if name == "Irrlicht Scene"@ {
        Some(seq!["irr"@])
    } else if name == "Quake I"@ {
        Some(seq!["mdl"@])
    } else if name == "Quake II"@ {
        Some(seq!["md2"@])
    } else if name == "Quake III Mesh"@ {
        Some(seq!["md3"@])
    } else if name == "Quake III Map/BSP"@ {
        Some(seq!["pk3"@])
    } else if name == "Return to Castle Wolfenstein"@ {
        Some(seq!["mdc"@])
    } else if name == "Doom 3"@ {
        Some(seq!["md5mesh"@, "md5anim"@])
    } else if name == "Valve Model"@ {
        Some(seq!["smd"@, "vta"@])
    } else if name == "Open Game Engine Exchange"@ {
        Some(seq!["ogex"@])
    } else if name == "Unreal"@ {
        Some(seq!["3d"@])
    } else if name == "BlitzBasic 3D"@ {
        Some(seq!["b3d"@])
    } else if name == "Quick3D"@ {
        Some(seq!["q3d"@, "q3s"@])
    } else if name == "Neutral File Format"@ {
        Some(seq!["nff"@])
    } else if name == "Sense8 WorldToolKit"@ {
        Some(seq!["nff"@])
    } else if name == "Object File Format"@ {
        Some(seq!["off"@])
    } else if name == "PovRAY Raw"@ {
        Some(seq!["raw"@])
    } else if name == "Terragen Terrain"@ {
        Some(seq!["ter"@])
    } else if name == "3D GameStudio (3DGS)"@ {
        Some(seq!["mdl"@])
    } else if name == "3D GameStudio (3DGS) Terrain"@ {
        Some(seq!["hmp"@])
    } else if name == "Izware Nendo"@ {
        Some(seq!["ndo"@])
    } else {
        None
    }
}

/// The extensions of an import format the engine supports.
pub fn import_format_extensions(name: &str) -> (r: Option<Vec<&'static str>>)
    ensures
        (r is Some) == (import_format_extensions_spec(name@) is Some),
        r matches Some(v) ==> Some(v.deep_view()) == import_format_extensions_spec(name@),
{
    let r: Option<Vec<&'static str>> =
    if str_eq(name, "Autodesk") {
        Some(vec!["fbx"])
    } else if str_eq(name, "Collada") {
        Some(vec!["dae"])
    } else if str_eq(name, "glTF") {
        Some(vec!["gltf", "glb"])
    } else if str_eq(name, "Blender 3D") {
        Some(vec!["blend"])
    } else if str_eq(name, "3ds Max 3DS") {
        Some(vec!["3ds"])
    } else if str_eq(name, "3ds Max ASE") {
        Some(vec!["ase"])
    } else if str_eq(name, "Wavefront Object") {
        Some(vec!["obj"])
    } else if str_eq(name, "Industry Foundation Classes (IFC/Step)") {
        Some(vec!["ifc"])
    } else if str_eq(name, "XGL") {
        Some(vec!["xgl", "zgl"])
    } else if str_eq(name, "Stanford Polygon Library") {
        Some(vec!["ply"])
    } else if str_eq(name, "AutoCAD DXF") {
        Some(vec!["dxf"])
    } else if str_eq(name, "LightWave") {
        Some(vec!["lwo"])
    } else if str_eq(name, "LightWave Scene") {
        Some(vec!["lws"])
    } else if str_eq(name, "Modo") {
        Some(vec!["lxo"])
    } else if str_eq(name, "Stereolithography") {
        Some(vec!["stl"])
    } else if str_eq(name, "DirectX X") {
        Some(vec!["x"])
    } else if str_eq(name, "AC3D") {
        Some(vec!["ac"])
    } else if str_eq(name, "Milkshape 3D") {
        Some(vec!["ms3d"])
    } else if str_eq(name, "TrueSpace") {
        Some(vec!["cob", "scn"])
    } else if str_eq(name, "Biovision BVH") {
        Some(vec!["bvh"])
    } else if str_eq(name, "CharacterStudio Motion") {
        Some(vec!["csm"])
    } else if str_eq(name, "Ogre XML") {
        Some(vec!["xml"])
    } else if str_eq(name, "Irrlicht Mesh") {
        Some(vec!["irrmesh"])
    } else if str_eq(name, "Irrlicht Scene") {
        Some(vec!["irr"])
    } else if str_eq(name, "Quake I") {
        Some(vec!["mdl"])
    } else if str_eq(name, "Quake II") {
        Some(vec!["md2"])
    } else if str_eq(name, "Quake III Mesh") {
        Some(vec!["md3"])
    } else if str_eq(name, "Quake III Map/BSP") {
        Some(vec!["pk3"])
    } else if str_eq(name, "Return to Castle Wolfenstein") {
        Some(vec!["mdc"])
    } else if str_eq(name, "Doom 3") {
        Some(vec!["md5mesh", "md5anim"])
    } else if str_eq(name, "Valve Model") {
        Some(vec!["smd", "vta"])
    } else if str_eq(name, "Open Game Engine Exchange") {
        Some(vec!["ogex"])
    } else if str_eq(name, "Unreal") {
        Some(vec!["3d"])
    } else if str_eq(name, "BlitzBasic 3D") {
        Some(vec!["b3d"])
    } else if str_eq(name, "Quick3D") {
        Some(vec!["q3d", "q3s"])
    } else if str_eq(name, "Neutral File Format") {
        Some(vec!["nff"])
    } else if str_eq(name, "Sense8 WorldToolKit") {
        Some(vec!["nff"])
    } else if str_eq(name, "Object File Format") {
        Some(vec!["off"])
    } else if str_eq(name, "PovRAY Raw") {
        Some(vec!["raw"])
    } else if str_eq(name, "Terragen Terrain") {
        Some(vec!["ter"])
    } else if str_eq(name, "3D GameStudio (3DGS)") {
        Some(vec!["mdl"])
    } else if str_eq(name, "3D GameStudio (3DGS) Terrain") {
        Some(vec!["hmp"])
    } else if str_eq(name, "Izware Nendo") {
        Some(vec!["ndo"])
    } else {
        None
    };
    proof {
        if let Some(v) = &r {
            assert(v.deep_view() =~~= import_format_extensions_spec(name@)->Some_0);
        }
    }
    r
}

/// The import formats an extension belongs to, as a lookup by key.
pub open spec fn import_extension_formats_spec(name: Seq<char>) -> Option<Seq<Seq<char>>> {
    if name == "fbx"@ {
        Some(seq!["Autodesk"@])
    } else if name == "dae"@ {
        Some(seq!["Collada"@])
    } else if name == "gltf"@ {
        Some(seq!["glTF"@])
    } else if name == "glb"@ {
        Some(seq!["glTF"@])
    } else if name == "blend"@ {
        Some(seq!["Blender 3D"@])
    } else if name == "3ds"@ {
        Some(seq!["3ds Max 3DS"@])
    } else if name == "ase"@ {
        Some(seq!["3ds Max ASE"@])
    } else if name == "obj"@ {
        Some(seq!["Wavefront Object"@])
    } else if name == "ifc"@ {
        Some(seq!["Industry Foundation Classes (IFC/Step)"@])
    } else if name == "xgl"@ {
        Some(seq!["XGL"@])
    } else if name == "zgl"@ {
        Some(seq!["XGL"@])
    } else if name == "ply"@ {
        Some(seq!["Stanford Polygon Library"@])
    } else if name == "dxf"@ {
        Some(seq!["AutoCAD DXF"@])
    } else if name == "lwo"@ {
        Some(seq!["LightWave"@])
    } else if name == "lws"@ {
        Some(seq!["LightWave Scene"@])
    } else if name == "lxo"@ {
        Some(seq!["Modo"@])
    } else if name == "stl"@ {
        Some(seq!["Stereolithography"@])
    } else if name == "x"@ {
        Some(seq!["DirectX X"@])
    } else if name == "ac"@ {
        Some(seq!["AC3D"@])
    } else if name == "ms3d"@ {
        Some(seq!["Milkshape 3D"@])
    } else if name == "cob"@ {
        Some(seq!["TrueSpace"@])
    } else if name == "scn"@ {
        Some(seq!["TrueSpace"@])
    } else if name == "bvh"@ {
        Some(seq!["Biovision BVH"@])
    } else if name == "csm"@ {
        Some(seq!["CharacterStudio Motion"@])
    } else if name == "xml"@ {
        Some(seq!["Ogre XML"@])
    } else if name == "irrmesh"@ {
        Some(seq!["Irrlicht Mesh"@])
    } else if name == "irr"@ {
        Some(seq!["Irrlicht Scene"@])
    } else if name == "mdl"@ {
        Some(seq!["Quake I"@, "3D GameStudio (3DGS)"@])
    } else if name == "md2"@ {
        Some(seq!["Quake II"@])
    } else if name == "md3"@ {
        Some(seq!["Quake III Mesh"@])
    } else if name == "pk3"@ {
        Some(seq!["Quake III Map/BSP"@])
    } else if name == "mdc"@ {
        Some(seq!["Return to Castle Wolfenstein"@])
    } else if name == "md5mesh"@ {
        Some(seq!["Doom 3"@])
    } else if name == "md5anim"@ {
        Some(seq!["Doom 3"@])
    } else if name == "smd"@ {
        Some(seq!["Valve Model"@])
    } else if name == "vta"@ {
        Some(seq!["Valve Model"@])
    } else if name == "ogex"@ {
        Some(seq!["Open Game Engine Exchange"@])
    } else if name == "3d"@ {
        Some(seq!["Unreal"@])
    } else if name == "b3d"@ {
        Some(seq!["BlitzBasic 3D"@])
    } else if name == "q3d"@ {
        Some(seq!["Quick3D"@])
    } else if name == "q3s"@ {
        Some(seq!["Quick3D"@])
    } else if name == "nff"@ {
        Some(seq!["Neutral File Format"@, "Sense8 WorldToolKit"@])
    } else if name == "off"@ {
        Some(seq!["Object File Format"@])
    } else if name == "raw"@ {
        Some(seq!["PovRAY Raw"@])
    } else if name == "ter"@ {
        Some(seq!["Terragen Terrain"@])
    } else if name == "hmp"@ {
        Some(seq!["3D GameStudio (3DGS) Terrain"@])
    } else if name == "ndo"@ {
        Some(seq!["Izware Nendo"@])
    } else {
        None
    }
}

/// The import formats an extension belongs to.
pub fn import_extension_formats(name: &str) -> (r: Option<Vec<&'static str>>)
    ensures
        (r is Some) == (import_extension_formats_spec(name@) is Some),
        r matches Some(v) ==> Some(v.deep_view()) == import_extension_formats_spec(name@),
{
    let r: Option<Vec<&'static str>> =
    if str_eq(name, "fbx") {
        Some(vec!["Autodesk"])
    } else if str_eq(name, "dae") {
        Some(vec!["Collada"])
    } else if str_eq(name, "gltf") {
        Some(vec!["glTF"])
    } else if str_eq(name, "glb") {
        Some(vec!["glTF"])
    } else if str_eq(name, "blend") {
        Some(vec!["Blender 3D"])
    } else if str_eq(name, "3ds") {
        Some(vec!["3ds Max 3DS"])
    } else if str_eq(name, "ase") {
        Some(vec!["3ds Max ASE"])
    } else if str_eq(name, "obj") {
        Some(vec!["Wavefront Object"])
    } else if str_eq(name, "ifc") {
        Some(vec!["Industry Foundation Classes (IFC/Step)"])
    } else if str_eq(name, "xgl") {
        Some(vec!["XGL"])
    } else if str_eq(name, "zgl") {
        Some(vec!["XGL"])
    } else if str_eq(name, "ply") {
        Some(vec!["Stanford Polygon Library"])
    } else if str_eq(name, "dxf") {
        Some(vec!["AutoCAD DXF"])
    } else if str_eq(name, "lwo") {
        Some(vec!["LightWave"])
    } else if str_eq(name, "lws") {
        Some(vec!["LightWave Scene"])
    } else if str_eq(name, "lxo") {
        Some(vec!["Modo"])
    } else if str_eq(name, "stl") {
        Some(vec!["Stereolithography"])
    } else if str_eq(name, "x") {
        Some(vec!["DirectX X"])
    } else if str_eq(name, "ac") {
        Some(vec!["AC3D"])
    } else if str_eq(name, "ms3d") {
        Some(vec!["Milkshape 3D"])
    } else if str_eq(name, "cob") {
        Some(vec!["TrueSpace"])
    } else if str_eq(name, "scn") {
        Some(vec!["TrueSpace"])
    } else if str_eq(name, "bvh") {
        Some(vec!["Biovision BVH"])
    } else if str_eq(name, "csm") {
        Some(vec!["CharacterStudio Motion"])
    } else if str_eq(name, "xml") {
        Some(vec!["Ogre XML"])
    } else if str_eq(name, "irrmesh") {
        Some(vec!["Irrlicht Mesh"])
    } else if str_eq(name, "irr") {
        Some(vec!["Irrlicht Scene"])
    } else if str_eq(name, "mdl") {
        Some(vec!["Quake I", "3D GameStudio (3DGS)"])
    } else if str_eq(name, "md2") {
        Some(vec!["Quake II"])
    } else if str_eq(name, "md3") {
        Some(vec!["Quake III Mesh"])
    } else if str_eq(name, "pk3") {
        Some(vec!["Quake III Map/BSP"])
    } else if str_eq(name, "mdc") {
        Some(vec!["Return to Castle Wolfenstein"])
    } else if str_eq(name, "md5mesh") {
        Some(vec!["Doom 3"])
    } else if str_eq(name, "md5anim") {
        Some(vec!["Doom 3"])
    } else if str_eq(name, "smd") {
        Some(vec!["Valve Model"])
    } else if str_eq(name, "vta") {
        Some(vec!["Valve Model"])
    } else if str_eq(name, "ogex") {
        Some(vec!["Open Game Engine Exchange"])
    } else if str_eq(name, "3d") {
        Some(vec!["Unreal"])
    } else if str_eq(name, "b3d") {
        Some(vec!["BlitzBasic 3D"])
    } else if str_eq(name, "q3d") {
        Some(vec!["Quick3D"])
    } else if str_eq(name, "q3s") {
        Some(vec!["Quick3D"])
    } else if str_eq(name, "nff") {
        Some(vec!["Neutral File Format", "Sense8 WorldToolKit"])
    } else if str_eq(name, "off") {
        Some(vec!["Object File Format"])
    } else if str_eq(name, "raw") {
        Some(vec!["PovRAY Raw"])
    } else if str_eq(name, "ter") {
        Some(vec!["Terragen Terrain"])
    } else if str_eq(name, "hmp") {
        Some(vec!["3D GameStudio (3DGS) Terrain"])
    } else if str_eq(name, "ndo") {
        Some(vec!["Izware Nendo"])
    } else {
        None
    };
    proof {
        if let Some(v) = &r {
            assert(v.deep_view() =~~= import_extension_formats_spec(name@)->Some_0);
        }
    }
    r
}

/// All the import formats the engine supports, as character sequences.
pub open spec fn import_format_names_spec() -> Seq<Seq<char>> {
    seq![
        "Autodesk"@,
        "Collada"@,
        "glTF"@,
        "Blender 3D"@,
        "3ds Max 3DS"@,
        "3ds Max ASE"@,
        "Wavefront Object"@,
        "Industry Foundation Classes (IFC/Step)"@,
        "XGL"@,
        "Stanford Polygon Library"@,
        "AutoCAD DXF"@,
        "LightWave"@,
        "LightWave Scene"@,
        "Modo"@,
        "Stereolithography"@,
        "DirectX X"@,
        "AC3D"@,
        "Milkshape 3D"@,
        "TrueSpace"@,
        "Biovision BVH"@,
        "CharacterStudio Motion"@,
        "Ogre XML"@,
        "Irrlicht Mesh"@,
        "Irrlicht Scene"@,
        "Quake I"@,
        "Quake II"@,
        "Quake III Mesh"@,
        "Quake III Map/BSP"@,
        "Return to Castle Wolfenstein"@,
        "Doom 3"@,
        "Valve Model"@,
        "Open Game Engine Exchange"@,
        "Unreal"@,
        "BlitzBasic 3D"@,
        "Quick3D"@,
        "Neutral File Format"@,
        "Sense8 WorldToolKit"@,
        "Object File Format"@,
        "PovRAY Raw"@,
        "Terragen Terrain"@,
        "3D GameStudio (3DGS)"@,
        "3D GameStudio (3DGS) Terrain"@,
        "Izware Nendo"@,
    ]
}

/// All the import formats the engine supports.
pub fn import_format_names() -> (r: Vec<&'static str>)
    ensures
        r.deep_view() == import_format_names_spec(),
        r@.len() == import_format_names_spec().len(),
{
    let r: Vec<&'static str> = vec![
        "Autodesk",
        "Collada",
        "glTF",
        "Blender 3D",
        "3ds Max 3DS",
        "3ds Max ASE",
        "Wavefront Object",
        "Industry Foundation Classes (IFC/Step)",
        "XGL",
        "Stanford Polygon Library",
        "AutoCAD DXF",
        "LightWave",
        "LightWave Scene",
        "Modo",
        "Stereolithography",
        "DirectX X",
        "AC3D",
        "Milkshape 3D",
        "TrueSpace",
        "Biovision BVH",
        "CharacterStudio Motion",
        "Ogre XML",
        "Irrlicht Mesh",
        "Irrlicht Scene",
        "Quake I",
        "Quake II",
        "Quake III Mesh",
        "Quake III Map/BSP",
        "Return to Castle Wolfenstein",
        "Doom 3",
        "Valve Model",
        "Open Game Engine Exchange",
        "Unreal",
        "BlitzBasic 3D",
        "Quick3D",
        "Neutral File Format",
        "Sense8 WorldToolKit",
        "Object File Format",
        "PovRAY Raw",
        "Terragen Terrain",
        "3D GameStudio (3DGS)",
        "3D GameStudio (3DGS) Terrain",
        "Izware Nendo",
    ];
    proof {
        assert(r.deep_view() =~~= import_format_names_spec());
    }
    r
}

/// All the extensions the engine supports, as character sequences.
pub open spec fn import_extension_names_spec() -> Seq<Seq<char>> {
    seq![
        "fbx"@,
        "dae"@,
        "gltf"@,
        "glb"@,
        "blend"@,
        "3ds"@,
        "ase"@,
        "obj"@,
        "ifc"@,
        "xgl"@,
        "zgl"@,
        "ply"@,
        "dxf"@,
        "lwo"@,
        "lws"@,
        "lxo"@,
        "stl"@,
        "x"@,
        "ac"@,
        "ms3d"@,
        "cob"@,
        "scn"@,
        "bvh"@,
        "csm"@,
        "xml"@,
        "irrmesh"@,
        "irr"@,
        "mdl"@,
        "md2"@,
        "md3"@,
        "pk3"@,
        "mdc"@,
        "md5mesh"@,
        "md5anim"@,
        "smd"@,
        "vta"@,
        "ogex"@,
        "3d"@,
        "b3d"@,
        "q3d"@,
        "q3s"@,
        "nff"@,
        "off"@,
        "raw"@,
        "ter"@,
        "hmp"@,
        "ndo"@,
    ]
}

/// All the extensions the engine supports.
pub fn import_extension_names() -> (r: Vec<&'static str>)
    ensures
        r.deep_view() == import_extension_names_spec(),
        r@.len() == import_extension_names_spec().len(),
{
    let r: Vec<&'static str> = vec![
        "fbx",
        "dae",
        "gltf",
        "glb",
        "blend",
        "3ds",
        "ase",
        "obj",
        "ifc",
        "xgl",
        "zgl",
        "ply",
        "dxf",
        "lwo",
        "lws",
        "lxo",
        "stl",
        "x",
        "ac",
        "ms3d",
        "cob",
        "scn",
        "bvh",
        "csm",
        "xml",
        "irrmesh",
        "irr",
        "mdl",
        "md2",
        "md3",
        "pk3",
        "mdc",
        "md5mesh",
        "md5anim",
        "smd",
        "vta",
        "ogex",
        "3d",
        "b3d",
        "q3d",
        "q3s",
        "nff",
        "off",
        "raw",
        "ter",
        "hmp",
        "ndo",
    ];
    proof {
        assert(r.deep_view() =~~= import_extension_names_spec());
    }
    r
}

/// The import formats the engine supports only partially, as character sequences.
pub open spec fn partially_supported_import_formats_spec() -> Seq<Seq<char>> {
    seq![
        "AutoCAD DXF"@,
        "TrueSpace"@,
        "CharacterStudio Motion"@,
        "Irrlicht Scene"@,
        "Return to Castle Wolfenstein"@,
        "Valve Model"@,
        "Open Game Engine Exchange"@,
        "Unreal"@,
    ]
}

/// The import formats the engine supports only partially.
pub fn partially_supported_import_formats() -> (r: Vec<&'static str>)
    ensures
        r.deep_view() == partially_supported_import_formats_spec(),
        r@.len() == partially_supported_import_formats_spec().len(),
{
    let r: Vec<&'static str> = vec![
        "AutoCAD DXF",
        "TrueSpace",
        "CharacterStudio Motion",
        "Irrlicht Scene",
        "Return to Castle Wolfenstein",
        "Valve Model",
        "Open Game Engine Exchange",
        "Unreal",
    ];
    proof {
        assert(r.deep_view() =~~= partially_supported_import_formats_spec());
    }
    r
}

/// The extensions whose formats the engine supports only partially, as character sequences.
pub open spec fn partially_supported_import_extensions_spec() -> Seq<Seq<char>> {
    seq![
        "dxf"@,
        "cob"@,
        "scn"@,
        "csm"@,
        "irr"@,
        "mdc"@,
        "smd"@,
        "vta"@,
        "ogex"@,
        "3d"@,
    ]
}

/// The extensions whose formats the engine supports only partially.
pub fn partially_supported_import_extensions() -> (r: Vec<&'static str>)
    ensures
        r.deep_view() == partially_supported_import_extensions_spec(),
        r@.len() == partially_supported_import_extensions_spec().len(),
{
    let r: Vec<&'static str> = vec![
        "dxf",
        "cob",
        "scn",
        "csm",
        "irr",
        "mdc",
        "smd",
        "vta",
        "ogex",
        "3d",
    ];
    proof {
        assert(r.deep_view() =~~= partially_supported_import_extensions_spec());
    }
    r
}

} // verus!
