use pbr_core::accessor::{AccessorView, ElementType};
use pbr_core::import::{
    decode_primitive, image_format_for_extension, import_plan, missing_texture_path, BufferData,
    DocAccessor, GltfDoc, ImageFormatChoice, ImportError, NodeSource, PrimitiveSource,
};
use pbr_core::material::{
    finish_material, resolve_material, ImageRef, Material, MaterialResolution, MaterialSource,
};
use pbr_core::mesh::Mesh;
use pbr_core::model::{Model, ModelHandle};
use pbr_core::primitive::Primitive;
use pbr_core::store::ModelStore;
use pbr_core::transform::{Isometry, NodeTransform};
use pbr_core::vertex::Vertex;

fn bits(v: f32) -> u32 {
    v.to_bits()
}

fn uri(s: &str) -> Option<ImageRef> {
    Some(ImageRef::Uri { uri: s.to_string() })
}

#[test]
fn full_material_resolves_to_its_uris() {
    let source = MaterialSource {
        base_color: uri("d.png"),
        metallic_roughness: uri("orm.png"),
        normal: uri("n.png"),
    };
    match resolve_material(&source) {
        MaterialResolution::Textures { diffuse_uri, orm_uri, normal_uri } => {
            assert_eq!(diffuse_uri, "d.png");
            assert_eq!(orm_uri, "orm.png");
            assert_eq!(normal_uri, "n.png");
        }
        MaterialResolution::Missing => panic!("a complete material must resolve"),
    }
}

#[test]
fn any_bad_slot_fails_the_whole_material() {
    let missing_slot = MaterialSource {
        base_color: uri("d.png"),
        metallic_roughness: None,
        normal: uri("n.png"),
    };
    assert!(matches!(resolve_material(&missing_slot), MaterialResolution::Missing));

    let embedded_slot = MaterialSource {
        base_color: Some(ImageRef::NonUri),
        metallic_roughness: uri("orm.png"),
        normal: uri("n.png"),
    };
    assert!(matches!(resolve_material(&embedded_slot), MaterialResolution::Missing));
    assert_eq!(missing_texture_path(), "assets/missing_texture.png");
}

fn sample_doc() -> GltfDoc {
    // One buffer: 3 u16 indices, then 3 positions and 3 texture
    // coordinates as f32.
    let mut data: Vec<u8> = Vec::new();
    for v in [0u16, 1, 2] {
        data.extend_from_slice(&v.to_le_bytes());
    }
    let positions: [f32; 9] = [0.0, 0.0, 0.0, 1.0, 0.0, 0.0, 0.0, 1.0, 0.0];
    for v in positions {
        data.extend_from_slice(&v.to_le_bytes());
    }
    let uvs: [f32; 6] = [0.0, 0.0, 1.0, 0.0, 0.0, 1.0];
    for v in uvs {
        data.extend_from_slice(&v.to_le_bytes());
    }
    let indices = DocAccessor {
        buffer: 0,
        view: AccessorView {
            offset: 0,
            count: 3,
            data_type: ElementType::U16,
            dimension: 1,
            stride: 2,
        },
    };
    let positions = DocAccessor {
        buffer: 0,
        view: AccessorView {
            offset: 6,
            count: 3,
            data_type: ElementType::F32,
            dimension: 3,
            stride: 12,
        },
    };
    let tex_coords = DocAccessor {
        buffer: 0,
        view: AccessorView {
            offset: 42,
            count: 3,
            data_type: ElementType::F32,
            dimension: 2,
            stride: 8,
        },
    };
    GltfDoc {
        buffers: vec![BufferData::Uri { data }],
        materials: vec![MaterialSource {
            base_color: uri("d.png"),
            metallic_roughness: uri("orm.png"),
            normal: uri("n.png"),
        }],
        default_scene: Some(vec![NodeSource {
            transform: NodeTransform::Decomposed {
                translation: [bits(1.0), bits(2.0), bits(3.0)],
                rotation: [0, 0, 0, bits(1.0)],
                scale: [bits(1.0); 3],
            },
            primitives: Some(vec![PrimitiveSource {
                indices: Some(indices),
                positions: Some(positions),
                normals: None,
                tex_coords: Some(tex_coords),
                material_index: 0,
            }]),
        }]),
    }
}

#[test]
fn import_plan_decodes_a_small_document() {
    let plan = import_plan(&sample_doc()).unwrap();
    assert_eq!(plan.materials.len(), 1);
    assert!(matches!(plan.materials[0], MaterialResolution::Textures { .. }));
    assert_eq!(plan.nodes.len(), 1);
    let node = &plan.nodes[0];
    assert_eq!(node.transform.translation, [bits(1.0), bits(2.0), bits(3.0)]);
    assert_eq!(node.primitives.len(), 1);
    let prim = &node.primitives[0];
    assert_eq!(prim.indices, vec![0, 1, 2]);
    assert_eq!(
        prim.positions,
        vec![
            [bits(0.0); 3],
            [bits(1.0), bits(0.0), bits(0.0)],
            [bits(0.0), bits(1.0), bits(0.0)],
        ]
    );
    assert_eq!(
        prim.tex_coords,
        vec![[bits(0.0); 2], [bits(1.0), bits(0.0)], [bits(0.0), bits(1.0)]]
    );
    assert!(prim.normals.is_empty());
    assert_eq!(prim.material_index, 0);
}

#[test]
fn import_without_default_scene_fails() {
    let mut doc = sample_doc();
    doc.default_scene = None;
    assert_eq!(import_plan(&doc).unwrap_err(), ImportError::MissingDefaultScene);
}

#[test]
fn import_with_embedded_buffer_fails() {
    let mut doc = sample_doc();
    doc.buffers.push(BufferData::Unsupported);
    assert_eq!(import_plan(&doc).unwrap_err(), ImportError::UnsupportedBufferSource);
}

#[test]
fn import_with_meshless_node_fails() {
    let mut doc = sample_doc();
    doc.default_scene.as_mut().unwrap()[0].primitives = None;
    assert_eq!(import_plan(&doc).unwrap_err(), ImportError::MissingMeshOnNode);
}

#[test]
fn import_without_indices_fails() {
    let mut doc = sample_doc();
    doc.default_scene.as_mut().unwrap()[0]
        .primitives
        .as_mut()
        .unwrap()[0]
        .indices = None;
    assert_eq!(import_plan(&doc).unwrap_err(), ImportError::MissingIndices);
}

#[test]
fn primitive_decode_propagates_bounds_errors() {
    let doc = sample_doc();
    let mut prim = doc.default_scene.as_ref().unwrap()[0]
        .primitives
        .as_ref()
        .unwrap()[0];
    // Push the index accessor past the buffer's end.
    if let Some(acc) = &mut prim.indices {
        acc.view.count = 1000;
    }
    let r = decode_primitive(&doc.buffers, &prim);
    assert!(matches!(r.unwrap_err(), ImportError::Decode(_)));
}

#[test]
fn format_choice_matches_only_dotted_patterns() {
    assert_eq!(image_format_for_extension(Some(b".png")), ImageFormatChoice::Png);
    assert_eq!(image_format_for_extension(Some(b".tga")), ImageFormatChoice::Tga);
    assert_eq!(image_format_for_extension(Some(b".tiff")), ImageFormatChoice::Tiff);
    assert_eq!(image_format_for_extension(Some(b".jpeg")), ImageFormatChoice::Jpeg);
    assert_eq!(image_format_for_extension(Some(b".bmp")), ImageFormatChoice::Bmp);
    // A bare extension, as the file system hands it over, never matches:
    // the reader guesses from the bytes.
    assert_eq!(image_format_for_extension(Some(b"png")), ImageFormatChoice::Guess);
    assert_eq!(image_format_for_extension(None), ImageFormatChoice::Guess);
}

fn empty_model() -> Model {
    Model::new(Vec::new(), Vec::new())
}

#[test]
fn store_hands_out_stable_handles_in_order() {
    let mut store = ModelStore::new();
    let mut handles: Vec<ModelHandle> = Vec::new();
    for _ in 0..4 {
        handles.push(store.push_model(empty_model()));
    }
    for (i, h) in handles.iter().enumerate() {
        assert_eq!(h.index(), i);
    }
    assert_eq!(store.len(), 4);
    // Mark model 1, register more, and fetch it back unchanged.
    store
        .get_mut_model(&ModelHandle::new(1))
        .materials
        .push(Material::new(7, 8, 9));
    for _ in 0..3 {
        store.push_model(empty_model());
    }
    let m = store.get_model(&handles[1]);
    assert_eq!(m.materials.len(), 1);
    assert_eq!(m.materials[0].diffuse_map(), 7);
    assert_eq!(store.len(), 7);
}

#[test]
fn trimesh_offsets_restart_per_mesh() {
    let v = |x: u32| Vertex {
        position: [x, 0, 0],
        texture_coord: [0, 0],
        normal: [0, 0, 0],
        tangent: [0, 0, 0],
    };
    let iso = Isometry { translation: [0; 3], rotation_xyzw: [0, 0, 0, bits(1.0)] };
    // Mesh A: two primitives of 3 vertices each; mesh B: one primitive.
    let mesh_a = Mesh::new(
        vec![
            Primitive::new(vec![v(0), v(1), v(2)], vec![0, 1, 2], 0, 0, 0),
            Primitive::new(vec![v(3), v(4), v(5)], vec![0, 2, 1], 0, 0, 0),
        ],
        iso,
        [bits(1.0); 3],
    );
    let mesh_b = Mesh::new(
        vec![Primitive::new(vec![v(6), v(7), v(8)], vec![2, 1, 0], 0, 0, 0)],
        iso,
        [bits(1.0); 3],
    );
    let model = Model::new(vec![mesh_a, mesh_b], Vec::new());
    let (points, triangles) = model.trimesh_data();
    assert_eq!(points.len(), 9);
    for (i, p) in points.iter().enumerate() {
        assert_eq!(p[0], i as u32);
    }
    // The second primitive of mesh A is shifted by 3; mesh B starts over
    // at offset 0.
    assert_eq!(triangles, vec![[0, 1, 2], [3, 5, 4], [2, 1, 0]]);
}

#[test]
fn material_finishes_only_when_every_texture_loaded() {
    let placeholder = Material::new(90, 91, 92);
    let complete = finish_material(Some(1), Some(2), Some(3), placeholder);
    assert_eq!(complete.diffuse_map(), 1);
    assert_eq!(complete.orm_map(), 2);
    assert_eq!(complete.normal_map(), 3);
}

#[test]
fn one_failed_texture_falls_the_whole_material_back() {
    // Whichever slot failed, all three handles come back as the
    // placeholder material's own: partial materials are never built.
    for (d, o, n) in [
        (None, Some(2), Some(3)),
        (Some(1), None, Some(3)),
        (Some(1), Some(2), None),
        (None, None, None),
    ] {
        let placeholder = Material::new(90, 91, 92);
        let r = finish_material(d, o, n, placeholder);
        assert_eq!(r.diffuse_map(), 90);
        assert_eq!(r.orm_map(), 91);
        assert_eq!(r.normal_map(), 92);
    }
}
