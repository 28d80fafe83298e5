use gltf_viewer::asset::{
    AccessorDesc, DataType, Document, MaterialDesc, MeshDesc, NodeDesc, PrimitiveDesc,
    PrimitiveMode, SamplerDesc, SceneDesc, Semantic, TextureDesc, WrappingMode,
};
use gltf_viewer::data::Transform;
use gltf_viewer::error::ErrorKind;
use gltf_viewer::loader::MemoryGltfLoader;
use gltf_viewer::mesh::IndexFormat;
use gltf_viewer::storage::RenderSystemSceneStorage;
use gltf_viewer::system::RenderSystem;
use gltf_viewer::texture::{AddressMode, FilterMode, TextureFormat};

fn identity() -> Transform {
    Transform {
        translation: [0, 0, 0],
        rotation: [0, 0, 0, 0],
        scale: [1.0f32.to_bits(); 3],
    }
}

fn float_accessor(count: usize) -> AccessorDesc {
    AccessorDesc {
        count,
        element_size: 12,
        data_type: DataType::F32,
    }
}

fn triangles(attributes: Vec<(Semantic, usize)>) -> PrimitiveDesc {
    PrimitiveDesc {
        mode: PrimitiveMode::Triangles,
        attributes,
        indices: None,
        material: None,
    }
}

fn empty_doc() -> Document {
    Document {
        scenes: vec![],
        nodes: vec![],
        meshes: vec![],
        materials: vec![],
        textures: vec![],
        samplers: vec![],
        accessors: vec![],
        image_count: 0,
    }
}

fn mesh_node(mesh: Option<usize>, children: Vec<usize>) -> NodeDesc {
    NodeDesc {
        children,
        mesh,
        camera: None,
        transform: identity(),
    }
}

fn loader_with_positions() -> MemoryGltfLoader {
    let mut loader = MemoryGltfLoader::new();
    loader.insert_accessor(0, vec![0u8; 36]);
    loader
}

fn assert_storage_empty(s: &RenderSystemSceneStorage) {
    assert!(s.node_registry.is_empty());
    assert!(s.mesh_registry.is_empty());
    assert!(s.material_registry.is_empty());
    assert!(s.default_material.is_none());
    assert!(s.texture_registry.is_empty());
    assert!(s.image_registry.is_empty());
    assert!(s.sampler_registry.is_empty());
    assert!(s.default_sampler.is_none());
    assert!(s.render_pipeline_registry.is_empty());
    assert!(s.shader_module_package_registry.is_empty());
    assert!(s.default_texture.is_none());
}

fn storage_shape(s: &RenderSystemSceneStorage) -> Vec<Vec<u64>> {
    let mut shape = Vec::new();
    for keys in [
        s.node_registry.keys().copied().collect::<Vec<u64>>(),
        s.mesh_registry.keys().copied().collect(),
        s.material_registry.keys().copied().collect(),
        s.texture_registry.keys().copied().collect(),
        s.image_registry.keys().copied().collect(),
        s.sampler_registry.keys().copied().collect(),
        s.render_pipeline_registry.keys().copied().collect(),
        s.shader_module_package_registry.keys().copied().collect(),
    ] {
        let mut keys = keys;
        keys.sort();
        shape.push(keys);
    }
    shape.push(vec![s.default_material.is_some() as u64]);
    shape.push(vec![s.default_sampler.is_some() as u64]);
    shape.push(vec![s.default_texture.is_some() as u64]);
    shape
}

#[test]
fn two_children_sharing_a_mesh_load_it_once_with_two_instances() {
    let mut doc = empty_doc();
    doc.scenes = vec![SceneDesc { nodes: vec![0] }];
    doc.nodes = vec![
        mesh_node(None, vec![1, 2]),
        mesh_node(Some(0), vec![]),
        mesh_node(Some(0), vec![]),
    ];
    doc.meshes = vec![MeshDesc {
        primitives: vec![triangles(vec![(Semantic::Positions, 0)])],
    }];
    doc.accessors = vec![float_accessor(3)];

    let mut loader = loader_with_positions();
    let mut system = RenderSystem::new();
    system.load_scene(&doc, 0, &mut loader).unwrap();

    // Exactly one mesh registry entry...
    assert_eq!(system.storage.mesh_registry.len(), 1);
    assert_eq!(system.storage.node_registry.len(), 3);

    // ...and two distinct mesh instances sharing it.
    let node1 = &system.storage.node_registry[&1];
    let node2 = &system.storage.node_registry[&2];
    let inst1 = node1.mesh.as_ref().unwrap();
    let inst2 = node2.mesh.as_ref().unwrap();
    assert!(std::rc::Rc::ptr_eq(&inst1.mesh, &inst2.mesh));
    assert!(system.storage.node_registry[&0].mesh.is_none());
}

#[test]
fn primitive_without_positions_fails_and_leaves_storage_empty() {
    let mut doc = empty_doc();
    doc.scenes = vec![SceneDesc { nodes: vec![0] }];
    doc.nodes = vec![mesh_node(Some(0), vec![])];
    doc.meshes = vec![MeshDesc {
        primitives: vec![triangles(vec![(Semantic::Normals, 0)])],
    }];
    doc.accessors = vec![float_accessor(3)];

    let mut loader = loader_with_positions();
    let mut system = RenderSystem::new();
    let e = system.load_scene(&doc, 0, &mut loader).unwrap_err();
    assert_eq!(e.kind(), ErrorKind::MissingPositions);
    assert_storage_empty(&system.storage);
}

#[test]
fn loading_twice_yields_empty_then_identical_shape() {
    let mut doc = empty_doc();
    doc.scenes = vec![SceneDesc { nodes: vec![0] }];
    doc.nodes = vec![mesh_node(Some(0), vec![1]), mesh_node(Some(0), vec![])];
    doc.meshes = vec![MeshDesc {
        primitives: vec![triangles(vec![(Semantic::Positions, 0)])],
    }];
    doc.accessors = vec![float_accessor(3)];

    let mut system = RenderSystem::new();

    let mut loader = loader_with_positions();
    system.load_scene(&doc, 0, &mut loader).unwrap();
    let first = storage_shape(&system.storage);

    let mut loader = loader_with_positions();
    system.load_scene(&doc, 0, &mut loader).unwrap();
    let second = storage_shape(&system.storage);

    assert_eq!(first, second);

    // A later failed load keeps nothing of the earlier one.
    let mut broken = empty_doc();
    broken.scenes = vec![SceneDesc { nodes: vec![0] }];
    broken.nodes = vec![mesh_node(Some(0), vec![])];
    broken.meshes = vec![MeshDesc {
        primitives: vec![triangles(vec![(Semantic::Normals, 0)])],
    }];
    broken.accessors = vec![float_accessor(3)];

    let mut loader = loader_with_positions();
    assert!(system.load_scene(&broken, 0, &mut loader).is_err());
    assert_storage_empty(&system.storage);
}

#[test]
fn identical_presence_flags_share_pipeline_and_shader_package() {
    let mut doc = empty_doc();
    doc.scenes = vec![SceneDesc { nodes: vec![0] }];
    doc.nodes = vec![mesh_node(Some(0), vec![])];
    doc.meshes = vec![MeshDesc {
        primitives: vec![
            triangles(vec![(Semantic::Positions, 0), (Semantic::Normals, 1)]),
            triangles(vec![(Semantic::Normals, 1), (Semantic::Positions, 0)]),
        ],
    }];
    doc.accessors = vec![float_accessor(3), float_accessor(3)];

    let mut loader = loader_with_positions();
    loader.insert_accessor(1, vec![0u8; 36]);
    let mut system = RenderSystem::new();
    system.load_scene(&doc, 0, &mut loader).unwrap();

    assert_eq!(system.storage.render_pipeline_registry.len(), 1);
    assert_eq!(system.storage.shader_module_package_registry.len(), 1);

    let mesh = &system.storage.mesh_registry[&0];
    assert_eq!(mesh.primitives.len(), 2);
    assert!(std::rc::Rc::ptr_eq(
        &mesh.primitives[0].render_pipeline,
        &mesh.primitives[1].render_pipeline
    ));
    assert!(std::rc::Rc::ptr_eq(
        &mesh.primitives[0].render_pipeline.shader,
        &mesh.primitives[1].render_pipeline.shader
    ));
}

#[test]
fn duplicate_node_index_is_fatal() {
    let mut doc = empty_doc();
    doc.scenes = vec![SceneDesc { nodes: vec![0, 0] }];
    doc.nodes = vec![mesh_node(None, vec![])];

    let mut loader = MemoryGltfLoader::new();
    let mut system = RenderSystem::new();
    let e = system.load_scene(&doc, 0, &mut loader).unwrap_err();
    assert_eq!(e.kind(), ErrorKind::DuplicateNode);
    assert_storage_empty(&system.storage);
}

#[test]
fn self_referencing_node_is_fatal() {
    let mut doc = empty_doc();
    doc.scenes = vec![SceneDesc { nodes: vec![0] }];
    doc.nodes = vec![mesh_node(None, vec![0])];

    let mut loader = MemoryGltfLoader::new();
    let mut system = RenderSystem::new();
    let e = system.load_scene(&doc, 0, &mut loader).unwrap_err();
    assert_eq!(e.kind(), ErrorKind::DuplicateNode);
}

#[test]
fn missing_scene_id_is_reported() {
    let doc = empty_doc();
    let mut loader = MemoryGltfLoader::new();
    let mut system = RenderSystem::new();
    let e = system.load_scene(&doc, 0, &mut loader).unwrap_err();
    assert_eq!(e.kind(), ErrorKind::MissingScene);
}

#[test]
fn unsupported_topology_is_rejected() {
    let mut doc = empty_doc();
    doc.scenes = vec![SceneDesc { nodes: vec![0] }];
    doc.nodes = vec![mesh_node(Some(0), vec![])];
    doc.meshes = vec![MeshDesc {
        primitives: vec![PrimitiveDesc {
            mode: PrimitiveMode::Lines,
            attributes: vec![(Semantic::Positions, 0)],
            indices: None,
            material: None,
        }],
    }];
    doc.accessors = vec![float_accessor(3)];

    let mut loader = loader_with_positions();
    let mut system = RenderSystem::new();
    let e = system.load_scene(&doc, 0, &mut loader).unwrap_err();
    assert_eq!(e.kind(), ErrorKind::UnsupportedTopology);
    assert_storage_empty(&system.storage);
}

#[test]
fn out_of_range_attribute_indices_are_rejected() {
    for semantic in [Semantic::TexCoords(2), Semantic::Colors(1)] {
        let mut doc = empty_doc();
        doc.scenes = vec![SceneDesc { nodes: vec![0] }];
        doc.nodes = vec![mesh_node(Some(0), vec![])];
        doc.meshes = vec![MeshDesc {
            primitives: vec![triangles(vec![(Semantic::Positions, 0), (semantic, 0)])],
        }];
        doc.accessors = vec![float_accessor(3)];

        let mut loader = loader_with_positions();
        let mut system = RenderSystem::new();
        let e = system.load_scene(&doc, 0, &mut loader).unwrap_err();
        assert_eq!(e.kind(), ErrorKind::AttributeIndexOutOfRange);
    }
}

#[test]
fn indexed_primitive_takes_count_and_format_from_index_accessor() {
    let mut doc = empty_doc();
    doc.scenes = vec![SceneDesc { nodes: vec![0] }];
    doc.nodes = vec![mesh_node(Some(0), vec![])];
    doc.meshes = vec![MeshDesc {
        primitives: vec![PrimitiveDesc {
            mode: PrimitiveMode::Triangles,
            attributes: vec![(Semantic::Positions, 0)],
            indices: Some(1),
            material: None,
        }],
    }];
    doc.accessors = vec![
        float_accessor(4),
        AccessorDesc {
            count: 3,
            element_size: 2,
            data_type: DataType::U16,
        },
    ];

    let mut loader = MemoryGltfLoader::new();
    loader.insert_accessor(0, vec![0u8; 48]);
    loader.insert_accessor(1, vec![0, 0, 1, 0, 2, 0]);
    let mut system = RenderSystem::new();
    system.load_scene(&doc, 0, &mut loader).unwrap();

    let mesh = &system.storage.mesh_registry[&0];
    let prim = &mesh.primitives[0];
    assert_eq!(prim.count, 3);
    let ib = prim.index_buffer.as_ref().unwrap();
    assert_eq!(ib.format, IndexFormat::Uint16);
    assert_eq!(ib.data, vec![0, 0, 1, 0, 2, 0]);
}

#[test]
fn non_indexed_primitive_takes_count_from_first_attribute() {
    let mut doc = empty_doc();
    doc.scenes = vec![SceneDesc { nodes: vec![0] }];
    doc.nodes = vec![mesh_node(Some(0), vec![])];
    doc.meshes = vec![MeshDesc {
        primitives: vec![triangles(vec![(Semantic::Positions, 0)])],
    }];
    doc.accessors = vec![float_accessor(3)];

    let mut loader = loader_with_positions();
    let mut system = RenderSystem::new();
    system.load_scene(&doc, 0, &mut loader).unwrap();

    let mesh = &system.storage.mesh_registry[&0];
    let prim = &mesh.primitives[0];
    assert_eq!(prim.count, 3);
    assert!(prim.index_buffer.is_none());
    assert_eq!(prim.vertex_buffer.size, 36);
    assert_eq!(prim.vertex_buffer.segments.len(), 1);
    assert_eq!(prim.vertex_buffer.segments[0].offset, 0);
    assert_eq!(prim.vertex_buffer.segments[0].length, 36);
}

#[test]
fn transform_chains_compose_parent_then_child() {
    let parent_transform = Transform {
        translation: [1.0f32.to_bits(), 0, 0],
        rotation: [0, 0, 0, 1.0f32.to_bits()],
        scale: [1.0f32.to_bits(); 3],
    };
    let child_transform = Transform {
        translation: [0, 2.0f32.to_bits(), 0],
        rotation: [0, 0, 0, 1.0f32.to_bits()],
        scale: [1.0f32.to_bits(); 3],
    };

    let mut doc = empty_doc();
    doc.scenes = vec![SceneDesc { nodes: vec![0] }];
    doc.nodes = vec![
        NodeDesc {
            children: vec![1],
            mesh: None,
            camera: None,
            transform: parent_transform,
        },
        NodeDesc {
            children: vec![],
            mesh: Some(0),
            camera: None,
            transform: child_transform,
        },
    ];
    doc.meshes = vec![MeshDesc {
        primitives: vec![triangles(vec![(Semantic::Positions, 0)])],
    }];
    doc.accessors = vec![float_accessor(3)];

    let mut loader = loader_with_positions();
    let mut system = RenderSystem::new();
    system.load_scene(&doc, 0, &mut loader).unwrap();

    let child = &system.storage.node_registry[&1];
    let chain = &child.mesh.as_ref().unwrap().transform_chain;
    assert_eq!(chain.len(), 2);
    assert_eq!(chain[0], parent_transform);
    assert_eq!(chain[1], child_transform);
    assert_eq!(child.local_transform, child_transform);
    assert_eq!(system.storage.node_registry[&0].children, vec![1]);
}

#[test]
fn absent_material_uses_one_shared_default() {
    let mut doc = empty_doc();
    doc.scenes = vec![SceneDesc { nodes: vec![0] }];
    doc.nodes = vec![mesh_node(Some(0), vec![])];
    doc.meshes = vec![MeshDesc {
        primitives: vec![
            triangles(vec![(Semantic::Positions, 0)]),
            triangles(vec![(Semantic::Positions, 0)]),
        ],
    }];
    doc.accessors = vec![float_accessor(3)];

    let mut loader = loader_with_positions();
    let mut system = RenderSystem::new();
    system.load_scene(&doc, 0, &mut loader).unwrap();

    assert!(system.storage.material_registry.is_empty());
    let default = system.storage.default_material.as_ref().unwrap();
    let mesh = &system.storage.mesh_registry[&0];
    assert!(std::rc::Rc::ptr_eq(&mesh.primitives[0].material, default));
    assert!(std::rc::Rc::ptr_eq(&mesh.primitives[1].material, default));
    assert_eq!(default.base_color_factor, [1.0f32.to_bits(); 4]);
    assert_eq!(default.metallic_factor, 1.0f32.to_bits());
    assert_eq!(default.roughness_factor, 1.0f32.to_bits());

    // The default material samples the shared default texture: one white
    // pixel with a nearest-filtering clamped sampler.
    let texture = &default.base_color_texture;
    assert_eq!(texture.format, TextureFormat::Rgba8Unorm);
    assert_eq!(texture.image.dimensions(), (1, 1));
    assert_eq!(texture.image.data(), &vec![255, 255, 255, 255]);
    assert_eq!(texture.sampler.mag_filter, FilterMode::Nearest);
    assert_eq!(texture.sampler.address_mode_u, AddressMode::ClampToEdge);
}

#[test]
fn materials_textures_images_and_samplers_deduplicate_by_index() {
    let mut doc = empty_doc();
    doc.scenes = vec![SceneDesc { nodes: vec![0] }];
    doc.nodes = vec![mesh_node(Some(0), vec![])];
    doc.meshes = vec![MeshDesc {
        primitives: vec![
            PrimitiveDesc {
                mode: PrimitiveMode::Triangles,
                attributes: vec![(Semantic::Positions, 0)],
                indices: None,
                material: Some(0),
            },
            PrimitiveDesc {
                mode: PrimitiveMode::Triangles,
                attributes: vec![(Semantic::Positions, 0)],
                indices: None,
                material: Some(0),
            },
        ],
    }];
    doc.materials = vec![MaterialDesc {
        base_color_factor: [1.0f32.to_bits(); 4],
        metallic_factor: 0.5f32.to_bits(),
        roughness_factor: 0.25f32.to_bits(),
        base_color_texture: Some(0),
        metallic_roughness_texture: Some(0),
    }];
    doc.textures = vec![TextureDesc {
        source: 0,
        sampler: Some(0),
    }];
    doc.samplers = vec![SamplerDesc {
        wrap_s: WrappingMode::MirroredRepeat,
        wrap_t: WrappingMode::ClampToEdge,
        mag_filter: None,
        min_filter: Some(gltf_viewer::asset::MinFilter::NearestMipmapLinear),
    }];
    doc.accessors = vec![float_accessor(3)];
    doc.image_count = 1;

    let mut loader = loader_with_positions();
    loader.insert_image(0, 2, 1, vec![1, 2, 3, 4, 5, 6, 7, 8]);
    let mut system = RenderSystem::new();
    system.load_scene(&doc, 0, &mut loader).unwrap();

    assert_eq!(system.storage.material_registry.len(), 1);
    assert_eq!(system.storage.texture_registry.len(), 1);
    assert_eq!(system.storage.image_registry.len(), 1);
    assert_eq!(system.storage.sampler_registry.len(), 1);
    assert!(system.storage.default_material.is_none());

    let mesh = &system.storage.mesh_registry[&0];
    assert!(std::rc::Rc::ptr_eq(
        &mesh.primitives[0].material,
        &mesh.primitives[1].material
    ));

    let material = &system.storage.material_registry[&0];
    assert_eq!(material.metallic_factor, 0.5f32.to_bits());
    // The first texture request wins the registry entry: the base color
    // texture is uploaded in sRGB.
    assert_eq!(material.base_color_texture.format, TextureFormat::Rgba8UnormSrgb);
    assert!(std::rc::Rc::ptr_eq(
        &material.base_color_texture,
        &material.metallic_roughness_texture
    ));

    let sampler = &system.storage.sampler_registry[&0];
    assert_eq!(sampler.address_mode_u, AddressMode::MirrorRepeat);
    assert_eq!(sampler.address_mode_v, AddressMode::ClampToEdge);
    assert_eq!(sampler.address_mode_w, AddressMode::ClampToEdge);
    assert_eq!(sampler.mag_filter, FilterMode::Linear);
    assert_eq!(sampler.min_filter, FilterMode::Nearest);
    assert_eq!(sampler.mipmap_filter, FilterMode::Linear);

    let image = &system.storage.image_registry[&0];
    assert_eq!(image.dimensions(), (2, 1));
    assert_eq!(image.data(), &vec![1, 2, 3, 4, 5, 6, 7, 8]);
}

#[test]
fn vertex_segments_keep_declaration_order() {
    let mut doc = empty_doc();
    doc.scenes = vec![SceneDesc { nodes: vec![0] }];
    doc.nodes = vec![mesh_node(Some(0), vec![])];
    doc.meshes = vec![MeshDesc {
        primitives: vec![triangles(vec![
            (Semantic::Positions, 0),
            (Semantic::TexCoords(0), 1),
            (Semantic::Normals, 2),
        ])],
    }];
    doc.accessors = vec![
        float_accessor(2),
        AccessorDesc {
            count: 2,
            element_size: 8,
            data_type: DataType::F32,
        },
        float_accessor(2),
    ];

    let mut loader = MemoryGltfLoader::new();
    loader.insert_accessor(0, vec![10u8; 24]);
    loader.insert_accessor(1, vec![20u8; 16]);
    loader.insert_accessor(2, vec![30u8; 24]);
    let mut system = RenderSystem::new();
    system.load_scene(&doc, 0, &mut loader).unwrap();

    let mesh = &system.storage.mesh_registry[&0];
    let vb = &mesh.primitives[0].vertex_buffer;
    assert_eq!(vb.size, 64);
    assert_eq!(vb.segments.len(), 3);
    assert_eq!(vb.segments[0].type_, Semantic::Positions);
    assert_eq!(vb.segments[0].offset, 0);
    assert_eq!(vb.segments[1].type_, Semantic::TexCoords(0));
    assert_eq!(vb.segments[1].offset, 24);
    assert_eq!(vb.segments[2].type_, Semantic::Normals);
    assert_eq!(vb.segments[2].offset, 40);
    let mut expected = vec![10u8; 24];
    expected.extend(vec![20u8; 16]);
    expected.extend(vec![30u8; 24]);
    assert_eq!(vb.data, expected);
}

#[test]
fn material_uniform_bytes_are_factors_little_endian_with_padding() {
    let mut doc = empty_doc();
    doc.scenes = vec![SceneDesc { nodes: vec![0] }];
    doc.nodes = vec![mesh_node(Some(0), vec![])];
    doc.meshes = vec![MeshDesc {
        primitives: vec![triangles(vec![(Semantic::Positions, 0)])],
    }];
    doc.accessors = vec![float_accessor(3)];

    let mut loader = loader_with_positions();
    let mut system = RenderSystem::new();
    system.load_scene(&doc, 0, &mut loader).unwrap();

    let material = system.storage.default_material.as_ref().unwrap();
    let bytes = material.uniform_bytes();
    let one = 1.0f32.to_bits().to_le_bytes();
    let mut expected = Vec::new();
    for _ in 0..6 {
        expected.extend_from_slice(&one);
    }
    expected.extend_from_slice(&[0u8; 8]);
    assert_eq!(bytes, expected);
}

#[test]
fn a_scene_with_no_roots_loads_an_empty_registry() {
    let mut doc = empty_doc();
    doc.scenes = vec![SceneDesc { nodes: vec![] }];
    let mut loader = MemoryGltfLoader::new();
    let mut system = RenderSystem::new();
    system.load_scene(&doc, 0, &mut loader).unwrap();
    assert!(system.storage.node_registry.is_empty());
}
