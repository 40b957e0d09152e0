use pbr_demo::material::ColorBits;
use pbr_demo::model::{
    generate_cube_model, generate_quad_model, generate_sphere_indices, generate_sphere_model,
    load_gltf_model, LoadError, MaterialInput, MeshInput, ModelCache, PrimitiveInput, Shape,
    X_SEGMENTS, Y_SEGMENTS,
};

fn scalar_at(data: &[u8], i: usize) -> f32 {
    f32::from_le_bytes([data[4 * i], data[4 * i + 1], data[4 * i + 2], data[4 * i + 3]])
}

fn index_at(data: &[u8], i: usize) -> u32 {
    u32::from_le_bytes([data[4 * i], data[4 * i + 1], data[4 * i + 2], data[4 * i + 3]])
}

fn sphere_scalars() -> Vec<u32> {
    let pi = std::f32::consts::PI;
    let mut scalars: Vec<u32> = Vec::new();
    for y in 0..=Y_SEGMENTS {
        for x in 0..=X_SEGMENTS {
            let xs = x as f32 / X_SEGMENTS as f32;
            let ys = y as f32 / Y_SEGMENTS as f32;
            let x_pos = (xs * 2.0 * pi).cos() * (ys * pi).sin();
            let y_pos = (ys * pi).cos();
            let z_pos = (xs * 2.0 * pi).sin() * (ys * pi).sin();
            scalars.push(x_pos.to_bits());
            scalars.push(y_pos.to_bits());
            scalars.push(z_pos.to_bits());
        }
    }
    scalars
}

#[test]
fn quad_model_layout() {
    let m = generate_quad_model();
    assert_eq!(m.vertex_buffer.data.len(), 32 * 4);
    assert_eq!(m.index_buffer.data.len(), 6 * 4);
    assert_eq!(m.attributes.len(), 3);
    assert_eq!(m.attributes[0].offset, 0);
    assert_eq!(m.attributes[1].offset, 12);
    assert_eq!(m.attributes[2].offset, 24);
    assert_eq!(m.meshes.len(), 1);
    assert_eq!(m.meshes[0].sub_meshes[0].start_index, 0);
    assert_eq!(m.meshes[0].sub_meshes[0].num_indices, 6);
    assert_eq!(m.meshes[0].sub_meshes[0].material_index, 0);
    assert_eq!(m.materials.len(), 1);
    // first vertex is (-1, 1, 0)
    assert_eq!(scalar_at(&m.vertex_buffer.data, 0), -1.0);
    assert_eq!(scalar_at(&m.vertex_buffer.data, 1), 1.0);
    assert_eq!(scalar_at(&m.vertex_buffer.data, 2), 0.0);
    // normals are all zero
    assert_eq!(scalar_at(&m.vertex_buffer.data, 12), 0.0);
    // first texture coordinate pair is (0, 1)
    assert_eq!(scalar_at(&m.vertex_buffer.data, 24), 0.0);
    assert_eq!(scalar_at(&m.vertex_buffer.data, 25), 1.0);
    assert_eq!(index_at(&m.index_buffer.data, 5), 3);
}

#[test]
fn cube_model_layout() {
    let m = generate_cube_model();
    assert_eq!(m.vertex_buffer.data.len(), 144 * 4);
    assert_eq!(m.index_buffer.data.len(), 36 * 4);
    assert_eq!(m.attributes.len(), 2);
    assert_eq!(m.attributes[1].offset, 72);
    assert_eq!(m.meshes[0].sub_meshes[0].num_indices, 36);
    // first corner (1, 1, 1), its normal (1, 0, 0)
    assert_eq!(scalar_at(&m.vertex_buffer.data, 0), 1.0);
    assert_eq!(scalar_at(&m.vertex_buffer.data, 72), 1.0);
    assert_eq!(scalar_at(&m.vertex_buffer.data, 73), 0.0);
    // last index names the last vertex
    assert_eq!(index_at(&m.index_buffer.data, 35), 23);
}

#[test]
fn sphere_index_count_small_grid() {
    // a 4x4 grid: the two pole rows emit one triangle per cell, the middle
    // rows two, so 12 + 24 + 24 + 12 = 72 entries
    let idx = generate_sphere_indices(4, 4);
    assert_eq!(idx.len(), 72);
    for &k in idx.iter() {
        assert!(k < 25);
    }
    // first cell of row 0 has only its lower triangle
    assert_eq!(&idx[0..3], &[1, 5, 6]);
}

#[test]
fn sphere_index_count_single_row_is_empty() {
    let idx = generate_sphere_indices(1, 4);
    assert_eq!(idx.len(), 0);
}

#[test]
fn sphere_model_counts() {
    let scalars = sphere_scalars();
    assert_eq!(scalars.len(), 3 * 65 * 65);
    let m = generate_sphere_model(scalars.clone());
    // one position/normal pair per grid vertex
    assert_eq!(m.vertex_buffer.data.len(), 2 * scalars.len() * 4);
    // 6*Y*X entries minus the two degenerate pole triangles per column
    let expected = 6 * 64 * 64 - 6 * 64;
    assert_eq!(m.meshes[0].sub_meshes[0].num_indices, expected);
    assert_eq!(m.index_buffer.data.len(), expected * 4);
    assert_eq!(m.attributes[1].offset, scalars.len());
    // the normal block repeats the position block
    assert_eq!(
        &m.vertex_buffer.data[0..12],
        &m.vertex_buffer.data[scalars.len() * 4..scalars.len() * 4 + 12]
    );
}

#[test]
fn model_cache_owns_all_three_shapes() {
    let cache = ModelCache::new(sphere_scalars());
    assert_eq!(cache.shape(&Shape::Quad).meshes[0].sub_meshes[0].num_indices, 6);
    assert_eq!(cache.shape(&Shape::Cube).meshes[0].sub_meshes[0].num_indices, 36);
    assert_eq!(
        cache.shape(&Shape::Sphere).meshes[0].sub_meshes[0].num_indices,
        6 * 64 * 64 - 6 * 64
    );
}

fn full_prim(n_verts: usize, n_idx: usize) -> PrimitiveInput {
    PrimitiveInput {
        positions: Some(vec![0u32; 3 * n_verts]),
        normals: Some(vec![0u32; 3 * n_verts]),
        tex_coords: Some(vec![0u32; 2 * n_verts]),
        indices: Some((0..n_idx as u32).collect()),
        material: MaterialInput {
            color: ColorBits { x: 0, y: 0, z: 0 },
            roughness: 0,
            metallic: 0,
            albedo: None,
            normal: None,
            specular: None,
            emissive: None,
        },
    }
}

#[test]
fn gltf_no_scene_is_rejected() {
    let mut dev = pbr_demo::device::Device::new();
    let r = load_gltf_model(&mut dev, None);
    assert!(matches!(r, Err(LoadError::NoScene)));
}

#[test]
fn gltf_missing_stream_is_rejected_in_order() {
    let mut dev = pbr_demo::device::Device::new();
    let mut p = full_prim(3, 3);
    p.normals = None;
    p.indices = None;
    let r = load_gltf_model(&mut dev, Some(vec![MeshInput { primitives: vec![p] }]));
    assert!(matches!(r, Err(LoadError::MissingNormals)));
}

#[test]
fn gltf_concatenates_primitives() {
    let mut dev = pbr_demo::device::Device::new();
    let nodes = vec![
        MeshInput { primitives: vec![full_prim(4, 6), full_prim(2, 3)] },
        MeshInput { primitives: vec![full_prim(5, 9)] },
    ];
    let m = load_gltf_model(&mut dev, Some(nodes)).unwrap();
    assert_eq!(m.meshes.len(), 2);
    assert_eq!(m.meshes[0].sub_meshes.len(), 2);
    assert_eq!(m.meshes[1].sub_meshes.len(), 1);
    assert_eq!(m.materials.len(), 3);
    // positions 3*(4+2+5), normals the same, uvs 2*(4+2+5)
    assert_eq!(m.attributes[0].offset, 0);
    assert_eq!(m.attributes[1].offset, 33);
    assert_eq!(m.attributes[2].offset, 66);
    assert_eq!(m.vertex_buffer.data.len(), (33 + 33 + 22) * 4);
    assert_eq!(m.index_buffer.data.len(), (6 + 3 + 9) * 4);
    // the sub-mesh table records where each primitive's indices begin
    assert_eq!(m.meshes[0].sub_meshes[0].start_index, 0);
    assert_eq!(m.meshes[0].sub_meshes[1].start_index, 6);
    assert_eq!(m.meshes[1].sub_meshes[0].start_index, 9);
    assert_eq!(m.meshes[1].sub_meshes[0].material_index, 2);
}

#[test]
fn gltf_material_textures_are_created() {
    let mut dev = pbr_demo::device::Device::new();
    let mut p = full_prim(3, 3);
    p.material.albedo = Some(pbr_demo::model::TextureInput {
        pixels: vec![1, 2, 3],
        width: 1,
        height: 1,
    });
    let m = load_gltf_model(&mut dev, Some(vec![MeshInput { primitives: vec![p] }])).unwrap();
    assert!(m.materials[0].albedo_map.is_some());
    assert!(m.materials[0].normal_map.is_none());
    let gens = dev
        .commands
        .iter()
        .filter(|c| matches!(c, pbr_demo::device::Command::GenTexture { .. }))
        .count();
    assert_eq!(gens, 1);
}
