use gltf_viewer::equirect::{render_cubemap_passes, FaceDirectionUVMappingUniform};

#[test]
fn six_passes_target_six_distinct_layers() {
    let passes = render_cubemap_passes();
    assert_eq!(passes.len(), 6);
    for (i, pass) in passes.iter().enumerate() {
        assert_eq!(pass.face_index as usize, i);
        assert_eq!(pass.base_array_layer as usize, i);
        assert_eq!(pass.vertex_count, 3);
    }
}

#[test]
fn face_bases_are_orthonormal_axis_triples() {
    let one = 1.0f32.to_bits();
    let neg_one = (-1.0f32).to_bits();

    let px = FaceDirectionUVMappingUniform::positive_x();
    assert_eq!(px.direction, [one, 0, 0]);
    assert_eq!(px.u_mapping, [0, 0, one]);
    assert_eq!(px.v_mapping, [0, one, 0]);

    let nx = FaceDirectionUVMappingUniform::negative_x();
    assert_eq!(nx.direction, [neg_one, 0, 0]);
    assert_eq!(nx.u_mapping, [0, 0, neg_one]);

    let py = FaceDirectionUVMappingUniform::positive_y();
    assert_eq!(py.direction, [0, neg_one, 0]);

    let ny = FaceDirectionUVMappingUniform::negative_y();
    assert_eq!(ny.direction, [0, one, 0]);
    assert_eq!(ny.v_mapping, [0, 0, neg_one]);

    let pz = FaceDirectionUVMappingUniform::positive_z();
    assert_eq!(pz.direction, [0, 0, one]);

    let nz = FaceDirectionUVMappingUniform::negative_z();
    assert_eq!(nz.direction, [0, 0, neg_one]);
    assert_eq!(nz.u_mapping, [one, 0, 0]);
}

#[test]
fn basis_uniform_bytes_pad_each_vector_to_sixteen_bytes() {
    let px = FaceDirectionUVMappingUniform::positive_x();
    let bytes = px.uniform_bytes();
    assert_eq!(bytes.len(), 48);

    let one = 1.0f32.to_bits().to_le_bytes();
    // direction (1, 0, 0), padded.
    assert_eq!(&bytes[0..4], &one);
    assert_eq!(&bytes[4..16], &[0u8; 12]);
    // u axis (0, 0, 1), padded.
    assert_eq!(&bytes[16..24], &[0u8; 8]);
    assert_eq!(&bytes[24..28], &one);
    assert_eq!(&bytes[28..32], &[0u8; 4]);
    // v axis (0, 1, 0), padded.
    assert_eq!(&bytes[32..36], &[0u8; 4]);
    assert_eq!(&bytes[36..40], &one);
    assert_eq!(&bytes[40..48], &[0u8; 8]);
}
