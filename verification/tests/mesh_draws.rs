use cinder::mesh_draws::{mesh_draws, MeshCounts, MeshDraw};

#[test]
fn draws_start_after_the_meshes_before_them() {
    let meshes = vec![
        MeshCounts { vertex_count: 4, index_count: 6, material_index: Some(2) },
        MeshCounts { vertex_count: 3, index_count: 3, material_index: None },
        MeshCounts { vertex_count: 10, index_count: 24, material_index: Some(0) },
    ];
    let draws = mesh_draws(&meshes);
    assert_eq!(
        draws,
        vec![
            MeshDraw { vertex_buffer_offset: 0, index_buffer_offset: 0, num_indices: 6, image_index: Some(2) },
            MeshDraw { vertex_buffer_offset: 4, index_buffer_offset: 6, num_indices: 3, image_index: None },
            MeshDraw { vertex_buffer_offset: 7, index_buffer_offset: 9, num_indices: 24, image_index: Some(0) },
        ]
    );
    assert!(mesh_draws(&Vec::new()).is_empty());
}
