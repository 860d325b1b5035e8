use cinder::ui_draw::{MeshCursor, INDEX_BUFFER_SIZE, VERTEX_BUFFER_SIZE};

#[test]
fn meshes_are_packed_one_after_another() {
    let mut c = MeshCursor::new();
    assert!(c.mesh_fits(20 * 10, 4 * 30, VERTEX_BUFFER_SIZE, INDEX_BUFFER_SIZE));
    let first = c.place_mesh(10, 20, 30, 4, VERTEX_BUFFER_SIZE, INDEX_BUFFER_SIZE);
    assert_eq!(first.vertex_dst_offset, 0);
    assert_eq!(first.vertex_copy_size, 200);
    assert_eq!(first.index_copy_size, 120);
    assert_eq!(first.first_index, 0);
    assert_eq!(first.vertex_offset, 0);
    assert_eq!(first.index_count, 30);
    let second = c.place_mesh(5, 20, 6, 4, VERTEX_BUFFER_SIZE, INDEX_BUFFER_SIZE);
    assert_eq!(second.vertex_dst_offset, 200);
    assert_eq!(second.index_dst_offset, 120);
    assert_eq!(second.first_index, 30);
    assert_eq!(second.vertex_offset, 10);
    assert_eq!(c.vertex_base, 15);
    assert_eq!(c.index_base, 36);
}

#[test]
fn a_mesh_that_fills_the_buffer_does_not_fit() {
    let c = MeshCursor::new();
    assert!(!c.mesh_fits(100, 10, 100, 1000));
    assert!(c.mesh_fits(99, 10, 100, 1000));
    assert!(!c.mesh_fits(10, 1000, 100, 1000));
}
