use cinder::geometry::{cone_indices, cylinder_indices};

#[test]
fn cylinder_with_three_sides() {
    let idx = cylinder_indices(3);
    assert_eq!(idx.len(), 36);
    assert_eq!(&idx[0..9], &[0, 1, 3, 1, 2, 3, 2, 0, 3]);
    assert_eq!(&idx[9..18], &[5, 4, 7, 6, 5, 7, 4, 6, 7]);
    assert_eq!(&idx[18..24], &[0, 4, 1, 1, 4, 5]);
    assert_eq!(&idx[30..36], &[2, 6, 0, 0, 6, 4]);
    assert!(idx.iter().all(|&i| i < 8));
}

#[test]
fn cone_with_four_sides() {
    let idx = cone_indices(4);
    assert_eq!(idx.len(), 24);
    assert_eq!(&idx[0..12], &[0, 1, 4, 1, 2, 4, 2, 3, 4, 3, 0, 4]);
    assert_eq!(&idx[12..24], &[0, 5, 1, 1, 5, 2, 2, 5, 3, 3, 5, 0]);
    assert!(idx.iter().all(|&i| i < 6));
}

#[test]
fn meshes_without_sides_are_empty() {
    assert!(cylinder_indices(0).is_empty());
    assert!(cone_indices(0).is_empty());
}
