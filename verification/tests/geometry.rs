use ember::geometry::{cube_indices, plane_indices, terrain_indices, triangle_indices};

#[test]
fn terrain_of_size_three_has_eight_triangles() {
    let indices = terrain_indices(3);
    assert_eq!(indices.len(), 24);
    assert_eq!(&indices[0..6], &[0, 1, 4, 3, 0, 4]);
    assert_eq!(&indices[6..12], &[1, 2, 5, 4, 1, 5]);
    assert_eq!(&indices[12..18], &[3, 4, 7, 6, 3, 7]);
    assert_eq!(&indices[18..24], &[4, 5, 8, 7, 4, 8]);
}

#[test]
fn terrain_of_size_one_has_no_triangles() {
    assert!(terrain_indices(1).is_empty());
}

#[test]
fn terrain_size_is_taken_modulo_two_to_the_sixteen() {
    assert!(terrain_indices(65537).is_empty());
    assert_eq!(terrain_indices(65538), terrain_indices(2));
    assert_eq!(terrain_indices(2), vec![0, 1, 3, 2, 0, 3]);
}

#[test]
fn largest_terrain_indices_stay_in_range() {
    let indices = terrain_indices(256);
    assert_eq!(indices.len(), 6 * 255 * 255);
    assert_eq!(*indices.iter().max().unwrap(), 65535);
}

#[test]
fn shape_index_buffers() {
    let cube = cube_indices();
    assert_eq!(cube.len(), 36);
    assert_eq!(&cube[0..6], &[4, 5, 7, 7, 6, 4]);
    assert!(cube.iter().all(|&i| i < 8));
    assert_eq!(plane_indices(), vec![0, 1, 3, 2, 0, 3]);
    assert_eq!(triangle_indices(), vec![0, 1, 2]);
}
