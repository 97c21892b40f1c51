use triangle_panel::geometry::mouse_delta_uniform_name;
use triangle_panel::geometry::shader_version_directive;
use triangle_panel::geometry::square_indices;
use triangle_panel::geometry::square_vertices;
use triangle_panel::geometry::zoom_uniform_name;

#[test]
fn vertex_buffer_is_the_four_square_corners() {
    let v = square_vertices();
    assert_eq!(v, vec![-1i8, -1, 1, -1, 1, 1, -1, 1]);
}

#[test]
fn vertex_buffer_as_floats() {
    let v: Vec<f32> = square_vertices().iter().map(|c| *c as f32).collect();
    assert_eq!(v, vec![-1.0f32, -1.0, 1.0, -1.0, 1.0, 1.0, -1.0, 1.0]);
}

#[test]
fn index_buffer_is_two_triangles_sharing_the_diagonal() {
    let idx = square_indices();
    assert_eq!(idx, vec![0u8, 1, 2, 2, 3, 0]);
    // Both triangles name the corners 0 and 2: the shared diagonal.
    assert!(idx[..3].contains(&0) && idx[..3].contains(&2));
    assert!(idx[3..].contains(&0) && idx[3..].contains(&2));
    // Every index names one of the four corners.
    assert!(idx.iter().all(|i| *i < 4));
}

#[test]
fn shader_version_directives() {
    assert_eq!(shader_version_directive(true), "#version 300 es");
    assert_eq!(shader_version_directive(false), "#version 330");
}

#[test]
fn uniform_names() {
    assert_eq!(mouse_delta_uniform_name(), "u_mouse_delta");
    assert_eq!(zoom_uniform_name(), "u_zoom");
}
