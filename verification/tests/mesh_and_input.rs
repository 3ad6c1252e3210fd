use slime_hex::atlas::Point2;
use slime_hex::input::{controls, ControlInput, Pan};
use slime_hex::mesh::{hexagonal_mesh, MeshInfo, MeshTopology, MeshUsage};

fn input() -> ControlInput {
    ControlInput {
        orthographic: true,
        scroll_down: false,
        scroll_up: false,
        key_w: false,
        key_s: false,
        key_a: false,
        key_d: false,
        viewport_size: Some(Point2 { x: 800, y: 600 }),
        window_size: Point2 { x: 800, y: 600 },
    }
}

#[test]
fn mesh_swaps_y_and_z_of_positions_only() {
    let info = MeshInfo {
        vertices: vec![[1.0f32, 2.0, 3.0], [4.0, 5.0, 6.0]],
        normals: vec![[0.0f32, 1.0, 0.0], [0.0, 1.0, 0.0]],
        uvs: vec![[0.5f32, 0.25], [1.0, 0.0]],
        indices: vec![0, 1, 0],
    };
    let mesh = hexagonal_mesh(info);
    assert_eq!(mesh.positions, vec![[1.0, 3.0, 2.0], [4.0, 6.0, 5.0]]);
    assert_eq!(mesh.normals, vec![[0.0, 1.0, 0.0], [0.0, 1.0, 0.0]]);
    assert_eq!(mesh.uvs, vec![[0.5, 0.25], [1.0, 0.0]]);
    assert_eq!(mesh.indices, vec![0, 1, 0]);
    assert_eq!(mesh.topology, MeshTopology::TriangleList);
    assert_eq!(mesh.usage, MeshUsage { main_world: false, render_world: true });
}

#[test]
fn empty_mesh_stays_empty() {
    let info: MeshInfo<f32> = MeshInfo { vertices: vec![], normals: vec![], uvs: vec![], indices: vec![] };
    let mesh = hexagonal_mesh(info);
    assert!(mesh.positions.is_empty() && mesh.indices.is_empty());
}

#[test]
fn keys_pan_in_order() {
    let mut i = input();
    i.key_w = true;
    i.key_s = true;
    i.key_d = true;
    let a = controls(&i);
    assert_eq!(a.pans, vec![Pan::Up, Pan::Down, Pan::Right]);
    assert!(!a.zoom_in && !a.zoom_out);
    assert_eq!(a.resize_viewport, None);
}

#[test]
fn wheel_zooms() {
    let mut i = input();
    i.scroll_down = true;
    let a = controls(&i);
    assert!(a.zoom_out && !a.zoom_in);
    let mut i = input();
    i.scroll_up = true;
    let a = controls(&i);
    assert!(a.zoom_in && !a.zoom_out);
}

#[test]
fn viewport_follows_window() {
    let mut i = input();
    i.window_size = Point2 { x: 1024, y: 600 };
    assert_eq!(controls(&i).resize_viewport, Some(Point2 { x: 1024, y: 600 }));
    i.viewport_size = None;
    assert_eq!(controls(&i).resize_viewport, None);
}

#[test]
fn perspective_camera_is_left_alone() {
    let mut i = input();
    i.orthographic = false;
    i.key_a = true;
    i.scroll_up = true;
    i.window_size = Point2 { x: 1, y: 1 };
    let a = controls(&i);
    assert!(a.pans.is_empty() && !a.zoom_in && !a.zoom_out && a.resize_viewport.is_none());
}
