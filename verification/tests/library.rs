use glscene::events::{should_close, Key, KeyState, WindowEvent};
use glscene::rendering::{Semantics, Vertex};
use glscene::shapes::{cube, quad, triangle, Mode};
use glscene::utils::{convert_mat4, Mat4, Vec4};

#[test]
fn semantics_names() {
    assert_eq!(Semantics::Position.name(), "position");
    assert_eq!(Semantics::Normal.name(), "normal");
    assert_eq!(Semantics::TexCoord.name(), "tex_coord");
}

#[test]
fn semantics_indices() {
    assert_eq!(Semantics::Position.index_of(), 0);
    assert_eq!(Semantics::Normal.index_of(), 1);
    assert_eq!(Semantics::TexCoord.index_of(), 2);
}

#[test]
fn semantics_components() {
    assert_eq!(Semantics::Position.components(), 3);
    assert_eq!(Semantics::Normal.components(), 3);
    assert_eq!(Semantics::TexCoord.components(), 2);
}

#[test]
fn vertex_from_keeps_attributes() {
    let v = Vertex::from((4, 5, 6), (7, 8, 9), (1, 0));
    assert_eq!(v.pos, (4, 5, 6));
    assert_eq!(v.normal, (7, 8, 9));
    assert_eq!(v.tex_coord, (1, 0));
}

#[test]
fn triangle_mesh() {
    let m = triangle();
    assert_eq!(m.mode, Mode::Triangle);
    assert_eq!(m.vertices.len(), 3);
    assert_eq!(m.vertices[0], Vertex::from((0, 1, 0), (230, 30, 30), (0, 0)));
    assert_eq!(m.vertices[1], Vertex::from((1, -1, 0), (30, 230, 30), (0, 0)));
    assert_eq!(m.vertices[2], Vertex::from((-1, -1, 0), (30, 30, 230), (0, 0)));
}

#[test]
fn quad_mesh() {
    let m = quad();
    assert_eq!(m.mode, Mode::TriangleFan);
    assert_eq!(m.vertices.len(), 4);
    assert_eq!(m.vertices[0], Vertex::from((-1, -1, 0), (255, 0, 0), (0, 0)));
    assert_eq!(m.vertices[1], Vertex::from((1, -1, 0), (0, 255, 0), (1, 0)));
    assert_eq!(m.vertices[2], Vertex::from((1, 1, 0), (255, 255, 0), (1, 1)));
    assert_eq!(m.vertices[3], Vertex::from((-1, 1, 0), (30, 30, 255), (0, 1)));
}

#[test]
fn cube_mesh_has_twelve_triangles() {
    let m = cube();
    assert_eq!(m.mode, Mode::Triangle);
    assert_eq!(m.vertices.len(), 36);
    assert_eq!(
        m.vertices[0],
        Vertex::from((-1, -1, -1), (0, 0, 0), (0, 0))
    );
    assert_eq!(
        m.vertices[35],
        Vertex::from((-1, 1, -1), (0, 0, 0), (0, 1))
    );
}

#[test]
fn cube_mesh_vertices_sit_on_unit_corners() {
    let m = cube();
    for v in &m.vertices {
        assert!(v.pos.0 == -1 || v.pos.0 == 1);
        assert!(v.pos.1 == -1 || v.pos.1 == 1);
        assert!(v.pos.2 == -1 || v.pos.2 == 1);
        assert_eq!(v.normal, (0, 0, 0));
        assert!(v.tex_coord.0 == 0 || v.tex_coord.0 == 1);
        assert!(v.tex_coord.1 == 0 || v.tex_coord.1 == 1);
    }
}

#[test]
fn cube_mesh_faces_are_flat() {
    // Faces come in groups of six vertices; each group shares a fixed
    // coordinate: z for the first two faces, x for the next two, y for
    // the last two, at -1 for even faces and 1 for odd ones.
    let m = cube();
    for f in 0..6 {
        let sign = if f % 2 == 0 { -1 } else { 1 };
        for i in 0..6 {
            let p = m.vertices[6 * f + i].pos;
            let fixed = match f {
                0 | 1 => p.2,
                2 | 3 => p.0,
                _ => p.1,
            };
            assert_eq!(fixed, sign);
        }
    }
}

#[test]
fn convert_mat4_scales_rotation_entries() {
    let m = Mat4 {
        cols: [
            Vec4 { x: 1, y: 2, z: 3, w: 4 },
            Vec4 { x: 5, y: 6, z: 7, w: 8 },
            Vec4 { x: 9, y: 10, z: 11, w: 12 },
            Vec4 { x: 13, y: 14, z: 15, w: 16 },
        ],
    };
    let r = convert_mat4(&m, 2);
    assert_eq!(r[0], [2, 4, 3, 4]);
    assert_eq!(r[1], [10, 12, 7, 8]);
    assert_eq!(r[2], [9, 10, 22, 12]);
    assert_eq!(r[3], [13, 14, 15, 16]);
}

#[test]
fn convert_mat4_scale_one_copies_entries() {
    let m = Mat4 {
        cols: [
            Vec4 { x: 1, y: 0, z: 0, w: 0 },
            Vec4 { x: 0, y: 1, z: 0, w: 0 },
            Vec4 { x: 0, y: 0, z: 1, w: 0 },
            Vec4 { x: 7, y: -3, z: 9, w: 1 },
        ],
    };
    let r = convert_mat4(&m, 1);
    assert_eq!(r[0], [1, 0, 0, 0]);
    assert_eq!(r[1], [0, 1, 0, 0]);
    assert_eq!(r[2], [0, 0, 1, 0]);
    assert_eq!(r[3], [7, -3, 9, 1]);
}

#[test]
fn convert_mat4_negative_scale() {
    let m = Mat4 {
        cols: [
            Vec4 { x: 2, y: -1, z: 5, w: 0 },
            Vec4 { x: 3, y: 4, z: 6, w: 0 },
            Vec4 { x: 1, y: 1, z: -2, w: 0 },
            Vec4 { x: 0, y: 0, z: 0, w: 1 },
        ],
    };
    let r = convert_mat4(&m, -3);
    assert_eq!(r[0], [-6, 3, 5, 0]);
    assert_eq!(r[1], [-9, -12, 6, 0]);
    assert_eq!(r[2], [1, 1, 6, 0]);
    assert_eq!(r[3], [0, 0, 0, 1]);
}

#[test]
fn close_on_close_request() {
    assert!(should_close(&WindowEvent::CloseRequested));
}

#[test]
fn close_on_destroyed() {
    assert!(should_close(&WindowEvent::Destroyed));
}

#[test]
fn close_on_escape_release() {
    let e = WindowEvent::KeyboardInput { state: KeyState::Released, key: Some(Key::Escape) };
    assert!(should_close(&e));
}

#[test]
fn no_close_on_escape_press() {
    let e = WindowEvent::KeyboardInput { state: KeyState::Pressed, key: Some(Key::Escape) };
    assert!(!should_close(&e));
}

#[test]
fn no_close_on_other_key_release() {
    let e = WindowEvent::KeyboardInput { state: KeyState::Released, key: Some(Key::Other) };
    assert!(!should_close(&e));
    let e = WindowEvent::KeyboardInput { state: KeyState::Released, key: None };
    assert!(!should_close(&e));
}

#[test]
fn no_close_on_other_events() {
    assert!(!should_close(&WindowEvent::Other));
}
