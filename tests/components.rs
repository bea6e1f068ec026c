use ray_marching_scene::aspect::AspectRatio;
use ray_marching_scene::input::{
    process_camera_rotation, process_camera_translation, AxisMove, LocalAxis, LookRotation,
    MouseMotion, MoveKeys,
};
use ray_marching_scene::layout::Vec3Bits;
use ray_marching_scene::quad::{ScreenSpaceQuad, Vec2Bits};

fn keys(forward: bool, back: bool, left: bool, right: bool, up: bool, down: bool) -> MoveKeys {
    MoveKeys { forward, back, left, right, up, down }
}

fn drag(dx: f32, dy: f32) -> MouseMotion {
    MouseMotion { dx: dx.to_bits(), dy: dy.to_bits() }
}

#[test]
fn resize_sets_ratio() {
    let mut a = AspectRatio::new();
    a.on_resize(800, 600);
    assert_eq!((a.width(), a.height()), (800, 600));
    let r = a.width() as f32 / a.height() as f32;
    assert!((r - 1.3333334).abs() < 1e-6);
}

#[test]
fn resize_to_zero_is_ignored() {
    let mut a = AspectRatio::new();
    a.on_resize(800, 600);
    a.on_resize(0, 600);
    assert_eq!((a.width(), a.height()), (800, 600));
    a.on_resize(800, 0);
    assert_eq!((a.width(), a.height()), (800, 600));
    let r = a.width() as f32 / a.height() as f32;
    assert!(r > 0.0 && !r.is_nan());
}

#[test]
fn aspect_defaults_and_comparison() {
    let a = AspectRatio::default();
    assert_eq!((a.width(), a.height()), (1, 1));
    let b = AspectRatio::from_size(1600, 1200).unwrap();
    let mut c = AspectRatio::new();
    c.on_resize(800, 600);
    assert!(b.same_ratio(&c));
    assert!(!b.same_ratio(&a));
    assert!(AspectRatio::from_size(0, 5).is_none());
    assert!(AspectRatio::from_size(u32::MAX, u32::MAX).unwrap().same_ratio(&a));
}

#[test]
fn quad_mesh_layout() {
    let q = ScreenSpaceQuad::new(Vec2Bits { x: 2.0f32.to_bits(), y: 3.0f32.to_bits() });
    let m = q.mesh();
    let pos: Vec<[f32; 3]> = m
        .positions
        .iter()
        .map(|p| [f32::from_bits(p.x), f32::from_bits(p.y), f32::from_bits(p.z)])
        .collect();
    assert_eq!(
        pos,
        vec![[-2.0, -3.0, 0.0], [-2.0, 3.0, 0.0], [2.0, -3.0, 0.0], [2.0, 3.0, 0.0]]
    );
    let n = Vec3Bits::new(0, 0, 1.0f32.to_bits());
    assert_eq!(m.normals, vec![n, n, n, n]);
    let uv: Vec<[f32; 2]> = m.uvs.iter().map(|u| [f32::from_bits(u.x), f32::from_bits(u.y)]).collect();
    assert_eq!(uv, vec![[0.0, 0.0], [0.0, 1.0], [1.0, 0.0], [1.0, 1.0]]);
    assert_eq!(m.indices, vec![0, 2, 1, 2, 3, 1]);
    assert_eq!(m.indices.len() / 3, 2);
}

#[test]
fn default_quad_fills_viewport() {
    let m = ScreenSpaceQuad::default().mesh();
    assert_eq!(f32::from_bits(m.positions[0].x), -1.0);
    assert_eq!(f32::from_bits(m.positions[3].y), 1.0);
    assert_eq!(m.positions.len(), 4);
}

#[test]
fn each_key_moves_along_its_axis() {
    let all = process_camera_translation(&keys(true, true, true, true, true, true));
    assert_eq!(
        all,
        vec![
            AxisMove { axis: LocalAxis::Forward, negative: false },
            AxisMove { axis: LocalAxis::Forward, negative: true },
            AxisMove { axis: LocalAxis::Right, negative: true },
            AxisMove { axis: LocalAxis::Right, negative: false },
            AxisMove { axis: LocalAxis::Up, negative: false },
            AxisMove { axis: LocalAxis::Up, negative: true },
        ]
    );
    assert!(process_camera_translation(&keys(false, false, false, false, false, false)).is_empty());
    assert_eq!(
        process_camera_translation(&keys(false, false, true, false, false, true)),
        vec![
            AxisMove { axis: LocalAxis::Right, negative: true },
            AxisMove { axis: LocalAxis::Up, negative: true },
        ]
    );
}

#[test]
fn look_negates_drag() {
    let r = process_camera_rotation(&vec![drag(3.0, -2.0)], true);
    assert_eq!(r, vec![LookRotation { pitch: 2.0f32.to_bits(), yaw: (-3.0f32).to_bits() }]);
    let pitch = -(-2.0f32) * 0.1 * 0.5;
    assert_eq!(f32::from_bits(r[0].pitch) * 0.1 * 0.5, pitch);
}

#[test]
fn look_without_button_is_dropped() {
    assert!(process_camera_rotation(&vec![drag(3.0, -2.0), drag(1.0, 1.0)], false).is_empty());
}

#[test]
fn zero_drag_leaves_orientation() {
    let r = process_camera_rotation(&vec![drag(0.0, 0.0), drag(-0.0, 0.0), drag(0.0, 1.0)], true);
    assert_eq!(r, vec![LookRotation { pitch: (-1.0f32).to_bits(), yaw: (-0.0f32).to_bits() }]);
}
