use std::cell::Cell;

use render_core::linear_transform::LinearTransform;

#[derive(Clone, Copy, Debug, PartialEq)]
struct Offset {
    x: f32,
    y: f32,
    z: f32,
}

/// Row-vector convention: the translation sits in the last row.
fn translation_matrix(p: &Offset) -> [f32; 16] {
    [
        1.0, 0.0, 0.0, 0.0, //
        0.0, 1.0, 0.0, 0.0, //
        0.0, 0.0, 1.0, 0.0, //
        p.x, p.y, p.z, 1.0,
    ]
}

fn identity() -> LinearTransform<Offset, [f32; 16]> {
    let pose = Offset { x: 0.0, y: 0.0, z: 0.0 };
    LinearTransform::new(pose, &translation_matrix)
}

fn apply(point: [f32; 3], m: &[f32; 16]) -> [f32; 3] {
    let v = [point[0], point[1], point[2], 1.0];
    let mut out = [0.0f32; 3];
    for (c, o) in out.iter_mut().enumerate() {
        *o = (0..4).map(|r| v[r] * m[4 * r + c]).sum();
    }
    out
}

#[test]
fn new_transform_is_clean() {
    let t = identity();
    assert!(!t.needs_update());
    assert_eq!(*t.get_matrix(), translation_matrix(&Offset { x: 0.0, y: 0.0, z: 0.0 }));
}

#[test]
fn set_pose_marks_dirty_and_keeps_stale_matrix() {
    let mut t = identity();
    let before = *t.get_matrix();
    t.set_pose(Offset { x: 1.0, y: 2.0, z: 3.0 });
    assert!(t.needs_update());
    assert_eq!(*t.get_matrix(), before);
    assert_eq!(t.pose().z, 3.0);
}

#[test]
fn translate_then_update_moves_origin() {
    let mut t = identity();
    let p = *t.pose();
    t.set_pose(Offset { x: p.x + 0.0, y: p.y + 0.0, z: p.z - 5.0 });
    t.update_matrix(&translation_matrix);
    assert_eq!(apply([0.0, 0.0, 0.0], t.get_matrix()), [0.0, 0.0, -5.0]);
}

#[test]
fn update_matrix_twice_is_idempotent() {
    let calls = Cell::new(0u32);
    let compose = |p: &Offset| {
        calls.set(calls.get() + 1);
        translation_matrix(p)
    };
    let mut t = identity();
    t.set_pose(Offset { x: 0.25, y: -1.0, z: 7.0 });
    t.update_matrix(&compose);
    let first = *t.get_matrix();
    assert!(!t.needs_update());
    t.update_matrix(&compose);
    let second = *t.get_matrix();
    assert!(!t.needs_update());
    assert_eq!(calls.get(), 1);
    for i in 0..16 {
        assert_eq!(first[i].to_bits(), second[i].to_bits());
    }
}

#[test]
fn clean_update_does_not_compose() {
    let calls = Cell::new(0u32);
    let mut t = identity();
    t.update_matrix(&|p: &Offset| {
        calls.set(calls.get() + 1);
        translation_matrix(p)
    });
    assert_eq!(calls.get(), 0);
}
