use render_core::geometry::{ConstructionError, DrawCall, GeometryBuffer, PrimitiveMode};
use render_core::linear_transform::LinearTransform;

type Shape = GeometryBuffer<f32, (), ()>;

fn positions(n: usize) -> Vec<f32> {
    (0..3 * n).map(|i| i as f32).collect()
}

fn colors(n: usize) -> Vec<f32> {
    (0..4 * n).map(|i| 100.0 + i as f32).collect()
}

fn shape(n: usize, indices: Option<Vec<u32>>) -> Shape {
    GeometryBuffer::new(
        PrimitiveMode::Triangles,
        n,
        positions(n),
        colors(n),
        indices,
        LinearTransform::new((), &|_: &()| ()),
        0.0,
    )
    .unwrap()
}

#[test]
fn wrong_position_length_is_refused() {
    let r: Result<Shape, _> = GeometryBuffer::new(
        PrimitiveMode::Triangles,
        3,
        positions(3)[..8].to_vec(),
        colors(3),
        None,
        LinearTransform::new((), &|_: &()| ()),
        0.0,
    );
    assert_eq!(
        r.err(),
        Some(ConstructionError::PositionLength { vertex_count: 3, found: 8 })
    );
}

#[test]
fn wrong_color_length_is_refused() {
    let mut c = colors(2);
    c.push(0.0);
    let r: Result<Shape, _> = GeometryBuffer::new(
        PrimitiveMode::Lines,
        2,
        positions(2),
        c,
        None,
        LinearTransform::new((), &|_: &()| ()),
        0.0,
    );
    assert_eq!(r.err(), Some(ConstructionError::ColorLength { vertex_count: 2, found: 9 }));
}

#[test]
fn position_length_is_checked_before_color_length() {
    let r: Result<Shape, _> = GeometryBuffer::new(
        PrimitiveMode::Points,
        1,
        vec![0.0; 4],
        vec![0.0; 3],
        None,
        LinearTransform::new((), &|_: &()| ()),
        0.0,
    );
    assert_eq!(r.err(), Some(ConstructionError::PositionLength { vertex_count: 1, found: 4 }));
}

#[test]
fn empty_geometry_is_accepted() {
    let mut s = shape(0, None);
    assert_eq!(s.vertex_count(), 0);
    assert!(s.packed().is_empty());
    assert!(s.prepare_for_render(&|_: &()| ()));
    assert!(!s.buffer_needs_update());
}

#[test]
fn new_buffer_is_filled_and_dirty() {
    let s = shape(2, None);
    assert_eq!(*s.packed(), vec![0.0; 14]);
    assert!(s.buffer_needs_update());
    assert!(s.positions().is_dirty());
    assert!(s.colors().is_dirty());
    assert_eq!(s.mode(), PrimitiveMode::Triangles);
}

#[test]
fn first_pack_interleaves_attributes() {
    let mut s = shape(2, None);
    s.pack_attributes();
    assert_eq!(
        *s.packed(),
        vec![
            0.0, 1.0, 2.0, 100.0, 101.0, 102.0, 103.0, //
            3.0, 4.0, 5.0, 104.0, 105.0, 106.0, 107.0,
        ]
    );
}

#[test]
fn pack_clears_both_flags() {
    let mut s = shape(2, None);
    s.pack_attributes();
    assert!(!s.buffer_needs_update());
    assert!(!s.positions().is_dirty());
    assert!(!s.colors().is_dirty());
}

#[test]
fn position_change_leaves_colors_untouched() {
    let mut s = shape(3, None);
    s.pack_attributes();
    s.set_position(4, -9.5);
    assert!(s.buffer_needs_update());
    assert!(!s.colors().is_dirty());
    let before = s.packed().clone();
    s.pack_attributes();
    let after = s.packed();
    for i in 0..after.len() {
        if i % 7 >= 3 {
            assert_eq!(after[i].to_bits(), before[i].to_bits());
        }
    }
    // value 4 of the positions is value 1 of vertex 1
    assert_eq!(after[7 + 1], -9.5);
    assert_eq!(before[7 + 1], 4.0);
}

#[test]
fn color_change_is_packed() {
    let mut s = shape(2, None);
    s.pack_attributes();
    s.set_color(5, 0.25);
    s.pack_attributes();
    // value 5 of the colors is value 1 of vertex 1, in slot 3 + 1
    assert_eq!(s.packed()[7 + 3 + 1], 0.25);
    assert_eq!(s.colors().values()[5], 0.25);
}

#[test]
fn prepare_uploads_only_when_dirty() {
    let mut s = shape(3, None);
    assert!(s.prepare_for_render(&|_: &()| ()));
    assert!(!s.prepare_for_render(&|_: &()| ()));
    s.set_position(0, 1.0);
    assert!(s.prepare_for_render(&|_: &()| ()));
    assert_eq!(s.packed()[0], 1.0);
}

#[test]
fn prepare_recomposes_moved_transform() {
    let mut s: GeometryBuffer<f32, i32, i32> = GeometryBuffer::new(
        PrimitiveMode::Triangles,
        1,
        positions(1),
        colors(1),
        None,
        LinearTransform::new(0, &|p: &i32| p * 10),
        0.0,
    )
    .unwrap();
    s.transform_mut().set_pose(6);
    assert!(s.transform().needs_update());
    s.prepare_for_render(&|p: &i32| p * 10);
    assert_eq!(*s.transform().get_matrix(), 60);
    assert!(!s.transform().needs_update());
}

#[test]
fn draw_call_uses_index_count_or_vertex_count() {
    let indexed = shape(3, Some(vec![0, 1, 2, 2, 1]));
    assert_eq!(
        indexed.draw_call(),
        DrawCall::Elements { mode: PrimitiveMode::Triangles, count: 5 }
    );
    assert_eq!(indexed.indices().as_ref().map(|v| v.len()), Some(5));
    let plain = shape(4, None);
    assert_eq!(plain.draw_call(), DrawCall::Arrays { mode: PrimitiveMode::Triangles, count: 4 });
}
