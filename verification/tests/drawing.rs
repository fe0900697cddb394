use real_gpu_app::batch::{Batch, TextBounds, MAX_VERTICES};
use real_gpu_app::geometry::{
    circle_vertices, image_quad, rect_vertices, triangle_vertices, Coord, Fill, ImageVertex,
    PackedColor, Vertex,
};

const RED: PackedColor = PackedColor { r: 0x3F80_0000, g: 0, b: 0, a: 0x3F80_0000 };

fn at(origin: i32) -> Coord {
    Coord { origin, offset: 0 }
}

fn value(c: Coord) -> i64 {
    c.origin as i64 + c.offset
}

fn solid(x: Coord, y: Coord) -> Vertex {
    Vertex { x, y, color: RED, u: 0, v: 0, fill: Fill::Solid }
}

#[test]
fn triangle_keeps_its_corners() {
    let vs = triangle_vertices([1, 2], [30, -4], [5, 60], RED);
    assert_eq!(vs, vec![solid(at(1), at(2)), solid(at(30), at(-4)), solid(at(5), at(60))]);
}

#[test]
fn rect_is_two_triangles_over_its_box() {
    let vs = rect_vertices(10, 20, 30, 40, RED);
    let left = at(10);
    let right = Coord { origin: 10, offset: 30 };
    let top = at(20);
    let bottom = Coord { origin: 20, offset: 40 };
    assert_eq!(
        vs,
        vec![
            solid(left, top),
            solid(right, top),
            solid(left, bottom),
            solid(right, top),
            solid(right, bottom),
            solid(left, bottom),
        ]
    );
    // Both triangles wind the same way and each covers half of the 30 x 40 box.
    for t in [0usize, 3] {
        let (ax, ay) = (value(vs[t].x), value(vs[t].y));
        let (bx, by) = (value(vs[t + 1].x), value(vs[t + 1].y));
        let (cx, cy) = (value(vs[t + 2].x), value(vs[t + 2].y));
        assert_eq!((bx - ax) * (cy - ay) - (by - ay) * (cx - ax), 30 * 40);
    }
}

#[test]
fn rect_extent_beyond_i32() {
    let vs = rect_vertices(i32::MAX, i32::MIN, u32::MAX, u32::MAX, RED);
    assert_eq!(value(vs[4].x), i32::MAX as i64 + u32::MAX as i64);
    assert_eq!(value(vs[4].y), i32::MIN as i64 + u32::MAX as i64);
}

#[test]
fn circle_is_its_bounding_square_as_a_disc() {
    let vs = circle_vertices(100, 50, 7, RED);
    let expected = [(-1i8, -1i8), (1, -1), (-1, 1), (1, -1), (1, 1), (-1, 1)];
    assert_eq!(vs.len(), 6);
    for (v, (u, w)) in vs.iter().zip(expected) {
        assert_eq!((v.u, v.v), (u, w));
        assert_eq!(v.fill, Fill::Disc);
        assert_eq!(v.color, RED);
        assert_eq!(value(v.x), 100 + u as i64 * 7);
        assert_eq!(value(v.y), 50 + w as i64 * 7);
        assert_eq!(v.x.origin, 100);
        assert_eq!(v.y.origin, 50);
    }
}

#[test]
fn image_quad_maps_texture_corners() {
    let q = image_quad(3, 4, 64, 32);
    assert_eq!(
        q,
        vec![
            ImageVertex { x: at(3), y: at(4), u: 0, v: 0 },
            ImageVertex { x: Coord { origin: 3, offset: 64 }, y: at(4), u: 1, v: 0 },
            ImageVertex { x: at(3), y: Coord { origin: 4, offset: 32 }, u: 0, v: 1 },
            ImageVertex { x: Coord { origin: 3, offset: 64 }, y: at(4), u: 1, v: 0 },
            ImageVertex { x: Coord { origin: 3, offset: 64 }, y: Coord { origin: 4, offset: 32 }, u: 1, v: 1 },
            ImageVertex { x: at(3), y: Coord { origin: 4, offset: 32 }, u: 0, v: 1 },
        ]
    );
}

#[test]
fn new_batch_is_empty_and_has_nothing_to_submit() {
    let mut batch = Batch::new();
    assert!(batch.vertices().is_empty());
    assert!(batch.texts().is_empty());
    assert!(batch.take_pending().is_none());
}

#[test]
fn shapes_accumulate_in_order() {
    let mut batch = Batch::new();
    assert!(batch.push_triangle([0, 0], [1, 0], [0, 1], RED).is_none());
    assert!(batch.push_rect(1, 2, 3, 4, RED).is_none());
    assert!(batch.push_circle(5, 6, 7, RED).is_none());
    let mut expected = triangle_vertices([0, 0], [1, 0], [0, 1], RED);
    expected.extend(rect_vertices(1, 2, 3, 4, RED));
    expected.extend(circle_vertices(5, 6, 7, RED));
    assert_eq!(batch.vertices(), &expected);
    let pending = batch.take_pending().expect("something waits");
    assert_eq!(pending.vertices(), &expected);
    assert_eq!(pending.vertex_count(), 15);
    assert!(batch.vertices().is_empty());
}

#[test]
fn full_batch_is_handed_over_before_the_next_shape() {
    let mut batch = Batch::new();
    let bounds = batch.add_text(1920, 1080);
    assert_eq!(bounds, TextBounds { left: 0, top: 0, right: 1920, bottom: 1080 });
    let mut drawn: Vec<Vertex> = Vec::new();
    let mut handed_over: Vec<Vertex> = Vec::new();
    let mut submissions = 0;
    for i in 0..(MAX_VERTICES / 6 + 1) {
        let x = i as i32;
        drawn.extend(rect_vertices(x, 0, 1, 1, RED));
        if let Some(p) = batch.push_rect(x, 0, 1, 1, RED) {
            submissions += 1;
            assert_eq!(p.vertex_count() as usize, MAX_VERTICES - MAX_VERTICES % 6);
            assert_eq!(p.texts(), &vec![bounds]);
            handed_over.extend(p.vertices().iter().copied());
        }
        assert!(batch.vertices().len() <= MAX_VERTICES);
    }
    assert_eq!(submissions, 1);
    assert!(batch.texts().is_empty());
    handed_over.extend(batch.vertices().iter().copied());
    assert_eq!(handed_over, drawn);
}

#[test]
fn triangles_fill_the_buffer_exactly() {
    let mut batch = Batch::new();
    // 80 000 is not a multiple of 3: the last triangle that fits leaves one slot free.
    let fits = MAX_VERTICES / 3;
    for _ in 0..fits {
        assert!(batch.push_triangle([0, 0], [1, 0], [0, 1], RED).is_none());
    }
    assert_eq!(batch.vertices().len(), fits * 3);
    let p = batch.push_triangle([0, 0], [1, 0], [0, 1], RED).expect("buffer full");
    assert_eq!(p.vertex_count() as usize, fits * 3);
    assert_eq!(batch.vertices().len(), 3);
}

#[test]
fn clearing_shapes_keeps_texts() {
    let mut batch = Batch::new();
    batch.push_circle(0, 0, 5, RED);
    batch.add_text(800, 600);
    batch.clear_shapes();
    assert!(batch.vertices().is_empty());
    assert_eq!(batch.texts().len(), 1);
    let p = batch.take_pending().expect("a text waits");
    assert_eq!(p.vertex_count(), 0);
    assert_eq!(p.texts(), &vec![TextBounds { left: 0, top: 0, right: 800, bottom: 600 }]);
    assert!(batch.take_pending().is_none());
}
