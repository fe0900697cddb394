//! The vertices that the 2D drawer emits for each shape.
//!
//! Positions are integer pixel coordinates. The renderer turns each [`Coord`] into
//! a float by converting its origin and its offset separately and adding the two,
//! so a coordinate keeps both parts rather than their sum. Colors are carried as the
//! bit patterns of their four float channels and are never looked at here.
use vstd::prelude::*;

verus! {

/// One pixel coordinate: an integer origin plus an integer offset from it.
#[derive(PartialEq, Eq, Structural, Clone, Copy, Debug)]
pub struct Coord {
    /// The point the shape was placed at.
    pub origin: i32,
    /// The distance from that point (a width, a height, or a radius either way).
    pub offset: i64,
}

impl Coord {
    /// The pixel coordinate that this stands for.
    pub open spec fn value(self) -> int {
        self.origin + self.offset
    }
}

/// The bit patterns of the four float channels (red, green, blue, alpha) of a color.
#[derive(PartialEq, Eq, Structural, Clone, Copy, Debug)]
pub struct PackedColor {
    /// Red.
    pub r: u32,
    /// Green.
    pub g: u32,
    /// Blue.
    pub b: u32,
    /// Alpha.
    pub a: u32,
}

/// How the fragment shader fills the triangle that a vertex belongs to.
#[derive(PartialEq, Eq, Structural, Clone, Copy, Debug)]
pub enum Fill {
    /// Every covered pixel takes the color (shape type 0).
    Solid,
    /// Only the pixels inside the unit disc of the shape coordinates are colored (shape type 1).
    Disc,
}

/// One vertex of the shape pipeline.
#[derive(PartialEq, Eq, Structural, Clone, Copy, Debug)]
pub struct Vertex {
    /// Horizontal position.
    pub x: Coord,
    /// Vertical position.
    pub y: Coord,
    /// The color, the same for all vertices of a shape.
    pub color: PackedColor,
    /// Horizontal shape coordinate, in -1..=1.
    pub u: i8,
    /// Vertical shape coordinate, in -1..=1.
    pub v: i8,
    /// How the shape is filled.
    pub fill: Fill,
}

/// One vertex of the image pipeline: a position and a texture coordinate.
#[derive(PartialEq, Eq, Structural, Clone, Copy, Debug)]
pub struct ImageVertex {
    /// Horizontal position.
    pub x: Coord,
    /// Vertical position.
    pub y: Coord,
    /// Horizontal texture coordinate, 0 at the left edge and 1 at the right.
    pub u: u8,
    /// Vertical texture coordinate, 0 at the top edge and 1 at the bottom.
    pub v: u8,
}

/// A quad is drawn as two triangles over its corners, taken in this order:
/// top-left, top-right, bottom-left, then top-right, bottom-right, bottom-left.
/// This is the column (0 = left, 1 = right) of the k-th corner.
pub open spec fn corner_column(k: int) -> int {
    if k == 1 || k == 3 || k == 4 { 1 } else { 0 }
}

/// The row (0 = top, 1 = bottom) of the k-th corner of a quad.
pub open spec fn corner_row(k: int) -> int {
    if k == 2 || k == 4 || k == 5 { 1 } else { 0 }
}

/// A coordinate exactly at an integer point.
pub open spec fn at(p: i32) -> Coord {
    Coord { origin: p, offset: 0 }
}

/// A vertex of a solidly filled shape.
pub open spec fn solid(x: Coord, y: Coord, color: PackedColor) -> Vertex {
    Vertex { x, y, color, u: 0, v: 0, fill: Fill::Solid }
}

/// The three vertices of a triangle, in the order given.
pub open spec fn triangle_of(p1: [i32; 2], p2: [i32; 2], p3: [i32; 2], color: PackedColor) -> Seq<Vertex> {
    seq![
        solid(at(p1@[0]), at(p1@[1]), color),
        solid(at(p2@[0]), at(p2@[1]), color),
        solid(at(p3@[0]), at(p3@[1]), color),
    ]
}

/// The k-th corner of the rectangle with top-left corner (x, y), width w and height h.
pub open spec fn rect_corner(x: i32, y: i32, w: u32, h: u32, color: PackedColor, k: int) -> Vertex {
    solid(
        Coord { origin: x, offset: if corner_column(k) == 1 { w as i64 } else { 0 } },
        Coord { origin: y, offset: if corner_row(k) == 1 { h as i64 } else { 0 } },
        color,
    )
}

/// The six vertices of a filled rectangle.
pub open spec fn rect_of(x: i32, y: i32, w: u32, h: u32, color: PackedColor) -> Seq<Vertex> {
    Seq::new(6, |k: int| rect_corner(x, y, w, h, color, k))
}

/// The k-th corner of the square that bounds the circle of center (cx, cy) and
/// radius r; its shape coordinates are -1 on the left and top sides, 1 on the others.
pub open spec fn circle_corner(cx: i32, cy: i32, r: u32, color: PackedColor, k: int) -> Vertex {
    let u: i8 = if corner_column(k) == 1 { 1i8 } else { -1i8 };
    let v: i8 = if corner_row(k) == 1 { 1i8 } else { -1i8 };
    Vertex {
        x: Coord { origin: cx, offset: (u * r) as i64 },
        y: Coord { origin: cy, offset: (v * r) as i64 },
        color,
        u,
        v,
        fill: Fill::Disc,
    }
}

/// The six vertices of a filled circle: its bounding square, filled as a disc.
pub open spec fn circle_of(cx: i32, cy: i32, r: u32, color: PackedColor) -> Seq<Vertex> {
    Seq::new(6, |k: int| circle_corner(cx, cy, r, color, k))
}

/// The k-th corner of the quad that shows an image at (x, y) with size w by h.
pub open spec fn image_corner(x: i32, y: i32, w: u32, h: u32, k: int) -> ImageVertex {
    ImageVertex {
        x: Coord { origin: x, offset: if corner_column(k) == 1 { w as i64 } else { 0 } },
        y: Coord { origin: y, offset: if corner_row(k) == 1 { h as i64 } else { 0 } },
        u: corner_column(k) as u8,
        v: corner_row(k) as u8,
    }
}

/// The six vertices of an image quad.
pub open spec fn image_quad_of(x: i32, y: i32, w: u32, h: u32) -> Seq<ImageVertex> {
    Seq::new(6, |k: int| image_corner(x, y, w, h, k))
}

/// Twice the signed area of the triangle (a, b, c), with y pointing down the screen.
pub open spec fn doubled_area(ax: int, ay: int, bx: int, by: int, cx: int, cy: int) -> int {
    (bx - ax) * (cy - ay) - (by - ay) * (cx - ax)
}

/// Twice the signed area of the triangle of vertices i, i+1, i+2 of a shape.
pub open spec fn triangle_area(vs: Seq<Vertex>, i: int) -> int {
    doubled_area(
        vs[i].x.value(), vs[i].y.value(),
        vs[i + 1].x.value(), vs[i + 1].y.value(),
        vs[i + 2].x.value(), vs[i + 2].y.value(),
    )
}

/// The vertex of a solidly filled shape at (x, y).
fn solid_vertex(x: Coord, y: Coord, color: PackedColor) -> (vertex: Vertex)
    ensures
        vertex == solid(x, y, color),
{
    Vertex { x, y, color, u: 0, v: 0, fill: Fill::Solid }
}

/// The vertices of a triangle with corners p1, p2 and p3.
pub fn triangle_vertices(p1: [i32; 2], p2: [i32; 2], p3: [i32; 2], color: PackedColor) -> (vertices: Vec<Vertex>)
    ensures
        vertices@ == triangle_of(p1, p2, p3, color),
{
    let mut vertices: Vec<Vertex> = Vec::with_capacity(3);
    vertices.push(solid_vertex(Coord { origin: p1[0], offset: 0 }, Coord { origin: p1[1], offset: 0 }, color));
    vertices.push(solid_vertex(Coord { origin: p2[0], offset: 0 }, Coord { origin: p2[1], offset: 0 }, color));
    vertices.push(solid_vertex(Coord { origin: p3[0], offset: 0 }, Coord { origin: p3[1], offset: 0 }, color));
    assert(vertices@ =~= triangle_of(p1, p2, p3, color));
    vertices
}

/// The vertices of the rectangle with top-left corner (x, y), width w and height h.
pub fn rect_vertices(x: i32, y: i32, w: u32, h: u32, color: PackedColor) -> (vertices: Vec<Vertex>)
    ensures
        vertices@ == rect_of(x, y, w, h, color),
{
    let left = Coord { origin: x, offset: 0 };
    let right = Coord { origin: x, offset: w as i64 };
    let top = Coord { origin: y, offset: 0 };
    let bottom = Coord { origin: y, offset: h as i64 };
    let mut vertices: Vec<Vertex> = Vec::with_capacity(6);
    vertices.push(solid_vertex(left, top, color));
    vertices.push(solid_vertex(right, top, color));
    vertices.push(solid_vertex(left, bottom, color));
    vertices.push(solid_vertex(right, top, color));
    vertices.push(solid_vertex(right, bottom, color));
    vertices.push(solid_vertex(left, bottom, color));
    assert(vertices@ =~= rect_of(x, y, w, h, color));
    vertices
}

/// The vertex of a disc-filled shape at (x, y) with shape coordinates (u, v).
fn disc_vertex(x: Coord, y: Coord, color: PackedColor, u: i8, v: i8) -> (vertex: Vertex)
    ensures
        vertex == (Vertex { x, y, color, u, v, fill: Fill::Disc }),
{
    Vertex { x, y, color, u, v, fill: Fill::Disc }
}

/// The vertices of the circle of center (cx, cy) and radius r.
pub fn circle_vertices(cx: i32, cy: i32, r: u32, color: PackedColor) -> (vertices: Vec<Vertex>)
    ensures
        vertices@ == circle_of(cx, cy, r, color),
{
    let left = Coord { origin: cx, offset: -(r as i64) };
    let right = Coord { origin: cx, offset: r as i64 };
    let top = Coord { origin: cy, offset: -(r as i64) };
    let bottom = Coord { origin: cy, offset: r as i64 };
    let mut vertices: Vec<Vertex> = Vec::with_capacity(6);
    vertices.push(disc_vertex(left, top, color, -1, -1));
    vertices.push(disc_vertex(right, top, color, 1, -1));
    vertices.push(disc_vertex(left, bottom, color, -1, 1));
    vertices.push(disc_vertex(right, top, color, 1, -1));
    vertices.push(disc_vertex(right, bottom, color, 1, 1));
    vertices.push(disc_vertex(left, bottom, color, -1, 1));
    assert(((-1i8) * r) as i64 == -(r as i64));
    assert(((1i8) * r) as i64 == r as i64);
    assert(vertices@ =~= circle_of(cx, cy, r, color));
    vertices
}

/// The six vertices of the quad that shows an image at (x, y) with size w by h.
pub fn image_quad(x: i32, y: i32, w: u32, h: u32) -> (quad: Vec<ImageVertex>)
    ensures
        quad@ == image_quad_of(x, y, w, h),
{
    let left = Coord { origin: x, offset: 0 };
    let right = Coord { origin: x, offset: w as i64 };
    let top = Coord { origin: y, offset: 0 };
    let bottom = Coord { origin: y, offset: h as i64 };
    let mut quad: Vec<ImageVertex> = Vec::with_capacity(6);
    quad.push(ImageVertex { x: left, y: top, u: 0, v: 0 });
    quad.push(ImageVertex { x: right, y: top, u: 1, v: 0 });
    quad.push(ImageVertex { x: left, y: bottom, u: 0, v: 1 });
    quad.push(ImageVertex { x: right, y: top, u: 1, v: 0 });
    quad.push(ImageVertex { x: right, y: bottom, u: 1, v: 1 });
    quad.push(ImageVertex { x: left, y: bottom, u: 0, v: 1 });
    assert(quad@ =~= image_quad_of(x, y, w, h));
    quad
}

/// A rectangle spans from (x, y) to (x + w, y + h): each vertex sits at the origin
/// plus the full width or height, by its corner, and the two triangles have the same
/// orientation and each covers half of the w by h area, on either side of the
/// diagonal from the top-right to the bottom-left corner.
pub proof fn lemma_rect_spans_its_box(x: i32, y: i32, w: u32, h: u32, color: PackedColor)
    ensures
        rect_of(x, y, w, h, color).len() == 6,
        forall|k: int| #![trigger rect_of(x, y, w, h, color)[k]] 0 <= k < 6 ==> {
            &&& rect_of(x, y, w, h, color)[k].x.value() == x + corner_column(k) * w
            &&& rect_of(x, y, w, h, color)[k].y.value() == y + corner_row(k) * h
        },
        triangle_area(rect_of(x, y, w, h, color), 0) == w * h,
        triangle_area(rect_of(x, y, w, h, color), 3) == w * h,
{
    assert(doubled_area(x as int, y as int, x + w, y as int, x as int, y + h) == w * h) by (nonlinear_arith);
    assert(doubled_area(x + w, y as int, x + w, y + h, x as int, y + h) == w * h) by (nonlinear_arith);
}

/// A circle is drawn over its bounding square: each vertex sits at the center plus
/// its shape coordinates times the radius, and the two triangles have the same
/// orientation and each covers half of the square of side 2r.
pub proof fn lemma_circle_shape_coordinates(cx: i32, cy: i32, r: u32, color: PackedColor)
    ensures
        circle_of(cx, cy, r, color).len() == 6,
        forall|k: int| #![trigger circle_of(cx, cy, r, color)[k]] 0 <= k < 6 ==> {
            &&& circle_of(cx, cy, r, color)[k].x.value() == cx + circle_of(cx, cy, r, color)[k].u * r
            &&& circle_of(cx, cy, r, color)[k].y.value() == cy + circle_of(cx, cy, r, color)[k].v * r
            &&& circle_of(cx, cy, r, color)[k].fill == Fill::Disc
        },
        triangle_area(circle_of(cx, cy, r, color), 0) == 4 * r * r,
        triangle_area(circle_of(cx, cy, r, color), 3) == 4 * r * r,
{
    let vs = circle_of(cx, cy, r, color);
    assert(((-1i8) * r) as i64 == -(r as i64));
    assert(((1i8) * r) as i64 == r as i64);
    assert forall|k: int| #![trigger vs[k]] 0 <= k < 6 implies {
        &&& vs[k].x.value() == cx + vs[k].u * r
        &&& vs[k].y.value() == cy + vs[k].v * r
        &&& vs[k].fill == Fill::Disc
    } by {
        if corner_column(k) == 1 {
            assert(vs[k].u * r == r);
        } else {
            assert(vs[k].u * r == -r);
        }
        if corner_row(k) == 1 {
            assert(vs[k].v * r == r);
        } else {
            assert(vs[k].v * r == -r);
        }
    }
    assert(vs[0].x.value() == cx - r && vs[0].y.value() == cy - r);
    assert(vs[1].x.value() == cx + r && vs[1].y.value() == cy - r);
    assert(vs[2].x.value() == cx - r && vs[2].y.value() == cy + r);
    assert(vs[3].x.value() == cx + r && vs[3].y.value() == cy - r);
    assert(vs[4].x.value() == cx + r && vs[4].y.value() == cy + r);
    assert(vs[5].x.value() == cx - r && vs[5].y.value() == cy + r);
    assert(doubled_area(cx - r, cy - r, cx + r, cy - r, cx - r, cy + r) == 4 * r * r) by (nonlinear_arith);
    assert(doubled_area(cx + r, cy - r, cx + r, cy + r, cx - r, cy + r) == 4 * r * r) by (nonlinear_arith);
}

/// An image is stretched over its w by h box: each vertex sits at the origin plus its
/// texture coordinates times the size, so texture corner (0, 0) lands on (x, y) and
/// (1, 1) on (x + w, y + h).
pub proof fn lemma_image_texture_mapping(x: i32, y: i32, w: u32, h: u32)
    ensures
        image_quad_of(x, y, w, h).len() == 6,
        forall|k: int| #![trigger image_quad_of(x, y, w, h)[k]] 0 <= k < 6 ==> {
            &&& image_quad_of(x, y, w, h)[k].x.value() == x + image_quad_of(x, y, w, h)[k].u * w
            &&& image_quad_of(x, y, w, h)[k].y.value() == y + image_quad_of(x, y, w, h)[k].v * h
        },
{
    let q = image_quad_of(x, y, w, h);
    assert forall|k: int| #![trigger q[k]] 0 <= k < 6 implies {
        &&& q[k].x.value() == x + q[k].u * w
        &&& q[k].y.value() == y + q[k].v * h
    } by {
        if corner_column(k) == 1 {
            assert(q[k].u == 1);
        } else {
            assert(q[k].u == 0);
        }
        if corner_row(k) == 1 {
            assert(q[k].v == 1);
        } else {
            assert(q[k].v == 0);
        }
    }
}

/// A triangle's three vertices are the given points, in the given order, each
/// exactly at its point, solidly filled, and each carrying exactly the color it was
/// drawn with.
pub proof fn lemma_triangle_at_its_points(p1: [i32; 2], p2: [i32; 2], p3: [i32; 2], color: PackedColor)
    ensures
        triangle_of(p1, p2, p3, color).len() == 3,
        triangle_of(p1, p2, p3, color)[0].x.value() == p1@[0] && triangle_of(p1, p2, p3, color)[0].y.value() == p1@[1],
        triangle_of(p1, p2, p3, color)[1].x.value() == p2@[0] && triangle_of(p1, p2, p3, color)[1].y.value() == p2@[1],
        triangle_of(p1, p2, p3, color)[2].x.value() == p3@[0] && triangle_of(p1, p2, p3, color)[2].y.value() == p3@[1],
        forall|k: int| #![trigger triangle_of(p1, p2, p3, color)[k]] 0 <= k < 3 ==> {
            &&& triangle_of(p1, p2, p3, color)[k].color == color
            &&& triangle_of(p1, p2, p3, color)[k].fill == Fill::Solid
            &&& triangle_of(p1, p2, p3, color)[k].x.offset == 0
            &&& triangle_of(p1, p2, p3, color)[k].y.offset == 0
        },
{
}

/// Every vertex of a rectangle, a circle or a triangle carries exactly the color the
/// shape was drawn with: no channel is changed, dropped or swapped. Rectangles and
/// triangles are filled solidly with zero shape coordinates, circles as discs.
pub proof fn lemma_shapes_keep_their_color(
    p1: [i32; 2],
    p2: [i32; 2],
    p3: [i32; 2],
    x: i32,
    y: i32,
    w: u32,
    h: u32,
    r: u32,
    color: PackedColor,
)
    ensures
        forall|k: int| #![trigger rect_of(x, y, w, h, color)[k]] 0 <= k < 6 ==> {
            &&& rect_of(x, y, w, h, color)[k].color == color
            &&& rect_of(x, y, w, h, color)[k].fill == Fill::Solid
            &&& rect_of(x, y, w, h, color)[k].u == 0
            &&& rect_of(x, y, w, h, color)[k].v == 0
        },
        forall|k: int| #![trigger circle_of(x, y, r, color)[k]] 0 <= k < 6 ==> {
            &&& circle_of(x, y, r, color)[k].color == color
            &&& circle_of(x, y, r, color)[k].fill == Fill::Disc
        },
        forall|k: int| #![trigger triangle_of(p1, p2, p3, color)[k]] 0 <= k < 3 ==> triangle_of(p1, p2, p3, color)[k].color
            == color,
        rect_of(x, y, w, h, color).len() == 6,
        circle_of(x, y, r, color).len() == 6,
        triangle_of(p1, p2, p3, color).len() == 3,
{
}

/// The corners of a rectangle, circle and image quad come in one fixed order, two
/// triangles sharing the top-right to bottom-left diagonal: top-left, top-right,
/// bottom-left, then top-right, bottom-right, bottom-left. A rectangle spans from
/// (x, y) to (x + w, y + h); a circle's square from (cx - r, cy - r) to
/// (cx + r, cy + r) with shape coordinates -1 on the top and left sides and 1 on the
/// others; an image's texture coordinates are 0 on the top and left sides and 1 on
/// the others.
pub proof fn lemma_quad_corners_in_order(x: i32, y: i32, w: u32, h: u32, r: u32, color: PackedColor)
    ensures
        ({
            let vs = rect_of(x, y, w, h, color);
            &&& vs[0].x.value() == x && vs[0].y.value() == y
            &&& vs[1].x.value() == x + w && vs[1].y.value() == y
            &&& vs[2].x.value() == x && vs[2].y.value() == y + h
            &&& vs[3].x.value() == x + w && vs[3].y.value() == y
            &&& vs[4].x.value() == x + w && vs[4].y.value() == y + h
            &&& vs[5].x.value() == x && vs[5].y.value() == y + h
            &&& forall|k: int| 0 <= k < 6 ==> #[trigger] vs[k].x.origin == x && vs[k].y.origin == y
        }),
        ({
            let vs = circle_of(x, y, r, color);
            &&& vs[0].x.value() == x - r && vs[0].y.value() == y - r && vs[0].u == -1 && vs[0].v == -1
            &&& vs[1].x.value() == x + r && vs[1].y.value() == y - r && vs[1].u == 1 && vs[1].v == -1
            &&& vs[2].x.value() == x - r && vs[2].y.value() == y + r && vs[2].u == -1 && vs[2].v == 1
            &&& vs[3].x.value() == x + r && vs[3].y.value() == y - r && vs[3].u == 1 && vs[3].v == -1
            &&& vs[4].x.value() == x + r && vs[4].y.value() == y + r && vs[4].u == 1 && vs[4].v == 1
            &&& vs[5].x.value() == x - r && vs[5].y.value() == y + r && vs[5].u == -1 && vs[5].v == 1
            &&& forall|k: int| 0 <= k < 6 ==> #[trigger] vs[k].x.origin == x && vs[k].y.origin == y
        }),
        ({
            let q = image_quad_of(x, y, w, h);
            &&& q[0].x.value() == x && q[0].y.value() == y && q[0].u == 0 && q[0].v == 0
            &&& q[1].x.value() == x + w && q[1].y.value() == y && q[1].u == 1 && q[1].v == 0
            &&& q[2].x.value() == x && q[2].y.value() == y + h && q[2].u == 0 && q[2].v == 1
            &&& q[3].x.value() == x + w && q[3].y.value() == y && q[3].u == 1 && q[3].v == 0
            &&& q[4].x.value() == x + w && q[4].y.value() == y + h && q[4].u == 1 && q[4].v == 1
            &&& q[5].x.value() == x && q[5].y.value() == y + h && q[5].u == 0 && q[5].v == 1
            &&& forall|k: int| 0 <= k < 6 ==> #[trigger] q[k].x.origin == x && q[k].y.origin == y
        }),
        rect_of(x, y, w, h, color).len() == 6,
        circle_of(x, y, r, color).len() == 6,
        image_quad_of(x, y, w, h).len() == 6,
{
    lemma_circle_shape_coordinates(x, y, r, color);
    let vs = circle_of(x, y, r, color);
    assert(vs[0].u == -1 && vs[0].v == -1);
    assert(vs[1].u == 1 && vs[1].v == -1);
    assert(vs[2].u == -1 && vs[2].v == 1);
    assert(vs[3].u == 1 && vs[3].v == -1);
    assert(vs[4].u == 1 && vs[4].v == 1);
    assert(vs[5].u == -1 && vs[5].v == 1);
}

} // verus!
