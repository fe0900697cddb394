//! The drawer's batch: the shape vertices and text placements that wait for the
//! next submission to the GPU.
//!
//! The vertex buffer on the GPU holds [`MAX_VERTICES`] vertices. A shape that would
//! not fit beside the vertices already waiting first hands the whole batch over for
//! submission ([`Pending`]); the application submits it and the shape starts a new
//! batch. Nothing is lost or repeated on the way: what was handed over, followed by
//! what is left, is everything that was drawn, in order.
use vstd::prelude::*;
use crate::geometry::{
    Vertex, PackedColor, triangle_of, rect_of, circle_of, triangle_vertices, rect_vertices,
    circle_vertices,
};

verus! {

/// The number of vertices that the GPU vertex buffer holds.
pub const MAX_VERTICES: usize = 80_000;

/// The vertices that the batch starts out with room for.
pub const INITIAL_CAPACITY: usize = 300;

/// The clip rectangle of one text placement, in pixels.
#[derive(PartialEq, Eq, Structural, Clone, Copy, Debug)]
pub struct TextBounds {
    /// Left edge.
    pub left: i32,
    /// Top edge.
    pub top: i32,
    /// Right edge.
    pub right: i32,
    /// Bottom edge.
    pub bottom: i32,
}

/// Text is clipped to the whole canvas.
pub open spec fn canvas_bounds(width: i32, height: i32) -> TextBounds {
    TextBounds { left: 0, top: 0, right: width, bottom: height }
}

/// The vertices of a submission that was handed over, if any, followed by those
/// still waiting.
pub open spec fn submitted_then_waiting(pending: Option<Pending>, waiting: Seq<Vertex>) -> Seq<Vertex> {
    match pending {
        Some(p) => p.vertex_seq() + waiting,
        None => waiting,
    }
}

/// A batch that was handed over for submission: the vertices to draw, in order, and
/// the text placements to prepare with them.
pub struct Pending {
    vertices: Vec<Vertex>,
    texts: Vec<TextBounds>,
}

impl Pending {
    #[verifier::type_invariant]
    spec fn fits(self) -> bool {
        self.vertices.len() <= MAX_VERTICES
    }

    /// The vertices to draw, in order.
    pub closed spec fn vertex_seq(self) -> Seq<Vertex> {
        self.vertices@
    }

    /// The text placements to prepare, in order.
    pub closed spec fn text_seq(self) -> Seq<TextBounds> {
        self.texts@
    }

    /// The vertices to draw, in order.
    pub fn vertices(&self) -> (vertices: &Vec<Vertex>)
        ensures
            vertices@ == self.vertex_seq(),
            vertices@.len() <= MAX_VERTICES,
    {
        proof {
            use_type_invariant(self);
        }
        &self.vertices
    }

    /// The text placements to prepare, in order.
    pub fn texts(&self) -> (texts: &Vec<TextBounds>)
        ensures
            texts@ == self.text_seq(),
    {
        &self.texts
    }

    /// The number of vertices, as the draw call takes it.
    pub fn vertex_count(&self) -> (count: u32)
        ensures
            count as int == self.vertex_seq().len(),
    {
        proof {
            use_type_invariant(self);
        }
        self.vertices.len() as u32
    }
}

/// The shape vertices and text placements waiting for the next submission.
pub struct Batch {
    vertices: Vec<Vertex>,
    texts: Vec<TextBounds>,
}

impl Batch {
    #[verifier::type_invariant]
    spec fn fits(self) -> bool {
        self.vertices.len() <= MAX_VERTICES
    }

    /// The waiting vertices, in the order they were drawn.
    pub closed spec fn vertex_seq(self) -> Seq<Vertex> {
        self.vertices@
    }

    /// The waiting text placements, in the order they were drawn.
    pub closed spec fn text_seq(self) -> Seq<TextBounds> {
        self.texts@
    }

    /// An empty batch.
    pub fn new() -> (batch: Batch)
        ensures
            batch.vertex_seq() == Seq::<Vertex>::empty(),
            batch.text_seq() == Seq::<TextBounds>::empty(),
    {
        Batch { vertices: Vec::with_capacity(INITIAL_CAPACITY), texts: Vec::new() }
    }

    /// The waiting vertices, in the order they were drawn.
    pub fn vertices(&self) -> (vertices: &Vec<Vertex>)
        ensures
            vertices@ == self.vertex_seq(),
            vertices@.len() <= MAX_VERTICES,
    {
        proof {
            use_type_invariant(self);
        }
        &self.vertices
    }

    /// The waiting text placements, in the order they were drawn.
    pub fn texts(&self) -> (texts: &Vec<TextBounds>)
        ensures
            texts@ == self.text_seq(),
    {
        &self.texts
    }

    /// Hands the whole batch over for submission and leaves it empty. When nothing
    /// waits there is nothing to submit.
    pub fn take_pending(&mut self) -> (pending: Option<Pending>)
        ensures
            final(self).vertex_seq() == Seq::<Vertex>::empty(),
            final(self).text_seq() == Seq::<TextBounds>::empty(),
            pending is None <==> (old(self).vertex_seq().len() == 0 && old(self).text_seq().len() == 0),
            pending matches Some(p) ==> p.vertex_seq() == old(self).vertex_seq()
                && p.text_seq() == old(self).text_seq(),
    {
        proof {
            use_type_invariant(&*self);
        }
        if self.vertices.len() == 0 && self.texts.len() == 0 {
            return None;
        }
        let mut vertices: Vec<Vertex> = Vec::new();
        let mut texts: Vec<TextBounds> = Vec::new();
        std::mem::swap(&mut vertices, &mut self.vertices);
        std::mem::swap(&mut texts, &mut self.texts);
        Some(Pending { vertices, texts })
    }

    /// Drops the waiting shape vertices; waiting text placements stay.
    pub fn clear_shapes(&mut self)
        ensures
            final(self).vertex_seq() == Seq::<Vertex>::empty(),
            final(self).text_seq() == old(self).text_seq(),
    {
        let mut vertices: Vec<Vertex> = Vec::new();
        std::mem::swap(&mut vertices, &mut self.vertices);
    }

    /// Places a text on the canvas: it is clipped to the whole canvas, and it is
    /// drawn with the next submission.
    pub fn add_text(&mut self, canvas_width: i32, canvas_height: i32) -> (bounds: TextBounds)
        ensures
            bounds == canvas_bounds(canvas_width, canvas_height),
            final(self).text_seq() == old(self).text_seq().push(bounds),
            final(self).vertex_seq() == old(self).vertex_seq(),
    {
        proof {
            use_type_invariant(&*self);
        }
        let bounds = TextBounds { left: 0, top: 0, right: canvas_width, bottom: canvas_height };
        let mut texts: Vec<TextBounds> = Vec::new();
        std::mem::swap(&mut texts, &mut self.texts);
        texts.push(bounds);
        self.texts = texts;
        bounds
    }

    /// Appends a shape's vertices, first handing the batch over when they would not
    /// fit beside the waiting ones. Whatever the shape's size (up to the buffer's),
    /// it then fits: the batch either keeps waiting with the shape appended, or it is
    /// handed over in one submission and the shape starts an empty one.
    pub fn append(&mut self, shape: Vec<Vertex>) -> (pending: Option<Pending>)
        requires
            shape@.len() <= MAX_VERTICES,
        ensures
            old(self).vertex_seq().len() + shape@.len() > MAX_VERTICES ==> (pending matches Some(p)
                && p.vertex_seq() == old(self).vertex_seq()
                && p.text_seq() == old(self).text_seq()
                && final(self).vertex_seq() == shape@
                && final(self).text_seq() == Seq::<TextBounds>::empty()),
            old(self).vertex_seq().len() + shape@.len() <= MAX_VERTICES ==> pending is None
                && final(self).vertex_seq() == old(self).vertex_seq() + shape@
                && final(self).text_seq() == old(self).text_seq(),
            submitted_then_waiting(pending, final(self).vertex_seq()) == old(self).vertex_seq() + shape@,
            final(self).vertex_seq().len() <= MAX_VERTICES,
    {
        proof {
            use_type_invariant(&*self);
        }
        let pending = if self.vertices.len() + shape.len() > MAX_VERTICES {
            self.take_pending()
        } else {
            None
        };
        proof {
            use_type_invariant(&*self);
        }
        let mut vertices: Vec<Vertex> = Vec::new();
        std::mem::swap(&mut vertices, &mut self.vertices);
        let ghost before = vertices@;
        let mut i: usize = 0;
        while i < shape.len()
            invariant
                0 <= i <= shape@.len(),
                before.len() + shape@.len() <= MAX_VERTICES,
                vertices@ == before + shape@.subrange(0, i as int),
            decreases shape@.len() - i,
        {
            vertices.push(shape[i]);
            i = i + 1;
            assert(vertices@ =~= before + shape@.subrange(0, i as int));
        }
        assert(shape@.subrange(0, shape@.len() as int) =~= shape@);
        self.vertices = vertices;
        pending
    }

    /// Draws a triangle with corners p1, p2 and p3.
    pub fn push_triangle(&mut self, p1: [i32; 2], p2: [i32; 2], p3: [i32; 2], color: PackedColor) -> (pending: Option<Pending>)
        ensures
            old(self).vertex_seq().len() + 3 > MAX_VERTICES ==> (pending matches Some(p)
                && p.vertex_seq() == old(self).vertex_seq()
                && p.text_seq() == old(self).text_seq()
                && final(self).vertex_seq() == triangle_of(p1, p2, p3, color)
                && final(self).text_seq() == Seq::<TextBounds>::empty()),
            old(self).vertex_seq().len() + 3 <= MAX_VERTICES ==> pending is None
                && final(self).vertex_seq() == old(self).vertex_seq() + triangle_of(p1, p2, p3, color)
                && final(self).text_seq() == old(self).text_seq(),
            submitted_then_waiting(pending, final(self).vertex_seq()) == old(self).vertex_seq() + triangle_of(p1, p2, p3, color),
    {
        let shape = triangle_vertices(p1, p2, p3, color);
        self.append(shape)
    }

    /// Draws the rectangle with top-left corner (x, y), width w and height h.
    pub fn push_rect(&mut self, x: i32, y: i32, w: u32, h: u32, color: PackedColor) -> (pending: Option<Pending>)
        ensures
            old(self).vertex_seq().len() + 6 > MAX_VERTICES ==> (pending matches Some(p)
                && p.vertex_seq() == old(self).vertex_seq()
                && p.text_seq() == old(self).text_seq()
                && final(self).vertex_seq() == rect_of(x, y, w, h, color)
                && final(self).text_seq() == Seq::<TextBounds>::empty()),
            old(self).vertex_seq().len() + 6 <= MAX_VERTICES ==> pending is None
                && final(self).vertex_seq() == old(self).vertex_seq() + rect_of(x, y, w, h, color)
                && final(self).text_seq() == old(self).text_seq(),
            submitted_then_waiting(pending, final(self).vertex_seq()) == old(self).vertex_seq() + rect_of(x, y, w, h, color),
    {
        let shape = rect_vertices(x, y, w, h, color);
        self.append(shape)
    }

    /// Draws the circle of center (cx, cy) and radius r.
    pub fn push_circle(&mut self, cx: i32, cy: i32, r: u32, color: PackedColor) -> (pending: Option<Pending>)
        ensures
            old(self).vertex_seq().len() + 6 > MAX_VERTICES ==> (pending matches Some(p)
                && p.vertex_seq() == old(self).vertex_seq()
                && p.text_seq() == old(self).text_seq()
                && final(self).vertex_seq() == circle_of(cx, cy, r, color)
                && final(self).text_seq() == Seq::<TextBounds>::empty()),
            old(self).vertex_seq().len() + 6 <= MAX_VERTICES ==> pending is None
                && final(self).vertex_seq() == old(self).vertex_seq() + circle_of(cx, cy, r, color)
                && final(self).text_seq() == old(self).text_seq(),
            submitted_then_waiting(pending, final(self).vertex_seq()) == old(self).vertex_seq() + circle_of(cx, cy, r, color),
    {
        let shape = circle_vertices(cx, cy, r, color);
        self.append(shape)
    }
}

} // verus!
