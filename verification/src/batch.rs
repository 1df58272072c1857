//! Batches of quads, ready to be drawn: what the overlay hands to a graphics
//! device in place of drawing by itself.

use crate::geometry::{Color, Rect};
use crate::vertex::{quad_index_pattern, quad_indices, DebugSolidVertex, DebugTextureVertex};
use vstd::prelude::*;

verus! {

/// How a device is to connect the vertices of a batch.
#[derive(Clone, Copy, Debug, PartialEq, Eq, Structural)]
pub enum Primitive {
    /// Every three indices name the corners of a triangle.
    Triangles,
    /// The vertices are joined in order, and the last is joined to the first.
    LineLoop,
    /// The vertices are joined in order, and the last is left open.
    LineStrip,
}

/// Who closes the outline of a rectangle: the device, or the batch.
#[derive(Clone, Copy, Debug, PartialEq, Eq, Structural)]
pub enum OutlineClosure {
    /// The device draws line loops, so four vertices make a closed outline.
    ByDevice,
    /// The device draws open line strips only, so the first vertex is
    /// repeated at the end.
    ByRepeatedVertex,
}

/// A flat-colored shape. The color applies to the whole batch.
pub struct SolidBatch {
    pub vertices: Vec<DebugSolidVertex>,
    /// Empty unless the primitive is [`Primitive::Triangles`].
    pub indices: Vec<u32>,
    pub primitive: Primitive,
    pub color: Color,
}

/// Textured quads, two triangles each. The color tints the whole batch.
pub struct TextureBatch {
    pub vertices: Vec<DebugTextureVertex>,
    pub indices: Vec<u32>,
    pub color: Color,
}

/// The corners of `rect` as vertices, in winding order: origin, upper right,
/// lower right, lower left.
pub open spec fn solid_quad(rect: Rect) -> Seq<DebugSolidVertex> {
    Seq::new(4, |k: int| DebugSolidVertex::spec_new(rect.corners()[k]))
}

/// The corners of `position` as vertices, in winding order, each showing the
/// matching corner of `tex_coord`.
pub open spec fn textured_quad(position: Rect, tex_coord: Rect) -> Seq<DebugTextureVertex> {
    Seq::new(
        4,
        |k: int| DebugTextureVertex::spec_new(position.corners()[k], tex_coord.corners()[k]),
    )
}

/// The vertices of the outline of `rect`: its corners in winding order,
/// followed by the first corner again where the batch itself closes the loop.
pub open spec fn outline_vertices(rect: Rect, closure: OutlineClosure) -> Seq<DebugSolidVertex> {
    match closure {
        OutlineClosure::ByDevice => solid_quad(rect),
        OutlineClosure::ByRepeatedVertex => solid_quad(rect).push(
            DebugSolidVertex::spec_new(rect.origin),
        ),
    }
}

/// The primitive that draws an outline closed as `closure` says.
pub open spec fn outline_primitive(closure: OutlineClosure) -> Primitive {
    match closure {
        OutlineClosure::ByDevice => Primitive::LineLoop,
        OutlineClosure::ByRepeatedVertex => Primitive::LineStrip,
    }
}

/// The vertices of a rectangle wind from its origin through the upper right
/// and the lower right to the lower left. Where the rectangle has positive
/// width and height and its coordinates fit in 16 bits, that is once around
/// it clockwise as seen on screen: right along the top, down the right side,
/// left along the bottom.
pub proof fn lemma_solid_quad_winding(rect: Rect)
    ensures
        solid_quad(rect).len() == 4,
        solid_quad(rect)[0] == DebugSolidVertex::spec_new(rect.origin),
        solid_quad(rect)[1] == DebugSolidVertex::spec_new(rect.spec_upper_right()),
        solid_quad(rect)[2] == DebugSolidVertex::spec_new(rect.lower_right),
        solid_quad(rect)[3] == DebugSolidVertex::spec_new(rect.spec_lower_left()),
        rect.width() > 0 && rect.height() > 0 && i16::MIN <= rect.origin.x && i16::MIN
            <= rect.origin.y && rect.lower_right.x <= i16::MAX && rect.lower_right.y <= i16::MAX
            ==> {
            let quad = solid_quad(rect);
            &&& quad[0].position_x == rect.origin.x && quad[0].position_y == rect.origin.y
            &&& quad[2].position_x == rect.lower_right.x && quad[2].position_y
                == rect.lower_right.y
            &&& quad[0].position_x < quad[1].position_x && quad[0].position_y
                == quad[1].position_y
            &&& quad[1].position_x == quad[2].position_x && quad[1].position_y
                < quad[2].position_y
            &&& quad[3].position_x < quad[2].position_x && quad[3].position_y
                == quad[2].position_y
            &&& quad[3].position_x == quad[0].position_x && quad[0].position_y
                < quad[3].position_y
        },
{
}

/// The corners of `rect` as vertices, in winding order.
fn solid_quad_vertices(rect: Rect) -> (vertices: Vec<DebugSolidVertex>)
    ensures
        vertices@ == solid_quad(rect),
{
    let mut vertices: Vec<DebugSolidVertex> = Vec::new();
    vertices.push(DebugSolidVertex::new(rect.origin()));
    vertices.push(DebugSolidVertex::new(rect.upper_right()));
    vertices.push(DebugSolidVertex::new(rect.lower_right()));
    vertices.push(DebugSolidVertex::new(rect.lower_left()));
    assert(vertices@ =~= solid_quad(rect));
    vertices
}

/// Appends to `vertices` the four vertices of a textured quad.
pub fn push_textured_quad(
    vertices: &mut Vec<DebugTextureVertex>,
    position: Rect,
    tex_coord: Rect,
)
    ensures
        final(vertices)@ == old(vertices)@ + textured_quad(position, tex_coord),
{
    vertices.push(DebugTextureVertex::new(position.origin(), tex_coord.origin()));
    vertices.push(DebugTextureVertex::new(position.upper_right(), tex_coord.upper_right()));
    vertices.push(DebugTextureVertex::new(position.lower_right(), tex_coord.lower_right()));
    vertices.push(DebugTextureVertex::new(position.lower_left(), tex_coord.lower_left()));
    assert(vertices@ =~= old(vertices)@ + textured_quad(position, tex_coord));
}

/// The index pattern of a single quad, as a vector.
pub fn single_quad_indices() -> (indices: Vec<u32>)
    ensures
        indices@ == quad_indices(),
{
    let pattern = quad_index_pattern();
    let mut indices: Vec<u32> = Vec::new();
    for slot in 0..6usize
        invariant
            pattern@ == quad_indices(),
            indices@ == quad_indices().take(slot as int),
    {
        indices.push(pattern[slot]);
        assert(indices@ =~= quad_indices().take(slot + 1));
    }
    assert(quad_indices().take(6) =~= quad_indices());
    indices
}

/// A filled rectangle: its four corners and the two triangles between them.
pub fn filled(rect: Rect, color: Color) -> (batch: SolidBatch)
    ensures
        batch.vertices@ == solid_quad(rect),
        batch.indices@ == quad_indices(),
        batch.primitive == Primitive::Triangles,
        batch.color == color,
{
    SolidBatch {
        vertices: solid_quad_vertices(rect),
        indices: single_quad_indices(),
        primitive: Primitive::Triangles,
        color,
    }
}

/// The outline of a rectangle: four line segments through its corners.
pub fn outline(rect: Rect, color: Color, closure: OutlineClosure) -> (batch: SolidBatch)
    ensures
        batch.vertices@ == outline_vertices(rect, closure),
        batch.indices@ == Seq::<u32>::empty(),
        batch.primitive == outline_primitive(closure),
        batch.color == color,
{
    let mut vertices = solid_quad_vertices(rect);
    let primitive = match closure {
        OutlineClosure::ByDevice => Primitive::LineLoop,
        OutlineClosure::ByRepeatedVertex => {
            vertices.push(DebugSolidVertex::new(rect.origin()));
            Primitive::LineStrip
        },
    };
    SolidBatch { vertices, indices: Vec::new(), primitive, color }
}

/// A single textured quad: `position` on screen showing `tex_coord` of the
/// texture.
pub fn textured(position: Rect, tex_coord: Rect, color: Color) -> (batch: TextureBatch)
    ensures
        batch.vertices@ == textured_quad(position, tex_coord),
        batch.indices@ == quad_indices(),
        batch.color == color,
{
    let mut vertices: Vec<DebugTextureVertex> = Vec::new();
    push_textured_quad(&mut vertices, position, tex_coord);
    assert(vertices@ =~= textured_quad(position, tex_coord));
    TextureBatch { vertices, indices: single_quad_indices(), color }
}

} // verus!
