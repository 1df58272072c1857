//! The compact vertex formats of the overlay and the index pattern that
//! splits a quad into two triangles.

use crate::geometry::Point;
use vstd::prelude::*;

verus! {

/// Bytes per [`DebugTextureVertex`]: four 16-bit components.
pub const DEBUG_TEXTURE_VERTEX_SIZE: i32 = 8;

/// Bytes per [`DebugSolidVertex`]: two 16-bit components.
pub const DEBUG_SOLID_VERTEX_SIZE: i32 = 4;

/// The two triangles of a quad whose corners are numbered in winding order:
/// `0, 1, 3` and `1, 2, 3`.
pub open spec fn quad_indices() -> Seq<u32> {
    seq![0u32, 1u32, 3u32, 1u32, 2u32, 3u32]
}

/// The index pattern of a single quad.
pub fn quad_index_pattern() -> (pattern: [u32; 6])
    ensures
        pattern@ == quad_indices(),
{
    let pattern: [u32; 6] = [0, 1, 3, 1, 2, 3];
    assert(pattern@ =~= quad_indices());
    pattern
}

/// The indices that triangulate `quads` consecutive quads: the pattern of a
/// single quad, shifted for each quad by four times its number and narrowed
/// to 32 bits.
pub open spec fn quad_batch_indices(quads: nat) -> Seq<u32> {
    Seq::new(6 * quads, |k: int| (4 * (k / 6) + quad_indices()[k % 6]) as u32)
}

/// A vertex of a flat-colored shape.
#[derive(Clone, Copy, Debug, PartialEq, Eq, Structural)]
pub struct DebugSolidVertex {
    pub position_x: i16,
    pub position_y: i16,
}

/// A vertex of a textured shape: a screen position and the texel shown there.
#[derive(Clone, Copy, Debug, PartialEq, Eq, Structural)]
pub struct DebugTextureVertex {
    pub position_x: i16,
    pub position_y: i16,
    pub tex_coord_x: u16,
    pub tex_coord_y: u16,
}

impl DebugSolidVertex {
    /// The vertex at `position`, each coordinate narrowed to 16 bits.
    pub open spec fn spec_new(position: Point) -> DebugSolidVertex {
        DebugSolidVertex { position_x: position.x as i16, position_y: position.y as i16 }
    }

    /// The vertex at `position`, each coordinate narrowed to 16 bits.
    pub fn new(position: Point) -> (vertex: DebugSolidVertex)
        ensures
            vertex == DebugSolidVertex::spec_new(position),
    {
        DebugSolidVertex {
            position_x: #[verifier::truncate] (position.x as i16),
            position_y: #[verifier::truncate] (position.y as i16),
        }
    }
}

impl DebugTextureVertex {
    /// The vertex at `position` showing the texel at `tex_coord`, each
    /// coordinate narrowed to 16 bits.
    pub open spec fn spec_new(position: Point, tex_coord: Point) -> DebugTextureVertex {
        DebugTextureVertex {
            position_x: position.x as i16,
            position_y: position.y as i16,
            tex_coord_x: tex_coord.x as u16,
            tex_coord_y: tex_coord.y as u16,
        }
    }

    /// The vertex at `position` showing the texel at `tex_coord`, each
    /// coordinate narrowed to 16 bits.
    pub fn new(position: Point, tex_coord: Point) -> (vertex: DebugTextureVertex)
        ensures
            vertex == DebugTextureVertex::spec_new(position, tex_coord),
    {
        DebugTextureVertex {
            position_x: #[verifier::truncate] (position.x as i16),
            position_y: #[verifier::truncate] (position.y as i16),
            tex_coord_x: #[verifier::truncate] (tex_coord.x as u16),
            tex_coord_y: #[verifier::truncate] (tex_coord.y as u16),
        }
    }
}

/// A position within the signed 16-bit range is stored unchanged.
pub proof fn lemma_solid_vertex_exact(position: Point)
    requires
        i16::MIN <= position.x <= i16::MAX,
        i16::MIN <= position.y <= i16::MAX,
    ensures
        DebugSolidVertex::spec_new(position).position_x == position.x,
        DebugSolidVertex::spec_new(position).position_y == position.y,
{
}

/// A position within the signed 16-bit range and a texel within the unsigned
/// 16-bit range are stored unchanged.
pub proof fn lemma_texture_vertex_exact(position: Point, tex_coord: Point)
    requires
        i16::MIN <= position.x <= i16::MAX,
        i16::MIN <= position.y <= i16::MAX,
        0 <= tex_coord.x <= u16::MAX,
        0 <= tex_coord.y <= u16::MAX,
    ensures
        DebugTextureVertex::spec_new(position, tex_coord).position_x == position.x,
        DebugTextureVertex::spec_new(position, tex_coord).position_y == position.y,
        DebugTextureVertex::spec_new(position, tex_coord).tex_coord_x == tex_coord.x,
        DebugTextureVertex::spec_new(position, tex_coord).tex_coord_y == tex_coord.y,
{
}

/// The indices of a batch of quads triangulate each quad by its own four
/// vertices: the indices of quad `q` are `4 * q` plus the single-quad
/// pattern, so every index names a vertex of the batch. This holds as long
/// as the vertex numbers fit in 32 bits.
pub proof fn lemma_quad_batch_indices_valid(quads: nat)
    requires
        4 * quads <= 0x1_0000_0000,
    ensures
        quad_batch_indices(quads).len() == 6 * quads,
        forall|q: int, slot: int|
            0 <= q < quads && 0 <= slot < 6 ==> #[trigger] quad_batch_indices(quads)[6 * q + slot]
                == 4 * q + quad_indices()[slot],
        forall|k: int|
            0 <= k < 6 * quads ==> 4 * (k / 6) <= #[trigger] quad_batch_indices(quads)[k] < 4 * (k
                / 6) + 4,
        forall|k: int| 0 <= k < 6 * quads ==> #[trigger] quad_batch_indices(quads)[k] < 4 * quads,
{
    assert forall|q: int, slot: int| 0 <= q < quads && 0 <= slot < 6 implies #[trigger]
        quad_batch_indices(quads)[6 * q + slot] == 4 * q + quad_indices()[slot] by {
        let k = 6 * q + slot;
        assert(k / 6 == q && k % 6 == slot);
        assert(0 <= quad_indices()[slot] < 4);
    }
    assert forall|k: int| 0 <= k < 6 * quads implies 4 * (k / 6) <= #[trigger] quad_batch_indices(
        quads,
    )[k] < 4 * (k / 6) + 4 by {
        assert(0 <= k % 6 < 6);
        assert(0 <= quad_indices()[k % 6] < 4);
        assert(0 <= k / 6 < quads);
    }
}

} // verus!
