//! Single-line text layout: a string and a font become one textured quad per
//! character, laid out left to right from a starting cursor.

use crate::batch::{push_textured_quad, textured_quad};
use crate::font::{DebugCharacter, DebugFont};
use crate::geometry::{Point, Rect};
use crate::vertex::{
    lemma_quad_batch_indices_valid, quad_batch_indices, quad_index_pattern, quad_indices,
    DebugTextureVertex,
};
use vstd::prelude::*;

verus! {

/// The total advance of `text`: the sum, over its characters, of the advance
/// of the glyph drawn for each.
pub open spec fn advance_sum(font: &DebugFont, text: Seq<char>) -> int
    decreases text.len(),
{
    if text.len() == 0 {
        0
    } else {
        advance_sum(font, text.drop_last()) + font.resolve(text.last()).advance
    }
}

/// Where on screen a glyph is drawn when the cursor stands at
/// `(cursor_x, cursor_y)`: its upper-left corner is the cursor moved back by
/// the glyph's origin offset, narrowed to 32 bits, and its extent is the
/// glyph's.
pub open spec fn glyph_position_rect(info: DebugCharacter, cursor_x: int, cursor_y: int) -> Rect {
    Rect::spec_new(
        Point::narrowed(cursor_x - info.origin_x, cursor_y - info.origin_y),
        Point { x: info.width, y: info.height },
    )
}

/// Where in the atlas a glyph's image lies.
pub open spec fn glyph_tex_coord_rect(info: DebugCharacter) -> Rect {
    Rect::spec_new(Point { x: info.x, y: info.y }, Point { x: info.width, y: info.height })
}

/// The four vertices of a glyph drawn with the cursor at
/// `(cursor_x, cursor_y)`: the corners of its screen rectangle, in winding order, each paired with the
/// matching corner of its atlas rectangle.
pub open spec fn glyph_vertices(info: DebugCharacter, cursor_x: int, cursor_y: int) -> Seq<
    DebugTextureVertex,
> {
    textured_quad(glyph_position_rect(info, cursor_x, cursor_y), glyph_tex_coord_rect(info))
}

/// The horizontal cursor position before the character at `index` of `text`
/// when layout starts at `origin_x`.
pub open spec fn cursor_x_at(font: &DebugFont, text: Seq<char>, origin_x: int, index: int) -> int {
    origin_x + advance_sum(font, text.take(index))
}

/// The vertices of `text` laid out from `origin`: four per character, in
/// reading order.
pub open spec fn text_vertices(font: &DebugFont, text: Seq<char>, origin: Point) -> Seq<
    DebugTextureVertex,
> {
    Seq::new(
        4 * text.len(),
        |k: int|
            glyph_vertices(
                font.resolve(text[k / 4]),
                cursor_x_at(font, text, origin.x as int, k / 4),
                origin.y as int,
            )[k % 4],
    )
}

/// Where the cursor stands after all of `text`, narrowed to 32 bits.
pub open spec fn end_cursor_x(font: &DebugFont, text: Seq<char>, origin: Point) -> i32 {
    (origin.x + advance_sum(font, text)) as i32
}

/// The width of `text`, narrowed to 32 bits.
pub open spec fn measured_width(font: &DebugFont, text: Seq<char>) -> i32 {
    advance_sum(font, text) as i32
}

/// What laying out a text yields.
pub struct TextLayout {
    /// Four vertices per character.
    pub vertices: Vec<DebugTextureVertex>,
    /// Six indices per character.
    pub indices: Vec<u32>,
    /// The horizontal cursor position after the last character.
    pub end_x: i32,
}

/// The total advance of a text grows by one glyph's advance per character.
proof fn lemma_advance_sum_step(font: &DebugFont, text: Seq<char>, index: int)
    requires
        0 <= index < text.len(),
    ensures
        advance_sum(font, text.take(index + 1)) == advance_sum(font, text.take(index))
            + font.resolve(text[index]).advance,
{
    assert(text.take(index + 1).drop_last() =~= text.take(index));
}

/// Lays `text` out on a single line, starting with the cursor at `origin`.
///
/// Every character yields one quad, also where the font draws the fallback
/// glyph for it. The cursor moves right by each glyph's advance and never
/// changes line. As long as the vertices can be numbered in 32 bits, every
/// index names a vertex of the result.
pub fn layout(text: &str, origin: Point, font: &DebugFont) -> (result: TextLayout)
    ensures
        result.vertices@ == text_vertices(font, text@, origin),
        result.indices@ == quad_batch_indices(text@.len()),
        result.end_x == end_cursor_x(font, text@, origin),
        result.vertices@.len() == 4 * text@.len(),
        result.indices@.len() == 6 * text@.len(),
        4 * text@.len() <= 0x1_0000_0000 ==> forall|k: int|
            0 <= k < result.indices@.len() ==> result.indices@[k] < result.vertices@.len(),
{
    let pattern = quad_index_pattern();
    let mut vertices: Vec<DebugTextureVertex> = Vec::new();
    let mut indices: Vec<u32> = Vec::new();
    let mut advanced: i128 = 0;
    for character in chars: text.chars()
        invariant
            chars.seq() == text@,
            pattern@ == quad_indices(),
            vertices.len() == 4 * chars.index(),
            indices.len() == 6 * chars.index(),
            advanced == advance_sum(font, text@.take(chars.index() as int)),
            -0x8000_0000 * chars.index() <= advanced <= 0x8000_0000 * chars.index(),
            forall|k: int|
                0 <= k < vertices@.len() ==> vertices@[k] == text_vertices(font, text@, origin)[k],
            forall|k: int|
                0 <= k < indices@.len() ==> indices@[k] == quad_batch_indices(text@.len())[k],
    {
        let ghost index = chars.index() as int;
        let info = font.glyph(character);
        let cursor_x: i128 = origin.x as i128 + advanced;
        let left: i128 = cursor_x - info.origin_x as i128;
        let top: i64 = origin.y as i64 - info.origin_y as i64;
        let position_rect = Rect::new(
            Point::new(#[verifier::truncate] (left as i32), #[verifier::truncate] (top as i32)),
            Point::new(info.width, info.height),
        );
        let tex_coord_rect = Rect::new(
            Point::new(info.x, info.y),
            Point::new(info.width, info.height),
        );
        proof {
            assert(position_rect == glyph_position_rect(
                info,
                cursor_x_at(font, text@, origin.x as int, index),
                origin.y as int,
            ));
            assert(tex_coord_rect == glyph_tex_coord_rect(info));
        }
        let first_vertex_index: usize = vertices.len();
        push_textured_quad(&mut vertices, position_rect, tex_coord_rect);
        for slot in 0..6usize
            invariant
                pattern@ == quad_indices(),
                first_vertex_index == 4 * index,
                0 <= index < text@.len(),
                indices.len() == 6 * index + slot,
                forall|k: int|
                    0 <= k < indices@.len() ==> indices@[k] == quad_batch_indices(
                        text@.len(),
                    )[k],
        {
            let shifted: u128 = first_vertex_index as u128 + pattern[slot] as u128;
            indices.push(#[verifier::truncate] (shifted as u32));
        }
        proof {
            lemma_advance_sum_step(font, text@, index);
        }
        advanced = advanced + info.advance as i128;
    }
    proof {
        assert(text@.take(text@.len() as int) =~= text@);
        assert(vertices@ =~= text_vertices(font, text@, origin));
        assert(indices@ =~= quad_batch_indices(text@.len()));
        if 4 * text@.len() <= 0x1_0000_0000 {
            lemma_quad_batch_indices_valid(text@.len());
        }
    }
    let end: i128 = origin.x as i128 + advanced;
    TextLayout { vertices, indices, end_x: #[verifier::truncate] (end as i32) }
}

/// Measures the width of `text`: how far layout would move the cursor.
///
/// An empty text has width zero, and a text whose total advance fits in 32
/// bits has exactly that width.
pub fn measure(text: &str, font: &DebugFont) -> (width: i32)
    ensures
        width == measured_width(font, text@),
        text@.len() == 0 ==> width == 0,
        i32::MIN <= advance_sum(font, text@) <= i32::MAX ==> width == advance_sum(font, text@),
{
    let char_count: usize = text.unicode_len();
    let mut advanced: i128 = 0;
    for character in chars: text.chars()
        invariant
            chars.seq() == text@,
            char_count == text@.len(),
            advanced == advance_sum(font, text@.take(chars.index() as int)),
            -0x8000_0000 * chars.index() <= advanced <= 0x8000_0000 * chars.index(),
    {
        let info = font.glyph(character);
        proof {
            lemma_advance_sum_step(font, text@, chars.index() as int);
        }
        advanced = advanced + info.advance as i128;
    }
    proof {
        assert(text@.take(text@.len() as int) =~= text@);
    }
    #[verifier::truncate]
    (advanced as i32)
}

/// The empty text has no width, whatever the font.
pub proof fn lemma_measure_empty(font: &DebugFont)
    ensures
        advance_sum(font, Seq::<char>::empty()) == 0,
        measured_width(font, Seq::<char>::empty()) == 0,
{
}

/// A text whose total advance fits in 32 bits measures exactly that total,
/// and laying it out from an origin that leaves the sum in range ends the
/// cursor at the origin plus the measured width.
pub proof fn lemma_measure_exact(font: &DebugFont, text: Seq<char>, origin: Point)
    requires
        i32::MIN <= advance_sum(font, text) <= i32::MAX,
    ensures
        measured_width(font, text) == advance_sum(font, text),
        i32::MIN <= origin.x + advance_sum(font, text) <= i32::MAX ==> end_cursor_x(
            font,
            text,
            origin,
        ) == origin.x + measured_width(font, text),
{
}

/// The width of a text is the sum of the widths of its parts.
pub proof fn lemma_advance_sum_concat(font: &DebugFont, head: Seq<char>, tail: Seq<char>)
    ensures
        advance_sum(font, head + tail) == advance_sum(font, head) + advance_sum(font, tail),
    decreases tail.len(),
{
    if tail.len() == 0 {
        assert(head + tail =~= head);
    } else {
        lemma_advance_sum_concat(font, head, tail.drop_last());
        assert((head + tail).drop_last() =~= head + tail.drop_last());
    }
}

/// A glyph whose screen rectangle fits in signed 16 bits and whose atlas
/// rectangle fits in unsigned 16 bits is drawn exactly where the metrics say:
/// the quad spans from the cursor moved back by the origin offset to that
/// corner plus the glyph's extent, and shows the glyph's atlas rectangle.
pub proof fn lemma_glyph_vertices_exact(info: DebugCharacter, cursor_x: int, cursor_y: int)
    requires
        i16::MIN <= cursor_x - info.origin_x <= i16::MAX,
        i16::MIN <= cursor_y - info.origin_y <= i16::MAX,
        i16::MIN <= cursor_x - info.origin_x + info.width <= i16::MAX,
        i16::MIN <= cursor_y - info.origin_y + info.height <= i16::MAX,
        0 <= info.x <= u16::MAX,
        0 <= info.y <= u16::MAX,
        0 <= info.x + info.width <= u16::MAX,
        0 <= info.y + info.height <= u16::MAX,
    ensures
        glyph_position_rect(info, cursor_x, cursor_y).origin == (Point {
            x: (cursor_x - info.origin_x) as i32,
            y: (cursor_y - info.origin_y) as i32,
        }),
        glyph_position_rect(info, cursor_x, cursor_y).width() == info.width,
        glyph_position_rect(info, cursor_x, cursor_y).height() == info.height,
        forall|k: int|
            0 <= k < 4 ==> {
                let vertex = #[trigger] glyph_vertices(info, cursor_x, cursor_y)[k];
                let right = k == 1 || k == 2;
                let low = k == 2 || k == 3;
                &&& vertex.position_x == cursor_x - info.origin_x + if right {
                    info.width as int
                } else {
                    0
                }
                &&& vertex.position_y == cursor_y - info.origin_y + if low {
                    info.height as int
                } else {
                    0
                }
                &&& vertex.tex_coord_x == info.x + if right {
                    info.width as int
                } else {
                    0
                }
                &&& vertex.tex_coord_y == info.y + if low {
                    info.height as int
                } else {
                    0
                }
            },
{
}

} // verus!
