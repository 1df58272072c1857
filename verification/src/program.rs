//! What the overlay asks of a graphics device before it can draw: the shader
//! programs and their parameters, by name, and how the vertex formats are laid
//! out in memory.

use crate::vertex::{DEBUG_SOLID_VERTEX_SIZE, DEBUG_TEXTURE_VERTEX_SIZE};
use vstd::prelude::*;

verus! {

/// Bytes per vertex component.
pub const COMPONENT_SIZE: usize = 2;

/// The program that draws textured quads, and its parameters.
pub struct DebugTextureProgram {
    pub program: &'static str,
    pub framebuffer_size_uniform: &'static str,
    pub texture_size_uniform: &'static str,
    pub texture_uniform: &'static str,
    pub color_uniform: &'static str,
}

/// The program that draws flat-colored shapes, and its parameters.
pub struct DebugSolidProgram {
    pub program: &'static str,
    pub framebuffer_size_uniform: &'static str,
    pub color_uniform: &'static str,
}

/// One attribute of a vertex format: consecutive unsigned 16-bit components,
/// handed to the shader as they are.
pub struct VertexAttr {
    pub name: &'static str,
    /// How many components the attribute has.
    pub size: i32,
    /// Bytes from one vertex to the next.
    pub stride: i32,
    /// Bytes from the start of a vertex to the attribute.
    pub offset: usize,
}

/// The format of the vertices of textured quads.
pub struct DebugTextureVertexArray {
    pub position_attr: VertexAttr,
    pub tex_coord_attr: VertexAttr,
}

/// The format of the vertices of flat-colored shapes.
pub struct DebugSolidVertexArray {
    pub position_attr: VertexAttr,
}

impl DebugTextureProgram {
    pub fn new() -> (program: DebugTextureProgram)
        ensures
            program.program@ == "debug_texture"@,
            program.framebuffer_size_uniform@ == "FramebufferSize"@,
            program.texture_size_uniform@ == "TextureSize"@,
            program.texture_uniform@ == "Texture"@,
            program.color_uniform@ == "Color"@,
    {
        DebugTextureProgram {
            program: "debug_texture",
            framebuffer_size_uniform: "FramebufferSize",
            texture_size_uniform: "TextureSize",
            texture_uniform: "Texture",
            color_uniform: "Color",
        }
    }
}

impl DebugSolidProgram {
    pub fn new() -> (program: DebugSolidProgram)
        ensures
            program.program@ == "debug_solid"@,
            program.framebuffer_size_uniform@ == "FramebufferSize"@,
            program.color_uniform@ == "Color"@,
    {
        DebugSolidProgram {
            program: "debug_solid",
            framebuffer_size_uniform: "FramebufferSize",
            color_uniform: "Color",
        }
    }
}

impl DebugTextureVertexArray {
    /// The position comes first, the texture coordinate right behind it, and
    /// together they fill the vertex.
    pub fn new(debug_texture_program: &DebugTextureProgram) -> (array: DebugTextureVertexArray)
        ensures
            array.position_attr.name@ == "Position"@,
            array.position_attr.size == 2,
            array.position_attr.stride == DEBUG_TEXTURE_VERTEX_SIZE,
            array.position_attr.offset == 0,
            array.tex_coord_attr.name@ == "TexCoord"@,
            array.tex_coord_attr.size == 2,
            array.tex_coord_attr.stride == DEBUG_TEXTURE_VERTEX_SIZE,
            array.tex_coord_attr.offset == array.position_attr.size * COMPONENT_SIZE,
            array.tex_coord_attr.offset + array.tex_coord_attr.size * COMPONENT_SIZE
                == DEBUG_TEXTURE_VERTEX_SIZE,
    {
        DebugTextureVertexArray {
            position_attr: VertexAttr {
                name: "Position",
                size: 2,
                stride: DEBUG_TEXTURE_VERTEX_SIZE,
                offset: 0,
            },
            tex_coord_attr: VertexAttr {
                name: "TexCoord",
                size: 2,
                stride: DEBUG_TEXTURE_VERTEX_SIZE,
                offset: 4,
            },
        }
    }
}

impl DebugSolidVertexArray {
    /// The position fills the vertex.
    pub fn new(debug_solid_program: &DebugSolidProgram) -> (array: DebugSolidVertexArray)
        ensures
            array.position_attr.name@ == "Position"@,
            array.position_attr.size == 2,
            array.position_attr.stride == DEBUG_SOLID_VERTEX_SIZE,
            array.position_attr.offset == 0,
            array.position_attr.size * COMPONENT_SIZE == DEBUG_SOLID_VERTEX_SIZE,
    {
        DebugSolidVertexArray {
            position_attr: VertexAttr {
                name: "Position",
                size: 2,
                stride: DEBUG_SOLID_VERTEX_SIZE,
                offset: 0,
            },
        }
    }
}

} // verus!
