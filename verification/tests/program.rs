use debug_ui::program::{
    DebugSolidProgram, DebugSolidVertexArray, DebugTextureProgram, DebugTextureVertexArray,
    COMPONENT_SIZE,
};

#[test]
fn texture_program_names() {
    let program = DebugTextureProgram::new();
    assert_eq!(program.program, "debug_texture");
    assert_eq!(program.framebuffer_size_uniform, "FramebufferSize");
    assert_eq!(program.texture_size_uniform, "TextureSize");
    assert_eq!(program.texture_uniform, "Texture");
    assert_eq!(program.color_uniform, "Color");
}

#[test]
fn solid_program_names() {
    let program = DebugSolidProgram::new();
    assert_eq!(program.program, "debug_solid");
    assert_eq!(program.framebuffer_size_uniform, "FramebufferSize");
    assert_eq!(program.color_uniform, "Color");
}

#[test]
fn texture_vertex_format() {
    let array = DebugTextureVertexArray::new(&DebugTextureProgram::new());
    assert_eq!(array.position_attr.name, "Position");
    assert_eq!(array.position_attr.size, 2);
    assert_eq!(array.position_attr.stride, 8);
    assert_eq!(array.position_attr.offset, 0);
    assert_eq!(array.tex_coord_attr.name, "TexCoord");
    assert_eq!(array.tex_coord_attr.size, 2);
    assert_eq!(array.tex_coord_attr.stride, 8);
    assert_eq!(array.tex_coord_attr.offset, 4);
}

#[test]
fn solid_vertex_format() {
    let array = DebugSolidVertexArray::new(&DebugSolidProgram::new());
    assert_eq!(array.position_attr.name, "Position");
    assert_eq!(array.position_attr.size, 2);
    assert_eq!(array.position_attr.stride, 4);
    assert_eq!(array.position_attr.offset, 0);
}

#[test]
fn components_are_sixteen_bits_wide() {
    assert_eq!(COMPONENT_SIZE, std::mem::size_of::<u16>());
}
