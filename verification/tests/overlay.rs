use debug_ui::batch::{Primitive, TextureBatch};
use debug_ui::font::{DebugCharacter, DebugFont};
use debug_ui::geometry::{Color, Point, Rect, Size};
use debug_ui::overlay::{
    text_color, window_color, DebugUI, BUTTON_HEIGHT, BUTTON_TEXT_OFFSET, BUTTON_WIDTH,
    FONT_ASCENT, ICON_SIZE, LINE_HEIGHT, PADDING, PERF_WINDOW_HEIGHT, PERF_WINDOW_WIDTH,
};
use debug_ui::sample_buffer::TimingSample;
use debug_ui::vertex::{DebugSolidVertex, DebugTextureVertex};

const ADVANCE: i32 = 10;

/// A font in which the atlas column of a glyph is its character's code, so
/// that the text of a batch can be read back from its vertices.
fn coded_font() -> DebugFont {
    let mut characters = Vec::new();
    for c in "CPUG: .ms0123456789?".chars() {
        characters.push((
            c,
            DebugCharacter {
                x: c as i32,
                y: 0,
                width: 1,
                height: 1,
                origin_x: 0,
                origin_y: 0,
                advance: ADVANCE,
            },
        ));
    }
    DebugFont::new("coded".to_string(), 28, false, false, 256, 1, characters).unwrap()
}

fn overlay(width: u32, height: u32) -> DebugUI {
    DebugUI::new(&Size::new(width, height), coded_font())
}

fn millis(ms: u64) -> TimingSample {
    TimingSample::new(ms / 1000, ((ms % 1000) * 1_000_000) as u32)
}

fn text_of(batch: &TextureBatch) -> String {
    batch.vertices.chunks(4).map(|quad| quad[0].tex_coord_x as u8 as char).collect()
}

fn solid(x: i16, y: i16) -> DebugSolidVertex {
    DebugSolidVertex { position_x: x, position_y: y }
}

#[test]
fn layout_constants() {
    assert_eq!(PADDING, 12);
    assert_eq!(ICON_SIZE, 48);
    assert_eq!(BUTTON_WIDTH, 72);
    assert_eq!(BUTTON_HEIGHT, 72);
    assert_eq!(BUTTON_TEXT_OFFSET, 48);
    assert_eq!(FONT_ASCENT, 28);
    assert_eq!(LINE_HEIGHT, 42);
    assert_eq!(PERF_WINDOW_WIDTH, 300);
    assert_eq!(PERF_WINDOW_HEIGHT, 98);
}

#[test]
fn overlay_colors() {
    assert_eq!(text_color(false), Color { r: 255, g: 255, b: 255, a: 255 });
    assert_eq!(text_color(true), Color { r: 0, g: 0, b: 0, a: 255 });
    assert_eq!(window_color(), Color { r: 30, g: 30, b: 30, a: 225 });
}

#[test]
fn new_overlay_has_the_given_size_and_no_samples() {
    let ui = overlay(800, 600);
    assert_eq!(ui.framebuffer_size(), Size::new(800, 600));
    assert_eq!(ui.cpu_samples.len(), 0);
    assert_eq!(ui.gpu_samples.len(), 0);
    assert_eq!(ui.font.name(), "coded");
}

#[test]
fn framebuffer_size_can_be_replaced() {
    let mut ui = overlay(800, 600);
    ui.add_sample(millis(4), None);
    ui.set_framebuffer_size(&Size::new(1024, 768));
    assert_eq!(ui.framebuffer_size(), Size::new(1024, 768));
    assert_eq!(ui.cpu_samples.len(), 1);
}

#[test]
fn sample_without_gpu_time_goes_to_the_cpu_window_only() {
    let mut ui = overlay(800, 600);
    ui.add_sample(millis(7), None);
    assert_eq!(ui.cpu_samples.len(), 1);
    assert_eq!(ui.cpu_samples.get(0), Some(millis(7)));
    assert_eq!(ui.gpu_samples.len(), 0);
}

#[test]
fn sample_with_gpu_time_goes_to_both_windows() {
    let mut ui = overlay(800, 600);
    ui.add_sample(millis(7), Some(millis(9)));
    ui.add_sample(millis(8), None);
    ui.add_sample(millis(6), Some(millis(11)));
    assert_eq!(ui.cpu_samples.len(), 3);
    assert_eq!(ui.gpu_samples.len(), 2);
    assert_eq!(ui.cpu_samples.get(2), Some(millis(6)));
    assert_eq!(ui.gpu_samples.get(0), Some(millis(9)));
    assert_eq!(ui.gpu_samples.get(1), Some(millis(11)));
}

#[test]
fn overlay_windows_roll_over_at_capacity() {
    let mut ui = overlay(800, 600);
    for ms in 0..100 {
        ui.add_sample(millis(ms), Some(millis(1000 + ms)));
    }
    assert_eq!(ui.cpu_samples.len(), 60);
    assert_eq!(ui.gpu_samples.len(), 60);
    assert_eq!(ui.cpu_samples.get(0), Some(millis(40)));
    assert_eq!(ui.gpu_samples.get(59), Some(millis(1099)));
}

#[test]
fn solid_rect_is_a_filled_quad() {
    let color = Color { r: 9, g: 8, b: 7, a: 6 };
    let batch = overlay(800, 600).draw_solid_rect(
        Rect::new(Point::new(1, 2), Point::new(3, 4)),
        color,
    );
    assert_eq!(batch.vertices, vec![solid(1, 2), solid(4, 2), solid(4, 6), solid(1, 6)]);
    assert_eq!(batch.indices, vec![0, 1, 3, 1, 2, 3]);
    assert_eq!(batch.primitive, Primitive::Triangles);
    assert_eq!(batch.color, color);
}

#[test]
fn rect_outline_is_a_line_loop_of_four_vertices() {
    let color = Color { r: 9, g: 8, b: 7, a: 6 };
    let batch = overlay(800, 600).draw_rect_outline(
        Rect::new(Point::new(1, 2), Point::new(3, 4)),
        color,
    );
    assert_eq!(batch.vertices, vec![solid(1, 2), solid(4, 2), solid(4, 6), solid(1, 6)]);
    assert!(batch.indices.is_empty());
    assert_eq!(batch.primitive, Primitive::LineLoop);
    assert_eq!(batch.color, color);
}

#[test]
fn text_is_light_unless_inverted() {
    let ui = overlay(800, 600);
    let light = ui.draw_text("CPU", Point::new(0, 0), false);
    let dark = ui.draw_text("CPU", Point::new(0, 0), true);
    assert_eq!(light.color, Color { r: 255, g: 255, b: 255, a: 255 });
    assert_eq!(dark.color, Color { r: 0, g: 0, b: 0, a: 255 });
    assert_eq!(light.vertices, dark.vertices);
    assert_eq!(light.indices, dark.indices);
}

#[test]
fn text_is_laid_out_in_the_overlay_font() {
    let ui = overlay(800, 600);
    let batch = ui.draw_text("GPU: 12", Point::new(50, 60), false);
    assert_eq!(text_of(&batch), "GPU: 12");
    assert_eq!(batch.vertices.len(), 28);
    assert_eq!(batch.indices.len(), 42);
    assert_eq!(
        batch.vertices[4],
        DebugTextureVertex { position_x: 60, position_y: 60, tex_coord_x: 80, tex_coord_y: 0 }
    );
    assert_eq!(batch.indices[6..12], [4, 5, 7, 5, 6, 7]);
}

#[test]
fn measured_text_width() {
    let ui = overlay(800, 600);
    assert_eq!(ui.measure_text(""), 0);
    assert_eq!(ui.measure_text("CPU: 0.000 ms"), 13 * ADVANCE);
    assert_eq!(ui.measure_text("unknown"), 7 * ADVANCE);
}

#[test]
fn texture_is_drawn_unscaled_at_the_origin_given() {
    let color = Color { r: 1, g: 2, b: 3, a: 4 };
    let batch = overlay(800, 600).draw_texture(Point::new(20, 30), Size::new(64, 32), color);
    let at = |x, y, u, v| DebugTextureVertex {
        position_x: x,
        position_y: y,
        tex_coord_x: u,
        tex_coord_y: v,
    };
    assert_eq!(
        batch.vertices,
        vec![at(20, 30, 0, 0), at(84, 30, 64, 0), at(84, 62, 64, 32), at(20, 62, 0, 32)]
    );
    assert_eq!(batch.indices, vec![0, 1, 3, 1, 2, 3]);
    assert_eq!(batch.color, color);
}

#[test]
fn performance_window_sits_in_the_lower_right_corner() {
    let window = overlay(800, 600).draw();
    assert_eq!(
        window.background.vertices,
        vec![solid(488, 490), solid(788, 490), solid(788, 588), solid(488, 588)]
    );
    assert_eq!(window.background.indices, vec![0, 1, 3, 1, 2, 3]);
    assert_eq!(window.background.primitive, Primitive::Triangles);
    assert_eq!(window.background.color, Color { r: 30, g: 30, b: 30, a: 225 });
}

#[test]
fn performance_window_follows_the_framebuffer_size() {
    let mut ui = overlay(800, 600);
    ui.set_framebuffer_size(&Size::new(1920, 1080));
    let window = ui.draw();
    assert_eq!(window.background.vertices[0], solid(1608, 970));
    assert_eq!(window.background.vertices[2], solid(1908, 1068));
    assert_eq!(window.cpu_line.vertices[0].position_x, 1620);
    assert_eq!(window.cpu_line.vertices[0].position_y, 1010);
}

#[test]
fn performance_window_without_samples_shows_zero() {
    let window = overlay(800, 600).draw();
    assert_eq!(text_of(&window.cpu_line), "CPU: 0.000 ms");
    assert_eq!(text_of(&window.gpu_line), "GPU: 0.000 ms");
}

#[test]
fn performance_window_shows_the_means_to_three_places() {
    let mut ui = overlay(800, 600);
    ui.add_sample(millis(1000), Some(TimingSample::new(0, 1_234_567)));
    ui.add_sample(millis(3000), None);
    let window = ui.draw();
    assert_eq!(text_of(&window.cpu_line), "CPU: 2000.000 ms");
    assert_eq!(text_of(&window.gpu_line), "GPU: 1.235 ms");
    assert_eq!(window.cpu_line.color, Color { r: 255, g: 255, b: 255, a: 255 });
    assert_eq!(window.gpu_line.color, Color { r: 255, g: 255, b: 255, a: 255 });
}

#[test]
fn performance_window_lines_start_on_their_baselines() {
    let mut ui = overlay(800, 600);
    ui.add_sample(millis(16), Some(millis(8)));
    let window = ui.draw();
    let cpu_first = window.cpu_line.vertices[0];
    let gpu_first = window.gpu_line.vertices[0];
    assert_eq!((cpu_first.position_x, cpu_first.position_y), (500, 530));
    assert_eq!((gpu_first.position_x, gpu_first.position_y), (500, 572));
    assert_eq!(window.cpu_line.vertices.len(), 4 * "CPU: 16.000 ms".len());
    assert_eq!(window.cpu_line.indices.len(), 6 * "CPU: 16.000 ms".len());
    let second_glyph = window.cpu_line.vertices[4];
    assert_eq!(second_glyph.position_x, 500 + ADVANCE as i16);
}

#[test]
fn drawing_does_not_change_the_overlay() {
    let mut ui = overlay(800, 600);
    ui.add_sample(millis(5), Some(millis(6)));
    let first = ui.draw();
    let second = ui.draw();
    assert_eq!(first.background.vertices, second.background.vertices);
    assert_eq!(first.cpu_line.vertices, second.cpu_line.vertices);
    assert_eq!(first.gpu_line.vertices, second.gpu_line.vertices);
    assert_eq!(ui.cpu_samples.len(), 1);
}

#[test]
fn performance_window_in_a_tiny_framebuffer_lies_off_screen() {
    let window = overlay(100, 50).draw();
    assert_eq!(window.background.vertices[0], solid(-212, -60));
    assert_eq!(window.background.vertices[2], solid(88, 38));
}
