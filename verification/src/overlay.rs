//! The overlay itself: a font, a framebuffer size and the two windows of
//! timing samples, with the drawing primitives built on them.

use crate::batch::{
    filled, outline, solid_quad, textured, textured_quad, OutlineClosure, Primitive, SolidBatch,
    TextureBatch,
};
use crate::decimal::{millis_text, push_millis};
use crate::font::DebugFont;
use crate::geometry::{Color, Point, Rect, Size};
use crate::sample_buffer::{
    keep_last, mean_nanos_of, SampleBuffer, TimingSample, SAMPLE_BUFFER_SIZE,
};
use crate::text::{layout, measure, measured_width, text_vertices};
use crate::vertex::{quad_batch_indices, quad_indices};
use vstd::prelude::*;

verus! {

/// The margin around and inside overlay widgets.
pub const PADDING: i32 = 12;

/// The edge length of a button's icon.
pub const ICON_SIZE: i32 = 48;

pub const BUTTON_WIDTH: i32 = PADDING * 2 + ICON_SIZE;

pub const BUTTON_HEIGHT: i32 = PADDING * 2 + ICON_SIZE;

/// How far right of a button's left edge its label starts.
pub const BUTTON_TEXT_OFFSET: i32 = PADDING + 36;

/// The distance from the top of a line of text to its baseline.
pub const FONT_ASCENT: i32 = 28;

/// The distance between the baselines of consecutive lines.
pub const LINE_HEIGHT: i32 = 42;

pub const PERF_WINDOW_WIDTH: i32 = 300;

/// Room for two lines of text.
pub const PERF_WINDOW_HEIGHT: i32 = LINE_HEIGHT * 2 + PADDING + 2;

/// The color of text: opaque white, or opaque black where `invert` asks for
/// dark text on a light ground.
pub open spec fn spec_text_color(invert: bool) -> Color {
    if invert {
        Color { r: 0, g: 0, b: 0, a: 255 }
    } else {
        Color { r: 255, g: 255, b: 255, a: 255 }
    }
}

/// The translucent dark ground of overlay windows.
pub open spec fn spec_window_color() -> Color {
    Color { r: 30, g: 30, b: 30, a: 225 }
}

/// The color of text: opaque white, or opaque black where `invert` asks for
/// dark text on a light ground.
#[verifier::when_used_as_spec(spec_text_color)]
pub fn text_color(invert: bool) -> (color: Color)
    ensures
        color == spec_text_color(invert),
{
    if invert {
        Color { r: 0, g: 0, b: 0, a: 255 }
    } else {
        Color { r: 255, g: 255, b: 255, a: 255 }
    }
}

/// The translucent dark ground of overlay windows.
#[verifier::when_used_as_spec(spec_window_color)]
pub fn window_color() -> (color: Color)
    ensures
        color == spec_window_color(),
{
    Color { r: 30, g: 30, b: 30, a: 225 }
}

/// The performance window: anchored to the lower-right corner of the
/// framebuffer, one padding away from both edges.
pub open spec fn perf_window_rect(framebuffer_size: Size) -> Rect {
    Rect::spec_new(
        Point::narrowed(
            framebuffer_size.width as i32 - PADDING - PERF_WINDOW_WIDTH,
            framebuffer_size.height as i32 - PADDING - PERF_WINDOW_HEIGHT,
        ),
        Point { x: PERF_WINDOW_WIDTH, y: PERF_WINDOW_HEIGHT },
    )
}

/// Where the cursor starts for the given line of the window, counted from
/// zero: one padding inside the window, on the line's baseline.
pub open spec fn perf_line_origin(window: Rect, line: int) -> Point {
    Point::narrowed(
        window.origin.x + PADDING,
        window.origin.y + PADDING + FONT_ASCENT + line * LINE_HEIGHT,
    )
}

/// A line of the performance window: the label, the mean in milliseconds
/// with three decimal places, and the unit.
pub open spec fn perf_line_text(label: Seq<char>, mean_nanos: nat) -> Seq<char> {
    label + millis_text(mean_nanos) + " ms"@
}

/// In a framebuffer whose dimensions fit in signed 32 bits, the performance
/// window has its fixed extent and its lower-right corner lies one padding
/// inside the framebuffer's.
pub proof fn lemma_perf_window_anchored(framebuffer_size: Size)
    requires
        framebuffer_size.width <= i32::MAX,
        framebuffer_size.height <= i32::MAX,
    ensures
        perf_window_rect(framebuffer_size).width() == PERF_WINDOW_WIDTH,
        perf_window_rect(framebuffer_size).height() == PERF_WINDOW_HEIGHT,
        perf_window_rect(framebuffer_size).lower_right.x == framebuffer_size.width - PADDING,
        perf_window_rect(framebuffer_size).lower_right.y == framebuffer_size.height - PADDING,
{
}

/// What [`DebugUI::draw`] yields, in drawing order.
pub struct PerfWindow {
    pub background: SolidBatch,
    pub cpu_line: TextureBatch,
    pub gpu_line: TextureBatch,
}

/// The debug overlay.
pub struct DebugUI {
    pub framebuffer_size: Size,
    pub font: DebugFont,
    pub cpu_samples: SampleBuffer,
    pub gpu_samples: SampleBuffer,
}

impl DebugUI {
    /// An overlay for a framebuffer of the given size, with no samples yet.
    pub fn new(framebuffer_size: &Size, font: DebugFont) -> (ui: DebugUI)
        ensures
            ui.framebuffer_size == *framebuffer_size,
            ui.font == font,
            ui.cpu_samples@ == Seq::<TimingSample>::empty(),
            ui.gpu_samples@ == Seq::<TimingSample>::empty(),
    {
        DebugUI {
            framebuffer_size: *framebuffer_size,
            font,
            cpu_samples: SampleBuffer::new(),
            gpu_samples: SampleBuffer::new(),
        }
    }

    pub fn framebuffer_size(&self) -> (size: Size)
        ensures
            size == self.framebuffer_size,
    {
        self.framebuffer_size
    }

    pub fn set_framebuffer_size(&mut self, window_size: &Size)
        ensures
            final(self).framebuffer_size == *window_size,
            final(self).font == old(self).font,
            final(self).cpu_samples == old(self).cpu_samples,
            final(self).gpu_samples == old(self).gpu_samples,
    {
        self.framebuffer_size = *window_size;
    }

    /// Records the timings of one frame. The time spent on the GPU is not
    /// known on every frame; where it is absent, the GPU window is left as
    /// it is.
    pub fn add_sample(&mut self, tile_time: TimingSample, rendering_time: Option<TimingSample>)
        ensures
            final(self).cpu_samples@ == keep_last(
                old(self).cpu_samples@.push(tile_time),
                SAMPLE_BUFFER_SIZE as nat,
            ),
            final(self).gpu_samples@ == match rendering_time {
                Some(time) => keep_last(old(self).gpu_samples@.push(time), SAMPLE_BUFFER_SIZE as nat),
                None => old(self).gpu_samples@,
            },
            final(self).framebuffer_size == old(self).framebuffer_size,
            final(self).font == old(self).font,
    {
        self.cpu_samples.push(tile_time);
        if let Some(rendering_time) = rendering_time {
            self.gpu_samples.push(rendering_time);
        }
    }

    /// The performance window: a translucent ground and, on it, the mean CPU
    /// and GPU times of the frames sampled.
    pub fn draw(&self) -> (window: PerfWindow)
        ensures
            window.background.vertices@ == solid_quad(perf_window_rect(self.framebuffer_size)),
            window.background.indices@ == quad_indices(),
            window.background.primitive == Primitive::Triangles,
            window.background.color == window_color(),
            window.cpu_line.vertices@ == text_vertices(
                &self.font,
                perf_line_text("CPU: "@, mean_nanos_of(self.cpu_samples@)),
                perf_line_origin(perf_window_rect(self.framebuffer_size), 0),
            ),
            window.cpu_line.indices@ == quad_batch_indices(
                perf_line_text("CPU: "@, mean_nanos_of(self.cpu_samples@)).len(),
            ),
            window.cpu_line.color == text_color(false),
            window.gpu_line.vertices@ == text_vertices(
                &self.font,
                perf_line_text("GPU: "@, mean_nanos_of(self.gpu_samples@)),
                perf_line_origin(perf_window_rect(self.framebuffer_size), 1),
            ),
            window.gpu_line.indices@ == quad_batch_indices(
                perf_line_text("GPU: "@, mean_nanos_of(self.gpu_samples@)).len(),
            ),
            window.gpu_line.color == text_color(false),
    {
        let extent = self.framebuffer_size.to_point();
        let left: i64 = extent.x as i64 - PADDING as i64 - PERF_WINDOW_WIDTH as i64;
        let top: i64 = extent.y as i64 - PADDING as i64 - PERF_WINDOW_HEIGHT as i64;
        let window_rect = Rect::new(
            Point::new(#[verifier::truncate] (left as i32), #[verifier::truncate] (top as i32)),
            Point::new(PERF_WINDOW_WIDTH, PERF_WINDOW_HEIGHT),
        );
        let background = self.draw_solid_rect(window_rect, window_color());

        let text_x: i64 = window_rect.min_x() as i64 + PADDING as i64;
        let cpu_y: i64 = window_rect.min_y() as i64 + PADDING as i64 + FONT_ASCENT as i64;
        let gpu_y: i64 = cpu_y + LINE_HEIGHT as i64;

        let mut cpu_text = String::from_str("CPU: ");
        push_millis(&mut cpu_text, self.cpu_samples.mean_nanos());
        cpu_text.append(" ms");
        let cpu_line = self.draw_text(
            cpu_text.as_str(),
            Point::new(#[verifier::truncate] (text_x as i32), #[verifier::truncate] (cpu_y as i32)),
            false,
        );

        let mut gpu_text = String::from_str("GPU: ");
        push_millis(&mut gpu_text, self.gpu_samples.mean_nanos());
        gpu_text.append(" ms");
        let gpu_line = self.draw_text(
            gpu_text.as_str(),
            Point::new(#[verifier::truncate] (text_x as i32), #[verifier::truncate] (gpu_y as i32)),
            false,
        );

        PerfWindow { background, cpu_line, gpu_line }
    }

    /// A filled rectangle of the given color.
    pub fn draw_solid_rect(&self, rect: Rect, color: Color) -> (batch: SolidBatch)
        ensures
            batch.vertices@ == solid_quad(rect),
            batch.indices@ == quad_indices(),
            batch.primitive == Primitive::Triangles,
            batch.color == color,
    {
        self.draw_rect(rect, color, true)
    }

    /// The outline of a rectangle in the given color, as a line loop.
    pub fn draw_rect_outline(&self, rect: Rect, color: Color) -> (batch: SolidBatch)
        ensures
            batch.vertices@ == solid_quad(rect),
            batch.indices@ == Seq::<u32>::empty(),
            batch.primitive == Primitive::LineLoop,
            batch.color == color,
    {
        self.draw_rect(rect, color, false)
    }

    fn draw_rect(&self, rect: Rect, color: Color, is_filled: bool) -> (batch: SolidBatch)
        ensures
            batch.vertices@ == solid_quad(rect),
            batch.color == color,
            is_filled ==> batch.indices@ == quad_indices() && batch.primitive
                == Primitive::Triangles,
            !is_filled ==> batch.indices@ == Seq::<u32>::empty() && batch.primitive
                == Primitive::LineLoop,
    {
        if is_filled {
            filled(rect, color)
        } else {
            outline(rect, color, OutlineClosure::ByDevice)
        }
    }

    /// A line of text in the overlay's font, starting with the cursor at
    /// `origin`: light where `invert` is false, dark where it is true.
    pub fn draw_text(&self, string: &str, origin: Point, invert: bool) -> (batch: TextureBatch)
        ensures
            batch.vertices@ == text_vertices(&self.font, string@, origin),
            batch.indices@ == quad_batch_indices(string@.len()),
            batch.color == text_color(invert),
    {
        let laid_out = layout(string, origin, &self.font);
        TextureBatch {
            vertices: laid_out.vertices,
            indices: laid_out.indices,
            color: text_color(invert),
        }
    }

    /// A whole texture of the given size, drawn unscaled with its upper-left
    /// corner at `origin` and tinted with `color`.
    pub fn draw_texture(&self, origin: Point, texture_size: Size, color: Color) -> (batch:
        TextureBatch)
        ensures
            batch.vertices@ == textured_quad(
                Rect::spec_new(origin, texture_size.spec_to_point()),
                Rect::spec_new(Point { x: 0, y: 0 }, texture_size.spec_to_point()),
            ),
            batch.indices@ == quad_indices(),
            batch.color == color,
    {
        let size = texture_size.to_point();
        let position_rect = Rect::new(origin, size);
        let tex_coord_rect = Rect::new(Point::new(0, 0), size);
        textured(position_rect, tex_coord_rect, color)
    }

    /// The width of `string` in the overlay's font.
    pub fn measure_text(&self, string: &str) -> (width: i32)
        ensures
            width == measured_width(&self.font, string@),
    {
        measure(string, &self.font)
    }
}

} // verus!
