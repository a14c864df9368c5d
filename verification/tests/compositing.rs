//! Measurement and the compositing path on hand-built values: surfaces,
//! coverage masks and pre-colored bitmaps, without going through a font.

use image_text::{Color, GlyphContent, GlyphImage, ShapedLayout, Surface, TextBlock};

fn pixel(s: &Surface, x: u32, y: u32) -> [u8; 4] {
    let o = ((y * s.width + x) * 4) as usize;
    [s.data[o], s.data[o + 1], s.data[o + 2], s.data[o + 3]]
}

#[test]
fn measured_width_is_the_widest_run() {
    let layout = ShapedLayout { line_height: 2048, run_widths: vec![300, 12800, 640] };
    assert_eq!(image_text::measured_width(&layout), 12800);
    assert_eq!(image_text::measured_height(&layout), 3 * 2048);
}

#[test]
fn empty_layout_measures_zero() {
    let layout = ShapedLayout { line_height: 2048, run_widths: vec![] };
    assert_eq!(image_text::measured_width(&layout), 0);
    assert_eq!(image_text::measured_height(&layout), 0);
}

#[test]
fn new_surface_is_fully_transparent() {
    let s = Surface::new(3, 2);
    assert_eq!(s.width, 3);
    assert_eq!(s.height, 2);
    assert_eq!(s.data.len(), 24);
    assert!(s.data.iter().all(|&b| b == 0));
}

#[test]
fn tint_broadcasts_color_and_keeps_coverage_as_alpha() {
    let mask = vec![0u8, 128, 255];
    let patch = image_text::tint_mask(&mask, Color { r: 10, g: 20, b: 30, a: 255 });
    assert_eq!(
        patch,
        vec![10, 20, 30, 0, 10, 20, 30, 128, 10, 20, 30, 255]
    );
}

#[test]
fn mask_glyph_is_tinted_by_the_span_color() {
    let mut s = Surface::new(4, 4);
    let glyph = GlyphImage {
        left: 0,
        top: 0,
        width: 2,
        height: 2,
        content: GlyphContent::Mask,
        data: vec![255, 255, 255, 255],
    };
    let green = Color { r: 0, g: 200, b: 0, a: 255 };
    image_text::composite_glyph(&mut s, 1, 0, 1, &glyph, Some(green));
    // The 2x2 patch lands at (1, 1) and is fully opaque green.
    assert_eq!(pixel(&s, 1, 1), [0, 200, 0, 255]);
    assert_eq!(pixel(&s, 2, 2), [0, 200, 0, 255]);
    assert_eq!(pixel(&s, 0, 0), [0, 0, 0, 0]);
    assert_eq!(pixel(&s, 3, 3), [0, 0, 0, 0]);
}

#[test]
fn mask_glyph_without_a_color_is_tinted_white() {
    let mut s = Surface::new(2, 1);
    let glyph = GlyphImage {
        left: 0,
        top: 0,
        width: 1,
        height: 1,
        content: GlyphContent::Mask,
        data: vec![255],
    };
    image_text::composite_glyph(&mut s, 0, 0, 0, &glyph, None);
    assert_eq!(pixel(&s, 0, 0), [255, 255, 255, 255]);
}

#[test]
fn color_glyph_pixels_are_used_verbatim() {
    // A pre-colored bitmap, as an emoji would be: the span color is
    // ignored and the patch's own (non-grayscale) pixels land as they are.
    let mut s = Surface::new(3, 3);
    let glyph = GlyphImage {
        left: 0,
        top: 1,
        width: 2,
        height: 1,
        content: GlyphContent::Color,
        data: vec![200, 30, 40, 255, 10, 220, 50, 255],
    };
    let span_color = Color { r: 255, g: 255, b: 255, a: 255 };
    image_text::composite_glyph(&mut s, 0, 0, 1, &glyph, Some(span_color));
    // Drawing origin: x = 0 + left = 0, y = 1 + 0 - top = 0.
    let p = pixel(&s, 0, 0);
    assert_eq!(p, [200, 30, 40, 255]);
    assert_ne!(p[0], p[1], "a color glyph must keep non-grayscale values");
    assert_eq!(pixel(&s, 1, 0), [10, 220, 50, 255]);
    assert_eq!(pixel(&s, 0, 1), [0, 0, 0, 0]);
}

#[test]
fn bearings_offset_the_drawing_origin() {
    let mut s = Surface::new(4, 4);
    let glyph = GlyphImage {
        left: 1,
        top: 2,
        width: 1,
        height: 1,
        content: GlyphContent::Color,
        data: vec![9, 8, 7, 255],
    };
    // x = pen_x + left = 2 + 1; y = line_y + pen_y - top = 3 + 2 - 2.
    image_text::composite_glyph(&mut s, 2, 2, 3, &glyph, None);
    assert_eq!(pixel(&s, 3, 3), [9, 8, 7, 255]);
}

#[test]
fn glyph_clipped_at_the_surface_edge() {
    let mut s = Surface::new(2, 2);
    let glyph = GlyphImage {
        left: 0,
        top: 0,
        width: 2,
        height: 2,
        content: GlyphContent::Color,
        data: vec![255; 16],
    };
    // Origin (1, 1): only the top-left quarter of the patch is inside.
    image_text::composite_glyph(&mut s, 1, 0, 1, &glyph, None);
    assert_eq!(pixel(&s, 1, 1), [255, 255, 255, 255]);
    assert_eq!(pixel(&s, 0, 0), [0, 0, 0, 0]);
    assert_eq!(pixel(&s, 1, 0), [0, 0, 0, 0]);
    assert_eq!(pixel(&s, 0, 1), [0, 0, 0, 0]);
}

#[test]
fn malformed_bitmap_is_skipped() {
    let mut s = Surface::new(2, 2);
    for (i, b) in s.data.iter_mut().enumerate() {
        *b = i as u8;
    }
    let before = s.data.clone();
    // Three bytes cannot cover a 2x2 mask: the glyph is skipped.
    let glyph = GlyphImage {
        left: 0,
        top: 0,
        width: 2,
        height: 2,
        content: GlyphContent::Mask,
        data: vec![255, 255, 255],
    };
    image_text::composite_glyph(&mut s, 0, 0, 0, &glyph, None);
    assert_eq!(s.data, before);
}

#[test]
fn alpha_blends_source_over() {
    let mut s = Surface::new(1, 1);
    // Opaque red below.
    let below = GlyphImage {
        left: 0,
        top: 0,
        width: 1,
        height: 1,
        content: GlyphContent::Color,
        data: vec![255, 0, 0, 255],
    };
    image_text::composite_glyph(&mut s, 0, 0, 0, &below, None);
    // Half-covered white mask above: the red shines through.
    let above = GlyphImage {
        left: 0,
        top: 0,
        width: 1,
        height: 1,
        content: GlyphContent::Mask,
        data: vec![128],
    };
    image_text::composite_glyph(&mut s, 0, 0, 0, &above, None);
    let p = pixel(&s, 0, 0);
    assert!(p[3] >= 254, "compositing over an opaque pixel stays opaque: {p:?}");
    assert!(p[0] > 200, "red plus white stays bright: {p:?}");
    assert!(p[1] > 100 && p[1] < 160, "green rises to about half: {p:?}");
}

#[test]
fn sanitize_layout_clamps_raw_measurements() {
    let raw = vec![-5, 300, image_text::MAX_COORD + 7];
    let layout = image_text::sanitize_layout(2048, raw);
    assert_eq!(layout.line_height, 2048);
    assert_eq!(layout.run_widths, vec![0, 300, image_text::MAX_COORD]);

    let negative = image_text::sanitize_layout(-1, vec![64]);
    assert_eq!(negative.line_height, 0);
}

#[test]
fn effective_layout_empties_a_block_without_spans() {
    let shaped = ShapedLayout { line_height: 2048, run_widths: vec![0] };
    let of_empty = image_text::effective_layout(&TextBlock::new(), shaped);
    assert!(of_empty.run_widths.is_empty());
    assert_eq!(image_text::measured_height(&of_empty), 0);

    let shaped = ShapedLayout { line_height: 2048, run_widths: vec![0] };
    let of_span = image_text::effective_layout(&TextBlock::string(String::new()), shaped);
    // A sole span with empty text still consumes its line.
    assert_eq!(of_span.run_widths, vec![0]);
    assert_eq!(image_text::measured_height(&of_span), 2048);
}
