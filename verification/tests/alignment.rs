//! The alignment resolver and the style model on concrete values.

use image_text::{
    AxisAlign, Color, ShapedLayout, Text, TextAlign, TextBlock, TextBlockPosition,
};

#[test]
fn start_at_resolves_to_the_value_itself() {
    assert_eq!(image_text::resolve_axis(AxisAlign::StartAt(640), 1000, 512), 640);
    assert_eq!(image_text::resolve_axis(AxisAlign::StartAt(-64), 1000, 512), -64);
}

#[test]
fn end_at_resolves_to_value_minus_extent() {
    // A block 1000 units wide ending at 19200 (300 px) starts at 18200.
    assert_eq!(image_text::resolve_axis(AxisAlign::EndAt(19200), 1000, 512), 18200);
    assert_eq!(image_text::resolve_axis(AxisAlign::EndAt(0), 640, 512), -640);
}

#[test]
fn center_at_resolves_to_value_minus_half_extent() {
    assert_eq!(image_text::resolve_axis(AxisAlign::CenterAt(6400), 1000, 512), 5900);
}

#[test]
fn center_at_canvas_center_halves_the_margins() {
    // Surface 512 px wide (32768 units), block 10000 units: origin at
    // (32768 - 10000) / 2 = 11384.
    assert_eq!(
        image_text::resolve_axis(AxisAlign::CenterAtCanvasCenter, 10000, 512),
        11384
    );
    // Surface height 512, measured height 4096 (64 px): (32768 - 4096) / 2.
    assert_eq!(
        image_text::resolve_axis(AxisAlign::CenterAtCanvasCenter, 4096, 512),
        14336
    );
}

#[test]
fn both_axes_resolve_independently() {
    let position = TextBlockPosition { x: AxisAlign::EndAt(19200), y: AxisAlign::StartAt(320) };
    let (x, y) = image_text::resolve_position(position, 1000, 2000, 512, 256);
    assert_eq!(x, 18200);
    assert_eq!(y, 320);
}

#[test]
fn place_layout_measures_then_resolves() {
    let layout = ShapedLayout { line_height: 2048, run_widths: vec![3000, 10000, 4000] };
    let position = TextBlockPosition {
        x: AxisAlign::CenterAtCanvasCenter,
        y: AxisAlign::CenterAtCanvasCenter,
    };
    // Width 10000, height 3 * 2048 = 6144 on a 512x512 surface.
    let (x, y) = image_text::place_layout(position, &layout, 512, 512);
    assert_eq!(x, (512 * 64 - 10000) / 2);
    assert_eq!(y, (512 * 64 - 6144) / 2);
}

#[test]
fn needs_reshape_for_all_but_left() {
    assert!(!image_text::needs_reshape(TextAlign::Left));
    assert!(image_text::needs_reshape(TextAlign::Right));
    assert!(image_text::needs_reshape(TextAlign::End));
    assert!(image_text::needs_reshape(TextAlign::Center));
    assert!(image_text::needs_reshape(TextAlign::Justified));
}

#[test]
fn second_pass_keeps_measured_width_and_height_constraint() {
    assert_eq!(
        image_text::second_pass_constraints(TextAlign::Center, 5000, Some(1234)),
        Some((5000, Some(1234)))
    );
    assert_eq!(image_text::second_pass_constraints(TextAlign::Left, 5000, Some(1234)), None);
}

#[test]
fn builders_set_their_fields() {
    let block = TextBlock::string("hi".to_string())
        .with_max_width(6400)
        .with_max_height(3200)
        .with_font("DejaVu Sans")
        .with_alignment(TextBlockPosition {
            x: AxisAlign::CenterAt(64),
            y: AxisAlign::EndAt(128),
        });
    assert_eq!(block.max_width, Some(6400));
    assert_eq!(block.max_height, Some(3200));
    assert_eq!(block.font, Some("DejaVu Sans"));
    assert_eq!(block.alignment.x, AxisAlign::CenterAt(64));
    assert_eq!(block.alignment.y, AxisAlign::EndAt(128));
    assert_eq!(block.text_align, TextAlign::Left);
    assert_eq!(block.text_spans.len(), 1);
    assert_eq!(block.text_spans[0].text, "hi");

    let span = Text::new("x".to_string()).with_font_size(1024);
    assert_eq!(span.font_size, 1024);
    assert_eq!(span.font_weight, 400);
    assert_eq!(span.color, Color { r: 255, g: 255, b: 255, a: 255 });
    assert_eq!(span.line_height, None);

    let empty = TextBlock::new();
    assert!(empty.text_spans.is_empty());
    assert_eq!(empty.alignment, TextBlockPosition::default());
}

#[test]
fn span_style_prefers_the_span_font() {
    let mut block = TextBlock::string("a".to_string()).with_font("DejaVu Sans");
    block.text_spans[0].font = Some("DejaVu Serif");
    let styles = image_text::span_styles(&block);
    assert_eq!(styles[0].family, Some("DejaVu Serif"));

    block.text_spans[0].font = None;
    let styles = image_text::span_styles(&block);
    assert_eq!(styles[0].family, Some("DejaVu Sans"));
}

#[test]
fn base_metrics_come_from_the_first_span_with_defaults() {
    let empty = TextBlock::new();
    let m = image_text::base_metrics(&empty);
    assert_eq!(m.font_size, image_text::DEFAULT_FONT_SIZE);
    assert_eq!(m.line_height, image_text::DEFAULT_LINE_HEIGHT);

    let mut block = TextBlock::string("a".to_string());
    block.text_spans[0].font_size = 1024;
    block.text_spans[0].line_height = Some(96);
    let m = image_text::base_metrics(&block);
    assert_eq!(m.font_size, 1024);
    assert_eq!(m.line_height, 96);
}

#[test]
fn defaults_anchor_at_the_origin() {
    assert_eq!(TextAlign::default(), TextAlign::Left);
    assert_eq!(AxisAlign::default(), AxisAlign::StartAt(0));
    let p = TextBlockPosition::default();
    assert_eq!(p.x, AxisAlign::StartAt(0));
    assert_eq!(p.y, AxisAlign::StartAt(0));
}

#[test]
fn bounded_position_clamps_only_out_of_range_anchors() {
    let m = image_text::MAX_COORD;
    let wild = TextBlockPosition { x: AxisAlign::StartAt(i64::MAX), y: AxisAlign::EndAt(-i64::MAX) };
    let bounded = image_text::bounded_position(wild);
    assert_eq!(bounded.x, AxisAlign::StartAt(m));
    assert_eq!(bounded.y, AxisAlign::EndAt(-m));

    let tame = TextBlockPosition { x: AxisAlign::CenterAt(640), y: AxisAlign::CenterAtCanvasCenter };
    assert_eq!(image_text::bounded_position(tame), tame);
}
