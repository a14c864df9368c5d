//! Renders styled multi-span text blocks onto a raster surface.
//!
//! The library shapes text into positioned glyph runs (through an external
//! shaping engine), measures the shaped layout, resolves a two-axis block
//! alignment against the target surface, and composites each glyph's pixels
//! (coverage masks tinted by the span color, or pre-rendered color bitmaps)
//! onto the destination image.
//!
//! All lengths and coordinates are fixed-point numbers: [`style::SUBPIXELS`]
//! units make one pixel, so every measurement and every alignment rule is
//! exact integer arithmetic.

pub mod align;
pub mod compose;
pub mod measure;
pub mod painter;
pub mod shape;
pub mod style;
pub mod surface;

pub use align::{bounded_axis, bounded_position, place_layout, resolve_axis, resolve_position, MAX_COORD};
pub use compose::{
    composite_glyph, composite_runs, tint_mask, GlyphContent, GlyphImage, GlyphRun, PlacedGlyph,
};
pub use measure::{
    effective_layout, measured_height, measured_width, sanitize_layout, ShapedLayout, MAX_LINES,
};
pub use painter::TextPainter;
pub use shape::{
    base_metrics, needs_reshape, second_pass_constraints, span_style, span_styles, BaseMetrics,
    SpanStyle,
};
pub use style::{
    AxisAlign, Color, Text, TextAlign, TextBlock, TextBlockPosition, DEFAULT_FONT_SIZE,
    DEFAULT_FONT_WEIGHT, DEFAULT_LINE_HEIGHT, SUBPIXELS,
};
pub use surface::Surface;
