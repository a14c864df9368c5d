//! The style model: styled text spans, text blocks, and alignment intent.
//!
//! Lengths and coordinates are fixed-point: [`SUBPIXELS`] units make one
//! pixel. A relative line height is the same fixed-point fraction, so
//! [`DEFAULT_LINE_HEIGHT`] stands for a multiplier of one.

use vstd::prelude::*;

verus! {

/// Number of fixed-point units in one pixel.
pub const SUBPIXELS: i64 = 64;

/// Default font size of a span: 32 pixels, in fixed-point units.
pub const DEFAULT_FONT_SIZE: i64 = 2048;

/// Default relative line height of a span: a multiplier of one,
/// in fixed-point units.
pub const DEFAULT_LINE_HEIGHT: i64 = 64;

/// Default font weight of a span (regular).
pub const DEFAULT_FONT_WEIGHT: u16 = 400;

/// An RGBA color with 8-bit channels and pre-multiplied alpha.
#[derive(Debug, Copy, Clone, PartialEq, Eq, Structural)]
pub struct Color {
    /// Red channel.
    pub r: u8,
    /// Green channel.
    pub g: u8,
    /// Blue channel.
    pub b: u8,
    /// Alpha channel.
    pub a: u8,
}

impl Color {
    /// Opaque white, the default span color.
    pub fn white() -> (c: Color)
        ensures
            c == (Color { r: 255, g: 255, b: 255, a: 255 }),
    {
        Color { r: 255, g: 255, b: 255, a: 255 }
    }
}

/// How lines of text are aligned (or justified) within a text block.
#[derive(Debug, Copy, Clone, PartialEq, Eq, Structural)]
pub enum TextAlign {
    /// Lines are aligned with the left edge of the block.
    Left,
    /// Lines are aligned with the right edge of the block.
    Right,
    /// Lines are aligned with the end of the axis, which depends on
    /// whether the text is left-to-right or right-to-left.
    End,
    /// Lines are centered within the block.
    Center,
    /// Lines are stretched word by word to meet both edges of the block.
    Justified,
}

impl Default for TextAlign {
    fn default() -> (r: Self)
        ensures
            r == TextAlign::Left,
    {
        TextAlign::Left
    }
}

/// Where a text block lands along one axis, in fixed-point pixel units.
#[derive(Debug, Copy, Clone, PartialEq, Eq, Structural)]
pub enum AxisAlign {
    /// For x, place the left edge of the block at this value;
    /// for y, the top edge.
    StartAt(i64),
    /// For x, place the right edge of the block at this value;
    /// for y, the bottom edge.
    EndAt(i64),
    /// Place the center of the block at this value.
    CenterAt(i64),
    /// Place the center of the block at the center of the canvas.
    CenterAtCanvasCenter,
}

impl Default for AxisAlign {
    fn default() -> (r: Self)
        ensures
            r == AxisAlign::StartAt(0),
    {
        AxisAlign::StartAt(0)
    }
}

/// The two-axis position of a text block; each axis is independent.
#[derive(Debug, Copy, Clone, PartialEq, Eq, Structural)]
pub struct TextBlockPosition {
    /// Where the block lands along the x axis.
    pub x: AxisAlign,
    /// Where the block lands along the y axis.
    pub y: AxisAlign,
}

impl Default for TextBlockPosition {
    fn default() -> (r: Self)
        ensures
            r == (TextBlockPosition { x: AxisAlign::StartAt(0), y: AxisAlign::StartAt(0) }),
    {
        TextBlockPosition { x: AxisAlign::StartAt(0), y: AxisAlign::StartAt(0) }
    }
}

/// One styled span of text.
#[derive(Debug, Clone, PartialEq)]
pub struct Text {
    /// The span's text content.
    pub text: String,
    /// Font size in fixed-point pixel units; positive.
    pub font_size: i64,
    /// Font weight, typically 100 to 900.
    pub font_weight: u16,
    /// RGBA color with pre-multiplied alpha.
    pub color: Color,
    /// Overrides the font family given on the block, if present.
    pub font: Option<&'static str>,
    /// Relative line height in fixed-point units; multiplied by the font
    /// size to arrive at the absolute line height. Defaults to one.
    pub line_height: Option<i64>,
}

impl Text {
    /// A span of the given text with default styling: 32 pixel font size,
    /// regular weight, opaque white.
    pub fn new(text: String) -> (r: Text)
        ensures
            r.text == text,
            r.font_size == DEFAULT_FONT_SIZE,
            r.font_weight == DEFAULT_FONT_WEIGHT,
            r.color == (Color { r: 255, g: 255, b: 255, a: 255 }),
            r.font is None,
            r.line_height is None,
    {
        Text {
            text,
            font_size: DEFAULT_FONT_SIZE,
            font_weight: DEFAULT_FONT_WEIGHT,
            color: Color::white(),
            font: None,
            line_height: None,
        }
    }

    /// The same span with the given font size, in fixed-point pixel units.
    pub fn with_font_size(self, font_size: i64) -> (r: Text)
        ensures
            r == (Text { font_size, ..self }),
    {
        Text { font_size, ..self }
    }
}

/// An ordered sequence of styled spans together with block-level
/// constraints and alignment intent. Immutable once constructed.
#[derive(Debug, Clone, PartialEq)]
pub struct TextBlock {
    /// Where the block lands on the target surface, per axis.
    pub alignment: TextBlockPosition,
    /// Soft wrap constraint, in fixed-point pixel units.
    pub max_width: Option<i64>,
    /// Soft clip constraint, in fixed-point pixel units.
    pub max_height: Option<i64>,
    /// How lines are aligned within the block.
    pub text_align: TextAlign,
    /// The block's spans, in order.
    pub text_spans: Vec<Text>,
    /// The default font family for all spans; a span's own `font`
    /// overrides it.
    pub font: Option<&'static str>,
}

impl Default for TextBlock {
    fn default() -> (r: Self)
        ensures
            r.is_empty_default(),
    {
        TextBlock::new()
    }
}

impl TextBlock {
    /// Holds of the block every constructor starts from: no spans, no
    /// constraints, left-aligned, anchored at the origin.
    pub open spec fn is_empty_default(self) -> bool {
        &&& self.alignment == TextBlockPosition { x: AxisAlign::StartAt(0), y: AxisAlign::StartAt(0) }
        &&& self.max_width is None
        &&& self.max_height is None
        &&& self.text_align == TextAlign::Left
        &&& self.text_spans@ == Seq::<Text>::empty()
        &&& self.font is None
    }

    /// A block with no spans and no constraints.
    pub fn new() -> (r: TextBlock)
        ensures
            r.is_empty_default(),
    {
        TextBlock {
            alignment: TextBlockPosition { x: AxisAlign::StartAt(0), y: AxisAlign::StartAt(0) },
            max_width: None,
            max_height: None,
            text_align: TextAlign::Left,
            text_spans: Vec::new(),
            font: None,
        }
    }

    /// A block holding a single default-styled span of the given text.
    pub fn string(text: String) -> (r: TextBlock)
        ensures
            r.alignment == (TextBlockPosition { x: AxisAlign::StartAt(0), y: AxisAlign::StartAt(0) }),
            r.max_width is None,
            r.max_height is None,
            r.text_align == TextAlign::Left,
            r.text_spans@.len() == 1,
            r.text_spans@[0].text == text,
            r.text_spans@[0].font_size == DEFAULT_FONT_SIZE,
            r.text_spans@[0].font_weight == DEFAULT_FONT_WEIGHT,
            r.text_spans@[0].color == (Color { r: 255, g: 255, b: 255, a: 255 }),
            r.text_spans@[0].font is None,
            r.text_spans@[0].line_height is None,
            r.font is None,
    {
        let mut text_spans: Vec<Text> = Vec::new();
        text_spans.push(Text::new(text));
        TextBlock {
            alignment: TextBlockPosition { x: AxisAlign::StartAt(0), y: AxisAlign::StartAt(0) },
            max_width: None,
            max_height: None,
            text_align: TextAlign::Left,
            text_spans,
            font: None,
        }
    }

    /// The same block positioned by the given two-axis alignment.
    pub fn with_alignment(self, alignment: TextBlockPosition) -> (r: TextBlock)
        ensures
            r == (TextBlock { alignment, ..self }),
    {
        TextBlock { alignment, ..self }
    }

    /// The same block with a soft wrap width, in fixed-point pixel units.
    pub fn with_max_width(self, max_width: i64) -> (r: TextBlock)
        ensures
            r == (TextBlock { max_width: Some(max_width), ..self }),
    {
        TextBlock { max_width: Some(max_width), ..self }
    }

    /// The same block with a soft clip height, in fixed-point pixel units.
    pub fn with_max_height(self, max_height: i64) -> (r: TextBlock)
        ensures
            r == (TextBlock { max_height: Some(max_height), ..self }),
    {
        TextBlock { max_height: Some(max_height), ..self }
    }

    /// The same block with its spans replaced by the given ones.
    pub fn with_text_blocks(self, text_spans: Vec<Text>) -> (r: TextBlock)
        ensures
            r == (TextBlock { text_spans, ..self }),
    {
        TextBlock { text_spans, ..self }
    }

    /// The same block with the given default font family.
    pub fn with_font(self, font: &'static str) -> (r: TextBlock)
        ensures
            r == (TextBlock { font: Some(font), ..self }),
    {
        TextBlock { font: Some(font), ..self }
    }
}

} // verus!
