//! Decisions of the shaping pass: the base metrics a block's buffer is
//! built from, the per-span shaping attributes, and the two-pass policy —
//! center, right, end and justified alignment need a second shaping pass
//! against the measured width, because per-line alignment is undefined
//! without a concrete box width.

use vstd::prelude::*;

use crate::style::{
    Color, Text, TextAlign, TextBlock, DEFAULT_FONT_SIZE, DEFAULT_LINE_HEIGHT,
};

verus! {

/// The metrics a block's buffer is built from: the first span's font size
/// and relative line height, in fixed-point units, with defaults when the
/// block has no spans.
#[derive(Debug, Copy, Clone, PartialEq, Eq, Structural)]
pub struct BaseMetrics {
    /// Font size, in fixed-point pixel units.
    pub font_size: i64,
    /// Relative line height, in fixed-point units.
    pub line_height: i64,
}

/// The font size the block's buffer is seeded with: the first span's, or
/// the default when the block has no spans.
pub open spec fn block_font_size(block: TextBlock) -> i64 {
    if block.text_spans@.len() == 0 {
        DEFAULT_FONT_SIZE
    } else {
        block.text_spans@[0].font_size
    }
}

/// The relative line height the block's buffer is seeded with: the first
/// span's, or one when absent or when the block has no spans.
pub open spec fn block_line_height(block: TextBlock) -> i64 {
    if block.text_spans@.len() == 0 {
        DEFAULT_LINE_HEIGHT
    } else {
        match block.text_spans@[0].line_height {
            Some(lh) => lh,
            None => DEFAULT_LINE_HEIGHT,
        }
    }
}

/// Builds the base metrics of a block from its first span, with defaults
/// for a block without spans.
pub fn base_metrics(block: &TextBlock) -> (m: BaseMetrics)
    ensures
        m.font_size == block_font_size(*block),
        m.line_height == block_line_height(*block),
{
    if block.text_spans.len() == 0 {
        BaseMetrics { font_size: DEFAULT_FONT_SIZE, line_height: DEFAULT_LINE_HEIGHT }
    } else {
        let first = &block.text_spans[0];
        let line_height = match first.line_height {
            Some(lh) => lh,
            None => DEFAULT_LINE_HEIGHT,
        };
        BaseMetrics { font_size: first.font_size, line_height }
    }
}

/// The shaping attributes one span contributes: its metrics, weight and
/// color, and the font family after the span override is applied.
#[derive(Debug, Copy, Clone, PartialEq, Eq)]
pub struct SpanStyle {
    /// Font size, in fixed-point pixel units.
    pub font_size: i64,
    /// Relative line height, in fixed-point units; one when the span
    /// leaves it out.
    pub line_height: i64,
    /// Font weight.
    pub font_weight: u16,
    /// Span color.
    pub color: Color,
    /// Font family: the span's own, else the block's default, else the
    /// shaping engine's default.
    pub family: Option<&'static str>,
}

/// The attributes a span shapes with, given the block it belongs to.
pub open spec fn span_style_of(block: TextBlock, span: Text) -> SpanStyle {
    SpanStyle {
        font_size: span.font_size,
        line_height: match span.line_height {
            Some(lh) => lh,
            None => DEFAULT_LINE_HEIGHT,
        },
        font_weight: span.font_weight,
        color: span.color,
        family: match span.font {
            Some(f) => Some(f),
            None => block.font,
        },
    }
}

/// Resolves the shaping attributes of one span of a block.
pub fn span_style(block: &TextBlock, span: &Text) -> (s: SpanStyle)
    ensures
        s == span_style_of(*block, *span),
{
    let line_height = match span.line_height {
        Some(lh) => lh,
        None => DEFAULT_LINE_HEIGHT,
    };
    let family = match span.font {
        Some(f) => Some(f),
        None => block.font,
    };
    SpanStyle {
        font_size: span.font_size,
        line_height,
        font_weight: span.font_weight,
        color: span.color,
        family,
    }
}

/// Resolves the shaping attributes of every span of a block, in span order.
pub fn span_styles(block: &TextBlock) -> (r: Vec<SpanStyle>)
    ensures
        r@.len() == block.text_spans@.len(),
        forall|i: int|
            0 <= i < r@.len() ==> r@[i] == span_style_of(*block, block.text_spans@[i]),
{
    let mut r: Vec<SpanStyle> = Vec::new();
    let n = block.text_spans.len();
    for i in 0..n
        invariant
            n == block.text_spans@.len(),
            r@.len() == i,
            forall|j: int|
                0 <= j < i ==> r@[j] == span_style_of(*block, block.text_spans@[j]),
    {
        let s = span_style(block, &block.text_spans[i]);
        r.push(s);
    }
    r
}

/// Holds of the alignments whose per-line offsets the shaping engine can
/// only compute against a concrete box width: such a block is shaped a
/// second time with the measured width as the constraint.
pub open spec fn needs_second_pass(align: TextAlign) -> bool {
    align == TextAlign::Center || align == TextAlign::Right || align == TextAlign::End
        || align == TextAlign::Justified
}

/// Decides whether a layout shaped once must be reshaped before alignment
/// offsets are meaningful.
pub fn needs_reshape(align: TextAlign) -> (r: bool)
    ensures
        r == needs_second_pass(align),
{
    match align {
        TextAlign::Left => false,
        TextAlign::Right => true,
        TextAlign::End => true,
        TextAlign::Center => true,
        TextAlign::Justified => true,
    }
}

/// The box constraints of the second shaping pass, when one is needed:
/// the measured width becomes the wrap constraint and the requested height
/// constraint is kept. A left-aligned block needs no second pass and gets
/// no new constraints.
pub fn second_pass_constraints(
    align: TextAlign,
    measured_width: i64,
    max_height: Option<i64>,
) -> (r: Option<(i64, Option<i64>)>)
    ensures
        r is Some <==> needs_second_pass(align),
        needs_second_pass(align) ==> r == Some((measured_width, max_height)),
{
    if needs_reshape(align) {
        Some((measured_width, max_height))
    } else {
        None
    }
}

/// The second shaping pass is taken exactly when the block is not
/// left-aligned: a single pass suffices for left alignment and never for
/// center, right, end or justified alignment.
pub proof fn lemma_second_pass_iff_not_left(align: TextAlign)
    ensures
        needs_second_pass(align) <==> align != TextAlign::Left,
{
}

} // verus!
