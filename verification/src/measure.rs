//! Measurement of a shaped layout: the width is the widest shaped line,
//! the height is the number of layout lines times the layout's uniform
//! line height. Both are pure functions of the layout.

use vstd::prelude::*;

use crate::align::MAX_COORD;
use crate::style::TextBlock;

verus! {

/// Most layout lines a well-formed layout can carry; keeps the measured
/// height within [`MAX_COORD`].
pub const MAX_LINES: usize = 131072;

/// A shaped layout reduced to what measurement reads: the shaped (ink)
/// width of every layout run, in fixed-point units, and the uniform line
/// height the layout was shaped with.
///
/// The line height comes from the layout's base metrics, not from the
/// individual spans: spans with differing line heights on one line are not
/// independently accounted for in the total height.
#[derive(Debug, Clone, PartialEq)]
pub struct ShapedLayout {
    /// The absolute line height, in fixed-point units.
    pub line_height: i64,
    /// The shaped width of each layout run, in fixed-point units, in run
    /// order. One entry per visual line.
    pub run_widths: Vec<i64>,
}

impl ShapedLayout {
    /// Well-formedness: nonnegative bounded widths and line height, and a
    /// bounded number of lines, so that measurement stays within `i64`.
    pub open spec fn wf(self) -> bool {
        &&& 0 <= self.line_height <= MAX_COORD / (MAX_LINES as i64)
        &&& self.run_widths@.len() <= MAX_LINES
        &&& forall|i: int|
            0 <= i < self.run_widths@.len() ==> 0 <= #[trigger] self.run_widths@[i] <= MAX_COORD
    }
}

/// The widest shaped line of a layout; zero when there are no lines.
pub open spec fn max_run_width(widths: Seq<i64>) -> int
    decreases widths.len(),
{
    if widths.len() == 0 {
        0
    } else {
        let rest = max_run_width(widths.drop_last());
        if widths.last() > rest {
            widths.last() as int
        } else {
            rest
        }
    }
}

/// The measured height of a layout: line count times line height.
pub open spec fn total_height(layout: ShapedLayout) -> int {
    layout.run_widths@.len() * layout.line_height
}

/// The measured width of a shaped layout: the maximum over all layout
/// runs of that run's shaped width — the actual ink extent, not the
/// wrap constraint.
pub fn measured_width(layout: &ShapedLayout) -> (w: i64)
    requires
        layout.wf(),
    ensures
        w == max_run_width(layout.run_widths@),
        0 <= w <= MAX_COORD,
{
    let mut w: i64 = 0;
    let n = layout.run_widths.len();
    for i in 0..n
        invariant
            n == layout.run_widths@.len(),
            layout.wf(),
            w == max_run_width(layout.run_widths@.take(i as int)),
            0 <= w <= MAX_COORD,
    {
        proof {
            assert(layout.run_widths@.take(i + 1).drop_last() =~= layout.run_widths@.take(
                i as int,
            ));
            assert(layout.run_widths@.take(i + 1).last() == layout.run_widths@[i as int]);
        }
        let next = layout.run_widths[i];
        if next > w {
            w = next;
        }
    }
    proof {
        assert(layout.run_widths@.take(n as int) =~= layout.run_widths@);
    }
    w
}

/// The measured height of a shaped layout: the count of layout lines times
/// the layout's uniform line height.
pub fn measured_height(layout: &ShapedLayout) -> (h: i64)
    requires
        layout.wf(),
    ensures
        h == total_height(*layout),
        0 <= h <= MAX_COORD,
{
    let count = layout.run_widths.len();
    proof {
        assert(count * layout.line_height <= MAX_LINES * (MAX_COORD / (MAX_LINES as i64)))
            by (nonlinear_arith)
            requires
                0 <= count <= MAX_LINES,
                0 <= layout.line_height <= MAX_COORD / (MAX_LINES as i64),
        ;
        assert((MAX_LINES as int) * ((MAX_COORD / (MAX_LINES as i64)) as int) == MAX_COORD as int)
            by (nonlinear_arith);
        assert(0 <= count * layout.line_height) by (nonlinear_arith)
            requires
                0 <= count,
                0 <= layout.line_height,
        ;
    }
    (count as i64) * layout.line_height
}

/// One raw engine width, forced into the measurable range.
pub open spec fn clamped_width(w: i64) -> i64 {
    if w < 0 {
        0
    } else if w > MAX_COORD {
        MAX_COORD
    } else {
        w
    }
}

/// A raw engine line height, forced into the range that keeps the total
/// height of [`MAX_LINES`] lines within bounds.
pub open spec fn clamped_line_height(lh: i64) -> i64 {
    if lh < 0 {
        0
    } else if lh > MAX_COORD / (MAX_LINES as i64) {
        (MAX_COORD / (MAX_LINES as i64)) as i64
    } else {
        lh
    }
}

/// Builds a well-formed layout from raw engine measurements: negative
/// values are forced to zero, oversized ones to the bounds, and runs past
/// [`MAX_LINES`] are dropped. Measurements already within bounds are kept
/// as they are.
pub fn sanitize_layout(line_height: i64, run_widths: Vec<i64>) -> (r: ShapedLayout)
    ensures
        r.wf(),
        r.line_height == clamped_line_height(line_height),
        r.run_widths@.len() == if run_widths@.len() <= MAX_LINES {
            run_widths@.len() as int
        } else {
            MAX_LINES as int
        },
        forall|i: int|
            0 <= i < r.run_widths@.len() ==> r.run_widths@[i] == clamped_width(run_widths@[i]),
{
    let bound: i64 = MAX_COORD / (MAX_LINES as i64);
    let lh: i64 = if line_height < 0 {
        0
    } else if line_height > bound {
        bound
    } else {
        line_height
    };
    let n: usize = if run_widths.len() <= MAX_LINES {
        run_widths.len()
    } else {
        MAX_LINES
    };
    let mut ws: Vec<i64> = Vec::new();
    for i in 0..n
        invariant
            n <= run_widths@.len(),
            n <= MAX_LINES,
            ws@.len() == i,
            forall|j: int| 0 <= j < i ==> ws@[j] == clamped_width(run_widths@[j]),
    {
        let w = run_widths[i];
        let c: i64 = if w < 0 {
            0
        } else if w > MAX_COORD {
            MAX_COORD
        } else {
            w
        };
        ws.push(c);
    }
    ShapedLayout { line_height: lh, run_widths: ws }
}

/// The layout a block is measured and composited with. An empty span
/// list yields an empty layout: zero runs and zero measured size. The
/// shaping engine reports one empty line even for a block without spans;
/// this drops it. A sole span with empty text, in contrast, keeps its
/// zero-width run and still consumes a line.
pub fn effective_layout(block: &TextBlock, shaped: ShapedLayout) -> (r: ShapedLayout)
    requires
        shaped.wf(),
    ensures
        r.wf(),
        block.text_spans@.len() == 0 ==> r.run_widths@.len() == 0 && r.line_height
            == shaped.line_height,
        block.text_spans@.len() > 0 ==> r == shaped,
{
    if block.text_spans.len() == 0 {
        ShapedLayout { line_height: shaped.line_height, run_widths: Vec::new() }
    } else {
        shaped
    }
}

/// Measurement is idempotent: both extents are pure functions of the
/// shaped layout, so measuring the same layout twice yields identical
/// results.
pub proof fn lemma_measure_idempotent(first: ShapedLayout, second: ShapedLayout)
    requires
        first == second,
    ensures
        max_run_width(first.run_widths@) == max_run_width(second.run_widths@),
        total_height(first) == total_height(second),
{
}

/// A layout with no runs measures zero along both axes.
pub proof fn lemma_empty_layout_measures_zero(layout: ShapedLayout)
    requires
        layout.run_widths@.len() == 0,
    ensures
        max_run_width(layout.run_widths@) == 0,
        total_height(layout) == 0,
{
}

} // verus!
