//! The alignment resolver: turns a two-axis alignment intent, a measured
//! extent and the target surface's size into the top-left origin at which
//! compositing begins. Each axis is resolved independently.

use vstd::prelude::*;

use crate::measure::{max_run_width, measured_height, measured_width, total_height, ShapedLayout};
use crate::style::{AxisAlign, TextBlockPosition, SUBPIXELS};

verus! {

/// Largest coordinate or extent, in fixed-point units, that the resolver
/// accepts: sums and differences of two such values stay well inside `i64`.
pub const MAX_COORD: i64 = 0x2000_0000_0000;

/// Holds when an alignment's anchor value is within [`MAX_COORD`].
pub open spec fn axis_align_bounded(align: AxisAlign) -> bool {
    match align {
        AxisAlign::StartAt(v) => -MAX_COORD <= v <= MAX_COORD,
        AxisAlign::EndAt(v) => -MAX_COORD <= v <= MAX_COORD,
        AxisAlign::CenterAt(v) => -MAX_COORD <= v <= MAX_COORD,
        AxisAlign::CenterAtCanvasCenter => true,
    }
}

/// The resolved coordinate along one axis: where the start (left or top)
/// edge of a block of the given measured extent lands.
pub open spec fn resolved_axis(align: AxisAlign, measured: int, surface_px: int) -> int {
    match align {
        AxisAlign::StartAt(v) => v as int,
        AxisAlign::EndAt(v) => v - measured,
        AxisAlign::CenterAt(v) => v - measured / 2,
        AxisAlign::CenterAtCanvasCenter => surface_px * (SUBPIXELS as int / 2) - measured / 2,
    }
}

/// Resolves one axis of a block position.
///
/// `measured` is the block's measured extent along this axis and
/// `surface_px` the surface's size along it, in whole pixels.
pub fn resolve_axis(align: AxisAlign, measured: i64, surface_px: u32) -> (r: i64)
    requires
        axis_align_bounded(align),
        0 <= measured <= MAX_COORD,
    ensures
        r == resolved_axis(align, measured as int, surface_px as int),
{
    match align {
        AxisAlign::StartAt(v) => v,
        AxisAlign::EndAt(v) => v - measured,
        AxisAlign::CenterAt(v) => v - measured / 2,
        AxisAlign::CenterAtCanvasCenter => (surface_px as i64) * (SUBPIXELS / 2) - measured / 2,
    }
}

/// Resolves both axes of a block position: x against the measured width and
/// the surface width, y against the measured height and the surface height.
pub fn resolve_position(
    position: TextBlockPosition,
    measured_width: i64,
    measured_height: i64,
    surface_width: u32,
    surface_height: u32,
) -> (r: (i64, i64))
    requires
        axis_align_bounded(position.x),
        axis_align_bounded(position.y),
        0 <= measured_width <= MAX_COORD,
        0 <= measured_height <= MAX_COORD,
    ensures
        r.0 == resolved_axis(position.x, measured_width as int, surface_width as int),
        r.1 == resolved_axis(position.y, measured_height as int, surface_height as int),
{
    let x = resolve_axis(position.x, measured_width, surface_width);
    let y = resolve_axis(position.y, measured_height, surface_height);
    (x, y)
}

/// An anchor value forced into the range the resolver accepts.
pub open spec fn clamped_anchor(v: i64) -> i64 {
    if v < -MAX_COORD {
        (-MAX_COORD) as i64
    } else if v > MAX_COORD {
        MAX_COORD
    } else {
        v
    }
}

/// The alignment with its anchor value forced into the range the resolver
/// accepts; an alignment already within bounds is kept as it is.
pub fn bounded_axis(align: AxisAlign) -> (r: AxisAlign)
    ensures
        axis_align_bounded(r),
        r == match align {
            AxisAlign::StartAt(v) => AxisAlign::StartAt(clamped_anchor(v)),
            AxisAlign::EndAt(v) => AxisAlign::EndAt(clamped_anchor(v)),
            AxisAlign::CenterAt(v) => AxisAlign::CenterAt(clamped_anchor(v)),
            AxisAlign::CenterAtCanvasCenter => AxisAlign::CenterAtCanvasCenter,
        },
        axis_align_bounded(align) ==> r == align,
{
    match align {
        AxisAlign::StartAt(v) => AxisAlign::StartAt(clamp_anchor(v)),
        AxisAlign::EndAt(v) => AxisAlign::EndAt(clamp_anchor(v)),
        AxisAlign::CenterAt(v) => AxisAlign::CenterAt(clamp_anchor(v)),
        AxisAlign::CenterAtCanvasCenter => AxisAlign::CenterAtCanvasCenter,
    }
}

/// Both axes of a position forced into the range the resolver accepts.
pub fn bounded_position(position: TextBlockPosition) -> (r: TextBlockPosition)
    ensures
        axis_align_bounded(r.x),
        axis_align_bounded(r.y),
        axis_align_bounded(position.x) && axis_align_bounded(position.y) ==> r == position,
{
    TextBlockPosition { x: bounded_axis(position.x), y: bounded_axis(position.y) }
}

fn clamp_anchor(v: i64) -> (r: i64)
    ensures
        r == clamped_anchor(v),
{
    if v < -MAX_COORD {
        -MAX_COORD
    } else if v > MAX_COORD {
        MAX_COORD
    } else {
        v
    }
}

/// Measures a shaped layout and resolves both axes of a block position
/// against it: the origin at which compositing begins.
pub fn place_layout(
    position: TextBlockPosition,
    layout: &ShapedLayout,
    surface_width: u32,
    surface_height: u32,
) -> (r: (i64, i64))
    requires
        layout.wf(),
        axis_align_bounded(position.x),
        axis_align_bounded(position.y),
    ensures
        r.0 == resolved_axis(position.x, max_run_width(layout.run_widths@), surface_width as int),
        r.1 == resolved_axis(position.y, total_height(*layout), surface_height as int),
{
    let w = measured_width(layout);
    let h = measured_height(layout);
    resolve_position(position, w, h, surface_width, surface_height)
}

/// Centering on the canvas puts the block's start edge at half the
/// difference between the surface extent and the measured extent: for an
/// extent of even fixed-point parity the resolved coordinate is exactly
/// `(surface - measured) / 2`.
pub proof fn lemma_center_at_canvas_center(measured: int, surface_px: int)
    requires
        0 <= measured,
        0 <= surface_px,
        measured % 2 == 0,
    ensures
        resolved_axis(AxisAlign::CenterAtCanvasCenter, measured, surface_px)
            == (surface_px * SUBPIXELS - measured) / 2,
{
    let s = surface_px * SUBPIXELS as int;
    assert(s == 2 * (surface_px * 32));
    assert(s % 2 == 0) by (nonlinear_arith)
        requires s == 2 * (surface_px * 32);
    assert((s - measured) / 2 == s / 2 - measured / 2) by (nonlinear_arith)
        requires s % 2 == 0 && measured % 2 == 0;
    assert(s / 2 == surface_px * 32) by (nonlinear_arith)
        requires s == 2 * (surface_px * 32);
}

/// An `EndAt(v)` alignment puts the block's end edge at `v`: the resolved
/// start coordinate is `v` minus the measured extent. A `StartAt(v)`
/// alignment puts the start edge at `v` itself, whatever the extent.
pub proof fn lemma_start_end_resolution(v: i64, measured: int, surface_px: int)
    ensures
        resolved_axis(AxisAlign::EndAt(v), measured, surface_px) == v - measured,
        resolved_axis(AxisAlign::StartAt(v), measured, surface_px) == v,
{
}

} // verus!
