//! The compositor: walks positioned glyphs in run order, fetches each
//! glyph's rasterized bitmap from the external rasterizer cache, turns a
//! coverage mask into an RGBA patch tinted by the span color (a pre-colored
//! bitmap is used verbatim), and overlays the patch onto the destination
//! surface. A glyph without a bitmap, or with a bitmap whose bytes do not
//! cover its placement, is skipped: no condition here is fatal.

use vstd::prelude::*;

use crate::style::Color;
use crate::surface::{overlay_of, overlay_patch, Surface};

verus! {

/// What a rasterized glyph's pixel bytes hold.
#[derive(Debug, Copy, Clone, PartialEq, Eq, Structural)]
pub enum GlyphContent {
    /// A single-channel coverage mask: one byte per pixel.
    Mask,
    /// A subpixel coverage mask; composited like a plain mask.
    SubpixelMask,
    /// A pre-rendered RGBA bitmap, such as an emoji: four bytes per pixel.
    Color,
}

/// A rasterized glyph: its placement relative to the glyph origin (left
/// and top bearing, width and height) and its pixel bytes.
#[derive(Debug, Clone, PartialEq)]
pub struct GlyphImage {
    /// Left bearing, in pixels.
    pub left: i32,
    /// Top bearing, in pixels.
    pub top: i32,
    /// Bitmap width, in pixels.
    pub width: u32,
    /// Bitmap height, in pixels.
    pub height: u32,
    /// What the bytes hold.
    pub content: GlyphContent,
    /// The pixel bytes.
    pub data: Vec<u8>,
}

impl GlyphImage {
    /// Holds when the bitmap's bytes cover its placement: one byte per
    /// pixel for a mask, four for a pre-colored bitmap. A bitmap for which
    /// this fails is skipped rather than drawn.
    pub open spec fn drawable(self) -> bool {
        match self.content {
            GlyphContent::Mask | GlyphContent::SubpixelMask => {
                &&& self.data@.len() == (self.width as int) * (self.height as int)
                &&& 4 * self.data@.len() <= usize::MAX
            },
            GlyphContent::Color => self.data@.len() == 4 * (self.width as int) * (
            self.height as int),
        }
    }
}

/// The span color a mask is tinted with: the glyph's own color override,
/// or opaque white.
pub open spec fn color_or_white(color: Option<Color>) -> Color {
    match color {
        Some(c) => c,
        None => Color { r: 255, g: 255, b: 255, a: 255 },
    }
}

/// The RGBA bytes of a coverage mask tinted by a color: every pixel takes
/// the color's red, green and blue channels, and the mask's coverage value
/// as its alpha, preserving antialiasing.
pub open spec fn tinted(mask: Seq<u8>, c: Color) -> Seq<u8> {
    Seq::new(
        4 * mask.len(),
        |i: int|
            if i % 4 == 0 {
                c.r
            } else if i % 4 == 1 {
                c.g
            } else if i % 4 == 2 {
                c.b
            } else {
                mask[i / 4]
            },
    )
}

/// The RGBA patch a drawable glyph bitmap contributes: a mask is tinted by
/// the span color, a pre-colored bitmap is used verbatim.
pub open spec fn glyph_patch(img: GlyphImage, color: Option<Color>) -> Seq<u8> {
    match img.content {
        GlyphContent::Mask | GlyphContent::SubpixelMask => tinted(
            img.data@,
            color_or_white(color),
        ),
        GlyphContent::Color => img.data@,
    }
}

/// Builds the RGBA patch of a coverage mask tinted by a color.
pub fn tint_mask(mask: &Vec<u8>, color: Color) -> (patch: Vec<u8>)
    requires
        4 * mask@.len() <= usize::MAX,
    ensures
        patch@ == tinted(mask@, color),
{
    let mut patch: Vec<u8> = Vec::new();
    let n = mask.len();
    for i in 0..n
        invariant
            n == mask@.len(),
            4 * mask@.len() <= usize::MAX,
            patch@.len() == 4 * i,
            forall|j: int| 0 <= j < patch@.len() ==> patch@[j] == tinted(mask@, color)[j],
    {
        patch.push(color.r);
        patch.push(color.g);
        patch.push(color.b);
        patch.push(mask[i]);
    }
    proof {
        assert(patch@ =~= tinted(mask@, color));
    }
    patch
}

/// Composites one rasterized glyph onto the surface.
///
/// The glyph's drawing origin subtracts the bitmap's bearings from the
/// physical pen position: the patch lands at `pen_x + left` horizontally
/// and at the run's baseline `line_y` plus the vertical pen offset minus
/// the top bearing. A bitmap whose bytes do not cover its placement is
/// skipped and the surface is untouched.
pub fn composite_glyph(
    surface: &mut Surface,
    pen_x: i32,
    pen_y: i32,
    line_y: i32,
    glyph: &GlyphImage,
    color: Option<Color>,
)
    requires
        old(surface).wf(),
    ensures
        final(surface).wf(),
        final(surface).width == old(surface).width,
        final(surface).height == old(surface).height,
        glyph.drawable() ==> final(surface).data@ == overlay_of(
            old(surface).data@,
            old(surface).width as int,
            old(surface).height as int,
            glyph_patch(*glyph, color),
            glyph.width as int,
            glyph.height as int,
            pen_x as int + glyph.left as int,
            line_y as int + pen_y as int - glyph.top as int,
        ),
        !glyph.drawable() ==> *final(surface) == *old(surface),
{
    let gx: i64 = pen_x as i64 + glyph.left as i64;
    let gy: i64 = line_y as i64 + pen_y as i64 - glyph.top as i64;
    let w128 = glyph.width as u128;
    let h128 = glyph.height as u128;
    proof {
        assert(w128 * h128 <= 0xffff_ffff * 0xffff_ffff && 4 * (w128 * h128) == 4 * w128 * h128)
            by (nonlinear_arith)
            requires
                0 <= w128 <= 0xffff_ffff,
                0 <= h128 <= 0xffff_ffff,
        ;
    }
    match glyph.content {
        GlyphContent::Mask | GlyphContent::SubpixelMask => {
            if glyph.data.len() as u128 == w128 * h128 && 4 * (glyph.data.len() as u128)
                <= usize::MAX as u128 {
                let c = match color {
                    Some(c) => c,
                    None => Color::white(),
                };
                let patch = tint_mask(&glyph.data, c);
                proof {
                    assert(4 * ((glyph.width as int) * (glyph.height as int)) == 4 * (
                    glyph.width as int) * (glyph.height as int)) by (nonlinear_arith);
                }
                overlay_patch(surface, &patch, glyph.width, glyph.height, gx, gy);
            }
        },
        GlyphContent::Color => {
            if glyph.data.len() as u128 == 4 * w128 * h128 {
                overlay_patch(surface, &glyph.data, glyph.width, glyph.height, gx, gy);
            }
        },
    }
}

/// One laid-out glyph, placed in physical pixel space: the pen position
/// the shaping engine resolved for it, the key its rasterized form is
/// cached under, and the span's color override, if any.
#[derive(Debug)]
pub struct PlacedGlyph {
    /// Horizontal pen position, in pixels.
    pub x: i32,
    /// Vertical pen offset relative to the run's baseline, in pixels.
    pub y: i32,
    /// The rasterizer cache key of the glyph's rendered form.
    pub cache_key: cosmic_text::CacheKey,
    /// The span's color, when the block mixes colors.
    pub color: Option<Color>,
}

/// One layout run: a baseline and its positioned glyphs, in order.
#[derive(Debug)]
pub struct GlyphRun {
    /// The run's baseline y coordinate, rounded to whole pixels.
    pub line_y: i32,
    /// The run's glyphs, in visual order.
    pub glyphs: Vec<PlacedGlyph>,
}

/// Relies on `cosmic_text::SwashCache::get_image`: returns the rasterized
/// form of the glyph behind the key, rasterizing and caching it on a miss,
/// or `None` when the glyph has no visual representation.
#[verifier::external_body]
fn glyph_image(
    cache: &mut cosmic_text::SwashCache,
    font_system: &mut cosmic_text::FontSystem,
    cache_key: &cosmic_text::CacheKey,
) -> (r: Option<GlyphImage>)
{
    let image = match cache.get_image(font_system, *cache_key) {
        Some(i) => i,
        None => return None,
    };
    let content = match image.content {
        cosmic_text::SwashContent::Mask => GlyphContent::Mask,
        cosmic_text::SwashContent::SubpixelMask => GlyphContent::SubpixelMask,
        cosmic_text::SwashContent::Color => GlyphContent::Color,
    };
    let p = image.placement;
    Some(GlyphImage { left: p.left, top: p.top, width: p.width, height: p.height, content, data: image.data.clone() })
}

/// Composites every glyph of every run, in run order then glyph order,
/// onto the surface; later glyphs simply overlay earlier ones. Glyphs
/// without a rasterized form are skipped. A layout without glyphs leaves
/// the surface untouched.
pub fn composite_runs(
    font_system: &mut cosmic_text::FontSystem,
    cache: &mut cosmic_text::SwashCache,
    surface: &mut Surface,
    runs: &Vec<GlyphRun>,
)
    requires
        old(surface).wf(),
    ensures
        final(surface).wf(),
        final(surface).width == old(surface).width,
        final(surface).height == old(surface).height,
        (forall|k: int| 0 <= k < runs@.len() ==> (#[trigger] runs@[k].glyphs@.len()) == 0)
            ==> final(surface).data@ == old(surface).data@,
{
    let nr = runs.len();
    for ri in 0..nr
        invariant
            nr == runs@.len(),
            surface.wf(),
            surface.width == old(surface).width,
            surface.height == old(surface).height,
            (forall|k: int| 0 <= k < runs@.len() ==> (#[trigger] runs@[k].glyphs@.len()) == 0)
                ==> surface.data@ == old(surface).data@,
    {
        let run = &runs[ri];
        let ng = run.glyphs.len();
        for gi in 0..ng
            invariant
                nr == runs@.len(),
                ri < nr,
                *run == runs@[ri as int],
                ng == run.glyphs@.len(),
                surface.wf(),
                surface.width == old(surface).width,
                surface.height == old(surface).height,
                (forall|k: int| 0 <= k < runs@.len() ==> (#[trigger] runs@[k].glyphs@.len()) == 0)
                    ==> surface.data@ == old(surface).data@,
        {
            let g = &run.glyphs[gi];
            let img = glyph_image(cache, font_system, &g.cache_key);
            match img {
                None => {},
                Some(img) => {
                    composite_glyph(surface, g.x, g.y, run.line_y, &img, g.color);
                },
            }
        }
    }
}

} // verus!
