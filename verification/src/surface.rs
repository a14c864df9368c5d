//! The destination surface: RGBA pixel storage with an alpha-compositing
//! overlay primitive. The pixel bytes are plain data, row-major, four bytes
//! per pixel; the blending itself is delegated to the `image` crate.

use vstd::prelude::*;

verus! {

/// An RGBA raster surface: `data` holds `4 * width * height` bytes,
/// row-major, one `r, g, b, a` quadruple per pixel.
#[derive(Debug, Clone, PartialEq)]
pub struct Surface {
    /// Width in pixels.
    pub width: u32,
    /// Height in pixels.
    pub height: u32,
    /// The pixel bytes.
    pub data: Vec<u8>,
}

impl Surface {
    /// Well-formedness: the byte buffer covers the pixel grid exactly.
    pub open spec fn wf(self) -> bool {
        self.data@.len() == 4 * (self.width as int) * (self.height as int)
    }

    /// A fully transparent surface of the given size.
    pub fn new(width: u32, height: u32) -> (s: Surface)
        requires
            4 * (width as int) * (height as int) <= usize::MAX,
        ensures
            s.wf(),
            s.width == width,
            s.height == height,
            forall|i: int| 0 <= i < s.data@.len() ==> s.data@[i] == 0,
    {
        proof {
            assert((width as int) * (height as int) <= usize::MAX) by (nonlinear_arith)
                requires
                    4 * (width as int) * (height as int) <= usize::MAX,
                    width >= 0,
                    height >= 0,
            ;
        }
        let pixels: usize = (width as usize) * (height as usize);
        proof {
            assert(4 * (pixels as int) <= usize::MAX && 4 * (pixels as int) == 4 * (width as int)
                * (height as int)) by (nonlinear_arith)
                requires
                    pixels == (width as int) * (height as int),
                    4 * (width as int) * (height as int) <= usize::MAX,
            ;
        }
        let n: usize = 4 * pixels;
        let mut data: Vec<u8> = Vec::new();
        while data.len() < n
            invariant
                data@.len() <= n,
                forall|i: int| 0 <= i < data@.len() ==> data@[i] == 0,
            decreases n - data@.len(),
        {
            data.push(0);
        }
        Surface { width, height, data }
    }
}

/// The pixel bytes that result from alpha-compositing (source-over) a
/// `top_w` by `top_h` RGBA patch onto a `dst_w` by `dst_h` RGBA buffer with
/// the patch's top-left corner at `(x, y)`, clipped to the buffer's bounds.
pub uninterp spec fn overlay_of(
    dst: Seq<u8>,
    dst_w: int,
    dst_h: int,
    top: Seq<u8>,
    top_w: int,
    top_h: int,
    x: int,
    y: int,
) -> Seq<u8>;

/// Relies on `image::imageops::overlay`: alpha-composites (source-over) the
/// top image onto the bottom image at `(x, y)`, clipping any portion
/// outside the bottom image's bounds; the bottom image keeps its
/// dimensions, and an empty top image changes nothing.
#[verifier::external_body]
pub(crate) fn overlay_patch(dst: &mut Surface, top: &Vec<u8>, top_w: u32, top_h: u32, x: i64, y: i64)
    requires
        old(dst).wf(),
        top@.len() == 4 * (top_w as int) * (top_h as int),
    ensures
        final(dst).width == old(dst).width,
        final(dst).height == old(dst).height,
        final(dst).data@.len() == old(dst).data@.len(),
        final(dst).data@ == overlay_of(
            old(dst).data@,
            old(dst).width as int,
            old(dst).height as int,
            top@,
            top_w as int,
            top_h as int,
            x as int,
            y as int,
        ),
        top_w == 0 || top_h == 0 ==> final(dst).data@ == old(dst).data@,
{
    let taken = std::mem::take(&mut dst.data);
    let mut bottom = image::RgbaImage::from_raw(dst.width, dst.height, taken).unwrap();
    let patch = image::RgbaImage::from_raw(top_w, top_h, top.clone()).unwrap();
    image::imageops::overlay(&mut bottom, &patch, x, y);
    dst.data = bottom.into_raw();
}

} // verus!
