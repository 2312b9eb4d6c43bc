//! Pixel grids as plain bytes, and the compositing of a base image with its
//! mask.
//!
//! Samples are stored row by row, the samples of one pixel side by side:
//! pixel `(x, y)` of a grid `width` wide is pixel number `y * width + x`.

use vstd::prelude::*;

verus! {

/// What a raster is in contracts: its dimensions and its samples in storage
/// order.
pub struct RasterView {
    pub width: nat,
    pub height: nat,
    pub samples: Seq<u8>,
}

impl RasterView {
    /// Whether there are exactly `channels` samples for each pixel.
    pub open spec fn is_packed(self, channels: nat) -> bool {
        self.samples.len() == channels * self.width * self.height
    }

    /// The position of pixel `(x, y)` in the row-by-row order.
    pub open spec fn pixel_index(self, x: int, y: int) -> int {
        y * self.width + x
    }

    /// Channel `channel` (red, green, blue, alpha: 0 to 3) of pixel `(x, y)`,
    /// where the raster holds four samples per pixel.
    pub open spec fn rgba_at(self, x: int, y: int, channel: int) -> u8 {
        self.samples[4 * self.pixel_index(x, y) + channel]
    }

    /// The sample of pixel `(x, y)`, where the raster holds one per pixel.
    pub open spec fn luma_at(self, x: int, y: int) -> u8 {
        self.samples[self.pixel_index(x, y)]
    }
}

/// An image of 8-bit red, green, blue and alpha samples.
#[derive(Debug, PartialEq, Eq)]
pub struct RgbaRaster {
    pub width: u32,
    pub height: u32,
    /// Four bytes per pixel.
    pub data: Vec<u8>,
}

/// An image of 8-bit luminance samples.
#[derive(Debug, PartialEq, Eq)]
pub struct LumaRaster {
    pub width: u32,
    pub height: u32,
    /// One byte per pixel.
    pub data: Vec<u8>,
}

impl View for RgbaRaster {
    type V = RasterView;

    open spec fn view(&self) -> RasterView {
        RasterView { width: self.width as nat, height: self.height as nat, samples: self.data@ }
    }
}

impl View for LumaRaster {
    type V = RasterView;

    open spec fn view(&self) -> RasterView {
        RasterView { width: self.width as nat, height: self.height as nat, samples: self.data@ }
    }
}

impl RgbaRaster {
    /// Whether `data` holds exactly the pixels that the dimensions announce.
    pub open spec fn is_packed(&self) -> bool {
        self@.is_packed(4)
    }
}

impl LumaRaster {
    /// Whether `data` holds exactly the pixels that the dimensions announce.
    pub open spec fn is_packed(&self) -> bool {
        self@.is_packed(1)
    }
}

/// The samples of `base` with the alpha of its n-th pixel replaced by the
/// n-th sample of `luma`, for as many pixels as both have.
pub open spec fn composite_samples(base: Seq<u8>, luma: Seq<u8>) -> Seq<u8> {
    Seq::new(
        base.len(),
        |k: int|
            if k % 4 == 3 && k / 4 < luma.len() {
                luma[k / 4]
            } else {
                base[k]
            },
    )
}

/// The base image with the mask's luminance as its alpha channel.
///
/// Pixels are paired in storage order. Where the mask has fewer pixels than
/// the base, the pixels past its end keep their alpha; where it has more, the
/// rest of the mask is ignored.
pub open spec fn composite_view(base: RasterView, mask: RasterView) -> RasterView {
    RasterView {
        width: base.width,
        height: base.height,
        samples: composite_samples(base.samples, mask.samples),
    }
}

/// Lays the mask over the base image: every pixel keeps its red, green and
/// blue and takes the mask's luminance as alpha.
pub fn composite(base: &RgbaRaster, mask: &LumaRaster) -> (out: RgbaRaster)
    ensures
        out@ == composite_view(base@, mask@),
        base.is_packed() ==> out.is_packed(),
{
    let mut data = base.data.clone();
    let base_pixels: usize = base.data.len() / 4;
    let pixels: usize = if base_pixels < mask.data.len() {
        base_pixels
    } else {
        mask.data.len()
    };
    let mut p: usize = 0;
    while p < pixels
        invariant
            p <= pixels,
            pixels <= base.data@.len() / 4,
            pixels <= mask.data@.len(),
            data@.len() == base.data@.len(),
            data@.len() <= usize::MAX,
            forall|k: int|
                0 <= k < data@.len() ==> data@[k] == if k % 4 == 3 && k / 4 < p {
                    mask.data@[k / 4]
                } else {
                    base.data@[k]
                },
        decreases pixels - p,
    {
        data.set(4 * p + 3, mask.data[p]);
        p += 1;
    }
    assert(data@ =~= composite_samples(base.data@, mask.data@));
    RgbaRaster { width: base.width, height: base.height, data }
}

/// Whether pixel `(x, y)` of `out` has the red, green and blue of that pixel
/// of `base`, and as alpha the luminance of that pixel of `mask`.
pub open spec fn is_masked_at(
    out: RasterView,
    base: RasterView,
    mask: RasterView,
    x: int,
    y: int,
) -> bool {
    &&& out.rgba_at(x, y, 0) == base.rgba_at(x, y, 0)
    &&& out.rgba_at(x, y, 1) == base.rgba_at(x, y, 1)
    &&& out.rgba_at(x, y, 2) == base.rgba_at(x, y, 2)
    &&& out.rgba_at(x, y, 3) == mask.luma_at(x, y)
}

/// One pixel of a composite of equal dimensions: alpha is the mask's
/// luminance there, the colour channels are the base image's.
pub proof fn lemma_composite_pixel(base: RasterView, mask: RasterView, x: int, y: int)
    requires
        base.is_packed(4),
        mask.is_packed(1),
        base.width == mask.width,
        base.height == mask.height,
        0 <= x < base.width,
        0 <= y < base.height,
    ensures
        is_masked_at(composite_view(base, mask), base, mask, x, y),
{
    let p = base.pixel_index(x, y);
    let pixels = base.width * base.height;
    assert(0 <= p < pixels) by (nonlinear_arith)
        requires
            p == y * base.width + x,
            pixels == base.width * base.height,
            0 <= x < base.width,
            0 <= y < base.height,
    ;
    assert(base.samples.len() == 4 * pixels) by (nonlinear_arith)
        requires
            base.samples.len() == 4 * base.width * base.height,
            pixels == base.width * base.height,
    ;
    assert(mask.samples.len() == pixels) by (nonlinear_arith)
        requires
            mask.samples.len() == 1 * mask.width * mask.height,
            pixels == mask.width * mask.height,
    ;
}

/// Where base and mask have the same dimensions, the alpha of every pixel of
/// the composite is the mask's luminance at that pixel, and its red, green
/// and blue are the base image's.
pub proof fn lemma_composite_equal_dimensions(base: RasterView, mask: RasterView)
    requires
        base.is_packed(4),
        mask.is_packed(1),
        base.width == mask.width,
        base.height == mask.height,
    ensures
        composite_view(base, mask).is_packed(4),
        forall|x: int, y: int|
            0 <= x < base.width && 0 <= y < base.height ==> #[trigger] is_masked_at(
                composite_view(base, mask),
                base,
                mask,
                x,
                y,
            ),
{
    assert forall|x: int, y: int|
        0 <= x < base.width && 0 <= y < base.height implies #[trigger] is_masked_at(
        composite_view(base, mask),
        base,
        mask,
        x,
        y,
    ) by {
        lemma_composite_pixel(base, mask, x, y);
    }
}

} // verus!
