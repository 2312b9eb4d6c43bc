//! The boundary to the `image` crate, which converts decoded images between
//! pixel formats.
//!
//! Nothing in this file is proved. Each function makes one call into the
//! crate, and its contract says of the call only that equal arguments give
//! equal results, under a name, and what the crate's buffers guarantee of
//! their size.
//!
//! Decoding is not among them. The crate's decoders panic on some files, and
//! which files those are cannot be told from the bytes short of decoding
//! them, so no contract could leave them out: the caller decodes, and hands
//! over what came back.

use crate::raster::{LumaRaster, RgbaRaster};
use image::{DynamicImage, GenericImageView, ImageError};
use vstd::prelude::*;

verus! {

/// `image::DynamicImage`, a decoded image in whichever pixel format its file
/// had. Opaque here: it is read only through the functions below.
#[verifier::external_type_specification]
#[verifier::external_body]
pub struct ExDynamicImage(DynamicImage);

/// `image::ImageError`, the reason a decoder gives up. Opaque here: it is
/// only passed on.
#[verifier::external_type_specification]
#[verifier::external_body]
pub struct ExImageError(ImageError);

/// Width and height of an image, as `DynamicImage::dimensions` gives them.
pub uninterp spec fn dimensions_of(image: DynamicImage) -> (u32, u32);

/// The samples of the copy that `DynamicImage::to_rgba` makes of an image:
/// red, green, blue and alpha of each pixel, row by row.
pub uninterp spec fn rgba_samples(image: DynamicImage) -> Seq<u8>;

/// The samples of the copy that `DynamicImage::to_luma` makes of an image:
/// the luminance of each pixel, row by row.
pub uninterp spec fn luma_samples(image: DynamicImage) -> Seq<u8>;

/// Whether the crate can ask for a copy of an image at `channels` bytes per
/// pixel.
///
/// It works the length of the copy out in `usize`, the bytes of one row
/// first and then the rows, so a row must fit even where there are no rows;
/// and the whole must be of a size that a `Vec` can have.
pub open spec fn fits(image: DynamicImage, channels: nat) -> bool {
    &&& channels * dimensions_of(image).0 <= usize::MAX
    &&& channels * dimensions_of(image).0 * dimensions_of(image).1 <= isize::MAX
}

/// `Clone::clone` of `DynamicImage`, which the crate derives: it copies the
/// pixel buffer and the dimensions. Trusted: the copy is the same image.
pub assume_specification[ <DynamicImage as Clone>::clone ](image: &DynamicImage) -> (copy:
    DynamicImage)
    ensures
        copy == *image,
;

/// `DynamicImage::dimensions`, which returns the width and height stored in
/// the image's buffer. Trusted: they depend on the image alone.
#[verifier::external_body]
pub(crate) fn dimensions(image: &DynamicImage) -> (d: (u32, u32))
    ensures
        d == dimensions_of(*image),
{
    image.dimensions()
}

/// `DynamicImage::to_rgba`, which allocates a buffer of the image's
/// dimensions with four bytes per pixel and converts each pixel into it. It
/// panics if the length of a row or of the whole overflows `usize`, or if
/// the whole is more than a `Vec` can hold. Trusted: the copy has the
/// dimensions of the image and exactly four bytes per pixel, and its samples
/// depend on the image alone.
#[verifier::external_body]
pub(crate) fn to_rgba(image: &DynamicImage) -> (raster: RgbaRaster)
    requires
        fits(*image, 4),
    ensures
        raster.width == dimensions_of(*image).0,
        raster.height == dimensions_of(*image).1,
        raster.data@ == rgba_samples(*image),
        raster.is_packed(),
{
    let buffer = image.to_rgba();
    RgbaRaster { width: buffer.width(), height: buffer.height(), data: buffer.into_raw() }
}

/// `DynamicImage::to_luma`, which allocates a buffer of the image's
/// dimensions with one byte per pixel and converts each pixel into it. It
/// panics if the length of a row or of the whole overflows `usize`, or if
/// the whole is more than a `Vec` can hold. Trusted: the copy has the
/// dimensions of the image and exactly one byte per pixel, and its samples
/// depend on the image alone.
#[verifier::external_body]
pub(crate) fn to_luma(image: &DynamicImage) -> (raster: LumaRaster)
    requires
        fits(*image, 1),
    ensures
        raster.width == dimensions_of(*image).0,
        raster.height == dimensions_of(*image).1,
        raster.data@ == luma_samples(*image),
        raster.is_packed(),
{
    let buffer = image.to_luma();
    LumaRaster { width: buffer.width(), height: buffer.height(), data: buffer.into_raw() }
}

} // verus!
