//! The container: a file's bytes taken apart, and the two decoded images
//! held together with the footer.
//!
//! Loading a file takes three steps. [`split`] finds the bytes of the base
//! image and of the mask. The caller has each decoded. [`Jpng::from_decoded`]
//! makes the container of what the decoder returned.

use crate::codec::{
    dimensions, dimensions_of, fits, luma_samples, rgba_samples, to_luma, to_rgba,
};
use crate::error::JpngError;
use crate::footer::{lemma_parse_encode, JpngFooter, FOOTER_SIZE};
use crate::raster::{
    composite, composite_view, is_masked_at, lemma_composite_equal_dimensions, RasterView,
    RgbaRaster,
};
use image::{DynamicImage, ImageError};
use vstd::prelude::*;
use vstd::slice::slice_subrange;

verus! {

/// What [`Sections`] is in contracts.
pub struct SectionsView {
    pub footer: JpngFooter,
    pub image: Seq<u8>,
    pub mask: Seq<u8>,
}

/// The parts of a container file: its footer, and the bytes of the two
/// encoded images as the footer delimits them.
#[derive(Debug)]
pub struct Sections<'a> {
    pub footer: JpngFooter,
    pub image: &'a [u8],
    pub mask: &'a [u8],
}

impl<'a> View for Sections<'a> {
    type V = SectionsView;

    open spec fn view(&self) -> SectionsView {
        SectionsView { footer: self.footer, image: self.image@, mask: self.mask@ }
    }
}

/// How a file's bytes divide, or why they do not.
///
/// The footer is the last [`FOOTER_SIZE`] bytes, and something has to come
/// before it. The base image is the first `image_size` bytes and the mask the
/// `mask_size` bytes after those; both have to lie within the file.
pub open spec fn sections_of(contents: Seq<u8>) -> Result<SectionsView, JpngError> {
    if contents.len() <= FOOTER_SIZE {
        Err(JpngError::InvalidImage)
    } else {
        let footer_start = contents.len() - FOOTER_SIZE;
        match JpngFooter::parse(contents.subrange(footer_start, contents.len() as int)) {
            Err(e) => Err(e),
            Ok(footer) => if footer.image_size + footer.mask_size > contents.len() {
                Err(JpngError::InvalidImage)
            } else {
                Ok(
                    SectionsView {
                        footer,
                        image: contents.subrange(0, footer.image_size as int),
                        mask: contents.subrange(
                            footer.image_size as int,
                            footer.image_size + footer.mask_size,
                        ),
                    },
                )
            },
        }
    }
}

/// Takes a container file's bytes apart without decoding anything.
pub fn split<'a>(contents: &'a [u8]) -> (r: Result<Sections<'a>, JpngError>)
    ensures
        r matches Ok(sections) ==> sections_of(contents@) == Ok::<SectionsView, JpngError>(
            sections@,
        ),
        r matches Err(e) ==> sections_of(contents@) == Err::<SectionsView, JpngError>(e),
        contents@.len() <= FOOTER_SIZE ==> r matches Err(JpngError::InvalidImage),
        r matches Ok(sections) ==> sections.footer.is_valid(),
        r matches Err(e) ==> e == JpngError::InvalidImage,
{
    let len: usize = contents.len();
    if len <= FOOTER_SIZE {
        return Err(JpngError::InvalidImage);
    }
    let footer = match JpngFooter::new(slice_subrange(contents, len - FOOTER_SIZE, len)) {
        Ok(footer) => footer,
        Err(e) => {
            return Err(e);
        },
    };
    if footer.image_size as u64 + footer.mask_size as u64 > len as u64 {
        return Err(JpngError::InvalidImage);
    }
    let image_range = footer.image_range();
    let mask_range = footer.mask_range();
    Ok(
        Sections {
            footer,
            image: slice_subrange(contents, image_range.start, image_range.end),
            mask: slice_subrange(contents, mask_range.start, mask_range.end),
        },
    )
}

/// A file laid out as the format says divides into the parts it was made of:
/// the base image's bytes, then the mask's, then the footer that states the
/// length of each.
///
/// The two parts may not both be empty: a file that is a footer and nothing
/// else is rejected.
pub proof fn lemma_sections_of_file(image: Seq<u8>, mask: Seq<u8>, footer: JpngFooter)
    requires
        footer.is_valid(),
        footer.image_size == image.len(),
        footer.mask_size == mask.len(),
        image.len() + mask.len() > 0,
    ensures
        sections_of(image + mask + footer.encode()) == Ok::<SectionsView, JpngError>(
            SectionsView { footer, image, mask },
        ),
{
    let contents = image + mask + footer.encode();
    lemma_parse_encode(footer);
    assert(contents.subrange(contents.len() - FOOTER_SIZE, contents.len() as int)
        =~= footer.encode());
    assert(contents.subrange(0, footer.image_size as int) =~= image);
    assert(contents.subrange(footer.image_size as int, footer.image_size + footer.mask_size)
        =~= mask);
}

/// A loaded container: the decoded base image, the decoded mask, and the
/// footer they came with.
pub struct Jpng {
    image: DynamicImage,
    mask: DynamicImage,
    pub footer: JpngFooter,
}

impl Clone for Jpng {
    fn clone(&self) -> (copy: Self)
        ensures
            copy == *self,
    {
        Jpng { image: self.image.clone(), mask: self.mask.clone(), footer: self.footer }
    }
}

impl Jpng {
    /// The decoded base image.
    pub closed spec fn spec_image(&self) -> DynamicImage {
        self.image
    }

    /// The decoded mask.
    pub closed spec fn spec_mask(&self) -> DynamicImage {
        self.mask
    }

    /// The value of the field `footer`.
    pub closed spec fn spec_footer(&self) -> JpngFooter {
        self.footer
    }

    /// Whether `r` is what the last step of loading gives: where the decoder
    /// made an image of both parts, the container that holds them and the
    /// footer; else the error of the first part that it gave up on, handed
    /// on as it is.
    pub open spec fn assembles_to(
        footer: JpngFooter,
        image: Result<DynamicImage, ImageError>,
        mask: Result<DynamicImage, ImageError>,
        r: Result<Jpng, ImageError>,
    ) -> bool {
        match (image, mask) {
            (Ok(image), Ok(mask)) => {
                &&& r matches Ok(jpng)
                &&& jpng.spec_footer() == footer
                &&& jpng.spec_image() == image
                &&& jpng.spec_mask() == mask
            },
            (Err(e), _) => r matches Err(reason) && reason == e,
            (Ok(_), Err(e)) => r matches Err(reason) && reason == e,
        }
    }

    /// The last step of loading: the container that holds what the decoder
    /// made of the two parts that [`split`] found, or the error of the first
    /// part that it gave up on.
    pub fn from_decoded(
        footer: JpngFooter,
        image: Result<DynamicImage, ImageError>,
        mask: Result<DynamicImage, ImageError>,
    ) -> (r: Result<Jpng, ImageError>)
        ensures
            Self::assembles_to(footer, image, mask, r),
    {
        match image {
            Err(e) => Err(e),
            Ok(image) => match mask {
                Err(e) => Err(e),
                Ok(mask) => Ok(Jpng { image, mask, footer }),
            },
        }
    }

    /// The footer the container was loaded with, for callers that cannot
    /// read the field in a contract.
    pub fn footer(&self) -> (footer: JpngFooter)
        ensures
            footer == self.spec_footer(),
    {
        self.footer
    }

    /// The decoded base image.
    pub fn image(&self) -> (image: &DynamicImage)
        ensures
            *image == self.spec_image(),
    {
        &self.image
    }

    /// The decoded mask.
    pub fn mask(&self) -> (mask: &DynamicImage)
        ensures
            *mask == self.spec_mask(),
    {
        &self.mask
    }

    /// The name of the file that the combined image is saved to: the base
    /// name with `.png` after it.
    pub fn combined_file_name(basename: &str) -> (name: String)
        ensures
            name@ == basename@ + ".png"@,
    {
        let mut name = basename.to_owned();
        name.append(".png");
        name
    }

    /// The name of the file that the base image is saved to: the base name
    /// with `.jpg` after it.
    pub fn image_file_name(basename: &str) -> (name: String)
        ensures
            name@ == basename@ + ".jpg"@,
    {
        let mut name = basename.to_owned();
        name.append(".jpg");
        name
    }

    /// The name of the file that the mask is saved to: the base name with
    /// `.png` after it.
    pub fn mask_file_name(basename: &str) -> (name: String)
        ensures
            name@ == basename@ + ".png"@,
    {
        let mut name = basename.to_owned();
        name.append(".png");
        name
    }

    /// Whether the copies that compositing works on can be asked for: the
    /// base image at four bytes per pixel, the mask at one. An image of no
    /// rows still has to have rows that can be counted in a `usize`.
    pub open spec fn can_combine(&self) -> bool {
        fits(self.spec_image(), 4) && fits(self.spec_mask(), 1)
    }

    /// The base image as red, green, blue and alpha.
    pub open spec fn base_view(&self) -> RasterView {
        RasterView {
            width: dimensions_of(self.spec_image()).0 as nat,
            height: dimensions_of(self.spec_image()).1 as nat,
            samples: rgba_samples(self.spec_image()),
        }
    }

    /// The mask as luminance.
    pub open spec fn mask_view(&self) -> RasterView {
        RasterView {
            width: dimensions_of(self.spec_mask()).0 as nat,
            height: dimensions_of(self.spec_mask()).1 as nat,
            samples: luma_samples(self.spec_mask()),
        }
    }

    /// Whether `out` is the combined image of this container: the base
    /// image's pixels, each with the luminance of the mask's pixel of the same
    /// number as its alpha.
    ///
    /// Both views hold exactly the pixels that their dimensions announce,
    /// four samples for each in the base and one in the mask, so the pixel of
    /// a given number is at a known place in either.
    ///
    /// Where base image and mask have the same dimensions, that is the mask's
    /// pixel at the same place: at every `(x, y)` the alpha of `out` is the
    /// mask's luminance and red, green and blue are the base image's.
    pub open spec fn combines_to(&self, out: RasterView) -> bool {
        &&& self.base_view().is_packed(4)
        &&& self.mask_view().is_packed(1)
        &&& out == composite_view(self.base_view(), self.mask_view())
        &&& out.is_packed(4)
        &&& dimensions_of(self.spec_image()) == dimensions_of(self.spec_mask()) ==> forall|
            x: int,
            y: int,
        |
            0 <= x < out.width && 0 <= y < out.height ==> #[trigger] is_masked_at(
                out,
                self.base_view(),
                self.mask_view(),
                x,
                y,
            )
    }

    /// The combined image: the base image's colours with the mask's
    /// luminance as alpha.
    pub fn combined(&self) -> (out: RgbaRaster)
        requires
            self.can_combine(),
        ensures
            self.combines_to(out@),
    {
        let luma = to_luma(&self.mask);
        let base = to_rgba(&self.image);
        proof {
            if dimensions_of(self.image) == dimensions_of(self.mask) {
                lemma_composite_equal_dimensions(base@, luma@);
            }
        }
        composite(&base, &luma)
    }

    /// The combined image, or `None` where the images are too large for
    /// their copies to be asked for.
    pub fn try_combined(&self) -> (out: Option<RgbaRaster>)
        ensures
            out matches Some(raster) ==> self.can_combine() && self.combines_to(raster@),
            out is None ==> !self.can_combine(),
    {
        let (width, height): (u32, u32) = dimensions(&self.image);
        let (mask_width, mask_height): (u32, u32) = dimensions(&self.mask);
        if pixels_fit(width, height, 4) && pixels_fit(mask_width, mask_height, 1) {
            Some(self.combined())
        } else {
            None
        }
    }
}

/// Whether a copy of a `width` by `height` image at `channels` bytes per
/// pixel can be asked for: a row of it can be counted in a `usize`, and the
/// whole is no more than a `Vec` can hold.
fn pixels_fit(width: u32, height: u32, channels: u8) -> (fit: bool)
    ensures
        fit == (channels * width <= usize::MAX && channels * width * height <= isize::MAX),
{
    assert(channels * width <= 0xFF * 0xFFFF_FFFF) by (nonlinear_arith)
        requires
            channels <= 0xFF,
            width <= 0xFFFF_FFFF,
    ;
    let row: u128 = channels as u128 * width as u128;
    assert(row * height <= 0xFF * 0xFFFF_FFFF * 0xFFFF_FFFF) by (nonlinear_arith)
        requires
            row <= 0xFF * 0xFFFF_FFFF,
            height <= 0xFFFF_FFFF,
    ;
    let samples: u128 = row * height as u128;
    row <= usize::MAX as u128 && samples <= isize::MAX as u128
}

} // verus!
