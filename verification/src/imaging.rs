//! Trusted boundary to the `image` crate.
//!
//! A decoded image is carried as a [`DecodedImage`]: the opaque pixel data
//! together with its dimensions as plain values, so that the resize
//! contracts can speak of sizes. Values are built only by the trusted
//! constructors here, which read the dimensions off the image, so the plain
//! fields always mirror the pixel data. Reading and writing image files
//! stays with the surrounding process.

use vstd::prelude::*;

verus! {

#[verifier::external_type_specification]
#[verifier::external_body]
pub struct ExDynamicImage(image::DynamicImage);

/// The resampling filters the conversion rules use. The browsing and
/// thumbnail variants are produced with the Catmull-Rom filter.
#[derive(Clone, Copy, PartialEq, Eq, Structural, Debug)]
pub enum Filter {
    CatmullRom,
}

/// The output encodings the conversion rules write. Every profile is
/// normalized to JPEG whatever the input format was.
#[derive(Clone, Copy, PartialEq, Eq, Structural, Debug)]
pub enum OutputFormat {
    Jpeg,
}

/// A decoded image and its pixel dimensions.
pub struct DecodedImage {
    image: image::DynamicImage,
    width: u32,
    height: u32,
}

/// Whether scaling (`w0`, `h0`) up to cover the box (`w`, `h`) stays well
/// inside the 32-bit dimension space: each covering dimension is at most
/// half of `u32::MAX`, a margin far beyond the rounding of the scale
/// factor. Within this bound a fill crops to exactly the box.
pub open spec fn fill_fits(w0: u32, h0: u32, w: u32, h: u32) -> bool {
    &&& (w0 as int) * (h as int) <= 0x7fff_ffff * (h0 as int)
    &&& (h0 as int) * (w as int) <= 0x7fff_ffff * (w0 as int)
}

impl DecodedImage {
    /// The pixel width this image was built with.
    pub closed spec fn width_spec(&self) -> u32 {
        self.width
    }

    /// The pixel height this image was built with.
    pub closed spec fn height_spec(&self) -> u32 {
        self.height
    }

    /// Relies on `image::DynamicImage::width` and `height`: the plain
    /// dimension fields mirror the wrapped pixel data.
    #[verifier::external_body]
    pub fn new(image: image::DynamicImage) -> DecodedImage {
        let width = image.width();
        let height = image.height();
        DecodedImage { image, width, height }
    }

    pub fn width(&self) -> (r: u32)
        ensures
            r == self.width_spec(),
    {
        self.width
    }

    pub fn height(&self) -> (r: u32)
        ensures
            r == self.height_spec(),
    {
        self.height
    }

    /// The wrapped image, for encoding and writing.
    pub fn into_inner(self) -> image::DynamicImage {
        self.image
    }
}

/// Relies on `image::DynamicImage`'s derived `Clone`: the unscaled image
/// passes through unchanged, to be re-encoded by the caller.
#[verifier::external_body]
pub fn resize_keep(img: &DecodedImage) -> (r: DecodedImage)
    ensures
        r == *img,
{
    DecodedImage { image: img.image.clone(), width: img.width, height: img.height }
}

/// Relies on `image::DynamicImage::resize` and the crate's
/// `resize_dimensions`: the result is the largest aspect-preserving size
/// fitting within the box, each dimension floored at one pixel. So it stays
/// within the box; the binding axis — the one whose bound is reached first —
/// meets its bound exactly (the scale factor is exact there, and rounding
/// cannot move an integer by half); and the other axis preserves the aspect
/// ratio up to that rounding and flooring. Degenerate sources are excluded:
/// on them the crate's arithmetic degrades to NaN.
#[verifier::external_body]
pub fn resize_fit(img: &DecodedImage, w: u32, h: u32, f: Filter) -> (r: DecodedImage)
    requires
        w >= 1,
        h >= 1,
        img.width_spec() >= 1,
        img.height_spec() >= 1,
    ensures
        1 <= r.width_spec() <= w,
        1 <= r.height_spec() <= h,
        (w as int) * (img.height_spec() as int) <= (h as int) * (img.width_spec() as int)
            ==> r.width_spec() == w,
        (h as int) * (img.width_spec() as int) <= (w as int) * (img.height_spec() as int)
            ==> r.height_spec() == h,
        (r.height_spec() as int) * (img.width_spec() as int) <= (img.height_spec() as int) * (
        r.width_spec() as int) + (img.width_spec() as int) + (img.height_spec() as int),
        (img.height_spec() as int) * (r.width_spec() as int) <= (r.height_spec() as int) * (
        img.width_spec() as int) + (img.width_spec() as int) + (img.height_spec() as int),
{
    let filter = match f {
        Filter::CatmullRom => image::imageops::FilterType::CatmullRom,
    };
    let out = img.image.resize(w, h, filter);
    let width = out.width();
    let height = out.height();
    DecodedImage { image: out, width, height }
}

/// Relies on `image::DynamicImage::resize_to_fill`: the source is scaled,
/// preserving aspect ratio, to cover the box and then cropped to it, so the
/// result never exceeds the box; and whenever the covering size stays inside
/// the 32-bit dimension space ([`fill_fits`]), the scaled image covers the
/// box and the crop returns exactly the box. Degenerate sources are
/// excluded: on them the scaled image can fall short of the box and the
/// crate's crop offset underflows.
#[verifier::external_body]
pub fn resize_fill(img: &DecodedImage, w: u32, h: u32, f: Filter) -> (r: DecodedImage)
    requires
        w >= 1,
        h >= 1,
        img.width_spec() >= 1,
        img.height_spec() >= 1,
    ensures
        r.width_spec() <= w,
        r.height_spec() <= h,
        fill_fits(img.width_spec(), img.height_spec(), w, h) ==> r.width_spec() == w
            && r.height_spec() == h,
{
    let filter = match f {
        Filter::CatmullRom => image::imageops::FilterType::CatmullRom,
    };
    let out = img.image.resize_to_fill(w, h, filter);
    let width = out.width();
    let height = out.height();
    DecodedImage { image: out, width, height }
}

} // verus!
