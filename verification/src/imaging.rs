//! Images from the `image` crate as the analysis sees them: a grayscale mask
//! type holding an `image::GrayImage`, decoded images (`DynamicImage`), and
//! the calls into the crate that read, convert and resample them. These
//! items are trusted: their bodies are calls into the crate, and their
//! contracts are assumed.

use image::imageops::FilterType;
use image::{DynamicImage, GenericImageView, ImageBuffer, Luma};
use vstd::prelude::*;

verus! {

/// An 8-bit grayscale image (`image::GrayImage`), one sample per pixel,
/// stored row by row. The buffer is held whole; what the logic reads of it
/// is named by `gray_samples` and `gray_dims` and reached through the methods
/// below.
#[verifier::external_body]
pub struct GrayMask {
    image: ImageBuffer<Luma<u8>, Vec<u8>>,
}

#[verifier::external_type_specification]
#[verifier::external_body]
pub struct ExDynamicImage(DynamicImage);

/// The samples a grayscale buffer holds, row by row (one byte per pixel).
pub uninterp spec fn gray_samples(img: GrayMask) -> Seq<u8>;

/// The width and height a grayscale buffer was made with.
pub uninterp spec fn gray_dims(img: GrayMask) -> (u32, u32);

/// The width and height of a decoded image of any pixel format.
pub uninterp spec fn dynamic_dims(img: DynamicImage) -> (u32, u32);

/// The samples of a decoded image once converted to 8-bit RGB
/// (three bytes per pixel, row by row).
pub uninterp spec fn dynamic_rgb8(img: DynamicImage) -> Seq<u8>;

/// The 8-bit RGBA value of the pixel at `(x, y)` of a decoded image.
pub uninterp spec fn dynamic_rgba_at(img: DynamicImage, x: u32, y: u32) -> (u8, u8, u8, u8);

impl GrayMask {
    /// `ImageBuffer::from_raw` for a grayscale buffer: it succeeds exactly
    /// when `width * height` does not overflow `usize` and `buf` holds at
    /// least that many samples, and the image then holds `buf` unchanged.
    #[verifier::external_body]
    pub(crate) fn from_raw(width: u32, height: u32, buf: Vec<u8>) -> (r: Option<GrayMask>)
        ensures
            r.is_some() == ((width as int) * (height as int) <= usize::MAX && (width as int) * (height as int) <= buf@.len()),
            r matches Some(img) ==> gray_dims(img) == (width, height) && gray_samples(img) == buf@,
    {
        match ImageBuffer::from_raw(width, height, buf) {
            Some(image) => Some(GrayMask { image }),
            None => None,
        }
    }

    /// `ImageBuffer::dimensions`: the width and height the buffer was made
    /// with.
    #[verifier::external_body]
    pub(crate) fn dimensions(&self) -> (r: (u32, u32))
        ensures
            r == gray_dims(*self),
    {
        self.image.dimensions()
    }

    /// `ImageBuffer::as_raw`: the samples. Every constructor of the buffer
    /// checks that they cover `width * height` pixels, and no method changes
    /// their number afterwards.
    #[verifier::external_body]
    pub(crate) fn as_raw(&self) -> (r: &Vec<u8>)
        ensures
            r@ == gray_samples(*self),
            r@.len() >= (gray_dims(*self).0 as int) * (gray_dims(*self).1 as int),
    {
        self.image.as_raw()
    }

    /// `ImageBuffer::get_pixel`: the sample at index `y * width + x`. It
    /// panics outside the image, so `requires` keeps `(x, y)` inside.
    #[verifier::external_body]
    pub(crate) fn get_pixel(&self, x: u32, y: u32) -> (r: u8)
        requires
            x < gray_dims(*self).0,
            y < gray_dims(*self).1,
        ensures
            r == gray_samples(*self)[(y as int) * (gray_dims(*self).0 as int) + (x as int)],
    {
        self.image.get_pixel(x, y).0[0]
    }

    /// `imageops::resize` with the Lanczos3 filter: a new buffer of exactly
    /// `width * height` samples. An empty source gives an all-zero buffer,
    /// and a source that already has the requested size is copied pixel by
    /// pixel. What the resampled samples are otherwise (a floating-point
    /// convolution) is left unsaid. Resizing allocates an
    /// RGBA `f32` intermediate of the source width by the new height and the
    /// output buffer; `requires` keeps both within what an allocation can
    /// hold (16 bytes per pixel at most), beyond which allocating panics.
    #[verifier::external_body]
    pub(crate) fn resized_lanczos3(&self, width: u32, height: u32) -> (r: GrayMask)
        requires
            (width as int) * (height as int) * 16 <= isize::MAX,
            (gray_dims(*self).0 as int) * (height as int) * 16 <= isize::MAX,
        ensures
            gray_dims(r) == (width, height),
            gray_samples(r).len() == (width as int) * (height as int),
            gray_dims(*self).0 == 0 || gray_dims(*self).1 == 0 ==> gray_samples(r) == Seq::new(
                ((width as int) * (height as int)) as nat,
                |i: int| 0u8,
            ),
            gray_dims(*self) == (width, height) ==> gray_samples(r) == gray_samples(*self).subrange(
                0,
                (width as int) * (height as int),
            ),
    {
        GrayMask { image: image::imageops::resize(&self.image, width, height, FilterType::Lanczos3) }
    }
}

/// `GenericImageView::dimensions` of a decoded image.
#[verifier::external_body]
pub(crate) fn dynamic_dimensions(img: &DynamicImage) -> (r: (u32, u32))
    ensures
        r == dynamic_dims(*img),
{
    img.dimensions()
}

/// `DynamicImage::to_rgb8`, handed out as its raw samples: the image
/// converted to 8-bit RGB. The buffer covers every pixel, three bytes each
/// (a buffer built from a longer vector keeps the extra bytes at its end).
#[verifier::external_body]
pub(crate) fn rgb8_samples(img: &DynamicImage) -> (r: Vec<u8>)
    ensures
        r@ == dynamic_rgb8(*img),
        r@.len() >= (dynamic_dims(*img).0 as int) * (dynamic_dims(*img).1 as int) * 3,
{
    img.to_rgb8().into_raw()
}

/// `DynamicImage::resize_exact` with the Lanczos3 filter: the image
/// resampled to exactly `width` by `height` pixels, in its own pixel format.
/// An image that already has the requested size is copied pixel by pixel;
/// what the resampled pixels are otherwise (a floating-point convolution) is
/// left unsaid. `requires` keeps the buffers it allocates within what an
/// allocation can hold, as for `GrayMask::resized_lanczos3`.
#[verifier::external_body]
pub(crate) fn resize_exact_lanczos3(img: &DynamicImage, width: u32, height: u32) -> (r: DynamicImage)
    requires
        (width as int) * (height as int) * 16 <= isize::MAX,
        (dynamic_dims(*img).0 as int) * (height as int) * 16 <= isize::MAX,
    ensures
        dynamic_dims(r) == (width, height),
        dynamic_dims(*img) == (width, height) ==> forall|x: u32, y: u32|
            x < width && y < height ==> #[trigger] dynamic_rgba_at(r, x, y) == dynamic_rgba_at(*img, x, y),
{
    img.resize_exact(width, height, FilterType::Lanczos3)
}

/// `GenericImageView::get_pixel` of a decoded image: the pixel at `(x, y)`
/// as 8-bit RGBA. It panics outside the image, so `requires` keeps `(x, y)`
/// inside.
#[verifier::external_body]
pub(crate) fn dynamic_pixel(img: &DynamicImage, x: u32, y: u32) -> (r: [u8; 4])
    requires
        x < dynamic_dims(*img).0,
        y < dynamic_dims(*img).1,
    ensures
        (r[0], r[1], r[2], r[3]) == dynamic_rgba_at(*img, x, y),
{
    img.get_pixel(x, y).0
}

} // verus!
