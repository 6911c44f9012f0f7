//! Image analysis: the luminance mask derived from a background, the clamped
//! lookups that sample masks and backgrounds, and texture preparation.

use crate::imaging::{
    dynamic_dimensions, dynamic_dims, dynamic_pixel, dynamic_rgb8, dynamic_rgba_at, gray_dims,
    gray_samples, resize_exact_lanczos3, rgb8_samples, GrayMask,
};
use image::DynamicImage;
use vstd::prelude::*;

verus! {

/// Luminance mask dimensions
#[derive(Debug, Clone, Copy)]
pub struct MaskDimensions {
    pub width: u32,
    pub height: u32,
}

/// ITU-R BT.601 luminance of an RGB pixel, rounded down:
/// `0.299 R + 0.587 G + 0.114 B`.
pub open spec fn luma601(r: u8, g: u8, b: u8) -> u8 {
    ((299 * r + 587 * g + 114 * b) / 1000) as u8
}

/// The mask that applies `f` to each of the first `n` RGB pixels of `rgb`
/// (three samples per pixel).
pub open spec fn per_pixel(rgb: Seq<u8>, n: nat, f: spec_fn(u8, u8, u8) -> u8) -> Seq<u8> {
    Seq::new(n, |i: int| f(rgb[3 * i], rgb[3 * i + 1], rgb[3 * i + 2]))
}

/// The luminance mask of the first `n` RGB pixels of `rgb`.
pub open spec fn luminance_samples(rgb: Seq<u8>, n: nat) -> Seq<u8> {
    per_pixel(rgb, n, |r: u8, g: u8, b: u8| luma601(r, g, b))
}

/// Number of pixels of a decoded image.
pub open spec fn pixel_count(img: DynamicImage) -> nat {
    ((dynamic_dims(img).0 as int) * (dynamic_dims(img).1 as int)) as nat
}

/// Every sample of a luminance mask is the BT.601 weighted sum of its
/// pixel's red, green and blue, `0.299 R + 0.587 G + 0.114 B`, rounded down.
pub proof fn lemma_luminance_formula(rgb: Seq<u8>, n: nat, i: int)
    requires
        0 <= i < n,
    ensures
        luminance_samples(rgb, n).len() == n,
        luminance_samples(rgb, n)[i] as int == (299 * (rgb[3 * i] as int) + 587 * (rgb[3 * i + 1] as int)
            + 114 * (rgb[3 * i + 2] as int)) / 1000,
        luma601(rgb[3 * i], rgb[3 * i + 1], rgb[3 * i + 2]) as int == (299 * (rgb[3 * i] as int) + 587
            * (rgb[3 * i + 1] as int) + 114 * (rgb[3 * i + 2] as int)) / 1000,
{
}

/// The luminance weights add up to one: a gray pixel keeps its value.
pub proof fn lemma_gray_luminance(v: u8)
    ensures
        luma601(v, v, v) == v,
{
}

/// Luminance never decreases when a channel grows.
pub proof fn lemma_luminance_monotone(r1: u8, g1: u8, b1: u8, r2: u8, g2: u8, b2: u8)
    requires
        r1 <= r2,
        g1 <= g2,
        b1 <= b2,
    ensures
        luma601(r1, g1, b1) <= luma601(r2, g2, b2),
{
    assert(299 * r1 + 587 * g1 + 114 * b1 <= 299 * r2 + 587 * g2 + 114 * b2);
    vstd::arithmetic::div_mod::lemma_div_is_ordered(
        299 * r1 + 587 * g1 + 114 * b1,
        299 * r2 + 587 * g2 + 114 * b2,
        1000,
    );
}

/// Luminance lies between the darkest and the brightest channel of the pixel.
pub proof fn lemma_luminance_between_channels(r: u8, g: u8, b: u8, lo: u8, hi: u8)
    requires
        lo <= r <= hi,
        lo <= g <= hi,
        lo <= b <= hi,
    ensures
        lo <= luma601(r, g, b) <= hi,
{
    lemma_luminance_monotone(lo, lo, lo, r, g, b);
    lemma_luminance_monotone(r, g, b, hi, hi, hi);
    lemma_gray_luminance(lo);
    lemma_gray_luminance(hi);
}

/// Mask value of one pixel: the luminance blended with a warm term for
/// embers. The warm term stays below one after scaling, so the value that
/// comes out is the luminance itself.
fn luminance_mask_value(r: u8, g: u8, b: u8) -> (v: u8)
    ensures
        v == luma601(r, g, b),
{
    let r32 = r as u32;
    let g32 = g as u32;
    let b32 = b as u32;
    // Warm intensity, in tenths: more weight on red/orange, less on blue.
    let pos = 5 * r32 + 4 * g32;
    let neg = 3 * b32;
    let warm10: u32 = if pos > neg { pos - neg } else { 0 };
    let lum: u32 = (299 * r32 + 587 * g32 + 114 * b32) / 1000;
    // 0.7 of the warm intensity plus 0.3 of the luminance, over 255.
    let warm_norm: u32 = (7 * warm10 + 30 * lum) / 25500;
    let v: u32 = if warm_norm > lum { warm_norm } else { lum };
    v as u8
}

/// The luminance mask of an image of `width` x `height` pixels whose 8-bit
/// RGB samples are `rgb`, three per pixel, row by row.
pub fn luminance_mask_from_rgb8(width: u32, height: u32, rgb: &[u8]) -> (mask: GrayMask)
    requires
        rgb@.len() >= (width as int) * (height as int) * 3,
    ensures
        gray_dims(mask) == (width, height),
        gray_samples(mask) == luminance_samples(rgb@, ((width as int) * (height as int)) as nat),
        forall|i: int|
            0 <= i < (width as int) * (height as int) ==> #[trigger] gray_samples(mask)[i] as int == (299
                * (rgb@[3 * i] as int) + 587 * (rgb@[3 * i + 1] as int) + 114 * (rgb@[3 * i + 2] as int))
                / 1000,
{
    let available: usize = rgb.len();
    assert((width as int) * (height as int) <= available);
    let n: usize = (width as usize) * (height as usize);
    let mut out: Vec<u8> = Vec::new();
    let mut i: usize = 0;
    while i < n
        invariant
            i <= n,
            n == (width as int) * (height as int),
            available == rgb@.len(),
            available >= 3 * n,
            out@ == luminance_samples(rgb@, i as nat),
        decreases n - i,
    {
        let v = luminance_mask_value(rgb[3 * i], rgb[3 * i + 1], rgb[3 * i + 2]);
        out.push(v);
        assert(out@ =~= luminance_samples(rgb@, (i + 1) as nat));
        i = i + 1;
    }
    GrayMask::from_raw(width, height, out).unwrap()
}

/// Create a luminance mask from an image.
/// Value = 0.299R + 0.587G + 0.114B (ITU-R BT.601), rounded down.
pub fn create_luminance_mask(img: &DynamicImage) -> (mask: GrayMask)
    ensures
        gray_dims(mask) == dynamic_dims(*img),
        gray_samples(mask) == luminance_samples(dynamic_rgb8(*img), pixel_count(*img)),
        forall|i: int|
            0 <= i < pixel_count(*img) ==> #[trigger] gray_samples(mask)[i] as int == (299
                * (dynamic_rgb8(*img)[3 * i] as int) + 587 * (dynamic_rgb8(*img)[3 * i + 1] as int) + 114
                * (dynamic_rgb8(*img)[3 * i + 2] as int)) / 1000,
{
    let (width, height) = dynamic_dimensions(img);
    // Convert to RGB8 if needed
    let rgb = rgb8_samples(img);
    luminance_mask_from_rgb8(width, height, rgb.as_slice())
}

/// The analysis of a loaded background: its luminance mask and its size.
pub fn analyze_image(img: &DynamicImage) -> (r: (GrayMask, MaskDimensions))
    ensures
        gray_dims(r.0) == dynamic_dims(*img),
        gray_samples(r.0) == luminance_samples(dynamic_rgb8(*img), pixel_count(*img)),
        (r.1.width, r.1.height) == dynamic_dims(*img),
{
    let (width, height) = dynamic_dimensions(img);
    let dims = MaskDimensions { width, height };
    let mask = create_luminance_mask(img);
    (mask, dims)
}

/// The textures a render uploads: the background and its luminance mask,
/// each resampled to the output size. Where an input already has that size
/// it is handed over unchanged.
pub fn prepare_textures(background: &DynamicImage, mask: &GrayMask, width: u32, height: u32) -> (r: (DynamicImage, GrayMask))
    requires
        (width as int) * (height as int) * 16 <= isize::MAX,
        (dynamic_dims(*background).0 as int) * (height as int) * 16 <= isize::MAX,
        (gray_dims(*mask).0 as int) * (height as int) * 16 <= isize::MAX,
    ensures
        dynamic_dims(r.0) == (width, height),
        dynamic_dims(*background) == (width, height) ==> forall|x: u32, y: u32|
            x < width && y < height ==> #[trigger] dynamic_rgba_at(r.0, x, y) == dynamic_rgba_at(*background, x, y),
        gray_dims(r.1) == (width, height),
        gray_samples(r.1).len() == (width as int) * (height as int),
        gray_dims(*mask) == (width, height) ==> gray_samples(r.1) == gray_samples(*mask).subrange(
            0,
            (width as int) * (height as int),
        ),
{
    let resized = resize_exact_lanczos3(background, width, height);
    // Resize luminance mask to match the output dimensions
    let resized_mask = mask.resized_lanczos3(width, height);
    (resized, resized_mask)
}

/// The width and height of a mask.
pub fn mask_dimensions(mask: &GrayMask) -> (r: MaskDimensions)
    ensures
        (r.width, r.height) == gray_dims(*mask),
{
    let (width, height) = mask.dimensions();
    MaskDimensions { width, height }
}

/// The largest index below `len`, or 0 for an empty range: where a
/// coordinate lands once clamped into an image side of length `len`.
pub open spec fn clamp_index(v: u32, len: u32) -> u32 {
    if len == 0 {
        0
    } else if v < len {
        v
    } else {
        (len - 1) as u32
    }
}

/// A clamped coordinate lies inside a non-empty side, keeps any coordinate
/// that already does, and sends every coordinate past the side to its last
/// index.
pub proof fn lemma_clamp_index(v: u32, len: u32)
    requires
        len > 0,
    ensures
        clamp_index(v, len) < len,
        v < len ==> clamp_index(v, len) == v,
        v >= len ==> clamp_index(v, len) == len - 1,
{
}

/// The mask sample at `(x, y)` once both coordinates are clamped into the
/// mask: the integer lookup behind the spawn probability.
pub fn mask_value_at(mask: &GrayMask, x: u32, y: u32) -> (v: u8)
    requires
        gray_dims(*mask).0 > 0,
        gray_dims(*mask).1 > 0,
    ensures
        v == gray_samples(*mask)[clamp_index(y, gray_dims(*mask).1) * (gray_dims(*mask).0 as int)
            + clamp_index(x, gray_dims(*mask).0)],
{
    let (width, height) = mask.dimensions();
    let x = if x < width - 1 { x } else { width - 1 };
    let y = if y < height - 1 { y } else { height - 1 };
    mask.get_pixel(x, y)
}

/// The background pixel at `(x, y)` once both coordinates are clamped into
/// the image, as 8-bit RGBA: the lookup behind the chameleon colouring.
pub fn background_rgba_at(img: &DynamicImage, x: u32, y: u32) -> (p: [u8; 4])
    requires
        dynamic_dims(*img).0 > 0,
        dynamic_dims(*img).1 > 0,
    ensures
        (p[0], p[1], p[2], p[3]) == dynamic_rgba_at(
            *img,
            clamp_index(x, dynamic_dims(*img).0),
            clamp_index(y, dynamic_dims(*img).1),
        ),
{
    let (width, height) = dynamic_dimensions(img);
    let x = if x < width - 1 { x } else { width - 1 };
    let y = if y < height - 1 { y } else { height - 1 };
    dynamic_pixel(img, x, y)
}

/// Precomputed luminance mask data for GPU upload
pub struct LuminanceMaskData {
    pub width: u32,
    pub height: u32,
    pub pixels: Vec<u8>,
}

impl LuminanceMaskData {
    /// Create from a grayscale image buffer.
    pub fn from_image_buffer(mask: &GrayMask) -> (r: Self)
        ensures
            (r.width, r.height) == gray_dims(*mask),
            r.pixels@ == gray_samples(*mask),
    {
        let (width, height) = mask.dimensions();
        let raw = mask.as_raw();
        let pixels = raw.clone();
        Self { width, height, pixels }
    }

    /// Total bytes size
    pub fn byte_size(&self) -> (r: usize)
        ensures
            r == self.pixels@.len(),
    {
        self.pixels.len()
    }
}

} // verus!
