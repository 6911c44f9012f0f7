use image::{DynamicImage, ImageBuffer};
use lumina_core::analysis::{
    analyze_image, background_rgba_at, create_luminance_mask, luminance_mask_from_rgb8,
    mask_dimensions, mask_value_at, prepare_textures, LuminanceMaskData,
};
use lumina_core::imaging::GrayMask;

fn samples(mask: &GrayMask) -> Vec<u8> {
    LuminanceMaskData::from_image_buffer(mask).pixels
}

fn gray_mask(width: u32, height: u32, values: &[u8]) -> GrayMask {
    let img = ImageBuffer::from_raw(width, height, values.to_vec()).unwrap();
    create_luminance_mask(&DynamicImage::ImageLuma8(img))
}

fn rgb_image(width: u32, height: u32, pixels: &[[u8; 3]]) -> DynamicImage {
    let mut img = ImageBuffer::new(width, height);
    for y in 0..height {
        for x in 0..width {
            img.put_pixel(x, y, image::Rgb(pixels[(y * width + x) as usize]));
        }
    }
    DynamicImage::ImageRgb8(img)
}

#[test]
fn test_luminance_formula() {
    // Test with actual colored pixel
    let mut img = ImageBuffer::new(1, 1);
    img.put_pixel(0, 0, image::Rgb([255, 0, 0])); // Pure red
    let dyn_img = DynamicImage::ImageRgb8(img);
    let mask = create_luminance_mask(&dyn_img);
    // 0.299 * 255 ≈ 76
    assert!((mask_value_at(&mask, 0, 0) as f32 - 76.0).abs() < 1.0);
}

#[test]
fn luminance_mask_follows_bt601_per_pixel() {
    let img = rgb_image(2, 2, &[[255, 0, 0], [0, 255, 0], [0, 0, 255], [100, 150, 200]]);
    let mask = create_luminance_mask(&img);
    let dims = mask_dimensions(&mask);
    assert_eq!((dims.width, dims.height), (2, 2));
    // 0.299*255, 0.587*255, 0.114*255, 0.299*100 + 0.587*150 + 0.114*200
    assert_eq!(samples(&mask), vec![76, 149, 29, 140]);
    assert_eq!(mask_value_at(&mask, 1, 1), 140);
}

#[test]
fn gray_pixels_keep_their_value() {
    let img = rgb_image(3, 1, &[[0, 0, 0], [128, 128, 128], [255, 255, 255]]);
    let mask = create_luminance_mask(&img);
    assert_eq!(samples(&mask), vec![0, 128, 255]);
}

#[test]
fn luminance_mask_from_raw_rgb_samples() {
    let rgb = [255, 0, 0, 0, 255, 0, 0, 0, 255, 100, 150, 200, 9, 9, 9];
    let mask = luminance_mask_from_rgb8(2, 2, &rgb);
    let dims = mask_dimensions(&mask);
    assert_eq!((dims.width, dims.height), (2, 2));
    // Samples past the last pixel are not read.
    assert_eq!(samples(&mask), vec![76, 149, 29, 140]);
    let mask = luminance_mask_from_rgb8(1, 1, &[10, 20, 30]);
    // 2.99 + 11.74 + 3.42 = 18.15
    assert_eq!(samples(&mask), vec![18]);
}

#[test]
fn analysis_reports_the_image_size() {
    let img = rgb_image(3, 2, &[[10, 10, 10]; 6]);
    let (mask, dims) = analyze_image(&img);
    assert_eq!((dims.width, dims.height), (3, 2));
    let mask_dims = mask_dimensions(&mask);
    assert_eq!((mask_dims.width, mask_dims.height), (3, 2));
    assert_eq!(samples(&mask), vec![10; 6]);
}

#[test]
fn mask_lookup_clamps_coordinates() {
    let mask = gray_mask(3, 2, &[1, 2, 3, 4, 5, 6]);
    assert_eq!(mask_value_at(&mask, 0, 0), 1);
    assert_eq!(mask_value_at(&mask, 2, 1), 6);
    assert_eq!(mask_value_at(&mask, 99, 0), 3);
    assert_eq!(mask_value_at(&mask, 1, 99), 5);
    assert_eq!(mask_value_at(&mask, u32::MAX, u32::MAX), 6);
}

#[test]
fn background_lookup_clamps_and_is_opaque() {
    let img = rgb_image(2, 1, &[[1, 2, 3], [4, 5, 6]]);
    assert_eq!(background_rgba_at(&img, 0, 0), [1, 2, 3, 255]);
    assert_eq!(background_rgba_at(&img, 5, 7), [4, 5, 6, 255]);
}

#[test]
fn empty_image_gives_empty_mask() {
    let img = DynamicImage::ImageRgb8(ImageBuffer::new(0, 0));
    let mask = create_luminance_mask(&img);
    let dims = mask_dimensions(&mask);
    assert_eq!((dims.width, dims.height), (0, 0));
    assert_eq!(samples(&mask), Vec::<u8>::new());
}

#[test]
fn mask_data_copies_size_and_samples() {
    let mask = gray_mask(2, 1, &[7, 9]);
    let data = LuminanceMaskData::from_image_buffer(&mask);
    assert_eq!((data.width, data.height), (2, 1));
    assert_eq!(data.pixels, vec![7, 9]);
    assert_eq!(data.byte_size(), 2);
}

#[test]
fn luminance_mask_of_a_grayscale_source() {
    let mut img = ImageBuffer::new(2, 1);
    img.put_pixel(0, 0, image::Luma([100u8]));
    img.put_pixel(1, 0, image::Luma([7u8]));
    let mask = create_luminance_mask(&DynamicImage::ImageLuma8(img));
    assert_eq!(samples(&mask), vec![100, 7]);
}

#[test]
fn textures_are_resampled_to_the_output_size() {
    let img = rgb_image(4, 2, &[[200, 200, 200]; 8]);
    let (mask, _) = analyze_image(&img);
    let (background, resized) = prepare_textures(&img, &mask, 2, 3);
    assert_eq!((background.width(), background.height()), (2, 3));
    let dims = mask_dimensions(&resized);
    assert_eq!((dims.width, dims.height), (2, 3));
    // A uniform image stays uniform under resampling.
    assert_eq!(samples(&resized), vec![200; 6]);
    assert_eq!(background_rgba_at(&background, 1, 2), [200, 200, 200, 255]);
}

#[test]
fn textures_keep_inputs_already_at_the_output_size() {
    let img = rgb_image(2, 1, &[[255, 0, 0], [0, 255, 0]]);
    let (mask, _) = analyze_image(&img);
    let (background, resized) = prepare_textures(&img, &mask, 2, 1);
    assert_eq!(background_rgba_at(&background, 0, 0), [255, 0, 0, 255]);
    assert_eq!(background_rgba_at(&background, 1, 0), [0, 255, 0, 255]);
    assert_eq!(samples(&resized), vec![76, 149]);
}

#[test]
fn empty_mask_resamples_to_zeros() {
    let empty = create_luminance_mask(&DynamicImage::ImageRgb8(ImageBuffer::new(0, 0)));
    let img = rgb_image(1, 1, &[[50, 50, 50]]);
    let (_, resized) = prepare_textures(&img, &empty, 2, 2);
    assert_eq!(samples(&resized), vec![0; 4]);
}
