use climageproc::catalog::Format;
use climageproc::error::Error;
use climageproc::raster::{is_addressable, Filter, RasterImage, MAX_SIDE};
use climageproc::transform::{scale, target_dimensions, transform, Operation};
use image::DynamicImage;

fn source(width: u32, height: u32) -> RasterImage {
    RasterImage::new(DynamicImage::new_rgb8(width, height))
}

fn round_f64(requested: u32, toward: u32, from: u32) -> u32 {
    (f64::from(requested) * f64::from(toward) / f64::from(from)).round() as u32
}

#[test]
fn scale_exact_values() {
    assert_eq!(scale(50, 100, 200), 25);
    assert_eq!(scale(400, 100, 200), 200);
    assert_eq!(scale(7, 1, 3), 2);
    assert_eq!(scale(100, 768, 1024), 75);
    assert_eq!(scale(333, 1080, 1920), 187);
}

#[test]
fn scale_rounds_a_half_up() {
    assert_eq!(scale(3, 1, 2), 2);
    assert_eq!(scale(1, 1, 2), 1);
    assert_eq!(scale(5, 1, 2), 3);
    assert_eq!(scale(1, 1, 3), 0);
    assert_eq!(scale(2, 1, 3), 1);
    assert_eq!(scale(1, 49, 100), 0);
    assert_eq!(scale(1, 50, 100), 1);
}

#[test]
fn scale_of_nothing_is_nothing() {
    assert_eq!(scale(0, 100, 200), 0);
    assert_eq!(scale(50, 0, 200), 0);
    assert_eq!(scale(50, 100, 0), 0);
    assert_eq!(scale(0, 0, 0), 0);
}

#[test]
fn scale_saturates() {
    assert_eq!(scale(u32::MAX, u32::MAX, 1), u32::MAX);
    assert_eq!(scale(u32::MAX, 2, 1), u32::MAX);
    assert_eq!(scale(u32::MAX, 1, 1), u32::MAX);
    assert_eq!(scale(u32::MAX, u32::MAX, u32::MAX), u32::MAX);
    assert_eq!(scale(u32::MAX - 1, 1, 1), u32::MAX - 1);
}

#[test]
fn scale_is_the_nearest_integer() {
    for from in 1..40u32 {
        for toward in 0..40u32 {
            for requested in 0..40u32 {
                assert_eq!(
                    scale(requested, toward, from),
                    round_f64(requested, toward, from),
                    "{} {} {}",
                    requested,
                    toward,
                    from
                );
            }
        }
    }
}

#[test]
fn scale_to_own_length_is_identity() {
    for from in 1..50u32 {
        for toward in 0..50u32 {
            assert_eq!(scale(from, toward, from), toward);
        }
    }
}

#[test]
fn target_dimensions_width_only() {
    assert_eq!(target_dimensions(200, 100, Some(50), None), (50, 25));
    assert_eq!(target_dimensions(1920, 1080, Some(640), None), (640, 360));
    assert_eq!(target_dimensions(3, 1, Some(4), None), (4, 1));
    assert_eq!(target_dimensions(3, 2, Some(1), None), (1, 1));
}

#[test]
fn target_dimensions_height_only() {
    assert_eq!(target_dimensions(200, 100, None, Some(50)), (100, 50));
    assert_eq!(target_dimensions(3, 1, None, Some(7)), (21, 7));
    assert_eq!(target_dimensions(1920, 1080, None, Some(360)), (640, 360));
}

#[test]
fn target_dimensions_both_and_neither() {
    assert_eq!(target_dimensions(200, 100, Some(30), Some(70)), (30, 70));
    assert_eq!(target_dimensions(200, 100, Some(0), Some(0)), (0, 0));
    assert_eq!(target_dimensions(200, 100, None, None), (200, 100));
    assert_eq!(target_dimensions(0, 0, None, None), (0, 0));
}

#[test]
fn target_dimensions_of_an_empty_source() {
    assert_eq!(target_dimensions(0, 100, Some(50), None), (50, 0));
    assert_eq!(target_dimensions(100, 0, None, Some(50)), (0, 50));
    assert_eq!(target_dimensions(100, 0, Some(50), None), (50, 0));
}

#[test]
fn resize_width_only_keeps_proportions() {
    let op = Operation::Resize { width: Some(50), height: None };
    let (out, format) = transform(source(200, 100), &op).unwrap();
    assert_eq!((out.width(), out.height()), (50, 25));
    assert_eq!(format, None);
}

#[test]
fn resize_width_only_has_exactly_that_width() {
    let op = Operation::Resize { width: Some(4), height: None };
    let (out, _) = transform(source(3, 1), &op).unwrap();
    assert_eq!((out.width(), out.height()), (4, 1));
}

#[test]
fn resize_height_only_keeps_proportions() {
    let op = Operation::Resize { width: None, height: Some(10) };
    let (out, format) = transform(source(30, 20), &op).unwrap();
    assert_eq!((out.width(), out.height()), (15, 10));
    assert_eq!(format, None);
}

#[test]
fn resize_both_ignores_proportions() {
    let op = Operation::Resize { width: Some(30), height: Some(70) };
    let (out, format) = transform(source(200, 100), &op).unwrap();
    assert_eq!((out.width(), out.height()), (30, 70));
    assert_eq!(format, None);
}

#[test]
fn resize_neither_passes_the_image_through() {
    let pixels = DynamicImage::new_rgb8(20, 10);
    let copy = pixels.clone();
    let op = Operation::Resize { width: None, height: None };
    let (out, format) = transform(RasterImage::new(pixels), &op).unwrap();
    assert_eq!((out.width(), out.height()), (20, 10));
    assert_eq!(format, None);
    assert!(out.into_pixels() == copy);
}

#[test]
fn resize_up_makes_a_larger_image() {
    let op = Operation::Resize { width: Some(40), height: None };
    let (out, _) = transform(source(20, 10), &op).unwrap();
    assert_eq!((out.width(), out.height()), (40, 20));
}

#[test]
fn resize_to_nothing_gives_an_empty_image() {
    let op = Operation::Resize { width: Some(0), height: None };
    let (out, _) = transform(source(20, 10), &op).unwrap();
    assert_eq!((out.width(), out.height()), (0, 0));
    let op = Operation::Resize { width: Some(5), height: Some(0) };
    let (out, _) = transform(source(20, 10), &op).unwrap();
    assert_eq!((out.width(), out.height()), (5, 0));
}

#[test]
fn resize_of_an_empty_source() {
    let op = Operation::Resize { width: Some(3), height: Some(2) };
    let (out, _) = transform(source(0, 0), &op).unwrap();
    assert_eq!((out.width(), out.height()), (3, 2));
}

#[test]
fn resize_beyond_memory_is_too_large() {
    let op = Operation::Resize { width: Some(u32::MAX), height: Some(u32::MAX) };
    let err = transform(source(2, 2), &op).unwrap_err();
    assert_eq!(err, Error::TooLarge { width: u32::MAX, height: u32::MAX });
}

#[test]
fn resize_width_only_beyond_memory_is_too_large() {
    let op = Operation::Resize { width: Some(u32::MAX), height: None };
    let err = transform(source(1, 4), &op).unwrap_err();
    assert_eq!(err, Error::TooLarge { width: u32::MAX, height: u32::MAX });
}

#[test]
fn addressable_sizes() {
    assert!(is_addressable(0, 0));
    assert!(is_addressable(1920, 1080));
    assert!(is_addressable(u32::MAX, 0));
    assert!(!is_addressable(u32::MAX, u32::MAX));
    let limit = (isize::MAX as u128) / 16;
    let side = 1u32 << 24;
    assert_eq!(is_addressable(side, side), u128::from(side) * u128::from(side) <= limit);
}

#[test]
fn resize_exact_has_the_size_asked_for() {
    let img = source(64, 48);
    assert!(img.can_resize_to(16, 12));
    let out = img.resize_exact(16, 12, Filter::Lanczos3);
    assert_eq!((out.width(), out.height()), (16, 12));
    assert_eq!((img.width(), img.height()), (64, 48));
}

#[test]
fn convert_passes_the_image_through() {
    let pixels = DynamicImage::new_rgb8(10, 10);
    let copy = pixels.clone();
    let op = Operation::Convert { format: "jpg".to_string() };
    let (out, format) = transform(RasterImage::new(pixels), &op).unwrap();
    assert_eq!(format, Some(Format::Jpeg));
    assert_eq!((out.width(), out.height()), (10, 10));
    assert!(out.into_pixels() == copy);
}

#[test]
fn convert_names_each_format() {
    for (name, format) in [
        ("jpeg", Format::Jpeg),
        ("PNG", Format::Png),
        ("Gif", Format::Gif),
        ("webp", Format::WebP),
    ] {
        let op = Operation::Convert { format: name.to_string() };
        let (_, named) = transform(source(4, 4), &op).unwrap();
        assert_eq!(named, Some(format));
    }
}

#[test]
fn convert_to_bmp_is_unsupported() {
    let op = Operation::Convert { format: "bmp".to_string() };
    let err = transform(source(10, 10), &op).unwrap_err();
    assert_eq!(err, Error::UnsupportedFormat { name: "bmp".to_string() });
}

#[test]
fn resize_exact_of_each_pixel_layout() {
    let layouts = [
        DynamicImage::new_luma8(6, 4),
        DynamicImage::new_luma_a8(6, 4),
        DynamicImage::new_rgb8(6, 4),
        DynamicImage::new_rgba8(6, 4),
        DynamicImage::new_luma16(6, 4),
        DynamicImage::new_luma_a16(6, 4),
        DynamicImage::new_rgb16(6, 4),
        DynamicImage::new_rgba16(6, 4),
        DynamicImage::new_rgb32f(6, 4),
        DynamicImage::new_rgba32f(6, 4),
    ];
    for pixels in layouts {
        let img = RasterImage::new(pixels);
        for (width, height) in [(3, 2), (12, 8), (6, 4), (1, 9), (0, 3), (7, 0)] {
            assert!(img.can_resize_to(width, height));
            let out = img.resize_exact(width, height, Filter::Lanczos3);
            assert_eq!((out.width(), out.height()), (width, height));
        }
    }
}

#[test]
fn resize_exact_of_a_one_pixel_image() {
    let img = source(1, 1);
    let out = img.resize_exact(300, 200, Filter::Lanczos3);
    assert_eq!((out.width(), out.height()), (300, 200));
    let img = source(300, 200);
    let out = img.resize_exact(1, 1, Filter::Lanczos3);
    assert_eq!((out.width(), out.height()), (1, 1));
}

const FILTERS: [Filter; 5] = [
    Filter::Nearest,
    Filter::Triangle,
    Filter::CatmullRom,
    Filter::Gaussian,
    Filter::Lanczos3,
];

fn strip(width: u32, height: u32) -> RasterImage {
    RasterImage::new(DynamicImage::new_luma8(width, height))
}

fn resized_at_the_longest_side(filter: Filter) {
    let wide = strip(MAX_SIDE, 1);
    for width in [1, MAX_SIDE / 2 + 1, MAX_SIDE - 1] {
        assert!(wide.can_resize_to(width, 1));
        let out = wide.resize_exact(width, 1, filter);
        assert_eq!((out.width(), out.height()), (width, 1));
    }
    let narrow = strip(3, 1);
    assert!(narrow.can_resize_to(MAX_SIDE, 1));
    let out = narrow.resize_exact(MAX_SIDE, 1, filter);
    assert_eq!((out.width(), out.height()), (MAX_SIDE, 1));
}

#[test]
fn nearest_filter_at_the_longest_side() {
    resized_at_the_longest_side(Filter::Nearest);
}

#[test]
fn triangle_filter_at_the_longest_side() {
    resized_at_the_longest_side(Filter::Triangle);
}

#[test]
fn catmull_rom_filter_at_the_longest_side() {
    resized_at_the_longest_side(Filter::CatmullRom);
}

#[test]
fn gaussian_filter_at_the_longest_side() {
    resized_at_the_longest_side(Filter::Gaussian);
}

#[test]
fn lanczos_filter_at_the_longest_side() {
    resized_at_the_longest_side(Filter::Lanczos3);
}

#[test]
fn lanczos_filter_at_the_longest_height() {
    let tall = strip(1, MAX_SIDE);
    for height in [1, MAX_SIDE - 1] {
        assert!(tall.can_resize_to(1, height));
        let out = tall.resize_exact(1, height, Filter::Lanczos3);
        assert_eq!((out.width(), out.height()), (1, height));
    }
    let short = strip(1, 2);
    let out = short.resize_exact(1, MAX_SIDE, Filter::Lanczos3);
    assert_eq!((out.width(), out.height()), (1, MAX_SIDE));
}

#[test]
fn each_filter_gives_the_size_asked_for() {
    let img = source(64, 48);
    for filter in FILTERS {
        for (width, height) in [(16, 12), (100, 70), (64, 48), (1, 1), (63, 49), (0, 5)] {
            let out = img.resize_exact(width, height, filter);
            assert_eq!((out.width(), out.height()), (width, height));
        }
    }
}

#[test]
fn each_filter_on_the_smallest_sources() {
    for filter in FILTERS {
        for (width, height) in [(1, 1), (2, 1), (1, 2), (2, 2), (3, 3)] {
            let img = source(width, height);
            for (to_width, to_height) in [(1, 1), (2, 3), (7, 5), (64, 64)] {
                let out = img.resize_exact(to_width, to_height, filter);
                assert_eq!((out.width(), out.height()), (to_width, to_height));
            }
        }
    }
}

#[test]
fn longest_side_is_two_to_the_twentieth() {
    assert_eq!(MAX_SIDE, 1 << 20);
    assert!(source(4, 4).can_resize_to(MAX_SIDE, 1));
    assert!(!source(4, 4).can_resize_to(MAX_SIDE + 1, 1));
    assert!(!source(4, 4).can_resize_to(1, MAX_SIDE + 1));
    assert!(strip(MAX_SIDE, 1).can_resize_to(4, 4));
    assert!(!strip(MAX_SIDE + 1, 1).can_resize_to(4, 4));
    assert!(!strip(1, MAX_SIDE + 1).can_resize_to(4, 4));
}

#[test]
fn resize_to_a_side_beyond_the_longest_is_too_large() {
    let op = Operation::Resize { width: Some(MAX_SIDE + 1), height: Some(1) };
    let err = transform(source(2, 2), &op).unwrap_err();
    assert_eq!(err, Error::TooLarge { width: MAX_SIDE + 1, height: 1 });
    let op = Operation::Resize { width: Some(134_217_712), height: Some(1) };
    let err = transform(source(2, 1), &op).unwrap_err();
    assert_eq!(err, Error::TooLarge { width: 134_217_712, height: 1 });
}

#[test]
fn resize_of_a_source_beyond_the_longest_side_is_too_large() {
    let op = Operation::Resize { width: Some(10), height: Some(1) };
    let err = transform(strip(MAX_SIDE + 1, 1), &op).unwrap_err();
    assert_eq!(err, Error::TooLarge { width: 10, height: 1 });
    let op = Operation::Resize { width: None, height: Some(5) };
    let err = transform(strip(1, MAX_SIDE + 1), &op).unwrap_err();
    assert_eq!(err, Error::TooLarge { width: 0, height: 5 });
}

#[test]
fn source_beyond_the_longest_side_still_passes_through() {
    let op = Operation::Resize { width: None, height: None };
    let (out, _) = transform(strip(MAX_SIDE + 1, 1), &op).unwrap();
    assert_eq!((out.width(), out.height()), (MAX_SIDE + 1, 1));
    let op = Operation::Convert { format: "png".to_string() };
    let (out, _) = transform(strip(MAX_SIDE + 1, 1), &op).unwrap();
    assert_eq!((out.width(), out.height()), (MAX_SIDE + 1, 1));
}

fn doubled_near_the_longest_side(filter: Filter) {
    for (from, to) in [(524_284, 1_048_568), (524_287, 1_048_575), (699_051, 1_048_576)] {
        let img = strip(from, 1);
        assert!(img.can_resize_to(to, 1));
        let out = img.resize_exact(to, 1, filter);
        assert_eq!((out.width(), out.height()), (to, 1));
    }
}

#[test]
fn lanczos_filter_doubling_near_the_longest_side() {
    doubled_near_the_longest_side(Filter::Lanczos3);
}

#[test]
fn catmull_rom_filter_doubling_near_the_longest_side() {
    doubled_near_the_longest_side(Filter::CatmullRom);
}

#[test]
fn triangle_filter_doubling_near_the_longest_side() {
    doubled_near_the_longest_side(Filter::Triangle);
}
