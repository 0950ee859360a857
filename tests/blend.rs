use image::ImageFormat;
use img_blend::args::ImgArgs;
use img_blend::merge::{alternate_img_pixels, process_img_cobination, set_rgba};
use img_blend::output::{FloatingImg, ImgDataErrors};
use img_blend::pipeline::combine_images;
use img_blend::raster::{can_resample, get_img_with_smallest_dimensions, standardize_img_sizes, Image};

fn solid(width: u32, height: u32, px: [u8; 4]) -> Image {
    let mut data = Vec::new();
    for _ in 0..(width * height) {
        data.extend_from_slice(&px);
    }
    Image::from_rgba(width, height, data).unwrap()
}

fn counting(width: u32, height: u32, base: u8) -> Image {
    let n = (width * height * 4) as usize;
    let data: Vec<u8> = (0..n).map(|k| base.wrapping_add(k as u8)).collect();
    Image::from_rgba(width, height, data).unwrap()
}

#[test]
fn smallest_dimensions_tie_goes_to_second() {
    assert_eq!(get_img_with_smallest_dimensions((4, 4), (2, 8)), (2, 8));
}

#[test]
fn smallest_dimensions_strictly_smaller_wins() {
    assert_eq!(get_img_with_smallest_dimensions((3, 3), (4, 4)), (3, 3));
    assert_eq!(get_img_with_smallest_dimensions((10, 10), (1, 50)), (1, 50));
}

#[test]
fn smallest_dimensions_large_sides_do_not_overflow() {
    let big = u32::MAX;
    assert_eq!(get_img_with_smallest_dimensions((big, big), (big, big - 1)), (big, big - 1));
    assert_eq!(get_img_with_smallest_dimensions((big, 2), (big, big)), (big, 2));
}

#[test]
fn alternation_of_two_pixels() {
    let a = vec![1, 2, 3, 4, 5, 6, 7, 8];
    let b = vec![11, 12, 13, 14, 15, 16, 17, 18];
    assert_eq!(alternate_img_pixels(a, b), vec![1, 2, 3, 4, 15, 16, 17, 18]);
}

#[test]
fn alternation_over_five_pixels() {
    let a: Vec<u8> = (0..20).collect();
    let b: Vec<u8> = (100..120).collect();
    let out = alternate_img_pixels(a, b);
    let expected: Vec<u8> = vec![
        0, 1, 2, 3, 104, 105, 106, 107, 8, 9, 10, 11, 112, 113, 114, 115, 16, 17, 18, 19,
    ];
    assert_eq!(out, expected);
}

#[test]
fn alternation_of_empty_buffers() {
    assert_eq!(alternate_img_pixels(Vec::new(), Vec::new()), Vec::<u8>::new());
}

#[test]
fn set_rgba_copies_inclusive_range() {
    let v = vec![9, 8, 7, 6, 5, 4];
    assert_eq!(set_rgba(&v, 1, 4), vec![8, 7, 6, 5]);
    assert_eq!(set_rgba(&v, 5, 5), vec![4]);
    assert_eq!(set_rgba(&v, 3, 2), Vec::<u8>::new());
}

#[test]
fn merged_buffer_has_image_length() {
    let a = counting(3, 2, 0);
    let b = counting(3, 2, 100);
    let out = process_img_cobination(a, b);
    assert_eq!(out.len(), 3 * 2 * 4);
    assert_eq!(&out[0..4], &[0, 1, 2, 3]);
    assert_eq!(&out[4..8], &[104, 105, 106, 107]);
}

#[test]
fn capacity_guard_rejects_longer_buffer() {
    let mut out = FloatingImg::new(2, 2, "out.png".to_string());
    assert_eq!(out.img_capacity, 16);
    assert_eq!(out.set_img_data(vec![0u8; 17]), Err(ImgDataErrors::BufferTooSizeMismatch));
    assert!(out.img_data.is_empty());
}

#[test]
fn capacity_guard_accepts_exact_and_shorter() {
    let mut out = FloatingImg::new(2, 2, "out.png".to_string());
    assert_eq!(out.set_img_data(vec![7u8; 16]), Ok(()));
    assert_eq!(out.img_data, vec![7u8; 16]);
    assert_eq!(out.set_img_data(vec![3u8; 5]), Ok(()));
    assert_eq!(out.img_data, vec![3u8; 5]);
}

#[test]
fn from_rgba_checks_length_and_sides() {
    assert!(Image::from_rgba(2, 2, vec![0u8; 16]).is_some());
    assert!(Image::from_rgba(2, 2, vec![0u8; 15]).is_none());
    assert!(Image::from_rgba(0, 2, Vec::new()).is_none());
    assert!(Image::from_rgba(2, 0, Vec::new()).is_none());
}

#[test]
fn can_resample_small_and_huge() {
    let a = solid(2, 2, [0, 0, 0, 255]);
    let b = solid(3, 1, [0, 0, 0, 255]);
    assert!(can_resample(&a, &b));
    let tall = Image { width: 1, height: u32::MAX, data: Vec::new() };
    let dot = Image { width: 1, height: 1, data: Vec::new() };
    assert!(can_resample(&tall, &dot));
    let wide = Image { width: u32::MAX, height: 1, data: Vec::new() };
    assert!(!can_resample(&tall, &wide));
    let huge = Image { width: u32::MAX, height: u32::MAX, data: Vec::new() };
    assert!(!can_resample(&huge, &huge));
}

#[test]
fn standardize_keeps_image_at_target() {
    let big = counting(4, 4, 0);
    let small = counting(2, 2, 50);
    let small_data = small.data.clone();
    let (a, b) = standardize_img_sizes(big, small);
    assert_eq!((a.width, a.height), (2, 2));
    assert_eq!((b.width, b.height), (2, 2));
    assert_eq!(a.data.len(), 16);
    assert_eq!(b.data, small_data);
}

#[test]
fn standardize_resizes_second_when_first_is_smaller() {
    let small = counting(1, 2, 10);
    let big = counting(3, 3, 0);
    let small_data = small.data.clone();
    let (a, b) = standardize_img_sizes(small, big);
    assert_eq!(a.data, small_data);
    assert_eq!((b.width, b.height), (1, 2));
    assert_eq!(b.data.len(), 8);
}

#[test]
fn standardize_equal_sizes_is_identity() {
    let a = counting(3, 2, 0);
    let b = counting(3, 2, 77);
    let (a_data, b_data) = (a.data.clone(), b.data.clone());
    let (na, nb) = standardize_img_sizes(a, b);
    assert_eq!(na.data, a_data);
    assert_eq!(nb.data, b_data);
}

#[test]
fn different_formats_are_refused() {
    let a = solid(2, 2, [1, 2, 3, 4]);
    let b = solid(2, 2, [5, 6, 7, 8]);
    let r = combine_images(a, ImageFormat::Png, b, ImageFormat::Jpeg, "out.png".to_string());
    assert!(matches!(r, Err(ImgDataErrors::DifferentImageFormats)));
}

#[test]
fn same_formats_are_blended() {
    let a = solid(4, 4, [255, 0, 0, 255]);
    let b = solid(2, 2, [0, 0, 255, 255]);
    let r = combine_images(a, ImageFormat::Png, b, ImageFormat::Png, "out.png".to_string());
    let out = match r {
        Ok(out) => out,
        Err(e) => panic!("unexpected error {:?}", e),
    };
    assert_eq!((out.img_width, out.img_height), (2, 2));
    assert_eq!(out.img_name, "out.png");
    assert_eq!(out.img_capacity, 16);
    assert_eq!(out.img_data.len(), 16);
    assert_eq!(&out.img_data[4..8], &[0, 0, 255, 255]);
    assert_eq!(&out.img_data[12..16], &[0, 0, 255, 255]);
}

#[test]
fn args_hold_the_three_names() {
    let args = ImgArgs::new("a.png".to_string(), "b.png".to_string(), "c.png".to_string());
    assert_eq!(args.img_1, "a.png");
    assert_eq!(args.img_2, "b.png");
    assert_eq!(args.feedback, "c.png");
}
