use crate::merge::{merged_pixels, process_img_cobination};
use crate::output::{FloatingImg, ImgDataErrors};
use crate::raster::{
    normalized_data,
    resample_fits,
    smallest_dimensions,
    standardize_img_sizes,
    Image,
};
use image::ImageFormat;
use vstd::prelude::*;

verus! {

#[verifier::external_type_specification]
#[verifier::external_body]
pub struct ExImageFormat(ImageFormat);

/// Relies on the derived `PartialEq` of `image::ImageFormat`, an enum whose
/// variants carry no data: two formats compare equal exactly when they are
/// the same variant.
#[verifier::external_body]
fn same_format(a: &ImageFormat, b: &ImageFormat) -> (r: bool)
    ensures
        r == (*a == *b),
{
    *a == *b
}

/// Blends two decoded images into an output named `feedback`.
///
/// Images in different formats are refused before anything is resampled.
/// Otherwise both are brought to the resolution of the one with fewer pixels
/// (the second on a tie), their pixels are interleaved, and the output holds
/// the result at that resolution.
pub fn combine_images(
    img_1: Image,
    img1_format: ImageFormat,
    img_2: Image,
    img2_format: ImageFormat,
    feedback: String,
) -> (r: Result<FloatingImg, ImgDataErrors>)
    requires
        img_1.wf(),
        img_2.wf(),
        resample_fits(&img_1, &img_2),
    ensures
        img1_format != img2_format ==> r == Err::<FloatingImg, ImgDataErrors>(
            ImgDataErrors::DifferentImageFormats,
        ),
        img1_format == img2_format ==> r is Ok,
        r is Ok ==> ({
            let out = r->Ok_0;
            let t = smallest_dimensions(img_1.dims(), img_2.dims());
            let (d1, d2) = normalized_data(&img_1, &img_2);
            &&& out.wf()
            &&& out.img_width == t.0
            &&& out.img_height == t.1
            &&& out.img_name@ == feedback@
            &&& out.img_data@ == merged_pixels(d1, d2)
        }),
{
    if !same_format(&img1_format, &img2_format) {
        return Err(ImgDataErrors::DifferentImageFormats);
    }
    let (img_1, img_2) = standardize_img_sizes(img_1, img_2);
    // the normalized buffer shows that the output's byte count fits in memory
    let _target_len: usize = img_1.data.len();
    let mut result = FloatingImg::new(img_1.width, img_1.height, feedback);
    let combined_images_data = process_img_cobination(img_1, img_2);
    match result.set_img_data(combined_images_data) {
        Ok(()) => Ok(result),
        Err(e) => Err(e),
    }
}

} // verus!
