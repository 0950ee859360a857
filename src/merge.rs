use crate::raster::Image;
use vstd::prelude::*;

verus! {

/// The inclusive byte range `start..=end` of `v`, empty when `start > end`.
pub open spec fn byte_range(v: Seq<u8>, start: int, end: int) -> Seq<u8> {
    if start <= end {
        v.subrange(start, end + 1)
    } else {
        Seq::empty()
    }
}

/// Copies the bytes `start..=end` of `vec` into a new vector.
pub fn set_rgba(vec: &Vec<u8>, start: usize, end: usize) -> (rgba: Vec<u8>)
    requires
        start <= end ==> end < vec.len(),
    ensures
        rgba@ == byte_range(vec@, start as int, end as int),
{
    let mut rgba: Vec<u8> = Vec::new();
    if start > end {
        return rgba;
    }
    let mut i: usize = start;
    while i <= end
        invariant
            start <= i <= end + 1,
            end < vec.len(),
            rgba@ == vec@.subrange(start as int, i as int),
        decreases end + 1 - i,
    {
        rgba.push(vec[i]);
        i = i + 1;
    }
    rgba
}

/// The blend of two equal-length RGBA buffers: pixel `p` (bytes `4p..4p+3`)
/// comes from `a` when `p` is even, that is when its byte offset is a multiple
/// of 8, and from `b` when `p` is odd.
pub open spec fn merged_pixels(a: Seq<u8>, b: Seq<u8>) -> Seq<u8> {
    Seq::new(a.len(), |k: int| if (k / 4) % 2 == 0 { a[k] } else { b[k] })
}

/// Builds a new buffer of the same length whose pixels alternate between the
/// two sources, starting with `img1_vec`.
pub fn alternate_img_pixels(img1_vec: Vec<u8>, img2_vec: Vec<u8>) -> (combined: Vec<u8>)
    requires
        img1_vec.len() == img2_vec.len(),
        img1_vec.len() % 4 == 0,
    ensures
        combined@ == merged_pixels(img1_vec@, img2_vec@),
        combined@.len() == img1_vec@.len(),
{
    let len: usize = img1_vec.len();
    let mut combined_images_data: Vec<u8> = vec![0u8; len];
    let mut i: usize = 0;
    while i < len
        invariant
            len == img1_vec.len() == img2_vec.len(),
            len % 4 == 0,
            i % 4 == 0,
            i <= len,
            combined_images_data@.len() == len,
            forall|k: int|
                0 <= k < i ==> combined_images_data@[k] == #[trigger] merged_pixels(
                    img1_vec@,
                    img2_vec@,
                )[k],
        decreases len - i,
    {
        let from_first = i % 8 == 0;
        let rgba = if from_first {
            set_rgba(&img1_vec, i, i + 3)
        } else {
            set_rgba(&img2_vec, i, i + 3)
        };
        let mut j: usize = 0;
        while j < 4
            invariant
                len == img1_vec.len() == img2_vec.len(),
                i % 4 == 0,
                i + 4 <= len,
                j <= 4,
                rgba@.len() == 4,
                from_first == (i % 8 == 0),
                from_first ==> rgba@ == img1_vec@.subrange(i as int, i + 4),
                !from_first ==> rgba@ == img2_vec@.subrange(i as int, i + 4),
                combined_images_data@.len() == len,
                forall|k: int|
                    0 <= k < i + j ==> combined_images_data@[k] == #[trigger] merged_pixels(
                        img1_vec@,
                        img2_vec@,
                    )[k],
            decreases 4 - j,
        {
            assert(((i + j) as int / 4) % 2 == 0 <==> i % 8 == 0);
            combined_images_data.set(i + j, rgba[j]);
            j = j + 1;
        }
        i = i + 4;
    }
    assert(combined_images_data@ =~= merged_pixels(img1_vec@, img2_vec@));
    combined_images_data
}

/// Blends two images that stand at the same resolution. The result holds
/// exactly `width * height * 4` bytes.
pub fn process_img_cobination(img_1: Image, img_2: Image) -> (combined: Vec<u8>)
    requires
        img_1.wf(),
        img_2.wf(),
        img_1.dims() == img_2.dims(),
    ensures
        combined@ == merged_pixels(img_1.data@, img_2.data@),
        combined@.len() == img_1.width as int * img_1.height as int * 4,
{
    proof {
        assert((img_1.width as int * img_1.height as int * 4) % 4 == 0) by (nonlinear_arith);
    }
    alternate_img_pixels(img_1.data, img_2.data)
}

} // verus!
