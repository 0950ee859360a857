use vstd::prelude::*;

verus! {

/// A decoded raster held as RGBA bytes: four bytes per pixel, row by row.
pub struct Image {
    pub width: u32,
    pub height: u32,
    pub data: Vec<u8>,
}

/// Bounds the product of two 32-bit sides.
proof fn lemma_side_product(x: u32, y: u32)
    ensures
        0 <= x as int * y as int <= 0xffff_ffff * 0xffff_ffffint,
{
    assert(0 <= x as int * y as int <= 0xffff_ffff * 0xffff_ffffint) by (nonlinear_arith)
        requires
            x <= 0xffff_ffffint,
            y <= 0xffff_ffffint,
    ;
}

/// Number of pixels of a `(width, height)` pair.
pub open spec fn pixel_count(d: (u32, u32)) -> int {
    d.0 as int * d.1 as int
}

impl Image {
    /// Both sides are positive and the buffer holds exactly one RGBA pixel per
    /// position.
    pub open spec fn wf(&self) -> bool {
        &&& self.width > 0
        &&& self.height > 0
        &&& self.data@.len() == self.width as int * self.height as int * 4
    }

    pub open spec fn dims(&self) -> (u32, u32) {
        (self.width, self.height)
    }

    /// Wraps an RGBA buffer, or gives `None` when its length does not match
    /// the dimensions or a side is zero.
    pub fn from_rgba(width: u32, height: u32, data: Vec<u8>) -> (r: Option<Image>)
        ensures
            r is Some <==> (width > 0 && height > 0 && data@.len() == width as int * height as int
                * 4),
            r is Some ==> r->Some_0.width == width && r->Some_0.height == height
                && r->Some_0.data@ == data@ && r->Some_0.wf(),
    {
        proof {
            lemma_side_product(width, height);
        }
        let expected: u128 = (width as u128) * (height as u128) * 4;
        if width == 0 || height == 0 || data.len() as u128 != expected {
            None
        } else {
            Some(Image { width, height, data })
        }
    }
}

/// The dimensions both images are brought to: the pair with strictly fewer
/// pixels, the second one on a tie.
pub open spec fn smallest_dimensions(a: (u32, u32), b: (u32, u32)) -> (u32, u32) {
    if pixel_count(a) < pixel_count(b) {
        a
    } else {
        b
    }
}

/// Picks the target resolution of two images.
pub fn get_img_with_smallest_dimensions(img_1_dimensions: (u32, u32), img_2_dimensions: (
    u32,
    u32,
)) -> (r: (u32, u32))
    ensures
        r == smallest_dimensions(img_1_dimensions, img_2_dimensions),
        pixel_count(r) <= pixel_count(img_1_dimensions),
        pixel_count(r) <= pixel_count(img_2_dimensions),
{
    let (w1, h1) = img_1_dimensions;
    let (w2, h2) = img_2_dimensions;
    proof {
        lemma_side_product(w1, h1);
        lemma_side_product(w2, h2);
    }
    let img1_pixels: u64 = (w1 as u64) * (h1 as u64);
    let img2_pixels: u64 = (w2 as u64) * (h2 as u64);
    if img1_pixels < img2_pixels {
        img_1_dimensions
    } else {
        img_2_dimensions
    }
}

/// What the triangle-filter resampler makes of an RGBA buffer of
/// `width` x `height` pixels at `target_width` x `target_height`.
pub uninterp spec fn resized_rgba(
    data: Seq<u8>,
    width: u32,
    height: u32,
    target_width: u32,
    target_height: u32,
) -> Seq<u8>;

/// The resampler keeps a buffer of `width` x `target_height` RGBA pixels of
/// 32-bit floats between its two passes; it must be allocatable.
pub open spec fn intermediate_fits(width: u32, target_height: u32) -> bool {
    width as int * target_height as int * 16 <= isize::MAX
}

/// Relies on `image::ImageBuffer::from_raw`, which accepts a buffer of at least
/// `width * height * 4` bytes, and on `image::imageops::resize` with
/// `FilterType::Triangle`: it returns a new buffer of exactly
/// `target_width * target_height` pixels, computed from its arguments alone, and
/// a pixel-for-pixel copy of its input when the dimensions do not change.
#[verifier::external_body]
fn resize_rgba(data: &Vec<u8>, width: u32, height: u32, target_width: u32, target_height: u32) -> (r:
    Vec<u8>)
    requires
        width > 0,
        height > 0,
        target_width > 0,
        target_height > 0,
        data@.len() == width as int * height as int * 4,
        target_width as int * target_height as int * 4 <= usize::MAX,
        intermediate_fits(width, target_height),
    ensures
        r@ == resized_rgba(data@, width, height, target_width, target_height),
        r@.len() == target_width as int * target_height as int * 4,
        width == target_width && height == target_height ==> r@ == data@,
{
    let source: image::RgbaImage = image::ImageBuffer::from_raw(width, height, data.clone()).unwrap();
    let filter = image::imageops::FilterType::Triangle;
    image::imageops::resize(&source, target_width, target_height, filter).into_raw()
}

/// Either image may be the one that is resampled, so both cross products must
/// leave room for the resampler's working buffer.
pub open spec fn resample_fits(a: &Image, b: &Image) -> bool {
    intermediate_fits(a.width, b.height) && intermediate_fits(b.width, a.height)
}

/// Tells whether `resample_fits` holds of two images.
pub fn can_resample(a: &Image, b: &Image) -> (r: bool)
    ensures
        r == resample_fits(a, b),
{
    proof {
        lemma_side_product(a.width, b.height);
        lemma_side_product(b.width, a.height);
    }
    let limit: u128 = isize::MAX as u128;
    (a.width as u128) * (b.height as u128) * 16 <= limit && (b.width as u128) * (a.height as u128)
        * 16 <= limit
}

/// The buffers of `a` and `b` once both stand at the target resolution: when
/// `b` is already there, `a` is resampled and `b` kept; otherwise `a` is kept
/// and `b` resampled.
pub open spec fn normalized_data(a: &Image, b: &Image) -> (Seq<u8>, Seq<u8>) {
    let t = smallest_dimensions(a.dims(), b.dims());
    if b.dims() == t {
        (resized_rgba(a.data@, a.width, a.height, t.0, t.1), b.data@)
    } else {
        (a.data@, resized_rgba(b.data@, b.width, b.height, t.0, t.1))
    }
}

/// Brings both images to the resolution of the one with fewer pixels.
/// An image that already stands at that resolution comes back byte for byte.
pub fn standardize_img_sizes(img_1: Image, img_2: Image) -> (r: (Image, Image))
    requires
        img_1.wf(),
        img_2.wf(),
        resample_fits(&img_1, &img_2),
    ensures
        r.0.wf(),
        r.1.wf(),
        r.0.dims() == smallest_dimensions(img_1.dims(), img_2.dims()),
        r.1.dims() == smallest_dimensions(img_1.dims(), img_2.dims()),
        (r.0.data@, r.1.data@) == normalized_data(&img_1, &img_2),
        img_1.dims() == smallest_dimensions(img_1.dims(), img_2.dims()) ==> r.0.data@
            == img_1.data@,
        img_2.dims() == smallest_dimensions(img_1.dims(), img_2.dims()) ==> r.1.data@
            == img_2.data@,
{
    let (width, height) = get_img_with_smallest_dimensions(
        (img_1.width, img_1.height),
        (img_2.width, img_2.height),
    );
    if img_2.width == width && img_2.height == height {
        // the target's byte count is that of a buffer that exists
        let _target_len: usize = img_2.data.len();
        let data = resize_rgba(&img_1.data, img_1.width, img_1.height, width, height);
        (Image { width, height, data }, img_2)
    } else {
        let _target_len: usize = img_1.data.len();
        let data = resize_rgba(&img_2.data, img_2.width, img_2.height, width, height);
        (img_1, Image { width, height, data })
    }
}

} // verus!
