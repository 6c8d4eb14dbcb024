//! The pixel data the pipeline works on, and resampling to a target size.
//!
//! A picture is held as plain values: a width, a height, and a row-major
//! run of three 8-bit samples (red, green, blue) per pixel. The resampling
//! itself is delegated to the `image` crate; everything stated about its
//! result is what that crate's source shows.

use vstd::prelude::*;
use crate::errors::RviError;

verus! {

/// The decoded source picture: `width * height` pixels, three 8-bit
/// channels each, rows first. Loaded once, never mutated.
pub struct SourceImage {
    pub width: u32,
    pub height: u32,
    pub data: Vec<u8>,
}

impl SourceImage {
    /// Both dimensions are positive and the samples fill them exactly.
    pub open spec fn wf(self) -> bool {
        &&& self.width >= 1
        &&& self.height >= 1
        &&& self.data@.len() == self.width * self.height * 3
    }

    /// Build a source image from plain RGB8 samples. Succeeds exactly when
    /// both dimensions are positive and the samples fill them; anything
    /// else is a processing error, never a silently misshapen image.
    pub fn from_rgb8(width: u32, height: u32, data: Vec<u8>) -> (r: Result<SourceImage, RviError>)
        ensures
            match r {
                Ok(img) => {
                    &&& img.wf()
                    &&& img.width == width
                    &&& img.height == height
                    &&& img.data@ == data@
                },
                Err(e) => {
                    &&& e == RviError::ImageError
                    &&& !(width >= 1 && height >= 1 && data@.len() == width * height * 3)
                },
            },
    {
        proof {
            assert(width * height <= 0xffff_fffe_0000_0001) by (nonlinear_arith)
                requires
                    width <= 0xffff_ffff,
                    height <= 0xffff_ffff;
        }
        if width >= 1 && height >= 1 {
            let need: u128 = (width as u128) * (height as u128) * 3;
            if (data.len() as u128) == need {
                return Ok(SourceImage { width, height, data });
            }
        }
        Err(RviError::ImageError)
    }
}

/// A resized copy of the source at an explicit target size, same layout
/// as `SourceImage`.
pub struct ResampledImage {
    pub width: u32,
    pub height: u32,
    pub data: Vec<u8>,
}

impl ResampledImage {
    /// Both dimensions are positive and the samples fill them exactly.
    pub open spec fn wf(self) -> bool {
        &&& self.width >= 1
        &&& self.height >= 1
        &&& self.data@.len() == self.width * self.height * 3
    }
}

/// The samples the resampling primitive produces for the given source
/// samples, source size and target size. The samples are a function of
/// these arguments alone; nothing here says what they are on given values.
pub uninterp spec fn resample_of(
    data: Seq<u8>,
    width: u32,
    height: u32,
    target_width: u32,
    target_height: u32,
) -> Seq<u8>;

/// Relies on `image::imageops::resize` (nearest-neighbour filter) over an
/// RGB8 buffer: the result is a `target_width * target_height` RGB8 buffer
/// and depends on the source samples and the dimensions alone.
/// `image::RgbImage::from_raw` is `Some` because the sample count matches
/// the dimensions exactly. The size bounds keep every buffer the resampler
/// allocates — it goes through a four-channel `f32` image of
/// `width * target_height` and then `target_width * target_height` pixels,
/// sixteen bytes each — under the allocator's `isize::MAX` byte limit, so
/// the call cannot panic.
#[verifier::external_body]
fn resample_rgb8(
    data: &Vec<u8>,
    width: u32,
    height: u32,
    target_width: u32,
    target_height: u32,
) -> (r: Vec<u8>)
    requires
        width >= 1,
        height >= 1,
        target_width >= 1,
        target_height >= 1,
        data@.len() == width * height * 3,
        width * target_height * 32 <= usize::MAX,
        target_width * target_height * 32 <= usize::MAX,
    ensures
        r@ == resample_of(data@, width, height, target_width, target_height),
        r@.len() == target_width * target_height * 3,
{
    let img: image::RgbImage =
        image::RgbImage::from_raw(width, height, data.clone()).unwrap();
    let out = image::imageops::resize(
        &img,
        target_width,
        target_height,
        image::imageops::FilterType::Nearest,
    );
    out.into_raw()
}

/// Resample a source image to an explicit target size. The result has
/// exactly the asked-for dimensions, whatever the source size, and its
/// samples are the fixed resampling of the source: no hidden state.
pub fn resample(source: &SourceImage, target_width: u32, target_height: u32) -> (r: ResampledImage)
    requires
        source.wf(),
        target_width >= 1,
        target_height >= 1,
        source.width * target_height * 32 <= usize::MAX,
        target_width * target_height * 32 <= usize::MAX,
    ensures
        r.wf(),
        r.width == target_width,
        r.height == target_height,
        r.data@ == resample_of(source.data@, source.width, source.height, target_width, target_height),
{
    let data = resample_rgb8(&source.data, source.width, source.height, target_width, target_height);
    ResampledImage { width: target_width, height: target_height, data }
}

/// Resampling is idempotent: two resampled images taken from the same
/// source at the same target size hold identical samples.
pub proof fn lemma_resample_idempotent(
    a: ResampledImage,
    b: ResampledImage,
    source: SourceImage,
    target_width: u32,
    target_height: u32,
)
    requires
        a.data@ == resample_of(source.data@, source.width, source.height, target_width, target_height),
        b.data@ == resample_of(source.data@, source.width, source.height, target_width, target_height),
    ensures
        a.data@ == b.data@,
{
}

} // verus!
