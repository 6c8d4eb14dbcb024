//! Packing three-channel samples into a four-channel frame buffer.

use vstd::prelude::*;
use crate::img::ResampledImage;

verus! {

/// The RGBA bytes a run of RGB samples packs to: each pixel's three
/// samples in order, then a fully opaque alpha byte.
pub open spec fn packed_rgba(rgb: Seq<u8>) -> Seq<u8> {
    Seq::new(
        (rgb.len() / 3 * 4) as nat,
        |i: int| if i % 4 == 3 {
            255u8
        } else {
            rgb[(i / 4) * 3 + (i % 4)]
        },
    )
}

/// Transcode a resampled image into a destination buffer: for pixel `i`,
/// bytes `4i..4i+3` are its red, green and blue samples and byte `4i+3`
/// is 255. A single linear pass; the caller has sized the destination.
pub fn pack(resampled: &ResampledImage, destination: &mut Vec<u8>)
    requires
        resampled.wf(),
        old(destination)@.len() == resampled.width * resampled.height * 4,
    ensures
        final(destination)@ == packed_rgba(resampled.data@),
{
    let n: usize = destination.len() / 4;
    let mut i: usize = 0;
    while i < n
        invariant
            i <= n,
            4 * n <= usize::MAX,
            n == resampled.width * resampled.height,
            resampled.data@.len() == 3 * n,
            destination@.len() == 4 * n,
            forall|j: int| 0 <= j < 4 * i ==> destination@[j] == packed_rgba(resampled.data@)[j],
        decreases n - i,
    {
        let r = resampled.data[3 * i];
        let g = resampled.data[3 * i + 1];
        let b = resampled.data[3 * i + 2];
        destination.set(4 * i, r);
        destination.set(4 * i + 1, g);
        destination.set(4 * i + 2, b);
        destination.set(4 * i + 3, 255);
        i = i + 1;
    }
    proof {
        assert(destination@ =~= packed_rgba(resampled.data@));
    }
}

} // verus!
