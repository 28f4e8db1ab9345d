//! Green-channel inversion of 16-bit normal maps.

use vstd::prelude::*;
use crate::raster::{lemma_index_in_bounds, Raster, RasterView};

verus! {

/// The sample at position `i` of a 3-channel buffer after the inversion:
/// green, the second of every three samples, becomes `65535 - g`.
pub open spec fn flipped_sample(i: int, sample: u16) -> u16 {
    if i % 3 == 1 {
        (65535 - sample) as u16
    } else {
        sample
    }
}

/// A 3-channel 16-bit buffer with every green sample inverted.
pub open spec fn flipped(samples: Seq<u16>) -> Seq<u16> {
    Seq::new(samples.len(), |i: int| flipped_sample(i, samples[i]))
}

/// Inverting the green channel twice gives back the original buffer, sample
/// for sample.
pub proof fn lemma_flip_green_involution(samples: Seq<u16>)
    ensures
        flipped(flipped(samples)) == samples,
{
    assert(flipped(flipped(samples)) =~= samples);
}

/// In terms of pixels: green is replaced by `65535 - g`, red and blue stay.
pub proof fn lemma_flipped_pixels(texture: RasterView<u16>, x: int, y: int)
    requires
        texture.wf(),
        texture.channels == 3,
        0 <= x < texture.width,
        0 <= y < texture.height,
    ensures
        ({
            let out = RasterView { samples: flipped(texture.samples), ..texture };
            &&& out.at(x, y, 0) == texture.at(x, y, 0)
            &&& out.at(x, y, 1) == 65535 - texture.at(x, y, 1)
            &&& out.at(x, y, 2) == texture.at(x, y, 2)
        }),
{
    lemma_index_in_bounds(texture.width as int, texture.height as int, 3, x, y, 0);
    lemma_index_in_bounds(texture.width as int, texture.height as int, 3, x, y, 1);
    lemma_index_in_bounds(texture.width as int, texture.height as int, 3, x, y, 2);
}

/// Inverts the green channel of a 3-channel 16-bit image.
pub fn flip_green(texture: Raster<u16>) -> (out: Raster<u16>)
    requires
        texture@.channels == 3,
    ensures
        out@ == (RasterView { samples: flipped(texture@.samples), ..texture@ }),
        out@.wf(),
{
    let width = texture.width();
    let height = texture.height();
    let mut samples = texture.into_samples();
    let ghost original = samples@;
    let total = samples.len();
    let mut i: usize = 0;
    while i < total
        invariant
            i <= total,
            total == original.len(),
            samples@.len() == original.len(),
            forall|j: int| 0 <= j < i ==> samples@[j] == flipped_sample(j, original[j]),
            forall|j: int| i <= j < total ==> samples@[j] == original[j],
        decreases total - i,
    {
        if i % 3 == 1 {
            let green = samples[i];
            samples.set(i, 65535 - green);
        }
        i = i + 1;
    }
    assert(samples@ =~= flipped(original));
    Raster::assemble(width, height, 3, samples)
}

/// The byte at position `i` of a 3-channel 16-bit buffer after the
/// inversion. A pixel is six bytes, of which the third and fourth are its
/// green sample; both are complemented.
pub open spec fn flipped_byte(i: int, byte: u8) -> u8 {
    if i % 6 == 2 || i % 6 == 3 {
        (255 - byte) as u8
    } else {
        byte
    }
}

/// The bytes of a 3-channel 16-bit buffer with every green sample inverted.
pub open spec fn flipped_bytes(bytes: Seq<u8>) -> Seq<u8> {
    Seq::new(bytes.len(), |i: int| flipped_byte(i, bytes[i]))
}

/// The 16-bit samples that a run of bytes spells, two bytes each, with the
/// low byte first or the high byte first.
pub open spec fn samples_of(bytes: Seq<u8>, low_first: bool) -> Seq<u16> {
    Seq::new(
        bytes.len() / 2,
        |i: int|
            if low_first {
                (bytes[2 * i] + 256 * bytes[2 * i + 1]) as u16
            } else {
                (256 * bytes[2 * i] + bytes[2 * i + 1]) as u16
            },
    )
}

/// In either byte order, inverting the bytes of the green samples is
/// replacing each green sample `g` by `65535 - g`.
pub proof fn lemma_flipped_bytes_flip_samples(bytes: Seq<u8>, low_first: bool)
    ensures
        samples_of(flipped_bytes(bytes), low_first) == flipped(samples_of(bytes, low_first)),
{
    let left = samples_of(flipped_bytes(bytes), low_first);
    let right = flipped(samples_of(bytes, low_first));
    assert(left.len() == right.len());
    assert forall|i: int| 0 <= i < left.len() implies left[i] == right[i] by {
        assert(0 <= 2 * i && 2 * i + 1 < bytes.len());
        assert((i % 3 == 1) == ((2 * i) % 6 == 2));
        assert((i % 3 == 1) == ((2 * i + 1) % 6 == 3));
        assert((2 * i) % 6 != 3);
        assert((2 * i + 1) % 6 != 2);
    }
    assert(left =~= right);
}

/// Inverting the green bytes twice gives back the original bytes.
pub proof fn lemma_flip_green_bytes_involution(bytes: Seq<u8>)
    ensures
        flipped_bytes(flipped_bytes(bytes)) == bytes,
{
    assert(flipped_bytes(flipped_bytes(bytes)) =~= bytes);
}

/// Inverts the green channel of a 3-channel 16-bit image held as bytes, in
/// whichever byte order the samples are stored.
pub fn flip_green_bytes(bytes: &[u8]) -> (out: Vec<u8>)
    ensures
        out@ == flipped_bytes(bytes@),
{
    let total = bytes.len();
    let mut out: Vec<u8> = Vec::with_capacity(total);
    let mut i: usize = 0;
    while i < total
        invariant
            i <= total,
            total == bytes@.len(),
            out@.len() == i,
            forall|j: int| 0 <= j < i ==> out@[j] == flipped_byte(j, bytes@[j]),
        decreases total - i,
    {
        let byte = bytes[i];
        if i % 6 == 2 || i % 6 == 3 {
            out.push(255 - byte);
        } else {
            out.push(byte);
        }
        i = i + 1;
    }
    assert(out@ =~= flipped_bytes(bytes@));
    out
}

} // verus!
