//! Pixel grids held as plain samples: the image buffers that the channel
//! operations read and write.

use vstd::prelude::*;

verus! {

/// What a [`Raster`] holds: its size, the number of channels per pixel and
/// the samples, row by row, the channels of one pixel side by side.
pub struct RasterView<T> {
    /// Pixels per row.
    pub width: nat,
    /// Number of rows.
    pub height: nat,
    /// Samples per pixel.
    pub channels: nat,
    /// All samples: pixel `(x, y)` starts at `(y * width + x) * channels`.
    pub samples: Seq<T>,
}

impl<T> RasterView<T> {
    /// The number of samples matches the size and the number of channels.
    pub open spec fn wf(self) -> bool {
        self.samples.len() == self.width * self.height * self.channels
    }

    /// Position in `samples` of channel `c` of the pixel at `(x, y)`.
    pub open spec fn index_of(self, x: int, y: int, c: int) -> int {
        (y * self.width + x) * self.channels + c
    }

    /// Channel `c` of the pixel at `(x, y)`.
    pub open spec fn at(self, x: int, y: int, c: int) -> T {
        self.samples[self.index_of(x, y, c)]
    }

    /// The pixel `(x, y)` and its channel `c` exist.
    pub open spec fn holds(self, x: int, y: int, c: int) -> bool {
        0 <= x < self.width && 0 <= y < self.height && 0 <= c < self.channels
    }
}

/// The samples of distinct channels of existing pixels lie at distinct
/// positions inside the buffer.
pub proof fn lemma_index_in_bounds(width: int, height: int, channels: int, x: int, y: int, c: int)
    requires
        0 <= x < width,
        0 <= y < height,
        0 <= c < channels,
    ensures
        0 <= (y * width + x) * channels + c < width * height * channels,
        0 <= y * width + x < width * height,
{
    assert(0 <= y * width && y * width + width <= height * width) by (nonlinear_arith)
        requires
            0 <= y < height,
            0 < width,
    ;
    assert(height * width == width * height) by (nonlinear_arith);
    let p = y * width + x;
    assert(0 <= p * channels && p * channels + channels <= (width * height) * channels)
        by (nonlinear_arith)
        requires
            0 <= p < width * height,
            0 < channels,
    ;
}

/// An owned grid of pixels with a fixed number of channels per pixel.
#[derive(Debug)]
pub struct Raster<T> {
    width: u32,
    height: u32,
    channels: usize,
    samples: Vec<T>,
}

impl<T> View for Raster<T> {
    type V = RasterView<T>;

    closed spec fn view(&self) -> RasterView<T> {
        RasterView {
            width: self.width as nat,
            height: self.height as nat,
            channels: self.channels as nat,
            samples: self.samples@,
        }
    }
}

impl<T> Raster<T> {
    #[verifier::type_invariant]
    spec fn sized(self) -> bool {
        self.samples@.len() == self.width * self.height * self.channels
    }

    /// Makes a raster of samples whose number is known to match.
    pub(crate) fn assemble(width: u32, height: u32, channels: usize, samples: Vec<T>) -> (raster:
        Raster<T>)
        requires
            samples@.len() == width * height * channels,
        ensures
            raster@ == (RasterView {
                width: width as nat,
                height: height as nat,
                channels: channels as nat,
                samples: samples@,
            }),
    {
        Raster { width, height, channels, samples }
    }

    /// Makes a raster of `samples`, or `None` where their number is not
    /// `width * height * channels`.
    pub fn new(width: u32, height: u32, channels: usize, samples: Vec<T>) -> (raster: Option<
        Raster<T>,
    >)
        ensures
            raster is Some <==> samples@.len() == width * height * channels,
            raster matches Some(r) ==> r@ == (RasterView {
                width: width as nat,
                height: height as nat,
                channels: channels as nat,
                samples: samples@,
            }),
    {
        assert(width * height <= 0xffff_ffff * 0xffff_ffff) by (nonlinear_arith)
            requires
                0 <= width <= 0xffff_ffff,
                0 <= height <= 0xffff_ffff,
        ;
        let pixels: u128 = (width as u128) * (height as u128);
        assert(pixels * channels <= 0xffff_ffff * 0xffff_ffff * 0xffff_ffff_ffff_ffff)
            by (nonlinear_arith)
            requires
                0 <= pixels <= 0xffff_ffff * 0xffff_ffff,
                0 <= channels <= 0xffff_ffff_ffff_ffff,
        ;
        let expected: u128 = pixels * (channels as u128);
        if samples.len() as u128 == expected {
            Some(Raster { width, height, channels, samples })
        } else {
            None
        }
    }

    /// Pixels per row.
    pub fn width(&self) -> (width: u32)
        ensures
            width == self@.width,
    {
        self.width
    }

    /// Number of rows.
    pub fn height(&self) -> (height: u32)
        ensures
            height == self@.height,
    {
        self.height
    }

    /// Samples per pixel.
    pub fn channels(&self) -> (channels: usize)
        ensures
            channels == self@.channels,
    {
        self.channels
    }

    /// The samples, row by row.
    pub fn samples(&self) -> (samples: &Vec<T>)
        ensures
            samples@ == self@.samples,
            self@.wf(),
    {
        proof {
            use_type_invariant(self);
        }
        &self.samples
    }

    /// Gives up the raster for its samples.
    pub fn into_samples(self) -> (samples: Vec<T>)
        ensures
            samples@ == self@.samples,
            self@.wf(),
    {
        proof {
            use_type_invariant(&self);
        }
        self.samples
    }
}

impl<T: Copy> Raster<T> {
    /// Channel `c` of the pixel at `(x, y)`.
    pub fn get(&self, x: u32, y: u32, c: usize) -> (sample: T)
        requires
            self@.holds(x as int, y as int, c as int),
        ensures
            sample == self@.at(x as int, y as int, c as int),
    {
        let total: usize = self.samples.len();
        proof {
            use_type_invariant(self);
            assert(total == self.width * self.height * self.channels);
            lemma_index_in_bounds(
                self.width as int,
                self.height as int,
                self.channels as int,
                x as int,
                y as int,
                c as int,
            );
            assert(0 <= y * self.width) by (nonlinear_arith);
            assert(self.width * self.height <= self.width * self.height * self.channels)
                by (nonlinear_arith)
                requires
                    1 <= self.channels,
            ;
            assert(y * self.width + x < self.width * self.height);
            assert(y * self.width + x < total);
        }
        let pixel: usize = (y as usize) * (self.width as usize) + (x as usize);
        self.samples[pixel * self.channels + c]
    }
}

} // verus!
