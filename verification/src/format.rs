//! Color formats of image buffers.

use vstd::prelude::*;

verus! {

/// Layout of one pixel: how many channels it has and how each is stored.
#[derive(Clone, Copy, Debug, PartialEq, Eq, Structural)]
pub enum Format {
    /// One 8-bit luminance channel.
    L8,
    /// 8-bit luminance and alpha.
    La8,
    /// 8-bit red, green, blue.
    Rgb8,
    /// 8-bit red, green, blue, alpha.
    Rgba8,
    /// One 16-bit luminance channel.
    L16,
    /// 16-bit luminance and alpha.
    La16,
    /// 16-bit red, green, blue.
    Rgb16,
    /// 16-bit red, green, blue, alpha.
    Rgba16,
    /// 32-bit floating-point red, green, blue.
    Rgb32F,
    /// 32-bit floating-point red, green, blue, alpha.
    Rgba32F,
}

impl Format {
    /// Number of channels in a pixel.
    pub open spec fn spec_channels(self) -> nat {
        match self {
            Format::L8 | Format::L16 => 1,
            Format::La8 | Format::La16 => 2,
            Format::Rgb8 | Format::Rgb16 | Format::Rgb32F => 3,
            Format::Rgba8 | Format::Rgba16 | Format::Rgba32F => 4,
        }
    }

    /// Number of bytes that store one channel of a pixel.
    pub open spec fn spec_bytes_per_channel(self) -> nat {
        match self {
            Format::L8 | Format::La8 | Format::Rgb8 | Format::Rgba8 => 1,
            Format::L16 | Format::La16 | Format::Rgb16 | Format::Rgba16 => 2,
            Format::Rgb32F | Format::Rgba32F => 4,
        }
    }

    /// Number of bytes that store one pixel.
    pub open spec fn spec_bytes_per_pixel(self) -> nat {
        match self {
            Format::L8 => 1,
            Format::La8 | Format::L16 => 2,
            Format::Rgb8 => 3,
            Format::Rgba8 | Format::La16 => 4,
            Format::Rgb16 => 6,
            Format::Rgba16 => 8,
            Format::Rgb32F => 12,
            Format::Rgba32F => 16,
        }
    }

    /// A pixel takes the bytes of its channels.
    pub proof fn lemma_pixel_is_its_channels(self)
        ensures
            self.spec_bytes_per_pixel() == self.spec_channels() * self.spec_bytes_per_channel(),
    {
    }

    /// Whether the samples are floating-point numbers.
    pub open spec fn spec_is_float(self) -> bool {
        self == Format::Rgb32F || self == Format::Rgba32F
    }

    /// Number of channels in a pixel.
    pub fn channels(self) -> (n: u8)
        ensures
            n == self.spec_channels(),
    {
        match self {
            Format::L8 | Format::L16 => 1,
            Format::La8 | Format::La16 => 2,
            Format::Rgb8 | Format::Rgb16 | Format::Rgb32F => 3,
            Format::Rgba8 | Format::Rgba16 | Format::Rgba32F => 4,
        }
    }

    /// Number of bytes that store one pixel.
    pub fn bytes_per_pixel(self) -> (n: u8)
        ensures
            n == self.spec_bytes_per_pixel(),
            1 <= n <= 16,
    {
        match self {
            Format::L8 => 1,
            Format::La8 | Format::L16 => 2,
            Format::Rgb8 => 3,
            Format::Rgba8 | Format::La16 => 4,
            Format::Rgb16 => 6,
            Format::Rgba16 => 8,
            Format::Rgb32F => 12,
            Format::Rgba32F => 16,
        }
    }

    /// The floating-point formats are those with 12 bytes or more to a
    /// pixel, and floating-point RGBA is the one with 16.
    pub proof fn lemma_float_pixels_are_wide(self)
        ensures
            self.spec_is_float() == (self.spec_bytes_per_pixel() >= 12),
            (self == Format::Rgba32F) == (self.spec_bytes_per_pixel() == 16),
    {
    }

    /// Whether the samples are floating-point numbers.
    pub fn is_float(self) -> (float: bool)
        ensures
            float == self.spec_is_float(),
    {
        match self {
            Format::Rgb32F | Format::Rgba32F => true,
            _ => false,
        }
    }
}

} // verus!
