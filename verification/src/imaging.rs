//! Decoded images. Decoding, conversion between formats, resampling and
//! PNG encoding are the `image` crate's; this module states what the library
//! relies on: a model of a decoded image and what each of those calls does to
//! it. Sample bytes are in the byte order of the target throughout.

use vstd::prelude::*;
use image::codecs::png::{CompressionType, FilterType as Filtering, PngEncoder};
use image::imageops::FilterType;
use image::{ColorType, DynamicImage, ImageBuffer, ImageEncoder, ImageError, ImageFormat};
use bytemuck::pod_collect_to_vec;
use crate::format::Format;
use crate::resize::Filter;

verus! {

/// `image::DynamicImage`, a decoded image; nothing of its inside is visible
/// here.
#[verifier::external_type_specification]
#[verifier::external_body]
pub struct ExDynamicImage(image::DynamicImage);

/// `image::ImageError`, what the decoder and the encoder report.
#[verifier::external_type_specification]
#[verifier::external_body]
pub struct ExImageError(image::ImageError);

/// What a decoded image holds.
pub struct Picture {
    /// Layout of a pixel.
    pub format: Format,
    /// Pixels per row.
    pub width: u32,
    /// Number of rows.
    pub height: u32,
    /// The samples as bytes, row by row.
    pub bytes: Seq<u8>,
}

impl Picture {
    /// The buffer holds the pixels and nothing more.
    pub open spec fn exact(self) -> bool {
        self.bytes.len() == self.width * self.height * self.format.spec_bytes_per_pixel()
    }

    /// The image has no pixel.
    pub open spec fn empty(self) -> bool {
        self.width == 0 || self.height == 0
    }
}

/// Whether a buffer of `width * height` pixels of `bytes_per_pixel` bytes
/// each can be allocated.
pub open spec fn allocatable(width: u32, height: u32, bytes_per_pixel: nat) -> bool {
    width * height * bytes_per_pixel <= isize::MAX
}

/// What a `DynamicImage` holds.
pub uninterp spec fn picture(image: DynamicImage) -> Picture;

/// The four bytes that spell a 32-bit word in the byte order of the target.
pub uninterp spec fn native_bytes(word: u32) -> Seq<u8>;

/// The word whose set bits are the exponent bits of a 32-bit floating-point
/// number. A number is infinite or a NaN where all of them are set.
pub const EXPONENT: u32 = 0x7f80_0000;

/// Whether the four bytes of a sample do not have all the bits of `mask`
/// set, `mask` being four bytes as well.
pub open spec fn clear_of(b0: u8, b1: u8, b2: u8, b3: u8, mask: Seq<u8>) -> bool {
    b0 & mask[0] != mask[0] || b1 & mask[1] != mask[1] || b2 & mask[2] != mask[2] || b3 & mask[3]
        != mask[3]
}

/// Whether sample `k` of a buffer of 32-bit floating-point samples is a
/// finite number: its exponent bits are not all set.
pub open spec fn finite_sample(bytes: Seq<u8>, k: int) -> bool {
    clear_of(
        bytes[4 * k],
        bytes[4 * k + 1],
        bytes[4 * k + 2],
        bytes[4 * k + 3],
        native_bytes(EXPONENT),
    )
}

/// Whether every 32-bit sample of a buffer is a finite number.
pub open spec fn finite_samples(bytes: Seq<u8>) -> bool {
    forall|k: int| 0 <= k && 4 * k + 4 <= bytes.len() ==> #[trigger] finite_sample(bytes, k)
}

/// What the library asks of an image before it converts it to a format of
/// integer samples: its own samples are integers, or floating-point numbers
/// that are all finite. No conversion of such an image panics.
pub open spec fn integral(source: Picture) -> bool {
    source.format.spec_is_float() ==> finite_samples(source.bytes)
}

/// The bytes of an image's pixels after conversion to another format.
pub uninterp spec fn recoded(source: Picture, format: Format) -> Seq<u8>;

/// The bytes of an image's pixels after resampling to another size.
pub uninterp spec fn resampled(source: Picture, width: u32, height: u32, filter: Filter) -> Seq<u8>;

/// The image that a PNG file holds, or `None` where the bytes are refused.
pub uninterp spec fn decoded_png(file: Seq<u8>) -> Option<Picture>;

/// The PNG file for a buffer of pixels, written with best compression and
/// adaptive filtering, or `None` where the encoder refuses.
pub uninterp spec fn png_encoding(bytes: Seq<u8>, width: u32, height: u32, format: Format) -> Option<
    Seq<u8>,
>;

/// An image in `format`: the same image where it has that format already,
/// else one of the same size with every pixel converted.
pub open spec fn converted(source: Picture, format: Format) -> Picture {
    if source.format == format {
        source
    } else {
        Picture {
            format,
            width: source.width,
            height: source.height,
            bytes: recoded(source, format),
        }
    }
}

/// What a conversion to `format` gives, `bytes` being the converted pixels:
/// the image itself where it has that format already, else an image of the
/// same size that holds `bytes` and nothing more.
pub open spec fn conversion(source: Picture, format: Format, bytes: Seq<u8>, result: Picture) -> bool {
    if source.format == format {
        result == source
    } else {
        &&& result == (Picture { format, width: source.width, height: source.height, bytes })
        &&& result.exact()
    }
}

/// `u32::to_ne_bytes`: the four bytes that spell a word in the byte order of
/// the target.
#[verifier::external_body]
pub(crate) fn bytes_of(word: u32) -> (bytes: [u8; 4])
    ensures
        bytes@ == native_bytes(word),
{
    word.to_ne_bytes()
}

/// `ColorType::bytes_per_pixel` of `DynamicImage::color`: the number of
/// bytes that the image's format gives a pixel.
#[verifier::external_body]
pub(crate) fn bytes_per_pixel(image: &DynamicImage) -> (bytes: u8)
    ensures
        bytes == picture(*image).format.spec_bytes_per_pixel(),
{
    image.color().bytes_per_pixel()
}

/// `DynamicImage::width`.
pub assume_specification[ DynamicImage::width ](image: &DynamicImage) -> (width: u32)
    ensures
        width == picture(*image).width,
;

/// `DynamicImage::height`.
pub assume_specification[ DynamicImage::height ](image: &DynamicImage) -> (height: u32)
    ensures
        height == picture(*image).height,
;

/// `DynamicImage::as_bytes`: the samples as a byte slice.
pub assume_specification<'a>[ DynamicImage::as_bytes ](image: &'a DynamicImage) -> (bytes: &'a [u8])
    ensures
        bytes@ == picture(*image).bytes,
;

/// `DynamicImage::new_rgba32f`: an image of the given size with every sample
/// zero. It panics where the buffer cannot be allocated.
pub assume_specification[ DynamicImage::new_rgba32f ](w: u32, h: u32) -> (image: DynamicImage)
    requires
        allocatable(w, h, 16),
    ensures
        picture(image) == (Picture {
            format: Format::Rgba32F,
            width: w,
            height: h,
            bytes: Seq::new((w * h * 16) as nat, |i: int| 0u8),
        }),
;

/// `DynamicImage::into_luma8`, its result made a `DynamicImage` again: the
/// image as 8-bit luminance. An image of that format is handed back as it is;
/// any other is converted pixel by pixel into a new buffer of exact size,
/// which the call allocates. The conversion panics on a floating-point sample
/// that is a NaN, and on a pixel whose weighted channels sum to a NaN, as
/// infinite samples of opposite sign do. Finite samples are asked for, which
/// leaves out both and, with them, images that would convert.
#[verifier::external_body]
pub(crate) fn into_luma8(image: DynamicImage) -> (result: DynamicImage)
    requires
        allocatable(picture(image).width, picture(image).height, 1),
        integral(picture(image)),
    ensures
        conversion(
            picture(image),
            Format::L8,
            recoded(picture(image), Format::L8),
            picture(result),
        ),
{
    DynamicImage::from(image.into_luma8())
}

/// `DynamicImage::into_rgb8`, its result made a `DynamicImage` again: the
/// image as 8-bit RGB. An image of that format is handed back as it is; any
/// other is converted pixel by pixel into a new buffer of exact size, which
/// the call allocates. The conversion panics on a floating-point sample that
/// is a NaN; an infinite one is clamped. Finite samples are asked for, which
/// leaves out the NaN and, with it, infinite samples that would convert.
#[verifier::external_body]
pub(crate) fn into_rgb8(image: DynamicImage) -> (result: DynamicImage)
    requires
        allocatable(picture(image).width, picture(image).height, 3),
        integral(picture(image)),
    ensures
        conversion(
            picture(image),
            Format::Rgb8,
            recoded(picture(image), Format::Rgb8),
            picture(result),
        ),
{
    DynamicImage::from(image.into_rgb8())
}

/// `DynamicImage::into_rgba8`, its result made a `DynamicImage` again: the
/// image as 8-bit RGBA. An image of that format is handed back as it is; any
/// other is converted pixel by pixel into a new buffer of exact size, which
/// the call allocates. The conversion panics on a floating-point sample that
/// is a NaN; an infinite one is clamped. Finite samples are asked for, which
/// leaves out the NaN and, with it, infinite samples that would convert.
#[verifier::external_body]
pub(crate) fn into_rgba8(image: DynamicImage) -> (result: DynamicImage)
    requires
        allocatable(picture(image).width, picture(image).height, 4),
        integral(picture(image)),
    ensures
        conversion(
            picture(image),
            Format::Rgba8,
            recoded(picture(image), Format::Rgba8),
            picture(result),
        ),
{
    DynamicImage::from(image.into_rgba8())
}

/// `DynamicImage::into_luma16`, its result made a `DynamicImage` again: the
/// image as 16-bit luminance. An image of that format is handed back as it is;
/// any other is converted pixel by pixel into a new buffer of exact size,
/// which the call allocates. The conversion panics on a floating-point sample
/// that is a NaN, and on a pixel whose weighted channels sum to a NaN, as
/// infinite samples of opposite sign do. Finite samples are asked for, which
/// leaves out both and, with them, images that would convert.
#[verifier::external_body]
pub(crate) fn into_luma16(image: DynamicImage) -> (result: DynamicImage)
    requires
        allocatable(picture(image).width, picture(image).height, 2),
        integral(picture(image)),
    ensures
        conversion(
            picture(image),
            Format::L16,
            recoded(picture(image), Format::L16),
            picture(result),
        ),
{
    DynamicImage::from(image.into_luma16())
}

/// `DynamicImage::into_rgb16`, its result made a `DynamicImage` again: the
/// image as 16-bit RGB. An image of that format is handed back as it is; any
/// other is converted pixel by pixel into a new buffer of exact size, which
/// the call allocates. The conversion panics on a floating-point sample that
/// is a NaN; an infinite one is clamped. Finite samples are asked for, which
/// leaves out the NaN and, with it, infinite samples that would convert.
#[verifier::external_body]
pub(crate) fn into_rgb16(image: DynamicImage) -> (result: DynamicImage)
    requires
        allocatable(picture(image).width, picture(image).height, 6),
        integral(picture(image)),
    ensures
        conversion(
            picture(image),
            Format::Rgb16,
            recoded(picture(image), Format::Rgb16),
            picture(result),
        ),
{
    DynamicImage::from(image.into_rgb16())
}

/// `DynamicImage::into_rgba16`, its result made a `DynamicImage` again: the
/// image as 16-bit RGBA. An image of that format is handed back as it is; any
/// other is converted pixel by pixel into a new buffer of exact size, which
/// the call allocates. The conversion panics on a floating-point sample that
/// is a NaN; an infinite one is clamped. Finite samples are asked for, which
/// leaves out the NaN and, with it, infinite samples that would convert.
#[verifier::external_body]
pub(crate) fn into_rgba16(image: DynamicImage) -> (result: DynamicImage)
    requires
        allocatable(picture(image).width, picture(image).height, 8),
        integral(picture(image)),
    ensures
        conversion(
            picture(image),
            Format::Rgba16,
            recoded(picture(image), Format::Rgba16),
            picture(result),
        ),
{
    DynamicImage::from(image.into_rgba16())
}

/// `DynamicImage::into_rgb32f`, its result made a `DynamicImage` again: the
/// image as floating-point RGB. An image of that format is handed back as it
/// is; any other is converted pixel by pixel into a new buffer of exact size,
/// which the call allocates.
#[verifier::external_body]
pub(crate) fn into_rgb32f(image: DynamicImage) -> (result: DynamicImage)
    requires
        allocatable(picture(image).width, picture(image).height, 12),
    ensures
        conversion(
            picture(image),
            Format::Rgb32F,
            recoded(picture(image), Format::Rgb32F),
            picture(result),
        ),
{
    DynamicImage::from(image.into_rgb32f())
}

/// `DynamicImage::into_rgba32f`, its result made a `DynamicImage` again: the
/// image as floating-point RGBA. An image of that format is handed back as it
/// is; any other is converted pixel by pixel into a new buffer of exact size,
/// which the call allocates.
#[verifier::external_body]
pub(crate) fn into_rgba32f(image: DynamicImage) -> (result: DynamicImage)
    requires
        allocatable(picture(image).width, picture(image).height, 16),
    ensures
        conversion(
            picture(image),
            Format::Rgba32F,
            recoded(picture(image), Format::Rgba32F),
            picture(result),
        ),
{
    DynamicImage::from(image.into_rgba32f())
}

/// `DynamicImage::resize_exact`, for a size other than the image's own: an
/// image of exactly the new size, in the same format and in a buffer of
/// exact size. The resampler works on a source with at least one pixel and
/// allocates a floating-point buffer of the source's width and the new
/// height besides the result.
#[verifier::external_body]
pub(crate) fn resample(image: &DynamicImage, width: u32, height: u32, filter: Filter) -> (result:
    DynamicImage)
    requires
        !picture(*image).empty(),
        picture(*image).width != width || picture(*image).height != height,
        allocatable(picture(*image).width, height, 16),
        allocatable(width, height, 16),
    ensures
        picture(result) == (Picture {
            format: picture(*image).format,
            width,
            height,
            bytes: resampled(picture(*image), width, height, filter),
        }),
        picture(result).exact(),
{
    let kernel = match filter {
        Filter::CatmullRom => FilterType::CatmullRom,
        Filter::Lanczos3 => FilterType::Lanczos3,
    };
    image.resize_exact(width, height, kernel)
}

/// `ImageBuffer::from_raw` on what `bytemuck::pod_collect_to_vec` makes of a
/// buffer of bytes: the floating-point RGBA image whose samples are spelled
/// by the bytes, four bytes each. `from_raw` gives an image for a buffer that
/// is large enough.
#[verifier::external_body]
pub(crate) fn float_image(width: u32, height: u32, bytes: &[u8]) -> (result: Option<DynamicImage>)
    requires
        bytes@.len() == width * height * 16,
    ensures
        match result {
            Some(image) => picture(image) == (Picture {
                format: Format::Rgba32F,
                width,
                height,
                bytes: bytes@,
            }),
            None => false,
        },
{
    ImageBuffer::from_raw(width, height, pod_collect_to_vec(bytes)).map(DynamicImage::ImageRgba32F)
}

/// `image::load_from_memory_with_format` for PNG: the same bytes always
/// decode to the same image or are always refused. A decoded image has a
/// buffer of exact size.
#[verifier::external_body]
pub(crate) fn decode_png(file: &[u8]) -> (result: Result<DynamicImage, ImageError>)
    ensures
        match result {
            Ok(image) => decoded_png(file@) == Some(picture(image)) && picture(image).exact(),
            Err(_) => decoded_png(file@) is None,
        },
{
    image::load_from_memory_with_format(file, ImageFormat::Png)
}

/// `PngEncoder::write_image` on an encoder made by
/// `PngEncoder::new_with_quality` with best compression and adaptive
/// filtering, writing into memory. It panics where the buffer's length is
/// not that of `width * height` pixels.
#[verifier::external_body]
pub(crate) fn encode_png(buffer: &[u8], width: u32, height: u32, format: Format) -> (result: Result<
    Vec<u8>,
    ImageError,
>)
    requires
        buffer@.len() == width * height * format.spec_bytes_per_pixel(),
    ensures
        match result {
            Ok(file) => png_encoding(buffer@, width, height, format) == Some(file@),
            Err(_) => png_encoding(buffer@, width, height, format) is None,
        },
{
    let color = match format {
        Format::L8 => ColorType::L8,
        Format::La8 => ColorType::La8,
        Format::Rgb8 => ColorType::Rgb8,
        Format::Rgba8 => ColorType::Rgba8,
        Format::L16 => ColorType::L16,
        Format::La16 => ColorType::La16,
        Format::Rgb16 => ColorType::Rgb16,
        Format::Rgba16 => ColorType::Rgba16,
        Format::Rgb32F => ColorType::Rgb32F,
        Format::Rgba32F => ColorType::Rgba32F,
    };
    let mut file = Vec::new();
    let encoder = PngEncoder::new_with_quality(&mut file, CompressionType::Best, Filtering::Adaptive);
    encoder.write_image(buffer, width, height, color).map(|_| file)
}

/// The message of an `ImageError`, as its `Display` writes it.
#[verifier::external_body]
pub(crate) fn image_error_message(error: &ImageError) -> String {
    format!("{}", error)
}

} // verus!
