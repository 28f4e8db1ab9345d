//! Naming convention, channel-format table and the image helpers shared by
//! the conversion tasks.

use vstd::prelude::*;
use vstd::string::*;
use image::DynamicImage;
use crate::format::Format;
use crate::imaging::{
    allocatable, bytes_of, bytes_per_pixel, converted, encode_png, finite_sample, finite_samples,
    image_error_message, integral, into_luma16, into_luma8, into_rgb16, into_rgb32f, into_rgb8,
    into_rgba16, into_rgba32f, into_rgba8, native_bytes, picture, png_encoding, resample,
    resampled, Picture, EXPONENT,
};
use crate::resize::{plan_for, resize_plan};

verus! {

/// Whether two string slices hold the same text.
pub fn same_text(a: &str, b: &str) -> (same: bool)
    ensures
        same == (a@ == b@),
{
    a.to_owned() == b.to_owned()
}

/// Whether a string slice begins with another.
pub fn begins_with(text: &str, prefix: &str) -> (begins: bool)
    ensures
        begins == prefix@.is_prefix_of(text@),
{
    let prefix_len = prefix.unicode_len();
    if text.unicode_len() < prefix_len {
        return false;
    }
    let mut i: usize = 0;
    while i < prefix_len
        invariant
            i <= prefix_len,
            prefix_len == prefix@.len(),
            prefix_len <= text@.len(),
            forall|j: int| 0 <= j < i ==> text@[j] == prefix@[j],
        decreases prefix_len - i,
    {
        if text.get_char(i) != prefix.get_char(i) {
            assert(text@.subrange(0, prefix@.len() as int)[i as int] != prefix@[i as int]);
            return false;
        }
        i = i + 1;
    }
    assert(prefix@ =~= text@.subrange(0, prefix@.len() as int));
    true
}

/// The format that the channel-format table assigns to a channel name.
/// Every name that begins with `mask` or with `opacity` is a single-channel
/// map, as the other single-channel names are. Names outside the table get
/// 8-bit RGB.
pub open spec fn color_of(map_name: Seq<char>) -> Format {
    if map_name == "basecolor"@ || map_name == "diffuse"@ {
        Format::Rgb8
    } else if map_name == "basecoloralpha"@ {
        Format::Rgba8
    } else if map_name == "normal"@ {
        Format::Rgb16
    } else if map_name == "ao"@ || map_name == "occlusion"@ || map_name == "roughness"@
        || map_name == "metallic"@ || map_name == "metalness"@ || map_name == "alpha"@
        || "mask"@.is_prefix_of(map_name) || "opacity"@.is_prefix_of(map_name) {
        Format::L8
    } else {
        Format::Rgb8
    }
}

/// Every name of the `mask` family and of the `opacity` family gets 8-bit
/// luminance, the format of `mask` itself.
pub proof fn lemma_mask_and_opacity_families(map_name: Seq<char>)
    requires
        "mask"@.is_prefix_of(map_name) || "opacity"@.is_prefix_of(map_name),
    ensures
        color_of(map_name) == Format::L8,
        color_of(map_name) == color_of("mask"@),
{
    reveal_strlit("mask");
    reveal_strlit("opacity");
    reveal_strlit("basecolor");
    reveal_strlit("diffuse");
    reveal_strlit("basecoloralpha");
    reveal_strlit("normal");
    assert("mask"@.is_prefix_of("mask"@));
    assert(map_name[0] == 'm' || map_name[0] == 'o') by {
        if "mask"@.is_prefix_of(map_name) {
            assert(map_name.subrange(0, "mask"@.len() as int)[0] == "mask"@[0]);
        } else {
            assert(map_name.subrange(0, "opacity"@.len() as int)[0] == "opacity"@[0]);
        }
    }
    assert("basecolor"@[0] == 'b');
    assert("diffuse"@[0] == 'd');
    assert("basecoloralpha"@[0] == 'b');
    assert("normal"@[0] == 'n');
    assert("mask"@[0] == 'm');
}

/// Returns the color format for the given map name.
pub fn map_to_color(map_name: &str) -> (format: Format)
    ensures
        format == color_of(map_name@),
{
    if same_text(map_name, "basecolor") || same_text(map_name, "diffuse") {
        Format::Rgb8
    } else if same_text(map_name, "basecoloralpha") {
        Format::Rgba8
    } else if same_text(map_name, "normal") {
        Format::Rgb16
    } else if same_text(map_name, "ao") || same_text(map_name, "occlusion") || same_text(
        map_name,
        "roughness",
    ) || same_text(map_name, "metallic") || same_text(map_name, "metalness") || same_text(
        map_name,
        "alpha",
    ) || begins_with(map_name, "mask") || begins_with(map_name, "opacity") {
        Format::L8
    } else {
        Format::Rgb8
    }
}

/// The file name of a texture: `{material}_{data}.{format}`.
pub open spec fn file_name_of(material_name: Seq<char>, data: Seq<char>, format: Seq<char>) -> Seq<
    char,
> {
    material_name + seq!['_'] + data + seq!['.'] + format
}

/// A directory and a file name as one path. A file name that begins with `/`
/// is absolute and stands alone; otherwise it follows the directory, with a
/// `/` between them unless the directory is empty or already ends in one.
pub open spec fn joined(directory: Seq<char>, file: Seq<char>) -> Seq<char> {
    if file.len() > 0 && file[0] == '/' {
        file
    } else if directory.len() == 0 || directory.last() == '/' {
        directory + file
    } else {
        directory + seq!['/'] + file
    }
}

/// Joins a directory and a relative or absolute file path.
pub fn join_path(directory: &str, file: &str) -> (path: String)
    ensures
        path@ == joined(directory@, file@),
{
    let file_len = file.unicode_len();
    if file_len > 0 && file.get_char(0) == '/' {
        return file.to_owned();
    }
    let directory_len = directory.unicode_len();
    let mut path = directory.to_owned();
    if directory_len > 0 && directory.get_char(directory_len - 1) != '/' {
        proof {
            reveal_strlit("/");
            assert("/"@ =~= seq!['/']);
        }
        path.append("/");
    }
    path.append(file);
    path
}

/// Creates a texture filepath for the given parameters.
/// Can be absolute or relative, depending on `directory` input.
pub fn path_material_map(directory: &str, material_name: &str, data: &str, format: &str) -> (path:
    String)
    ensures
        path@ == joined(directory@, file_name_of(material_name@, data@, format@)),
{
    let mut owned_str = material_name.to_owned();
    proof {
        reveal_strlit("_");
        reveal_strlit(".");
        assert("_"@ =~= seq!['_']);
        assert("."@ =~= seq!['.']);
    }
    owned_str.append("_");
    owned_str.append(data);
    owned_str.append(".");
    owned_str.append(format);
    join_path(directory, owned_str.as_str())
}

/// Why a conversion task gave no output.
#[derive(Clone, Debug, PartialEq, Eq)]
pub enum TaskError {
    /// The source is no PNG image.
    Decode {
        /// What the decoder reported.
        message: String,
    },
    /// A source without pixels was to be resampled.
    EmptySource,
    /// An image with a floating-point sample that is infinite or a NaN was to
    /// be converted to integers.
    NotFinite,
    /// A buffer that a step needs is larger than can be allocated.
    TooLarge,
    /// The buffer handed to the encoder does not hold `width * height` pixels.
    SizeMismatch,
    /// The encoder refused the image.
    Encode {
        /// What the encoder reported.
        message: String,
    },
}

/// What a [`TaskError`] says, without the outside wording.
pub enum TaskFault {
    Decode,
    EmptySource,
    NotFinite,
    TooLarge,
    SizeMismatch,
    Encode,
}

impl View for TaskError {
    type V = TaskFault;

    open spec fn view(&self) -> TaskFault {
        match self {
            TaskError::Decode { .. } => TaskFault::Decode,
            TaskError::EmptySource => TaskFault::EmptySource,
            TaskError::NotFinite => TaskFault::NotFinite,
            TaskError::TooLarge => TaskFault::TooLarge,
            TaskError::SizeMismatch => TaskFault::SizeMismatch,
            TaskError::Encode { .. } => TaskFault::Encode,
        }
    }
}

/// Whether a buffer of `width * height` pixels of `bytes_per_pixel` bytes
/// each can be allocated.
pub fn fits_memory(width: u32, height: u32, bytes_per_pixel: u8) -> (fits: bool)
    ensures
        fits == allocatable(width, height, bytes_per_pixel as nat),
{
    assert(width * height <= 0xffff_ffff * 0xffff_ffff) by (nonlinear_arith)
        requires
            0 <= width <= 0xffff_ffff,
            0 <= height <= 0xffff_ffff,
    ;
    let pixels: u128 = (width as u128) * (height as u128);
    assert(pixels * bytes_per_pixel <= 0xffff_ffff * 0xffff_ffff * 255) by (nonlinear_arith)
        requires
            0 <= pixels <= 0xffff_ffff * 0xffff_ffff,
            0 <= bytes_per_pixel <= 255,
    ;
    pixels * (bytes_per_pixel as u128) <= isize::MAX as u128
}

/// The format in which an image is held when `format` is asked for: the
/// format itself, but 8-bit RGB in place of the two luminance-alpha formats.
pub open spec fn storage_format(format: Format) -> Format {
    match format {
        Format::La8 | Format::La16 => Format::Rgb8,
        _ => format,
    }
}

/// What converting an image to `format` gives: the converted image, unless
/// its buffer cannot be allocated or floating-point samples that are not all
/// finite would have to become integers.
pub open spec fn recode_outcome(source: Picture, format: Format) -> Result<Picture, TaskFault> {
    let stored = storage_format(format);
    if !allocatable(source.width, source.height, stored.spec_bytes_per_pixel()) {
        Err(TaskFault::TooLarge)
    } else if !stored.spec_is_float() && !integral(source) {
        Err(TaskFault::NotFinite)
    } else {
        Ok(converted(source, stored))
    }
}

/// Whether every 32-bit sample of a buffer, read as a floating-point
/// number, is finite.
pub fn all_finite(bytes: &[u8]) -> (finite: bool)
    ensures
        finite == finite_samples(bytes@),
{
    let mask = bytes_of(EXPONENT);
    let samples = bytes.len() / 4;
    let mut k: usize = 0;
    while k < samples
        invariant
            k <= samples,
            samples == bytes@.len() / 4,
            bytes@.len() <= usize::MAX,
            mask@ == native_bytes(EXPONENT),
            forall|j: int| 0 <= j < k ==> #[trigger] finite_sample(bytes@, j),
        decreases samples - k,
    {
        assert(4 * k + 4 <= bytes@.len());
        let at: usize = 4 * k;
        if bytes[at] & mask[0] == mask[0] && bytes[at + 1] & mask[1] == mask[1] && bytes[at + 2]
            & mask[2] == mask[2] && bytes[at + 3] & mask[3] == mask[3] {
            assert(!finite_sample(bytes@, k as int));
            return false;
        }
        assert(finite_sample(bytes@, k as int));
        k = k + 1;
    }
    true
}

/// What fitting an image to `width` by `height` gives: the image itself
/// where the policy keeps its size, else the image resampled to the size and
/// with the filter that the policy names.
pub open spec fn resize_outcome(source: Picture, width: u32, height: u32) -> Result<
    Picture,
    TaskFault,
> {
    let plan = plan_for(source.width, source.height, width, height);
    match plan.filter {
        None => Ok(source),
        Some(filter) => if source.empty() {
            Err(TaskFault::EmptySource)
        } else if !allocatable(source.width, plan.height, 16) || !allocatable(
            plan.width,
            plan.height,
            16,
        ) {
            Err(TaskFault::TooLarge)
        } else {
            Ok(
                Picture {
                    format: source.format,
                    width: plan.width,
                    height: plan.height,
                    bytes: resampled(source, plan.width, plan.height, filter),
                },
            )
        },
    }
}

/// What bringing a decoded source to `format` and to a longer edge of `res`
/// gives.
pub open spec fn load_outcome(source: Picture, res: u32, format: Format) -> Result<
    Picture,
    TaskFault,
> {
    match recode_outcome(source, format) {
        Err(fault) => Err(fault),
        Ok(recoded) => resize_outcome(recoded, res, res),
    }
}

/// What saving a buffer of pixels gives: the PNG file, or why there is none.
pub open spec fn save_outcome(buffer: Seq<u8>, width: u32, height: u32, format: Format) -> Result<
    Seq<u8>,
    TaskFault,
> {
    if buffer.len() != width * height * format.spec_bytes_per_pixel() {
        Err(TaskFault::SizeMismatch)
    } else {
        match png_encoding(buffer, width, height, format) {
            Some(file) => Ok(file),
            None => Err(TaskFault::Encode),
        }
    }
}

/// Converts an image to the specified color format.
pub fn recode(image: DynamicImage, format: Format) -> (result: Result<DynamicImage, TaskError>)
    ensures
        match result {
            Ok(out) => recode_outcome(picture(image), format) == Ok::<Picture, TaskFault>(
                picture(out),
            ) && (picture(image).exact() ==> picture(out).exact()),
            Err(error) => recode_outcome(picture(image), format) == Err::<Picture, TaskFault>(
                error@,
            ),
        },
{
    let stored = match format {
        Format::La8 | Format::La16 => Format::Rgb8,
        _ => format,
    };
    if !fits_memory(image.width(), image.height(), stored.bytes_per_pixel()) {
        return Err(TaskError::TooLarge);
    }
    proof {
        picture(image).format.lemma_float_pixels_are_wide();
    }
    if !stored.is_float() && bytes_per_pixel(&image) >= 12 && !all_finite(image.as_bytes()) {
        return Err(TaskError::NotFinite);
    }
    Ok(
        match stored {
            Format::L8 => into_luma8(image),
            Format::L16 => into_luma16(image),
            Format::Rgb16 => into_rgb16(image),
            Format::Rgba8 => into_rgba8(image),
            Format::Rgba16 => into_rgba16(image),
            Format::Rgb32F => into_rgb32f(image),
            Format::Rgba32F => into_rgba32f(image),
            _ => into_rgb8(image),
        },
    )
}

/// Automatically resizes an image, preserving aspect ratio, so the maximum
/// dimension of the image matches the max specified dimension. If the image
/// already matches the specified dimension, then no operation is performed.
pub fn auto_resize(image: DynamicImage, width: u32, height: u32) -> (result: Result<
    (DynamicImage, u32, u32),
    TaskError,
>)
    ensures
        match result {
            Ok((out, w, h)) => {
                &&& resize_outcome(picture(image), width, height) == Ok::<Picture, TaskFault>(
                    picture(out),
                )
                &&& w == plan_for(picture(image).width, picture(image).height, width, height).width
                &&& h == plan_for(picture(image).width, picture(image).height, width, height).height
                &&& w == picture(out).width
                &&& h == picture(out).height
                &&& picture(image).exact() ==> picture(out).exact()
            },
            Err(error) => resize_outcome(picture(image), width, height) == Err::<
                Picture,
                TaskFault,
            >(error@),
        },
{
    let dim_x = image.width();
    let dim_y = image.height();
    let plan = resize_plan(dim_x, dim_y, width, height);
    match plan.filter {
        None => Ok((image, plan.width, plan.height)),
        Some(filter) => {
            if dim_x == 0 || dim_y == 0 {
                return Err(TaskError::EmptySource);
            }
            if !fits_memory(dim_x, plan.height, 16) || !fits_memory(plan.width, plan.height, 16) {
                return Err(TaskError::TooLarge);
            }
            let out = resample(&image, plan.width, plan.height, filter);
            Ok((out, plan.width, plan.height))
        },
    }
}

/// Brings a decoded source to the specified color format and to a longer
/// edge of `res` pixels.
pub fn load_image_adv(image: DynamicImage, res: u32, convert_to: Format) -> (result: Result<
    (DynamicImage, u32, u32),
    TaskError,
>)
    ensures
        match result {
            Ok((out, w, h)) => {
                &&& load_outcome(picture(image), res, convert_to) == Ok::<Picture, TaskFault>(
                    picture(out),
                )
                &&& picture(out).format == converted(
                    picture(image),
                    storage_format(convert_to),
                ).format
                &&& w == plan_for(picture(image).width, picture(image).height, res, res).width
                &&& h == plan_for(picture(image).width, picture(image).height, res, res).height
                &&& w == picture(out).width
                &&& h == picture(out).height
                &&& picture(image).exact() ==> picture(out).exact()
            },
            Err(error) => load_outcome(picture(image), res, convert_to) == Err::<
                Picture,
                TaskFault,
            >(error@),
        },
{
    let map = match recode(image, convert_to) {
        Ok(map) => map,
        Err(error) => {
            return Err(error);
        },
    };
    auto_resize(map, res, res)
}

/// Encodes a buffer of pixels as a PNG file, at the best compression.
pub fn compressed_save(buffer: &[u8], width: u32, height: u32, format: Format) -> (result: Result<
    Vec<u8>,
    TaskError,
>)
    ensures
        match result {
            Ok(file) => save_outcome(buffer@, width, height, format) == Ok::<Seq<u8>, TaskFault>(
                file@,
            ),
            Err(error) => save_outcome(buffer@, width, height, format) == Err::<
                Seq<u8>,
                TaskFault,
            >(error@),
        },
{
    assert(width * height <= 0xffff_ffff * 0xffff_ffff) by (nonlinear_arith)
        requires
            0 <= width <= 0xffff_ffff,
            0 <= height <= 0xffff_ffff,
    ;
    let pixels: u128 = (width as u128) * (height as u128);
    let bytes_per_pixel = format.bytes_per_pixel();
    assert(pixels * bytes_per_pixel <= 0xffff_ffff * 0xffff_ffff * 16) by (nonlinear_arith)
        requires
            0 <= pixels <= 0xffff_ffff * 0xffff_ffff,
            0 <= bytes_per_pixel <= 16,
    ;
    if buffer.len() as u128 != pixels * (bytes_per_pixel as u128) {
        return Err(TaskError::SizeMismatch);
    }
    match encode_png(buffer, width, height, format) {
        Ok(file) => Ok(file),
        Err(error) => Err(TaskError::Encode { message: image_error_message(&error) }),
    }
}

} // verus!
