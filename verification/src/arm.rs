//! Synthesis of an ARM texture: ambient occlusion, roughness and metallic
//! packed into the red, green and blue channels of one image, from whichever
//! of the three sources exist.

use vstd::prelude::*;
use image::DynamicImage;
use crate::format::Format;
use crate::imaging::{
    allocatable, bytes_of, bytes_per_pixel, decode_png, decoded_png, float_image,
    image_error_message, native_bytes, picture, Picture,
};
use crate::op::pack::{channel_pack, covers, packed_image, views};
use crate::raster::{Raster, RasterView};
use crate::task::{file_outcome, ConversionTask};
use crate::util::{
    compressed_save, fits_memory, load_image_adv, load_outcome, recode, recode_outcome,
    save_outcome, TaskError, TaskFault,
};

verus! {

/// The sources of an ARM texture, ready for packing: four floating-point
/// RGBA images and the size of the area that all of them cover.
pub struct ArmSources {
    /// Ambient occlusion, roughness, metallic and the alpha placeholder, in
    /// this order, as far as they have been added.
    pub maps: Vec<DynamicImage>,
    /// Width of the area to pack.
    pub width: u32,
    /// Height of the area to pack.
    pub height: u32,
}

/// What [`ArmSources`] hold.
pub struct ArmView {
    pub maps: Seq<Picture>,
    pub width: u32,
    pub height: u32,
}

/// What a sequence of images holds.
pub open spec fn pictures(images: Seq<DynamicImage>) -> Seq<Picture> {
    images.map_values(|image: DynamicImage| picture(image))
}

impl View for ArmSources {
    type V = ArmView;

    open spec fn view(&self) -> ArmView {
        ArmView { maps: pictures(self.maps@), width: self.width, height: self.height }
    }
}

/// What an optional image holds.
pub open spec fn optional_picture(image: Option<DynamicImage>) -> Option<Picture> {
    match image {
        Some(image) => Some(picture(image)),
        None => None,
    }
}

/// The smaller of two numbers.
pub open spec fn smaller(a: u32, b: u32) -> u32 {
    if a <= b {
        a
    } else {
        b
    }
}

/// The image that stands for a missing source: floating-point RGBA with
/// every sample zero.
pub open spec fn blank(width: u32, height: u32) -> Picture {
    Picture {
        format: Format::Rgba32F,
        width,
        height,
        bytes: Seq::new((width * height * 16) as nat, |i: int| 0u8),
    }
}

impl ArmView {
    /// Nothing added yet; the area is `resolution` by `resolution`.
    pub open spec fn start(resolution: u32) -> ArmView {
        ArmView { maps: Seq::empty(), width: resolution, height: resolution }
    }

    /// Every image is floating-point RGBA and covers the area to pack.
    pub open spec fn ready(self) -> bool {
        forall|k: int|
            0 <= k < self.maps.len() ==> {
                &&& (#[trigger] self.maps[k]).format == Format::Rgba32F
                &&& self.width <= self.maps[k].width
                &&& self.height <= self.maps[k].height
            }
    }

    /// Every image has a buffer of exact size.
    pub open spec fn exact(self) -> bool {
        forall|k: int| 0 <= k < self.maps.len() ==> (#[trigger] self.maps[k]).exact()
    }

    /// The sources after one more is added. A source that is there is
    /// brought to floating-point RGBA and fitted to the resolution, and the
    /// area shrinks to what it covers. A source that is missing is replaced
    /// by a blank image of the area as it is then.
    pub open spec fn with_source(self, source: Option<Picture>, resolution: u32) -> Result<
        ArmView,
        TaskFault,
    > {
        match source {
            Some(source) => match load_outcome(source, resolution, Format::Rgba32F) {
                Err(fault) => Err(fault),
                Ok(loaded) => Ok(
                    ArmView {
                        maps: self.maps.push(loaded),
                        width: smaller(self.width, loaded.width),
                        height: smaller(self.height, loaded.height),
                    },
                ),
            },
            None => if !allocatable(self.width, self.height, 16) {
                Err(TaskFault::TooLarge)
            } else {
                Ok(ArmView { maps: self.maps.push(blank(self.width, self.height)), ..self })
            },
        }
    }

    /// The sources after the image in a file is added, or a blank image
    /// where there is no file.
    pub open spec fn with_file(self, file: Option<Seq<u8>>, resolution: u32) -> Result<
        ArmView,
        TaskFault,
    > {
        match file {
            None => self.with_source(None, resolution),
            Some(file) => match decoded_png(file) {
                None => Err(TaskFault::Decode),
                Some(source) => self.with_source(Some(source), resolution),
            },
        }
    }
}

/// The sources of an ARM texture for the three files as far as they exist:
/// ambient occlusion, roughness and metallic are added in this order, then a
/// blank image in place of alpha.
pub open spec fn arm_outcome(
    resolution: u32,
    ao: Option<Seq<u8>>,
    roughness: Option<Seq<u8>>,
    metallic: Option<Seq<u8>>,
) -> Result<ArmView, TaskFault> {
    match ArmView::start(resolution).with_file(ao, resolution) {
        Err(fault) => Err(fault),
        Ok(first) => match first.with_file(roughness, resolution) {
            Err(fault) => Err(fault),
            Ok(second) => match second.with_file(metallic, resolution) {
                Err(fault) => Err(fault),
                Ok(third) => third.with_source(None, resolution),
            },
        },
    }
}

/// The file for a packed ARM texture: the packed image as 8-bit RGB,
/// encoded as PNG.
pub open spec fn arm_output(packed: Picture, width: u32, height: u32) -> Result<Seq<u8>, TaskFault> {
    match recode_outcome(packed, Format::Rgb8) {
        Err(fault) => Err(fault),
        Ok(rgb) => save_outcome(rgb.bytes, width, height, Format::Rgb8),
    }
}

/// Once a source that is there has been added, a blank image of the area
/// can be allocated: a missing source that follows it is always replaced.
pub proof fn lemma_missing_after_present(state: ArmView, source: Picture, resolution: u32)
    ensures
        state.with_source(Some(source), resolution) matches Ok(next) ==> allocatable(
            next.width,
            next.height,
            16,
        ) && next.with_source(None, resolution) is Ok,
{
    if let Ok(next) = state.with_source(Some(source), resolution) {
        let loaded = load_outcome(source, resolution, Format::Rgba32F)->Ok_0;
        assert(allocatable(loaded.width, loaded.height, 16));
        assert(next.width * next.height * 16 <= loaded.width * loaded.height * 16)
            by (nonlinear_arith)
            requires
                0 <= next.width <= loaded.width,
                0 <= next.height <= loaded.height,
        ;
    }
}

/// A blank image leaves the area as it is, so the next missing source is
/// replaced as well.
pub proof fn lemma_missing_after_missing(state: ArmView, resolution: u32)
    ensures
        state.with_source(None, resolution) matches Ok(next) ==> next.with_source(None, resolution) is Ok
            && next.maps.last() == blank(state.width, state.height),
{
}

/// With the ambient-occlusion and roughness sources there and loaded, the
/// synthesis goes on without a metallic source: a blank image takes its
/// place, and another that of alpha.
pub proof fn lemma_arm_without_metallic(resolution: u32, ao: Seq<u8>, roughness: Seq<u8>)
    requires
        ArmView::start(resolution).with_file(Some(ao), resolution) matches Ok(first)
            && first.with_file(Some(roughness), resolution) is Ok,
    ensures
        arm_outcome(resolution, Some(ao), Some(roughness), None) matches Ok(sources) && {
            &&& sources.maps.len() == 4
            &&& sources.maps[2] == blank(sources.width, sources.height)
            &&& sources.maps[3] == blank(sources.width, sources.height)
        },
{
    let first = ArmView::start(resolution).with_file(Some(ao), resolution)->Ok_0;
    let second = first.with_file(Some(roughness), resolution)->Ok_0;
    lemma_missing_after_present(first, decoded_png(roughness)->Some_0, resolution);
    lemma_missing_after_missing(second, resolution);
}

/// The bytes of an optional file.
pub open spec fn optional_bytes(file: Option<&[u8]>) -> Option<Seq<u8>> {
    match file {
        Some(file) => Some(file@),
        None => None,
    }
}

/// ARM sources or the reason why there are none, by their views.
pub open spec fn arm_result(result: Result<ArmSources, TaskError>) -> Result<ArmView, TaskFault> {
    match result {
        Ok(sources) => Ok(sources@),
        Err(error) => Err(error@),
    }
}

impl ArmSources {
    /// No source yet, for an area of `resolution` by `resolution`.
    pub fn new(resolution: u32) -> (sources: ArmSources)
        ensures
            sources@ == ArmView::start(resolution),
            sources@.ready(),
            sources@.exact(),
    {
        let sources = ArmSources { maps: Vec::new(), width: resolution, height: resolution };
        assert(sources@.maps =~= Seq::<Picture>::empty());
        sources
    }

    /// Adds a decoded source, or a blank image where the source is missing.
    pub fn with_source(self, source: Option<DynamicImage>, resolution: u32) -> (result: Result<
        ArmSources,
        TaskError,
    >)
        ensures
            arm_result(result) == self@.with_source(optional_picture(source), resolution),
            result matches Ok(next) ==> {
                &&& next@.maps.len() == self@.maps.len() + 1
                &&& self@.ready() ==> next@.ready()
                &&& self@.exact() && (source matches Some(image) ==> picture(image).exact())
                    ==> next@.exact()
            },
    {
        let ArmSources { mut maps, width, height } = self;
        let ghost before = maps@;
        match source {
            Some(image) => {
                let (loaded, w, h) = match load_image_adv(image, resolution, Format::Rgba32F) {
                    Ok(loaded) => loaded,
                    Err(error) => {
                        return Err(error);
                    },
                };
                maps.push(loaded);
                assert(pictures(maps@) =~= pictures(before).push(picture(loaded)));
                let next = ArmSources {
                    maps,
                    width: if width <= w {
                        width
                    } else {
                        w
                    },
                    height: if height <= h {
                        height
                    } else {
                        h
                    },
                };
                Ok(next)
            },
            None => {
                if !fits_memory(width, height, 16) {
                    return Err(TaskError::TooLarge);
                }
                let image = DynamicImage::new_rgba32f(width, height);
                maps.push(image);
                assert(pictures(maps@) =~= pictures(before).push(picture(image)));
                Ok(ArmSources { maps, width, height })
            },
        }
    }

    /// Adds the image in a source file, or a blank image where there is no
    /// file.
    pub fn with_file(self, file: Option<&[u8]>, resolution: u32) -> (result: Result<
        ArmSources,
        TaskError,
    >)
        ensures
            arm_result(result) == self@.with_file(optional_bytes(file), resolution),
            result matches Ok(next) ==> {
                &&& next@.maps.len() == self@.maps.len() + 1
                &&& self@.ready() ==> next@.ready()
                &&& self@.exact() ==> next@.exact()
            },
    {
        match file {
            None => self.with_source(None, resolution),
            Some(file) => match decode_png(file) {
                Ok(source) => self.with_source(Some(source), resolution),
                Err(error) => Err(TaskError::Decode { message: image_error_message(&error) }),
            },
        }
    }
}

impl ConversionTask {
    /// The synthesis branch up to packing: loads the ambient-occlusion,
    /// roughness and metallic sources as far as their files exist, puts a
    /// blank image in place of each missing one and in place of alpha, and
    /// finds the area that all of them cover.
    pub fn arm_sources(
        &self,
        ao: Option<&[u8]>,
        roughness: Option<&[u8]>,
        metallic: Option<&[u8]>,
    ) -> (result: Result<ArmSources, TaskError>)
        ensures
            arm_result(result) == arm_outcome(
                self.resolution,
                optional_bytes(ao),
                optional_bytes(roughness),
                optional_bytes(metallic),
            ),
            result matches Ok(sources) ==> {
                &&& sources@.maps.len() == 4
                &&& sources@.ready()
                &&& sources@.exact()
            },
    {
        let resolution = self.resolution;
        let start = ArmSources::new(resolution);
        let first = match start.with_file(ao, resolution) {
            Ok(next) => next,
            Err(error) => {
                return Err(error);
            },
        };
        let second = match first.with_file(roughness, resolution) {
            Ok(next) => next,
            Err(error) => {
                return Err(error);
            },
        };
        let third = match second.with_file(metallic, resolution) {
            Ok(next) => next,
            Err(error) => {
                return Err(error);
            },
        };
        third.with_source(None, resolution)
    }
}

/// The synthesis branch after packing: converts the packed image to 8-bit
/// RGB and encodes it as a `width` by `height` PNG.
pub fn save_arm(packed: DynamicImage, width: u32, height: u32) -> (result: Result<
    Vec<u8>,
    TaskError,
>)
    ensures
        file_outcome(result) == arm_output(picture(packed), width, height),
        picture(packed).exact() && picture(packed).width == width && picture(packed).height
            == height ==> !(result matches Err(TaskError::SizeMismatch)),
{
    let rgb = match recode(packed, Format::Rgb8) {
        Ok(rgb) => rgb,
        Err(error) => {
            return Err(error);
        },
    };
    compressed_save(rgb.as_bytes(), width, height, Format::Rgb8)
}

/// One 32-bit sample as the four bytes that spell it, in the order in which
/// the image holds them.
pub type Sample = (u8, u8, u8, u8);

/// The 32-bit samples of a buffer of bytes, four bytes each.
pub open spec fn byte_samples(bytes: Seq<u8>) -> Seq<Sample> {
    Seq::new(
        bytes.len() / 4,
        |k: int| (bytes[4 * k], bytes[4 * k + 1], bytes[4 * k + 2], bytes[4 * k + 3]),
    )
}

/// The bytes of a sequence of 32-bit samples.
pub open spec fn sample_bytes(samples: Seq<Sample>) -> Seq<u8> {
    Seq::new(
        samples.len() * 4,
        |i: int|
            if i % 4 == 0 {
                samples[i / 4].0
            } else if i % 4 == 1 {
                samples[i / 4].1
            } else if i % 4 == 2 {
                samples[i / 4].2
            } else {
                samples[i / 4].3
            },
    )
}

/// Splitting bytes into samples and joining them again loses nothing.
pub proof fn lemma_samples_keep_bytes(bytes: Seq<u8>)
    requires
        bytes.len() % 4 == 0,
    ensures
        sample_bytes(byte_samples(bytes)) == bytes,
{
    assert(sample_bytes(byte_samples(bytes)) =~= bytes);
}

/// The samples of a floating-point RGBA image as a raster.
pub open spec fn float_raster(image: Picture) -> RasterView<Sample> {
    RasterView {
        width: image.width as nat,
        height: image.height as nat,
        channels: 4,
        samples: byte_samples(image.bytes),
    }
}

/// The rasters of a sequence of floating-point RGBA images.
pub open spec fn float_rasters(images: Seq<Picture>) -> Seq<RasterView<Sample>> {
    images.map_values(|image: Picture| float_raster(image))
}

/// The word that spells 255 as a 32-bit floating-point number.
pub const OPAQUE: u32 = 0x437f_0000;

/// The sample that stands for full opacity.
pub open spec fn opaque_sample() -> Sample {
    let bytes = native_bytes(OPAQUE);
    (bytes[0], bytes[1], bytes[2], bytes[3])
}

impl ArmView {
    /// The sources can be packed: there are four of them, they are
    /// floating-point RGBA images with buffers of exact size, and each covers
    /// the area.
    pub open spec fn packable(self) -> bool {
        self.maps.len() == 4 && self.ready() && self.exact()
    }

    /// The packed image: red from the first source, green from the second,
    /// blue from the third, alpha opaque.
    pub open spec fn packed(self) -> Picture {
        Picture {
            format: Format::Rgba32F,
            width: self.width,
            height: self.height,
            bytes: sample_bytes(
                packed_image(
                    float_rasters(self.maps),
                    false,
                    opaque_sample(),
                    self.width,
                    self.height,
                ).samples,
            ),
        }
    }

    /// The file of the packed sources.
    pub open spec fn output(self) -> Result<Seq<u8>, TaskFault> {
        if !self.packable() {
            Err(TaskFault::SizeMismatch)
        } else {
            arm_output(self.packed(), self.width, self.height)
        }
    }
}

/// The file that the synthesis branch makes of the three source files as
/// far as they exist.
pub open spec fn synthesis_output(
    resolution: u32,
    ao: Option<Seq<u8>>,
    roughness: Option<Seq<u8>>,
    metallic: Option<Seq<u8>>,
) -> Result<Seq<u8>, TaskFault> {
    match arm_outcome(resolution, ao, roughness, metallic) {
        Err(fault) => Err(fault),
        Ok(sources) => sources.output(),
    }
}

/// Splits a buffer of bytes into 32-bit samples.
pub fn split_samples(bytes: &[u8]) -> (samples: Vec<Sample>)
    ensures
        samples@ == byte_samples(bytes@),
{
    let count = bytes.len() / 4;
    let mut samples: Vec<Sample> = Vec::with_capacity(count);
    let mut k: usize = 0;
    while k < count
        invariant
            k <= count,
            count == bytes@.len() / 4,
            bytes@.len() <= usize::MAX,
            samples@.len() == k,
            forall|j: int|
                0 <= j < k ==> samples@[j] == (
                    bytes@[4 * j],
                    bytes@[4 * j + 1],
                    bytes@[4 * j + 2],
                    bytes@[4 * j + 3],
                ),
        decreases count - k,
    {
        assert(4 * k + 4 <= bytes@.len());
        let at: usize = 4 * k;
        samples.push((bytes[at], bytes[at + 1], bytes[at + 2], bytes[at + 3]));
        k = k + 1;
    }
    assert(samples@ =~= byte_samples(bytes@));
    samples
}

/// Joins 32-bit samples into a buffer of bytes.
pub fn join_samples(samples: &Vec<Sample>) -> (bytes: Vec<u8>)
    ensures
        bytes@ == sample_bytes(samples@),
{
    let mut bytes: Vec<u8> = Vec::new();
    let mut k: usize = 0;
    while k < samples.len()
        invariant
            k <= samples.len(),
            bytes@.len() == 4 * k,
            forall|i: int| 0 <= i < 4 * k ==> bytes@[i] == sample_bytes(samples@)[i],
        decreases samples.len() - k,
    {
        let sample = samples[k];
        bytes.push(sample.0);
        bytes.push(sample.1);
        bytes.push(sample.2);
        bytes.push(sample.3);
        k = k + 1;
    }
    assert(bytes@ =~= sample_bytes(samples@));
    bytes
}

/// Whether an image is a floating-point RGBA image with a buffer of exact
/// size that covers `width` by `height` pixels.
fn covers_area(image: &DynamicImage, width: u32, height: u32) -> (covers: bool)
    ensures
        covers == {
            &&& picture(*image).format == Format::Rgba32F
            &&& picture(*image).exact()
            &&& width <= picture(*image).width
            &&& height <= picture(*image).height
        },
{
    proof {
        picture(*image).format.lemma_float_pixels_are_wide();
    }
    let w = image.width();
    let h = image.height();
    assert(w * h <= 0xffff_ffff * 0xffff_ffff) by (nonlinear_arith)
        requires
            0 <= w <= 0xffff_ffff,
            0 <= h <= 0xffff_ffff,
    ;
    let pixels: u128 = (w as u128) * (h as u128);
    bytes_per_pixel(image) == 16 && image.as_bytes().len() as u128 == pixels * 16 && width <= w
        && height <= h
}

/// Packs the sources of an ARM texture into one floating-point RGBA image
/// of the area that all of them cover: red from the first, green from the
/// second, blue from the third, alpha opaque.
pub fn pack_arm(sources: &ArmSources) -> (result: Result<DynamicImage, TaskError>)
    ensures
        match result {
            Ok(image) => sources@.packable() && picture(image) == sources@.packed() && picture(
                image,
            ).exact(),
            Err(error) => !sources@.packable() && error@ == TaskFault::SizeMismatch,
        },
{
    let width = sources.width;
    let height = sources.height;
    if sources.maps.len() != 4 {
        return Err(TaskError::SizeMismatch);
    }
    let ghost maps = sources@.maps;
    let mut rasters: Vec<Raster<Sample>> = Vec::new();
    let mut k: usize = 0;
    while k < 4
        invariant
            k <= 4,
            sources.maps@.len() == 4,
            maps == sources@.maps,
            width == sources.width,
            height == sources.height,
            rasters@.len() == k,
            forall|j: int|
                0 <= j < k ==> {
                    &&& (#[trigger] maps[j]).format == Format::Rgba32F
                    &&& maps[j].exact()
                    &&& width <= maps[j].width
                    &&& height <= maps[j].height
                    &&& rasters@[j]@ == float_raster(maps[j])
                    &&& rasters@[j]@.wf()
                },
        decreases 4 - k,
    {
        let image = &sources.maps[k];
        assert(picture(*image) == maps[k as int]);
        if !covers_area(image, width, height) {
            return Err(TaskError::SizeMismatch);
        }
        let samples = split_samples(image.as_bytes());
        let raster = match Raster::new(image.width(), image.height(), 4, samples) {
            Some(raster) => raster,
            None => {
                return Err(TaskError::SizeMismatch);
            },
        };
        rasters.push(raster);
        k = k + 1;
    }
    proof {
        assert forall|j: int| 0 <= j < 4 implies covers(#[trigger] rasters@[j]@, width, height) by {
            assert(maps[j].format == Format::Rgba32F);
        }
        assert(views(rasters@) =~= float_rasters(maps));
        assert(sources@.packable());
        let first = rasters@[0]@;
        assert(covers(first, width, height));
        assert(width * height * 4 <= first.width * first.height * 4) by (nonlinear_arith)
            requires
                0 <= width <= first.width,
                0 <= height <= first.height,
        ;
    }
    let opaque = bytes_of(OPAQUE);
    let packed = channel_pack(&rasters, false, (opaque[0], opaque[1], opaque[2], opaque[3]), width, height);
    let bytes = join_samples(packed.samples());
    assert(bytes@.len() == width * height * 16) by {
        assert(packed@.samples.len() == width * height * 4);
    }
    match float_image(width, height, bytes.as_slice()) {
        Some(image) => Ok(image),
        None => Err(TaskError::SizeMismatch),
    }
}

impl ConversionTask {
    /// The synthesis branch: builds the ARM texture out of whichever of the
    /// three source files exist and encodes it.
    pub fn synthesize(
        &self,
        ao: Option<&[u8]>,
        roughness: Option<&[u8]>,
        metallic: Option<&[u8]>,
    ) -> (result: Result<Vec<u8>, TaskError>)
        ensures
            file_outcome(result) == synthesis_output(
                self.resolution,
                optional_bytes(ao),
                optional_bytes(roughness),
                optional_bytes(metallic),
            ),
            !(result matches Err(TaskError::SizeMismatch)),
    {
        let sources = match self.arm_sources(ao, roughness, metallic) {
            Ok(sources) => sources,
            Err(error) => {
                return Err(error);
            },
        };
        let packed = match pack_arm(&sources) {
            Ok(packed) => packed,
            Err(error) => {
                return Err(error);
            },
        };
        save_arm(packed, sources.width, sources.height)
    }
}

} // verus!
