//! Conversion tasks: what one material and one of its channels need, how
//! the task decides between its branches, and the direct branch from the
//! bytes of a source file to the bytes of the output file.

use vstd::prelude::*;
use image::DynamicImage;
use crate::format::Format;
use crate::imaging::{
    decode_png, decoded_png, image_error_message, picture, png_encoding, Picture,
};
use crate::op::flip::{flip_green_bytes, flipped_bytes};
use crate::util::{
    color_of, compressed_save, file_name_of, joined, load_image_adv, load_outcome, map_to_color,
    path_material_map, recode, recode_outcome, same_text, save_outcome, TaskError, TaskFault,
};

verus! {

/// The unit of work for one material and one of its channels. A task owns
/// all it needs and shares nothing with any other task.
#[derive(Clone, Debug, PartialEq, Eq)]
pub struct ConversionTask {
    /// Directory of the sources.
    pub input_dir: String,
    /// Directory of the outputs.
    pub output_dir: String,
    /// Name of the material.
    pub material_name: String,
    /// Semantic channel to prepare.
    pub channel_name: String,
    /// Size in pixels of the longer edge of the output.
    pub resolution: u32,
    /// Whether normal maps get their green channel inverted.
    pub flip_green: bool,
    /// Whether the basecolor output carries an alpha channel.
    pub has_alpha: bool,
}

/// What a [`ConversionTask`] holds.
pub struct TaskView {
    pub input_dir: Seq<char>,
    pub output_dir: Seq<char>,
    pub material_name: Seq<char>,
    pub channel_name: Seq<char>,
    pub resolution: u32,
    pub flip_green: bool,
    pub has_alpha: bool,
}

impl View for ConversionTask {
    type V = TaskView;

    open spec fn view(&self) -> TaskView {
        TaskView {
            input_dir: self.input_dir@,
            output_dir: self.output_dir@,
            material_name: self.material_name@,
            channel_name: self.channel_name@,
            resolution: self.resolution,
            flip_green: self.flip_green,
            has_alpha: self.has_alpha,
        }
    }
}

/// How a task gets its output.
#[derive(Clone, Copy, Debug, PartialEq, Eq, Structural)]
pub enum Plan {
    /// Load the task's own source file and convert it.
    Direct,
    /// Pack an ARM texture from the ambient-occlusion, roughness and metallic
    /// sources of the material.
    Synthesize,
    /// The source file is absent: report it and write nothing.
    Skip,
}

impl TaskView {
    /// The format of the output of the direct branch: that of the channel,
    /// but 8-bit RGBA for a basecolor that carries alpha.
    pub open spec fn target_format(self) -> Format {
        if self.has_alpha && self.channel_name == "basecolor"@ {
            Format::Rgba8
        } else {
            color_of(self.channel_name)
        }
    }

    /// Path of the source for `data` of the task's material.
    pub open spec fn part_path(self, data: Seq<char>) -> Seq<char> {
        joined(self.input_dir, file_name_of(self.material_name, data, "png"@))
    }

    /// Path of the task's own source.
    pub open spec fn source_path(self) -> Seq<char> {
        self.part_path(self.channel_name)
    }

    /// Path of the task's output.
    pub open spec fn output_path(self) -> Seq<char> {
        joined(self.output_dir, file_name_of(self.material_name, self.channel_name, "png"@))
    }

    /// The branch that the task takes, given whether its own source exists.
    pub open spec fn plan(self, source_present: bool) -> Plan {
        if self.channel_name == "arm"@ && !source_present {
            Plan::Synthesize
        } else if !source_present {
            Plan::Skip
        } else {
            Plan::Direct
        }
    }

    /// Whether the output gets its green channel inverted.
    pub open spec fn flips(self) -> bool {
        self.flip_green && self.channel_name == "normal"@
    }

    /// The file that the direct branch makes of a decoded source: the source
    /// in the target format, fitted to the resolution, with green inverted
    /// as 16-bit RGB where the task flips, encoded as PNG.
    pub open spec fn direct_output(self, source: Picture) -> Result<Seq<u8>, TaskFault> {
        match load_outcome(source, self.resolution, self.target_format()) {
            Err(fault) => Err(fault),
            Ok(loaded) => if self.flips() {
                match recode_outcome(loaded, Format::Rgb16) {
                    Err(fault) => Err(fault),
                    Ok(normal) => save_outcome(
                        flipped_bytes(normal.bytes),
                        loaded.width,
                        loaded.height,
                        self.target_format(),
                    ),
                }
            } else {
                save_outcome(loaded.bytes, loaded.width, loaded.height, self.target_format())
            },
        }
    }

    /// The file that the direct branch makes of a source file.
    pub open spec fn direct_output_of_file(self, file: Seq<u8>) -> Result<Seq<u8>, TaskFault> {
        match decoded_png(file) {
            None => Err(TaskFault::Decode),
            Some(source) => self.direct_output(source),
        }
    }
}

/// The channel-format table gives normal maps 16-bit RGB, and no basecolor
/// is a normal map.
pub proof fn lemma_normal_is_rgb16()
    ensures
        color_of("normal"@) == Format::Rgb16,
        "normal"@ != "basecolor"@,
{
    reveal_strlit("normal");
    reveal_strlit("basecolor");
    reveal_strlit("diffuse");
    reveal_strlit("basecoloralpha");
    assert("normal"@.len() == 6);
    assert("basecolor"@.len() == 9);
    assert("diffuse"@.len() == 7);
    assert("basecoloralpha"@.len() == 14);
}

/// A square source is brought to a square of exactly the resolution,
/// whatever its size and the format asked for.
pub proof fn lemma_square_source_output(source: Picture, resolution: u32, format: Format)
    requires
        source.width == source.height,
    ensures
        load_outcome(source, resolution, format) matches Ok(loaded) ==> loaded.width == resolution
            && loaded.height == resolution,
{
}

/// The output of the direct branch for a square source is the PNG file of
/// an image whose edges are exactly the resolution.
pub proof fn lemma_square_source_direct_output(task: TaskView, source: Picture)
    requires
        source.width == source.height,
    ensures
        task.direct_output(source) matches Ok(file) ==> exists|bytes: Seq<u8>|
            png_encoding(bytes, task.resolution, task.resolution, task.target_format()) == Some(
                file,
            ),
{
    lemma_square_source_output(source, task.resolution, task.target_format());
    if let Ok(file) = task.direct_output(source) {
        let loaded = load_outcome(source, task.resolution, task.target_format())->Ok_0;
        let bytes = if task.flips() {
            flipped_bytes(recode_outcome(loaded, Format::Rgb16)->Ok_0.bytes)
        } else {
            loaded.bytes
        };
        assert(png_encoding(bytes, task.resolution, task.resolution, task.target_format()) == Some(
            file,
        ));
    }
}

/// An output file or the reason why there is none, by their views.
pub open spec fn file_outcome(result: Result<Vec<u8>, TaskError>) -> Result<Seq<u8>, TaskFault> {
    match result {
        Ok(file) => Ok(file@),
        Err(error) => Err(error@),
    }
}

impl ConversionTask {
    /// The format of the output of the direct branch.
    pub fn target_format(&self) -> (format: Format)
        ensures
            format == self@.target_format(),
    {
        if self.has_alpha && same_text(self.channel_name.as_str(), "basecolor") {
            Format::Rgba8
        } else {
            map_to_color(self.channel_name.as_str())
        }
    }

    /// Path of the source for `data` of the task's material.
    pub fn part_path(&self, data: &str) -> (path: String)
        ensures
            path@ == self@.part_path(data@),
    {
        path_material_map(self.input_dir.as_str(), self.material_name.as_str(), data, "png")
    }

    /// Path of the task's own source.
    pub fn source_path(&self) -> (path: String)
        ensures
            path@ == self@.source_path(),
    {
        self.part_path(self.channel_name.as_str())
    }

    /// Path of the task's output.
    pub fn output_path(&self) -> (path: String)
        ensures
            path@ == self@.output_path(),
    {
        path_material_map(
            self.output_dir.as_str(),
            self.material_name.as_str(),
            self.channel_name.as_str(),
            "png",
        )
    }

    /// Decides the branch that the task takes, given whether its own source
    /// exists.
    pub fn plan(&self, source_present: bool) -> (plan: Plan)
        ensures
            plan == self@.plan(source_present),
            !source_present && self@.channel_name != "arm"@ ==> plan == Plan::Skip,
    {
        if same_text(self.channel_name.as_str(), "arm") && !source_present {
            Plan::Synthesize
        } else if !source_present {
            Plan::Skip
        } else {
            Plan::Direct
        }
    }

    /// The direct branch on a decoded source: converts it to the target
    /// format, fits it to the resolution, inverts green where the task
    /// flips, and encodes the result.
    pub fn convert_image(&self, source: DynamicImage) -> (result: Result<Vec<u8>, TaskError>)
        ensures
            file_outcome(result) == self@.direct_output(picture(source)),
            picture(source).exact() ==> !(result matches Err(TaskError::SizeMismatch)),
    {
        proof {
            lemma_normal_is_rgb16();
        }
        let format = self.target_format();
        let (loaded, width, height) = match load_image_adv(source, self.resolution, format) {
            Ok(loaded) => loaded,
            Err(error) => {
                return Err(error);
            },
        };
        if self.flip_green && same_text(self.channel_name.as_str(), "normal") {
            let normal = match recode(loaded, Format::Rgb16) {
                Ok(normal) => normal,
                Err(error) => {
                    return Err(error);
                },
            };
            let flipped = flip_green_bytes(normal.as_bytes());
            compressed_save(flipped.as_slice(), width, height, format)
        } else {
            compressed_save(loaded.as_bytes(), width, height, format)
        }
    }

    /// The direct branch on the bytes of the source file.
    pub fn convert(&self, file: &[u8]) -> (result: Result<Vec<u8>, TaskError>)
        ensures
            file_outcome(result) == self@.direct_output_of_file(file@),
            !(result matches Err(TaskError::SizeMismatch)),
    {
        match decode_png(file) {
            Ok(source) => self.convert_image(source),
            Err(error) => Err(TaskError::Decode { message: image_error_message(&error) }),
        }
    }
}

} // verus!
