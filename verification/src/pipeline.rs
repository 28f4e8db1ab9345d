//! The pipeline: a manifest expanded into a run, one conversion task for
//! every channel entry of every material.

use vstd::prelude::*;
use crate::manifest::{
    manifest_of_text, parse_manifest, Manifest, ManifestError, ManifestFault, ManifestView,
    Material, MaterialView,
};
use crate::task::{ConversionTask, TaskView};
use crate::util::{join_path, joined};

verus! {

/// A run, ready to start: where sources and outputs are, and one task for
/// every channel entry of every material.
#[derive(Clone, Debug, PartialEq, Eq)]
pub struct Pipeline {
    /// Directory of the sources.
    pub input_dir: String,
    /// Directory of the outputs.
    pub output_dir: String,
    /// The tasks, material by material in the order of the manifest, the
    /// channels of each in the order given.
    pub tasks: Vec<ConversionTask>,
    /// Number of materials.
    pub num_materials: usize,
    /// Number of maps: channel entries, repeated ones counted each time.
    pub num_maps: usize,
}

/// What a [`Pipeline`] holds.
pub struct PipelineView {
    pub input_dir: Seq<char>,
    pub output_dir: Seq<char>,
    pub tasks: Seq<TaskView>,
    pub num_materials: nat,
    pub num_maps: nat,
}

/// The views of a sequence of tasks.
pub open spec fn task_views(tasks: Seq<ConversionTask>) -> Seq<TaskView> {
    tasks.map_values(|task: ConversionTask| task@)
}

impl View for Pipeline {
    type V = PipelineView;

    open spec fn view(&self) -> PipelineView {
        PipelineView {
            input_dir: self.input_dir@,
            output_dir: self.output_dir@,
            tasks: task_views(self.tasks@),
            num_materials: self.num_materials as nat,
            num_maps: self.num_maps as nat,
        }
    }
}

/// The task for entry `i` of the channels of a material.
pub open spec fn task_for(
    material: MaterialView,
    i: int,
    input_dir: Seq<char>,
    output_dir: Seq<char>,
    flip_normals: bool,
) -> TaskView {
    TaskView {
        input_dir,
        output_dir,
        material_name: material.name,
        channel_name: material.channels[i],
        resolution: material.max_dimension,
        flip_green: flip_normals,
        has_alpha: material.has_alpha,
    }
}

/// The tasks of one material: one for each entry of its channels, in their
/// order.
pub open spec fn material_tasks(
    material: MaterialView,
    input_dir: Seq<char>,
    output_dir: Seq<char>,
    flip_normals: bool,
) -> Seq<TaskView> {
    Seq::new(
        material.channels.len(),
        |i: int| task_for(material, i, input_dir, output_dir, flip_normals),
    )
}

/// The tasks of the first `n` materials.
pub open spec fn tasks_of(
    materials: Seq<MaterialView>,
    n: nat,
    input_dir: Seq<char>,
    output_dir: Seq<char>,
    flip_normals: bool,
) -> Seq<TaskView>
    decreases n,
{
    if n == 0 {
        Seq::empty()
    } else {
        tasks_of(materials, (n - 1) as nat, input_dir, output_dir, flip_normals) + material_tasks(
            materials[n - 1],
            input_dir,
            output_dir,
            flip_normals,
        )
    }
}

/// The number of channel entries of the first `n` materials.
pub open spec fn channel_entries(materials: Seq<MaterialView>, n: nat) -> nat
    decreases n,
{
    if n == 0 {
        0
    } else {
        channel_entries(materials, (n - 1) as nat) + materials[n - 1].channels.len()
    }
}

/// The run that a manifest in the directory `config_dir` describes. Both
/// directories are taken relative to `config_dir` unless they are absolute.
pub open spec fn pipeline_of(manifest: ManifestView, config_dir: Seq<char>) -> PipelineView {
    let input_dir = joined(config_dir, manifest.input);
    let output_dir = joined(config_dir, manifest.output);
    let tasks = tasks_of(
        manifest.materials,
        manifest.materials.len(),
        input_dir,
        output_dir,
        manifest.flip_normals,
    );
    PipelineView {
        input_dir,
        output_dir,
        tasks,
        num_materials: manifest.materials.len(),
        num_maps: tasks.len(),
    }
}

/// A run or the refusal of its manifest, by their views.
pub open spec fn pipeline_outcome(result: Result<Pipeline, ManifestError>) -> Result<
    PipelineView,
    ManifestFault,
> {
    match result {
        Ok(pipeline) => Ok(pipeline@),
        Err(error) => Err(error@),
    }
}

/// The run that the text of a manifest in `config_dir` describes.
pub open spec fn pipeline_of_text(config_dir: Seq<char>, text: Seq<char>) -> Result<
    PipelineView,
    ManifestFault,
> {
    match manifest_of_text(text) {
        Ok(manifest) => Ok(pipeline_of(manifest, config_dir)),
        Err(fault) => Err(fault),
    }
}

/// There is one task for every channel entry: the number of maps is the
/// number of entries, whether or not entries repeat.
pub proof fn lemma_one_task_per_entry(
    materials: Seq<MaterialView>,
    n: nat,
    input_dir: Seq<char>,
    output_dir: Seq<char>,
    flip_normals: bool,
)
    ensures
        tasks_of(materials, n, input_dir, output_dir, flip_normals).len() == channel_entries(
            materials,
            n,
        ),
    decreases n,
{
    if n > 0 {
        lemma_one_task_per_entry(materials, (n - 1) as nat, input_dir, output_dir, flip_normals);
    }
}

/// Tasks for the same material and channel write the same file, so a
/// repeated channel entry leaves one output.
pub proof fn lemma_repeated_entry_same_output(first: TaskView, second: TaskView)
    requires
        first.output_dir == second.output_dir,
        first.material_name == second.material_name,
        first.channel_name == second.channel_name,
    ensures
        first.output_path() == second.output_path(),
{
}

/// Appends the tasks of one material.
fn push_material_tasks(
    tasks: &mut Vec<ConversionTask>,
    material: &Material,
    input_dir: &str,
    output_dir: &str,
    flip_normals: bool,
)
    ensures
        task_views(final(tasks)@) == task_views(old(tasks)@) + material_tasks(
            material@,
            input_dir@,
            output_dir@,
            flip_normals,
        ),
{
    let ghost before = task_views(tasks@);
    let ghost wanted = material_tasks(material@, input_dir@, output_dir@, flip_normals);
    let mut j: usize = 0;
    assert(task_views(tasks@) =~= before + wanted.subrange(0, 0));
    while j < material.channels.len()
        invariant
            j <= material.channels.len(),
            wanted == material_tasks(material@, input_dir@, output_dir@, flip_normals),
            task_views(tasks@) == before + wanted.subrange(0, j as int),
        decreases material.channels.len() - j,
    {
        let task = ConversionTask {
            input_dir: input_dir.to_owned(),
            output_dir: output_dir.to_owned(),
            material_name: material.name.clone(),
            channel_name: material.channels[j].clone(),
            resolution: material.max_dimension,
            flip_green: flip_normals,
            has_alpha: material.has_alpha,
        };
        let ghost held = tasks@;
        tasks.push(task);
        proof {
            assert(material@.channels[j as int] == material.channels@[j as int]@);
            assert(task@ == wanted[j as int]);
            assert(task_views(tasks@) =~= task_views(held).push(task@));
            assert(wanted.subrange(0, j + 1) =~= wanted.subrange(0, j as int).push(
                wanted[j as int],
            ));
            assert(task_views(tasks@) =~= before + wanted.subrange(0, j + 1));
        }
        j = j + 1;
    }
    assert(wanted.subrange(0, j as int) =~= wanted);
}

/// Expands a manifest that was read in the directory `config_dir` into a
/// run: resolves the two directories and makes the tasks.
pub fn expand(manifest: &Manifest, config_dir: &str) -> (pipeline: Pipeline)
    ensures
        pipeline@ == pipeline_of(manifest@, config_dir@),
        pipeline@.num_maps == channel_entries(manifest@.materials, manifest@.materials.len()),
{
    let input_dir = join_path(config_dir, manifest.input.as_str());
    let output_dir = join_path(config_dir, manifest.output.as_str());
    let mut tasks: Vec<ConversionTask> = Vec::new();
    let mut i: usize = 0;
    let ghost materials = manifest@.materials;
    assert(task_views(tasks@) =~= Seq::<TaskView>::empty());
    while i < manifest.materials.len()
        invariant
            i <= manifest.materials.len(),
            materials == manifest@.materials,
            task_views(tasks@) == tasks_of(
                materials,
                i as nat,
                input_dir@,
                output_dir@,
                manifest.flip_normals,
            ),
        decreases manifest.materials.len() - i,
    {
        assert(materials[i as int] == manifest.materials@[i as int]@);
        push_material_tasks(
            &mut tasks,
            &manifest.materials[i],
            input_dir.as_str(),
            output_dir.as_str(),
            manifest.flip_normals,
        );
        i = i + 1;
    }
    proof {
        lemma_one_task_per_entry(
            materials,
            materials.len(),
            input_dir@,
            output_dir@,
            manifest.flip_normals,
        );
    }
    let num_materials = manifest.materials.len();
    let num_maps = tasks.len();
    Pipeline { input_dir, output_dir, tasks, num_materials, num_maps }
}

/// Loads a pipeline description: parses and checks the text of a manifest
/// that was read from a file in the directory `config_dir`, and expands it
/// into a run. Nothing is expanded from a manifest that is refused.
pub fn from_file(config_dir: &str, config_contents: &str) -> (result: Result<
    Pipeline,
    ManifestError,
>)
    ensures
        pipeline_outcome(result) == pipeline_of_text(config_dir@, config_contents@),
{
    match parse_manifest(config_contents) {
        Ok(manifest) => Ok(expand(&manifest, config_dir)),
        Err(error) => Err(error),
    }
}

} // verus!
