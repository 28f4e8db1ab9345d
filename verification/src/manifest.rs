//! The manifest: which materials a run prepares, which channels each of
//! them needs, and where the textures are read and written. A manifest is
//! checked once, when it is loaded; what is wrong with it comes back as one
//! error.

use vstd::prelude::*;
use json::JsonValue;
use crate::document::{
    json_document, json_entries, json_error_message, json_get, json_members, json_tree, JsonTree,
};

verus! {

/// One named material and the textures it asks for.
#[derive(Clone, Debug, PartialEq, Eq)]
pub struct Material {
    /// Name of the material; every file name of the material starts with it.
    pub name: String,
    /// Size in pixels of the longer edge of each output.
    pub max_dimension: u32,
    /// Whether the basecolor output carries an alpha channel.
    pub has_alpha: bool,
    /// The semantic channels to prepare, in the order given.
    pub channels: Vec<String>,
}

/// A checked manifest.
#[derive(Clone, Debug, PartialEq, Eq)]
pub struct Manifest {
    /// Directory of the sources, as the manifest spells it.
    pub input: String,
    /// Directory of the outputs, as the manifest spells it.
    pub output: String,
    /// Whether the green channel of normal maps is inverted.
    pub flip_normals: bool,
    /// The materials, in the order of the manifest.
    pub materials: Vec<Material>,
}

/// Why a manifest was refused.
#[derive(Clone, Debug, PartialEq, Eq)]
pub enum ManifestError {
    /// The text is no JSON document.
    Syntax {
        /// What the parser reported.
        message: String,
    },
    /// `output` is absent or no string.
    MissingOutput,
    /// `input` is absent or no string.
    MissingInput,
    /// `materials` is absent or no object.
    MissingMaterials,
    /// `flip_normals` is there and is no boolean.
    BadFlipNormals,
    /// `max_dimension` of a material is absent, no unsigned 32-bit integer, or
    /// zero.
    BadMaxDimension {
        /// Name of the material.
        material: String,
    },
    /// `channels` of a material is absent, no array, or empty.
    BadChannels {
        /// Name of the material.
        material: String,
    },
    /// An entry of `channels` of a material is no string.
    BadChannel {
        /// Name of the material.
        material: String,
        /// Position of the entry.
        index: usize,
    },
}

/// The texts of a sequence of strings.
pub open spec fn texts(strings: Seq<String>) -> Seq<Seq<char>> {
    strings.map_values(|s: String| s@)
}

/// What a [`Material`] holds.
pub struct MaterialView {
    pub name: Seq<char>,
    pub max_dimension: u32,
    pub has_alpha: bool,
    pub channels: Seq<Seq<char>>,
}

impl MaterialView {
    /// The longer edge is positive and at least one channel is asked for.
    pub open spec fn wf(self) -> bool {
        self.max_dimension > 0 && self.channels.len() > 0
    }
}

impl View for Material {
    type V = MaterialView;

    open spec fn view(&self) -> MaterialView {
        MaterialView {
            name: self.name@,
            max_dimension: self.max_dimension,
            has_alpha: self.has_alpha,
            channels: texts(self.channels@),
        }
    }
}

/// The views of a sequence of materials.
pub open spec fn material_views(materials: Seq<Material>) -> Seq<MaterialView> {
    materials.map_values(|m: Material| m@)
}

/// What a [`Manifest`] holds.
pub struct ManifestView {
    pub input: Seq<char>,
    pub output: Seq<char>,
    pub flip_normals: bool,
    pub materials: Seq<MaterialView>,
}

impl ManifestView {
    /// Every material is well formed.
    pub open spec fn wf(self) -> bool {
        forall|i: int| 0 <= i < self.materials.len() ==> (#[trigger] self.materials[i]).wf()
    }
}

impl View for Manifest {
    type V = ManifestView;

    open spec fn view(&self) -> ManifestView {
        ManifestView {
            input: self.input@,
            output: self.output@,
            flip_normals: self.flip_normals,
            materials: material_views(self.materials@),
        }
    }
}

/// What a [`ManifestError`] says, without the parser's wording.
pub enum ManifestFault {
    Syntax,
    MissingOutput,
    MissingInput,
    MissingMaterials,
    BadFlipNormals,
    BadMaxDimension { material: Seq<char> },
    BadChannels { material: Seq<char> },
    BadChannel { material: Seq<char>, index: nat },
}

impl View for ManifestError {
    type V = ManifestFault;

    open spec fn view(&self) -> ManifestFault {
        match self {
            ManifestError::Syntax { .. } => ManifestFault::Syntax,
            ManifestError::MissingOutput => ManifestFault::MissingOutput,
            ManifestError::MissingInput => ManifestFault::MissingInput,
            ManifestError::MissingMaterials => ManifestFault::MissingMaterials,
            ManifestError::BadFlipNormals => ManifestFault::BadFlipNormals,
            ManifestError::BadMaxDimension { material } => ManifestFault::BadMaxDimension {
                material: material@,
            },
            ManifestError::BadChannels { material } => ManifestFault::BadChannels {
                material: material@,
            },
            ManifestError::BadChannel { material, index } => ManifestFault::BadChannel {
                material: material@,
                index: *index as nat,
            },
        }
    }
}

/// A loaded manifest or its refusal, by their views.
pub open spec fn outcome(result: Result<Manifest, ManifestError>) -> Result<
    ManifestView,
    ManifestFault,
> {
    match result {
        Ok(manifest) => Ok(manifest@),
        Err(error) => Err(error@),
    }
}

/// The names that the first `n` entries of a `channels` array spell, or the
/// position of the first of them that is no string.
pub open spec fn channel_names(members: Seq<JsonTree>, n: nat) -> Result<Seq<Seq<char>>, nat>
    decreases n,
{
    if n == 0 {
        Ok(Seq::empty())
    } else {
        match channel_names(members, (n - 1) as nat) {
            Err(index) => Err(index),
            Ok(names) => match members[n - 1].text() {
                Some(name) => Ok(names.push(name)),
                None => Err((n - 1) as nat),
            },
        }
    }
}

/// The material that an entry of `materials` describes, or what is wrong
/// with it: first its `max_dimension`, then its `channels`, then the first
/// entry of `channels` that is no string. `alpha` counts by being there.
pub open spec fn material_of(name: Seq<char>, tree: JsonTree) -> Result<MaterialView, ManifestFault> {
    match tree.get("max_dimension"@).unsigned32() {
        Some(max_dimension) if max_dimension > 0 => {
            let members = tree.get("channels"@).members();
            if members.len() == 0 {
                Err(ManifestFault::BadChannels { material: name })
            } else {
                match channel_names(members, members.len()) {
                    Err(index) => Err(ManifestFault::BadChannel { material: name, index }),
                    Ok(channels) => Ok(
                        MaterialView {
                            name,
                            max_dimension,
                            has_alpha: tree.has_key("alpha"@),
                            channels,
                        },
                    ),
                }
            }
        },
        _ => Err(ManifestFault::BadMaxDimension { material: name }),
    }
}

/// The materials that the first `n` entries describe, or what is wrong with
/// the first of them that is refused.
pub open spec fn materials_of(entries: Seq<(Seq<char>, JsonTree)>, n: nat) -> Result<
    Seq<MaterialView>,
    ManifestFault,
>
    decreases n,
{
    if n == 0 {
        Ok(Seq::empty())
    } else {
        match materials_of(entries, (n - 1) as nat) {
            Err(fault) => Err(fault),
            Ok(materials) => match material_of(entries[n - 1].0, entries[n - 1].1) {
                Ok(material) => Ok(materials.push(material)),
                Err(fault) => Err(fault),
            },
        }
    }
}

/// The manifest that a JSON document describes, or the first thing wrong
/// with it, in this order: `output`, `input`, `materials`, `flip_normals`,
/// then the materials one by one.
pub open spec fn manifest_of(tree: JsonTree) -> Result<ManifestView, ManifestFault> {
    match tree.get("output"@).text() {
        None => Err(ManifestFault::MissingOutput),
        Some(output) => match tree.get("input"@).text() {
            None => Err(ManifestFault::MissingInput),
            Some(input) => {
                let materials = tree.get("materials"@);
                let flip = tree.get("flip_normals"@).flag();
                if !(materials is Object) {
                    Err(ManifestFault::MissingMaterials)
                } else if tree.has_key("flip_normals"@) && flip is None {
                    Err(ManifestFault::BadFlipNormals)
                } else {
                    match materials_of(materials.entries(), materials.entries().len()) {
                        Err(fault) => Err(fault),
                        Ok(materials) => Ok(
                            ManifestView {
                                input,
                                output,
                                flip_normals: tree.has_key("flip_normals"@) && flip == Some(true),
                                materials,
                            },
                        ),
                    }
                }
            },
        },
    }
}

/// The manifest that a text describes: that of the JSON document it spells.
pub open spec fn manifest_of_text(text: Seq<char>) -> Result<ManifestView, ManifestFault> {
    match json_document(text) {
        None => Err(ManifestFault::Syntax),
        Some(tree) => manifest_of(tree),
    }
}

/// Once an entry of `channels` is refused, so is every longer prefix.
proof fn lemma_channel_names_fail(members: Seq<JsonTree>, n: nat, m: nat)
    requires
        n <= m,
        channel_names(members, n) is Err,
    ensures
        channel_names(members, m) == channel_names(members, n),
    decreases m,
{
    if n < m {
        lemma_channel_names_fail(members, n, (m - 1) as nat);
    }
}

/// Once a material is refused, so is every longer prefix of the materials.
proof fn lemma_materials_fail(entries: Seq<(Seq<char>, JsonTree)>, n: nat, m: nat)
    requires
        n <= m,
        materials_of(entries, n) is Err,
    ensures
        materials_of(entries, m) == materials_of(entries, n),
    decreases m,
{
    if n < m {
        lemma_materials_fail(entries, n, (m - 1) as nat);
    }
}

/// Reads the names out of a `channels` array.
fn read_channels(channels: &JsonValue) -> (result: Result<Vec<String>, usize>)
    ensures
        match result {
            Ok(names) => channel_names(
                json_tree(*channels).members(),
                json_tree(*channels).members().len(),
            ) == Ok::<Seq<Seq<char>>, nat>(texts(names@)) && names@.len() == json_tree(
                *channels,
            ).members().len(),
            Err(index) => channel_names(
                json_tree(*channels).members(),
                json_tree(*channels).members().len(),
            ) == Err::<Seq<Seq<char>>, nat>(index as nat),
        },
{
    let members = json_members(channels);
    let ghost trees = json_tree(*channels).members();
    let mut names: Vec<String> = Vec::new();
    let mut i: usize = 0;
    assert(texts(names@) =~= Seq::<Seq<char>>::empty());
    while i < members.len()
        invariant
            i <= members.len(),
            trees == json_tree(*channels).members(),
            members@.len() == trees.len(),
            forall|k: int| 0 <= k < members@.len() ==> json_tree(*#[trigger] members@[k]) == trees[k],
            channel_names(trees, i as nat) == Ok::<Seq<Seq<char>>, nat>(texts(names@)),
            names@.len() == i,
        decreases members.len() - i,
    {
        let member = members[i];
        match member.as_str() {
            Some(name) => {
                let ghost before = names@;
                names.push(name.to_owned());
                assert(json_tree(*members@[i as int]) == trees[i as int]);
                assert(texts(names@) =~= texts(before).push(name@));
            },
            None => {
                proof {
                    assert(json_tree(*members@[i as int]) == trees[i as int]);
                    assert(trees[i as int].text() is None);
                    assert(channel_names(trees, (i + 1) as nat) == Err::<Seq<Seq<char>>, nat>(
                        i as nat,
                    ));
                    lemma_channel_names_fail(trees, (i + 1) as nat, trees.len());
                }
                return Err(i);
            },
        }
        i = i + 1;
    }
    Ok(names)
}

/// Reads one entry of `materials`.
fn read_material(name: &str, material: &JsonValue) -> (result: Result<Material, ManifestError>)
    ensures
        match result {
            Ok(m) => material_of(name@, json_tree(*material)) == Ok::<MaterialView, ManifestFault>(
                m@,
            ) && m@.wf(),
            Err(error) => material_of(name@, json_tree(*material)) == Err::<
                MaterialView,
                ManifestFault,
            >(error@),
        },
{
    let max_dimension = match json_get(material, "max_dimension").as_u32() {
        Some(value) => value,
        None => {
            return Err(ManifestError::BadMaxDimension { material: name.to_owned() });
        },
    };
    if max_dimension == 0 {
        return Err(ManifestError::BadMaxDimension { material: name.to_owned() });
    }
    let listed = json_get(material, "channels");
    let channels = match read_channels(listed) {
        Ok(channels) => channels,
        Err(index) => {
            return Err(ManifestError::BadChannel { material: name.to_owned(), index });
        },
    };
    if channels.len() == 0 {
        return Err(ManifestError::BadChannels { material: name.to_owned() });
    }
    let has_alpha = material.has_key("alpha");
    Ok(Material { name: name.to_owned(), max_dimension, has_alpha, channels })
}

/// Reads the entries of `materials`, one material each.
fn read_materials(listed: &JsonValue) -> (result: Result<Vec<Material>, ManifestError>)
    ensures
        match result {
            Ok(materials) => materials_of(
                json_tree(*listed).entries(),
                json_tree(*listed).entries().len(),
            ) == Ok::<Seq<MaterialView>, ManifestFault>(material_views(materials@))
                && forall|k: int| 0 <= k < materials@.len() ==> (#[trigger] materials@[k])@.wf(),
            Err(error) => materials_of(
                json_tree(*listed).entries(),
                json_tree(*listed).entries().len(),
            ) == Err::<Seq<MaterialView>, ManifestFault>(error@),
        },
{
    let entries = json_entries(listed);
    let ghost trees = json_tree(*listed).entries();
    let mut materials: Vec<Material> = Vec::new();
    let mut i: usize = 0;
    assert(material_views(materials@) =~= Seq::<MaterialView>::empty());
    while i < entries.len()
        invariant
            i <= entries.len(),
            trees == json_tree(*listed).entries(),
            entries@.len() == trees.len(),
            forall|k: int|
                0 <= k < entries@.len() ==> (#[trigger] entries@[k]).0@ == trees[k].0 && json_tree(
                    *entries@[k].1,
                ) == trees[k].1,
            materials_of(trees, i as nat) == Ok::<Seq<MaterialView>, ManifestFault>(
                material_views(materials@),
            ),
            forall|k: int| 0 <= k < materials@.len() ==> (#[trigger] materials@[k])@.wf(),
        decreases entries.len() - i,
    {
        let (name, described) = entries[i];
        match read_material(name, described) {
            Ok(material) => {
                let ghost before = materials@;
                materials.push(material);
                assert(material_views(materials@) =~= material_views(before).push(material@));
            },
            Err(error) => {
                proof {
                    assert(materials_of(trees, (i + 1) as nat) == Err::<
                        Seq<MaterialView>,
                        ManifestFault,
                    >(error@));
                    lemma_materials_fail(trees, (i + 1) as nat, trees.len());
                }
                return Err(error);
            },
        }
        i = i + 1;
    }
    Ok(materials)
}

/// Checks a parsed manifest and gives it its typed form.
pub fn manifest_from_json(config: &JsonValue) -> (result: Result<Manifest, ManifestError>)
    ensures
        outcome(result) == manifest_of(json_tree(*config)),
        result matches Ok(manifest) ==> manifest@.wf(),
{
    let output = match json_get(config, "output").as_str() {
        Some(text) => text.to_owned(),
        None => {
            return Err(ManifestError::MissingOutput);
        },
    };
    let input = match json_get(config, "input").as_str() {
        Some(text) => text.to_owned(),
        None => {
            return Err(ManifestError::MissingInput);
        },
    };
    let listed = json_get(config, "materials");
    if !listed.is_object() {
        return Err(ManifestError::MissingMaterials);
    }
    let mut flip_normals = false;
    if config.has_key("flip_normals") {
        match json_get(config, "flip_normals").as_bool() {
            Some(flag) => {
                flip_normals = flag;
            },
            None => {
                return Err(ManifestError::BadFlipNormals);
            },
        }
    }
    let materials = match read_materials(listed) {
        Ok(materials) => materials,
        Err(error) => {
            return Err(error);
        },
    };
    Ok(Manifest { input, output, flip_normals, materials })
}

/// Parses the text of a manifest and checks it.
pub fn parse_manifest(text: &str) -> (result: Result<Manifest, ManifestError>)
    ensures
        outcome(result) == manifest_of_text(text@),
        result matches Ok(manifest) ==> manifest@.wf(),
{
    match json::parse(text) {
        Ok(config) => manifest_from_json(&config),
        Err(error) => Err(ManifestError::Syntax { message: json_error_message(&error) }),
    }
}

} // verus!
