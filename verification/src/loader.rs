//! The loader: from the bytes of a voxel file to the assets of its scene.

use crate::document::{DocumentView, VoxelDocument};
use crate::label::{lemma_labels_are_distinct, palette_label_text};
use crate::palette::{
    lemma_materials_are_minimal, material_at, material_views, materials_of, resolve_palette,
    Material, MaterialView,
};
use crate::parse::{has_vox_magic, parse_document, vox_parse, PARSE_FAILURE};
use crate::scene::{build_scene, scene_of, NodeView, Scene, CUBE_LABEL, CUBE_SIDE};
use crate::transform::placement;
use vstd::prelude::*;
use vstd::string::*;

verus! {

/// `std::io::Error`, carried as an opaque value.
#[verifier::external_type_specification]
#[verifier::external_body]
pub struct ExIoError(std::io::Error);

/// Why a load failed.
#[derive(Debug)]
pub enum VoxError {
    /// The bytes of the file could not be read.
    Io(std::io::Error),
    /// The bytes are not a voxel file; the parser's message says why.
    FailErr(String),
}

impl From<std::io::Error> for VoxError {
    fn from(source: std::io::Error) -> (error: VoxError) {
        VoxError::Io(source)
    }
}

impl vstd::std_specs::convert::FromSpecImpl<std::io::Error> for VoxError {
    open spec fn obeys_from_spec() -> bool {
        true
    }

    open spec fn from_spec(source: std::io::Error) -> VoxError {
        VoxError::Io(source)
    }
}

/// The one mesh that all instances share: a cube of `side` world units.
#[derive(Clone, Debug, PartialEq, Eq)]
pub struct CubeMesh {
    /// The label it is registered under.
    pub label: String,
    /// Its side length, in world units.
    pub side: u8,
}

/// A [`CubeMesh`] as plain values.
pub struct CubeMeshView {
    pub label: Seq<char>,
    pub side: int,
}

impl View for CubeMesh {
    type V = CubeMeshView;

    open spec fn view(&self) -> CubeMeshView {
        CubeMeshView { label: self.label@, side: self.side as int }
    }
}

/// All that one load produces: the mesh and the materials to register, each
/// under its label, and the scene whose instances name them by label.
#[derive(Clone, Debug, PartialEq, Eq)]
pub struct VoxAssets {
    pub mesh: CubeMesh,
    pub materials: Vec<Material>,
    pub scene: Scene,
}

/// [`VoxAssets`] as plain values.
pub struct VoxAssetsView {
    pub mesh: CubeMeshView,
    pub materials: Seq<MaterialView>,
    pub scene: Seq<NodeView>,
}

impl View for VoxAssets {
    type V = VoxAssetsView;

    open spec fn view(&self) -> VoxAssetsView {
        VoxAssetsView {
            mesh: self.mesh@,
            materials: material_views(self.materials@),
            scene: self.scene@,
        }
    }
}

/// The assets of a document: the unit cube, a material per used palette
/// slot, and the scene with an instance per voxel.
pub open spec fn assets_of(doc: DocumentView, swap_yz: bool) -> VoxAssetsView {
    VoxAssetsView {
        mesh: CubeMeshView { label: CUBE_LABEL@, side: CUBE_SIDE as int },
        materials: materials_of(doc),
        scene: scene_of(doc, swap_yz),
    }
}

/// Converts a parsed document. It cannot fail.
pub fn convert(doc: &VoxelDocument, swap_yz: bool) -> (assets: VoxAssets)
    ensures
        assets@ == assets_of(doc@, swap_yz),
{
    let materials = resolve_palette(doc);
    let mesh = CubeMesh { label: String::from_str(CUBE_LABEL), side: CUBE_SIDE };
    let scene = build_scene(doc, swap_yz);
    VoxAssets { mesh, materials, scene }
}

/// What a load returns, given what the parser made of the bytes: the assets
/// of the document, or the parse failure with the parser's message.
pub fn finish_load(parsed: Result<VoxelDocument, String>, swap_yz: bool) -> (result: Result<
    VoxAssets,
    VoxError,
>)
    ensures
        match parsed {
            Ok(doc) => result matches Ok(assets) && assets@ == assets_of(doc@, swap_yz),
            Err(message) => result matches Err(VoxError::FailErr(text)) && text == message,
        },
{
    match parsed {
        Ok(doc) => Ok(convert(&doc, swap_yz)),
        Err(message) => Err(VoxError::FailErr(message)),
    }
}

/// Loads a voxel file from its bytes.
///
/// Where the parser accepts the bytes, the result is the assets of the
/// document it read. Where it refuses them, and it refuses all that do not
/// open with `VOX `, the result is the parse failure, and nothing else is
/// produced.
pub fn load_vox(bytes: &[u8], swap_yz: bool) -> (result: Result<VoxAssets, VoxError>)
    ensures
        match vox_parse(bytes@) {
            Some(doc) => result matches Ok(assets) && assets@ == assets_of(doc, swap_yz),
            None => result matches Err(VoxError::FailErr(text)) && text@ == PARSE_FAILURE@,
        },
        !has_vox_magic(bytes@) ==> result is Err,
{
    finish_load(parse_document(bytes), swap_yz)
}

/// The asset loader for voxel files.
#[derive(Clone, Copy, Debug, PartialEq, Eq, Structural)]
pub struct VoxLoader {
    /// Voxel files take Z as the vertical axis. With this set, Y is the
    /// height.
    pub swap_yz: bool,
}

impl Default for VoxLoader {
    fn default() -> (loader: VoxLoader)
        ensures
            !loader.swap_yz,
    {
        VoxLoader { swap_yz: false }
    }
}

impl VoxLoader {
    /// Loads a voxel file from its bytes, with this loader's axis setting.
    pub fn load(&self, bytes: &[u8]) -> (result: Result<VoxAssets, VoxError>)
        ensures
            match vox_parse(bytes@) {
                Some(doc) => result matches Ok(assets) && assets@ == assets_of(doc, self.swap_yz),
                None => result matches Err(VoxError::FailErr(text)) && text@ == PARSE_FAILURE@,
            },
            !has_vox_magic(bytes@) ==> result is Err,
    {
        load_vox(bytes, self.swap_yz)
    }

    /// The file extensions that this loader is for: `vox` alone.
    pub fn extensions(&self) -> (extensions: &'static [&'static str])
        ensures
            extensions@.len() == 1,
            extensions@[0]@ == "vox"@,
    {
        &["vox"]
    }
}

/// Determinism. The assets are a function of the document and of the axis
/// setting: two conversions of one document under one setting give the same
/// materials, slot by slot and color by color, and the same instances at
/// the same positions.
pub proof fn lemma_conversion_is_deterministic(
    doc: DocumentView,
    swap_yz: bool,
    first: VoxAssetsView,
    second: VoxAssetsView,
)
    requires
        first == assets_of(doc, swap_yz),
        second == assets_of(doc, swap_yz),
    ensures
        first.materials == second.materials,
        first.scene == second.scene,
        first == second,
{
}

/// The axis setting moves instances and does nothing else: the mesh and
/// the materials are the same with and without it, and so is, for every
/// instance, the material that it names.
pub proof fn lemma_axis_setting_only_moves(doc: DocumentView)
    ensures
        assets_of(doc, true).mesh == assets_of(doc, false).mesh,
        assets_of(doc, true).materials == assets_of(doc, false).materials,
        assets_of(doc, true).scene.len() == assets_of(doc, false).scene.len(),
        forall|m: int, v: int|
            0 <= m < doc.models.len() && 0 <= v < doc.models[m].len() ==> {
                let swapped = #[trigger] assets_of(doc, true).scene[m].children[v];
                let plain = assets_of(doc, false).scene[m].children[v];
                &&& swapped.mesh == plain.mesh
                &&& swapped.material == plain.material
                &&& swapped.transform == plain.transform.swapped()
            },
{
}

/// Every instance names what is registered: its mesh is the cube, it
/// stands where its voxel is placed, and where the palette has a slot for
/// its voxel's index, exactly one material carries the label that the
/// instance names: the one made from that slot.
pub proof fn lemma_instances_name_the_assets(doc: DocumentView, swap_yz: bool, m: int, v: int)
    requires
        0 <= m < doc.models.len(),
        0 <= v < doc.models[m].len(),
    ensures
        ({
            let assets = assets_of(doc, swap_yz);
            let voxel = doc.models[m][v];
            let instance = assets.scene[m].children[v];
            &&& instance.mesh == assets.mesh.label
            &&& instance.transform == placement(voxel, swap_yz)
            &&& instance.material == palette_label_text(voxel.i as nat)
            &&& forall|k: int|
                0 <= k < assets.materials.len() && (#[trigger] assets.materials[k]).label
                    == instance.material ==> assets.materials[k] == material_at(
                    doc,
                    voxel.i as int,
                )
            &&& voxel.i < doc.palette.len() ==> exists|k: int|
                0 <= k < assets.materials.len() && (#[trigger] assets.materials[k])
                    == material_at(doc, voxel.i as int)
        }),
{
    let assets = assets_of(doc, swap_yz);
    let voxel = doc.models[m][v];
    let instance = assets.scene[m].children[v];
    lemma_materials_are_minimal(doc);
    assert forall|k: int|
        0 <= k < assets.materials.len() && (#[trigger] assets.materials[k]).label
            == instance.material implies assets.materials[k] == material_at(
        doc,
        voxel.i as int,
    ) by {
        lemma_labels_are_distinct(assets.materials[k].index as nat, voxel.i as nat);
    }
    if voxel.i < doc.palette.len() {
        assert(doc.uses(voxel.i as int));
        let k = choose|k: int|
            0 <= k < materials_of(doc).len() && (#[trigger] materials_of(doc)[k]).index
                == voxel.i;
        assert(assets.materials[k] == material_at(doc, voxel.i as int));
    }
}

} // verus!
