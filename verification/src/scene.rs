//! The scene builder: one node per model, one mesh instance per voxel.

use crate::document::{DocumentView, Voxel, VoxelDocument};
use crate::label::{palette_label, palette_label_text};
use crate::transform::{place, placement, VoxelTransform};
use vstd::prelude::*;
use vstd::string::*;

verus! {

/// The label under which the one shared cube mesh is registered.
pub const CUBE_LABEL: &'static str = "cube";

/// Side length of the cube mesh, in world units: neighbouring voxels touch
/// without a gap and without overlap.
pub const CUBE_SIDE: u8 = 1;

/// One placed cube. It names its mesh and its material by label and holds
/// neither.
#[derive(Clone, Debug, PartialEq, Eq)]
pub struct Instance {
    /// Label of the mesh.
    pub mesh: String,
    /// Label of the material.
    pub material: String,
    /// Where the cube stands.
    pub transform: VoxelTransform,
}

/// An [`Instance`] as plain values.
pub struct InstanceView {
    pub mesh: Seq<char>,
    pub material: Seq<char>,
    pub transform: VoxelTransform,
}

impl View for Instance {
    type V = InstanceView;

    open spec fn view(&self) -> InstanceView {
        InstanceView { mesh: self.mesh@, material: self.material@, transform: self.transform }
    }
}

/// The node of one model. It owns one instance per voxel of the model.
#[derive(Clone, Debug, PartialEq, Eq)]
pub struct ModelNode {
    /// Where the node stands in the scene.
    pub transform: VoxelTransform,
    /// The model's cubes.
    pub children: Vec<Instance>,
}

/// A [`ModelNode`] as plain values.
pub struct NodeView {
    pub transform: VoxelTransform,
    pub children: Seq<InstanceView>,
}

impl View for ModelNode {
    type V = NodeView;

    open spec fn view(&self) -> NodeView {
        NodeView {
            transform: self.transform,
            children: Seq::new(self.children@.len(), |k: int| self.children@[k]@),
        }
    }
}

/// The scene graph: one node per model, in document order.
#[derive(Clone, Debug, PartialEq, Eq)]
pub struct Scene {
    pub nodes: Vec<ModelNode>,
}

impl View for Scene {
    type V = Seq<NodeView>;

    open spec fn view(&self) -> Seq<NodeView> {
        Seq::new(self.nodes@.len(), |m: int| self.nodes@[m]@)
    }
}

/// The instance that stands for one voxel.
pub open spec fn instance_of(voxel: Voxel, swap_yz: bool) -> InstanceView {
    InstanceView {
        mesh: CUBE_LABEL@,
        material: palette_label_text(voxel.i as nat),
        transform: placement(voxel, swap_yz),
    }
}

/// The node of one model: it stands at the origin and has an instance per
/// voxel, in the model's order.
pub open spec fn node_of(model: Seq<Voxel>, swap_yz: bool) -> NodeView {
    NodeView {
        transform: VoxelTransform::origin(),
        children: Seq::new(model.len(), |k: int| instance_of(model[k], swap_yz)),
    }
}

/// The scene of a document: a node per model, in document order.
pub open spec fn scene_of(doc: DocumentView, swap_yz: bool) -> Seq<NodeView> {
    Seq::new(doc.models.len(), |m: int| node_of(doc.models[m], swap_yz))
}

/// The instances of a scene, node by node.
pub open spec fn instances_of(scene: Seq<NodeView>) -> Seq<Seq<InstanceView>> {
    Seq::new(scene.len(), |m: int| scene[m].children)
}

/// Number of instances over all nodes of a scene.
pub open spec fn instance_count(scene: Seq<NodeView>) -> nat {
    instances_of(scene).flatten().len()
}

/// The instance for one voxel: the cube mesh, the material of the voxel's
/// palette index, and the voxel's place in the world.
pub fn build_instance(voxel: Voxel, swap_yz: bool) -> (instance: Instance)
    ensures
        instance@ == instance_of(voxel, swap_yz),
{
    Instance {
        mesh: String::from_str(CUBE_LABEL),
        material: palette_label(voxel.i as usize),
        transform: place(voxel, swap_yz),
    }
}

/// The scene builder: for every model of `doc`, in order, a node at the
/// origin with one instance per voxel, in the model's order.
pub fn build_scene(doc: &VoxelDocument, swap_yz: bool) -> (scene: Scene)
    ensures
        scene@ == scene_of(doc@, swap_yz),
{
    let mut nodes: Vec<ModelNode> = Vec::new();
    let mut m: usize = 0;
    while m < doc.models.len()
        invariant
            m <= doc.models.len(),
            nodes@.len() == m,
            forall|j: int|
                0 <= j < m ==> (#[trigger] nodes@[j])@ == node_of(doc@.models[j], swap_yz),
        decreases doc.models.len() - m,
    {
        let model = &doc.models[m];
        let mut children: Vec<Instance> = Vec::new();
        let mut v: usize = 0;
        while v < model.voxels.len()
            invariant
                v <= model.voxels.len(),
                children@.len() == v,
                forall|k: int|
                    0 <= k < v ==> (#[trigger] children@[k])@ == instance_of(
                        model.voxels@[k],
                        swap_yz,
                    ),
            decreases model.voxels.len() - v,
        {
            children.push(build_instance(model.voxels[v], swap_yz));
            v += 1;
        }
        let node = ModelNode { transform: VoxelTransform::identity(), children };
        assert(node@.children =~= node_of(doc@.models[m as int], swap_yz).children);
        nodes.push(node);
        m += 1;
    }
    let scene = Scene { nodes };
    scene
}

/// The cube's label is no material's label: mesh and materials can be
/// registered side by side under their labels.
pub proof fn lemma_cube_label_is_no_material_label(index: nat)
    ensures
        CUBE_LABEL@ != palette_label_text(index),
{
    reveal_strlit("cube");
    reveal_strlit("palette");
    assert(palette_label_text(index)[0] == 'p');
}

/// Two sequences of sequences that agree in length, item by item, hold the
/// same number of items in all.
proof fn lemma_flatten_len<A, B>(left: Seq<Seq<A>>, right: Seq<Seq<B>>)
    requires
        left.len() == right.len(),
        forall|j: int| 0 <= j < left.len() ==> (#[trigger] left[j]).len() == right[j].len(),
    ensures
        left.flatten().len() == right.flatten().len(),
    decreases left.len(),
{
    if left.len() > 0 {
        assert forall|j: int| 0 <= j < left.drop_first().len() implies (
        #[trigger] left.drop_first()[j]).len() == right.drop_first()[j].len() by {
            assert(left[j + 1].len() == right[j + 1].len());
        }
        lemma_flatten_len(left.drop_first(), right.drop_first());
    }
}

/// The scene has exactly one instance per voxel: as many nodes as the
/// document has models, each at the origin, in each node as many instances
/// as its model has voxels, and so in all as many instances as the document
/// has voxels.
pub proof fn lemma_one_instance_per_voxel(doc: DocumentView, swap_yz: bool)
    ensures
        scene_of(doc, swap_yz).len() == doc.models.len(),
        forall|m: int|
            0 <= m < doc.models.len() ==> {
                let node = #[trigger] scene_of(doc, swap_yz)[m];
                &&& node.transform == VoxelTransform::origin()
                &&& node.children.len() == doc.models[m].len()
            },
        instance_count(scene_of(doc, swap_yz)) == doc.voxel_count(),
{
    lemma_flatten_len(instances_of(scene_of(doc, swap_yz)), doc.models);
}

} // verus!
