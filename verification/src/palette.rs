//! The palette resolver: which palette indices a document uses, and the
//! material that each used palette slot gives.

use crate::document::{DocumentView, Rgba, VoxelDocument, PALETTE_SIZE};
use crate::index_set::{index_set_contains, index_set_insert, index_set_items, index_set_new};
use crate::label::{palette_label, palette_label_text};
use bevy::platform::collections::HashSet;
use vstd::prelude::*;

verus! {

/// A material to register: one per used palette slot.
#[derive(Clone, Debug, PartialEq, Eq)]
pub struct Material {
    /// The palette slot it was made from.
    pub index: usize,
    /// The label it is registered under.
    pub label: String,
    /// The slot's raw color.
    pub color: Rgba,
}

/// A [`Material`] as plain values.
pub struct MaterialView {
    pub index: int,
    pub label: Seq<char>,
    pub color: Rgba,
}

impl View for Material {
    type V = MaterialView;

    open spec fn view(&self) -> MaterialView {
        MaterialView { index: self.index as int, label: self.label@, color: self.color }
    }
}

/// The views of a sequence of materials, in order.
pub open spec fn material_views(materials: Seq<Material>) -> Seq<MaterialView> {
    Seq::new(materials.len(), |k: int| materials[k]@)
}

/// A sequence of indices as mathematical integers, in order.
pub open spec fn index_values(indices: Seq<usize>) -> Seq<int> {
    Seq::new(indices.len(), |k: int| indices[k] as int)
}

/// The test "some voxel of `doc` carries this index".
pub open spec fn index_is_used(doc: DocumentView) -> spec_fn(int) -> bool {
    |index: int| doc.uses(index)
}

/// The indices below `bound` that some voxel carries, ascending.
pub open spec fn used_below(doc: DocumentView, bound: int) -> Seq<int> {
    Seq::new(bound as nat, |index: int| index).filter(index_is_used(doc))
}

/// The indices that the voxels of a document carry, each once, ascending.
/// An index is one byte, so all of them are below [`PALETTE_SIZE`].
pub open spec fn used_indices_of(doc: DocumentView) -> Seq<int> {
    used_below(doc, PALETTE_SIZE as int)
}

/// The material that palette slot `index` gives.
pub open spec fn material_at(doc: DocumentView, index: int) -> MaterialView {
    MaterialView { index, label: palette_label_text(index as nat), color: doc.palette[index] }
}

/// [`material_at`] as a function of the slot.
pub open spec fn material_of_slot(doc: DocumentView) -> spec_fn(int) -> MaterialView {
    |index: int| material_at(doc, index)
}

/// The materials of the used palette slots below `bound`, ascending by slot.
pub open spec fn materials_below(doc: DocumentView, bound: int) -> Seq<MaterialView> {
    used_below(doc, bound).map_values(material_of_slot(doc))
}

/// The materials of a document: one for each slot of the palette that some
/// voxel uses, ascending by slot.
pub open spec fn materials_of(doc: DocumentView) -> Seq<MaterialView> {
    materials_below(doc, doc.palette.len() as int)
}

/// The indices that some voxel carries, as a set.
pub open spec fn used_index_set(doc: DocumentView) -> Set<int> {
    Set::new(|index: int| doc.uses(index))
}

/// The indices below `bound` that some voxel carries, as a set.
pub open spec fn used_set_below(doc: DocumentView, bound: int) -> Set<int> {
    Set::new(|index: int| 0 <= index < bound && doc.uses(index))
}

/// The slots that the palette has and that some voxel uses, as a set.
pub open spec fn used_slot_set(doc: DocumentView) -> Set<int> {
    used_set_below(doc, doc.palette.len() as int)
}

/// Some voxel that stands before voxel `voxel` of model `model`, in document
/// order, carries `index`.
spec fn uses_before(doc: DocumentView, model: int, voxel: int, index: int) -> bool {
    exists|m: int, v: int|
        0 <= m < doc.models.len() && 0 <= v < doc.models[m].len() && (m < model || (m == model
            && v < voxel)) && (#[trigger] doc.models[m][v]).i == index
}

/// Collects the indices that the voxels of `doc` carry into a hash set,
/// where an index that many voxels carry is held once.
fn collect_used(doc: &VoxelDocument) -> (used: HashSet<usize>)
    ensures
        forall|index: usize| #[trigger]
            index_set_items(used).contains(index) <==> doc@.uses(index as int),
{
    let mut used = index_set_new();
    let mut m: usize = 0;
    while m < doc.models.len()
        invariant
            m <= doc.models.len(),
            forall|index: usize| #[trigger]
                index_set_items(used).contains(index) <==> uses_before(
                    doc@,
                    m as int,
                    0,
                    index as int,
                ),
        decreases doc.models.len() - m,
    {
        let model = &doc.models[m];
        let mut v: usize = 0;
        while v < model.voxels.len()
            invariant
                m < doc.models.len(),
                *model == doc.models@[m as int],
                v <= model.voxels.len(),
                forall|index: usize| #[trigger]
                    index_set_items(used).contains(index) <==> uses_before(
                        doc@,
                        m as int,
                        v as int,
                        index as int,
                    ),
            decreases model.voxels.len() - v,
        {
            let carried: usize = model.voxels[v].i as usize;
            let ghost before = index_set_items(used);
            index_set_insert(&mut used, carried);
            proof {
                assert(doc@.models[m as int][v as int].i == carried);
                assert forall|index: usize| #[trigger]
                    index_set_items(used).contains(index) <==> uses_before(
                        doc@,
                        m as int,
                        v as int + 1,
                        index as int,
                    ) by {
                    if before.contains(index) {
                        assert(uses_before(doc@, m as int, v as int, index as int));
                    }
                }
            }
            v += 1;
        }
        m += 1;
    }
    used
}

/// One more index: the used indices below `bound + 1` are those below
/// `bound`, and `bound` after them if it is used.
proof fn lemma_used_below_step(doc: DocumentView, bound: int)
    requires
        0 <= bound,
    ensures
        used_below(doc, bound + 1) == if doc.uses(bound) {
            used_below(doc, bound).push(bound)
        } else {
            used_below(doc, bound)
        },
{
    let range = Seq::new(bound as nat, |index: int| index);
    assert(Seq::new((bound + 1) as nat, |index: int| index) =~= range.push(bound));
    range.lemma_filter_push(bound, index_is_used(doc));
}

/// The same for the materials.
proof fn lemma_materials_below_step(doc: DocumentView, bound: int)
    requires
        0 <= bound,
    ensures
        materials_below(doc, bound + 1) == if doc.uses(bound) {
            materials_below(doc, bound).push(material_at(doc, bound))
        } else {
            materials_below(doc, bound)
        },
{
    lemma_used_below_step(doc, bound);
    assert(materials_below(doc, bound + 1) =~= if doc.uses(bound) {
        materials_below(doc, bound).push(material_at(doc, bound))
    } else {
        materials_below(doc, bound)
    });
}

/// Below no bound, nothing is used.
proof fn lemma_used_below_zero(doc: DocumentView)
    ensures
        used_below(doc, 0) == Seq::<int>::empty(),
        materials_below(doc, 0) == Seq::<MaterialView>::empty(),
{
    reveal(Seq::filter);
}

/// The palette indices that the voxels of `doc` carry, over all models:
/// each once, however many voxels carry it, ascending. Index 0 is an index
/// like any other.
pub fn used_indices(doc: &VoxelDocument) -> (indices: Vec<usize>)
    ensures
        index_values(indices@) == used_indices_of(doc@),
{
    let used = collect_used(doc);
    let mut indices: Vec<usize> = Vec::new();
    let mut index: usize = 0;
    proof {
        lemma_used_below_zero(doc@);
    }
    while index < PALETTE_SIZE
        invariant
            index <= PALETTE_SIZE,
            forall|i: usize| #[trigger]
                index_set_items(used).contains(i) <==> doc@.uses(i as int),
            index_values(indices@) == used_below(doc@, index as int),
        decreases PALETTE_SIZE - index,
    {
        proof {
            lemma_used_below_step(doc@, index as int);
        }
        if index_set_contains(&used, index) {
            indices.push(index);
        }
        index += 1;
    }
    indices
}

/// The palette resolver: one material for each slot of the palette that
/// some voxel of some model uses, ascending by slot, with the slot's label
/// and the slot's color; none for a slot that no voxel uses.
pub fn resolve_palette(doc: &VoxelDocument) -> (materials: Vec<Material>)
    ensures
        material_views(materials@) == materials_of(doc@),
{
    let used = collect_used(doc);
    let mut materials: Vec<Material> = Vec::new();
    let mut index: usize = 0;
    proof {
        lemma_used_below_zero(doc@);
    }
    while index < doc.palette.len()
        invariant
            index <= doc.palette.len(),
            forall|i: usize| #[trigger]
                index_set_items(used).contains(i) <==> doc@.uses(i as int),
            material_views(materials@) == materials_below(doc@, index as int),
        decreases doc.palette.len() - index,
    {
        proof {
            lemma_materials_below_step(doc@, index as int);
        }
        if index_set_contains(&used, index) {
            let material = Material {
                index,
                label: palette_label(index),
                color: doc.palette[index],
            };
            let ghost before = materials@;
            materials.push(material);
            assert(material_views(materials@) =~= material_views(before).push(
                material_at(doc@, index as int),
            ));
        }
        index += 1;
    }
    materials
}

/// The used indices below `bound` are listed once each, ascending, and no
/// other number is listed; there are as many as the set of them has members.
pub proof fn lemma_used_below(doc: DocumentView, bound: int)
    requires
        0 <= bound,
    ensures
        forall|k: int|
            0 <= k < used_below(doc, bound).len() ==> 0 <= (#[trigger] used_below(doc, bound)[k])
                < bound && doc.uses(used_below(doc, bound)[k]),
        forall|j: int, k: int|
            0 <= j < k < used_below(doc, bound).len() ==> used_below(doc, bound)[j] < used_below(
                doc,
                bound,
            )[k],
        forall|index: int|
            0 <= index < bound && doc.uses(index) ==> used_below(doc, bound).contains(index),
        used_set_below(doc, bound).finite(),
        used_set_below(doc, bound).len() == used_below(doc, bound).len(),
    decreases bound,
{
    if bound == 0 {
        lemma_used_below_zero(doc);
        assert(used_set_below(doc, 0) =~= Set::<int>::empty());
    } else {
        let last = bound - 1;
        lemma_used_below(doc, last);
        lemma_used_below_step(doc, last);
        let before = used_below(doc, last);
        let now = used_below(doc, bound);
        if doc.uses(last) {
            assert(used_set_below(doc, bound) =~= used_set_below(doc, last).insert(last));
            assert forall|index: int| 0 <= index < bound && doc.uses(index) implies now.contains(
                index,
            ) by {
                if index < last {
                    let k = choose|k: int| 0 <= k < before.len() && before[k] == index;
                    assert(now[k] == index);
                } else {
                    assert(now[before.len() as int] == index);
                }
            }
        } else {
            assert(used_set_below(doc, bound) =~= used_set_below(doc, last));
        }
    }
}

/// An index is one byte: whatever a voxel carries is below [`PALETTE_SIZE`].
pub proof fn lemma_used_index_is_a_byte(doc: DocumentView, index: int)
    requires
        doc.uses(index),
    ensures
        0 <= index < PALETTE_SIZE,
{
    let (m, v) = choose|m: int, v: int|
        0 <= m < doc.models.len() && 0 <= v < doc.models[m].len() && (
        #[trigger] doc.models[m][v]).i == index;
    assert(doc.models[m][v].i == index);
}

/// The listing of the used indices stands for a set: it holds exactly the
/// indices that some voxel carries, each once, ascending, so that its
/// length is the number of distinct indices in use. A document without
/// voxels uses none.
pub proof fn lemma_used_indices_are_the_used_set(doc: DocumentView)
    ensures
        forall|index: int| used_indices_of(doc).contains(index) <==> doc.uses(index),
        forall|j: int, k: int|
            0 <= j < k < used_indices_of(doc).len() ==> used_indices_of(doc)[j] < used_indices_of(
                doc,
            )[k],
        used_index_set(doc).finite(),
        used_indices_of(doc).len() == used_index_set(doc).len(),
        doc.voxel_count() == 0 ==> used_indices_of(doc).len() == 0,
{
    let bound = PALETTE_SIZE as int;
    lemma_used_below(doc, bound);
    assert forall|index: int| doc.uses(index) implies 0 <= index < bound by {
        lemma_used_index_is_a_byte(doc, index);
    }
    assert(used_index_set(doc) =~= used_set_below(doc, bound));
    if doc.voxel_count() == 0 {
        assert forall|index: int| !doc.uses(index) by {
            if doc.uses(index) {
                let (m, v) = choose|m: int, v: int|
                    0 <= m < doc.models.len() && 0 <= v < doc.models[m].len() && (
                    #[trigger] doc.models[m][v]).i == index;
                doc.models.lemma_flatten_length_ge_single_element_length(m);
                doc.models.lemma_flatten_and_flatten_alt_are_equivalent();
            }
        }
        assert(used_index_set(doc) =~= Set::<int>::empty());
    }
}

/// What makes a list the material list of a document: each entry comes
/// from a slot that the palette has and that some voxel uses, and carries
/// that slot's label and color; every such slot has its entry; and the
/// slots ascend, so that none comes twice.
pub open spec fn is_material_list(doc: DocumentView, materials: Seq<MaterialView>) -> bool {
    &&& forall|k: int|
        0 <= k < materials.len() ==> {
            let material = #[trigger] materials[k];
            &&& 0 <= material.index < doc.palette.len()
            &&& doc.uses(material.index)
            &&& material == material_at(doc, material.index)
        }
    &&& forall|index: int|
        0 <= index < doc.palette.len() && doc.uses(index) ==> exists|k: int|
            0 <= k < materials.len() && (#[trigger] materials[k]).index == index
    &&& forall|j: int, k: int|
        0 <= j < k < materials.len() ==> (#[trigger] materials[j]).index < (
        #[trigger] materials[k]).index
}

/// Material minimality. The materials of a document are those of its used
/// palette slots and no others: they are a material list of the document,
/// and there are as many of them as there are slots that the palette has
/// and that some voxel uses. With a full palette, that is the number of
/// distinct indices that the voxels carry, and the materials are those of
/// the used indices, one for one.
pub proof fn lemma_materials_are_minimal(doc: DocumentView)
    ensures
        is_material_list(doc, materials_of(doc)),
        used_slot_set(doc).finite(),
        materials_of(doc).len() == used_slot_set(doc).len(),
        doc.has_full_palette() ==> {
            &&& used_index_set(doc).finite()
            &&& materials_of(doc).len() == used_index_set(doc).len()
            &&& materials_of(doc) == used_indices_of(doc).map_values(material_of_slot(doc))
        },
{
    let bound = doc.palette.len() as int;
    let slots = used_below(doc, bound);
    lemma_used_below(doc, bound);
    assert forall|index: int| 0 <= index < doc.palette.len() && doc.uses(index) implies exists|
        k: int,
    |
        0 <= k < materials_of(doc).len() && (#[trigger] materials_of(doc)[k]).index == index by {
        let k = choose|k: int| 0 <= k < slots.len() && slots[k] == index;
        assert(materials_of(doc)[k].index == index);
    }
    if doc.has_full_palette() {
        assert forall|index: int| doc.uses(index) implies 0 <= index < doc.palette.len() by {
            lemma_used_index_is_a_byte(doc, index);
        }
        assert(used_index_set(doc) =~= used_slot_set(doc));
    }
}

/// Two material lists of one document agree up to any position that both
/// reach.
proof fn lemma_material_lists_agree(
    doc: DocumentView,
    first: Seq<MaterialView>,
    second: Seq<MaterialView>,
    upto: int,
)
    requires
        is_material_list(doc, first),
        is_material_list(doc, second),
        0 <= upto <= first.len(),
        upto <= second.len(),
    ensures
        forall|k: int| 0 <= k < upto ==> first[k] == second[k],
    decreases upto,
{
    if upto > 0 {
        let last = upto - 1;
        lemma_material_lists_agree(doc, first, second, last);
        // Each list holds the slot that the other has at `last`. It cannot
        // hold it before `last`, where the two lists are the same and the
        // slots are lower; so it holds it at `last` or later, where the slots
        // are no lower. Hence neither slot at `last` is below the other.
        let j = choose|j: int|
            0 <= j < second.len() && (#[trigger] second[j]).index == first[last].index;
        let i = choose|i: int|
            0 <= i < first.len() && (#[trigger] first[i]).index == second[last].index;
        if j < last {
            assert(first[j].index < first[last].index);
        }
        if i < last {
            assert(second[i].index < second[last].index);
        }
        assert(first[last].index == second[last].index);
    }
}

/// A material list is as long as any other of the same document.
proof fn lemma_material_lists_are_as_long(
    doc: DocumentView,
    first: Seq<MaterialView>,
    second: Seq<MaterialView>,
)
    requires
        is_material_list(doc, first),
        is_material_list(doc, second),
    ensures
        first.len() <= second.len(),
{
    if first.len() > second.len() {
        let n = second.len() as int;
        lemma_material_lists_agree(doc, first, second, n);
        // `first[n]` has a place in `second`, where `first` holds the same,
        // earlier than `n`: but the slots of `first` ascend.
        let j = choose|j: int|
            0 <= j < second.len() && (#[trigger] second[j]).index == first[n].index;
        assert(first[j].index < first[n].index);
    }
}

/// The document decides its materials: there is one material list of a
/// document and no other. Whatever produces such a list, whenever and in
/// whatever order it walks the voxels, produces the materials of the
/// document.
pub proof fn lemma_material_list_is_unique(doc: DocumentView, materials: Seq<MaterialView>)
    requires
        is_material_list(doc, materials),
    ensures
        materials == materials_of(doc),
{
    lemma_materials_are_minimal(doc);
    lemma_material_lists_are_as_long(doc, materials, materials_of(doc));
    lemma_material_lists_are_as_long(doc, materials_of(doc), materials);
    lemma_material_lists_agree(doc, materials, materials_of(doc), materials.len() as int);
}

/// The materials follow from the palette and from which indices are used,
/// and from nothing else: not from how often an index is used, by which
/// model, or in what order the voxels stand.
pub proof fn lemma_materials_depend_on_used_indices(first: DocumentView, second: DocumentView)
    requires
        first.palette == second.palette,
        forall|index: int| first.uses(index) == second.uses(index),
    ensures
        used_indices_of(first) == used_indices_of(second),
        materials_of(first) == materials_of(second),
{
    assert(index_is_used(first) =~= index_is_used(second));
}

} // verus!
