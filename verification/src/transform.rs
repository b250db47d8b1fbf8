//! Where a voxel goes in the world: a translation by its grid coordinate,
//! with the second and third axes exchanged on request.

use crate::document::Voxel;
use vstd::prelude::*;

verus! {

/// A translation by whole world units; no rotation, no scale.
#[derive(Clone, Copy, Debug, PartialEq, Eq, Structural)]
pub struct VoxelTransform {
    pub x: u8,
    pub y: u8,
    pub z: u8,
}

impl VoxelTransform {
    /// The transform that moves nothing.
    pub open spec fn origin() -> VoxelTransform {
        VoxelTransform { x: 0, y: 0, z: 0 }
    }

    /// The transform that moves nothing: the placement of a node that
    /// stands where its parent stands.
    pub fn identity() -> (transform: VoxelTransform)
        ensures
            transform == Self::origin(),
    {
        VoxelTransform { x: 0, y: 0, z: 0 }
    }

    /// This transform with its second and third axes exchanged.
    pub open spec fn swapped(self) -> VoxelTransform {
        VoxelTransform { x: self.x, y: self.z, z: self.y }
    }

    /// Exchanges the second and third axes.
    pub fn swap_yz(&mut self)
        ensures
            *final(self) == old(self).swapped(),
    {
        let y: u8 = self.y;
        self.y = self.z;
        self.z = y;
    }
}

impl From<Voxel> for VoxelTransform {
    /// The translation to the voxel's own grid coordinate.
    fn from(value: Voxel) -> (transform: VoxelTransform) {
        VoxelTransform { x: value.x, y: value.y, z: value.z }
    }
}

impl vstd::std_specs::convert::FromSpecImpl<Voxel> for VoxelTransform {
    open spec fn obeys_from_spec() -> bool {
        true
    }

    open spec fn from_spec(value: Voxel) -> VoxelTransform {
        VoxelTransform { x: value.x, y: value.y, z: value.z }
    }
}

/// The world position of a voxel: its grid coordinate `(x, y, z)`, or
/// `(x, z, y)` where the axes are swapped.
pub open spec fn placement(voxel: Voxel, swap_yz: bool) -> VoxelTransform {
    if swap_yz {
        VoxelTransform { x: voxel.x, y: voxel.z, z: voxel.y }
    } else {
        VoxelTransform { x: voxel.x, y: voxel.y, z: voxel.z }
    }
}

/// Places one voxel in the world.
pub fn place(voxel: Voxel, swap_yz: bool) -> (transform: VoxelTransform)
    ensures
        transform == placement(voxel, swap_yz),
{
    let mut transform = VoxelTransform::from(voxel);
    if swap_yz {
        transform.swap_yz();
    }
    transform
}

/// The axis swap is an involution. With the swap a voxel at `(x, y, z)`
/// stands at `(x, z, y)`; swapping a transform twice gives it back, and
/// swapping a swapped placement gives the placement without the swap.
pub proof fn lemma_swap_is_involution(voxel: Voxel, transform: VoxelTransform)
    ensures
        placement(voxel, true) == (VoxelTransform { x: voxel.x, y: voxel.z, z: voxel.y }),
        placement(voxel, false) == (VoxelTransform { x: voxel.x, y: voxel.y, z: voxel.z }),
        transform.swapped().swapped() == transform,
        placement(voxel, true) == placement(voxel, false).swapped(),
        placement(voxel, true).swapped() == placement(voxel, false),
{
}

/// Cubes of one model never overlap: voxels at different grid coordinates
/// are placed at different world positions, under either axis setting.
pub proof fn lemma_placement_is_injective(first: Voxel, second: Voxel, swap_yz: bool)
    requires
        placement(first, swap_yz) == placement(second, swap_yz),
    ensures
        first.x == second.x,
        first.y == second.y,
        first.z == second.z,
{
}

} // verus!
