//! The voxel document: models made of palette-indexed voxels, and the palette
//! they index into.

use vstd::prelude::*;

verus! {

/// Number of entries of a complete palette.
pub const PALETTE_SIZE: usize = 256;

/// One filled grid cell: a coordinate and the palette index of its color.
#[derive(Clone, Copy, Debug, PartialEq, Eq, Structural)]
pub struct Voxel {
    pub x: u8,
    pub y: u8,
    pub z: u8,
    /// Index into the document's palette. The file format keeps index 0 for
    /// the empty cell; nothing here relies on that, and a voxel that carries
    /// 0 is converted like any other.
    pub i: u8,
}

/// One palette entry, eight bits per channel.
#[derive(Clone, Copy, Debug, PartialEq, Eq, Structural)]
pub struct Rgba {
    pub r: u8,
    pub g: u8,
    pub b: u8,
    pub a: u8,
}

impl Rgba {
    /// The 32-bit word that holds the four channels, red in the lowest byte
    /// and alpha in the highest.
    pub open spec fn packed(self) -> int {
        self.r as int + 0x100 * (self.g as int) + 0x1_0000 * (self.b as int) + 0x100_0000 * (
        self.a as int)
    }

    /// Splits a packed word into its channels: red at bit 0, green at bit 8,
    /// blue at bit 16, alpha at bit 24.
    pub fn from_packed(word: u32) -> (color: Rgba)
        ensures
            color.packed() == word,
    {
        let r: u8 = (word & 0xff) as u8;
        let g: u8 = ((word >> 8) & 0xff) as u8;
        let b: u8 = ((word >> 16) & 0xff) as u8;
        let a: u8 = ((word >> 24) & 0xff) as u8;
        assert(word == (word & 0xff) + 0x100 * ((word >> 8) & 0xff) + 0x1_0000 * ((word >> 16)
            & 0xff) + 0x100_0000 * ((word >> 24) & 0xff)) by (bit_vector);
        assert((word & 0xff) < 0x100 && ((word >> 8) & 0xff) < 0x100 && ((word >> 16) & 0xff)
            < 0x100 && ((word >> 24) & 0xff) < 0x100) by (bit_vector);
        Rgba { r, g, b, a }
    }
}

/// One rigid object: its voxels, in the order the document lists them.
#[derive(Clone, Debug, PartialEq, Eq)]
pub struct Model {
    pub voxels: Vec<Voxel>,
}

impl View for Model {
    type V = Seq<Voxel>;

    open spec fn view(&self) -> Seq<Voxel> {
        self.voxels@
    }
}

/// A parsed voxel file: the models in file order and the color palette.
///
/// The palette of a file has [`PALETTE_SIZE`] entries. A document with a
/// shorter one is converted all the same: a voxel whose index the palette
/// lacks gets its instance and no material.
#[derive(Clone, Debug, PartialEq, Eq)]
pub struct VoxelDocument {
    pub models: Vec<Model>,
    pub palette: Vec<Rgba>,
}

/// What a [`VoxelDocument`] holds, as mathematical sequences.
pub struct DocumentView {
    pub models: Seq<Seq<Voxel>>,
    pub palette: Seq<Rgba>,
}

impl View for VoxelDocument {
    type V = DocumentView;

    open spec fn view(&self) -> DocumentView {
        DocumentView {
            models: Seq::new(self.models@.len(), |m: int| self.models@[m]@),
            palette: self.palette@,
        }
    }
}

impl DocumentView {
    /// Some voxel of some model carries palette index `index`.
    pub open spec fn uses(self, index: int) -> bool {
        exists|m: int, v: int|
            0 <= m < self.models.len() && 0 <= v < self.models[m].len()
                && (#[trigger] self.models[m][v]).i == index
    }

    /// The palette has an entry for every index a voxel can carry.
    pub open spec fn has_full_palette(self) -> bool {
        self.palette.len() == PALETTE_SIZE
    }

    /// Number of voxels over all models.
    pub open spec fn voxel_count(self) -> nat {
        self.models.flatten().len()
    }
}

} // verus!
