//! The voxel file parser, as `dot_vox` provides it.
//!
//! Verus does not look inside `dot_vox`. What this module says of its parser
//! is taken from its source and is not proved.

use crate::document::{DocumentView, Model, Rgba, Voxel, VoxelDocument};
use vstd::prelude::*;

verus! {

/// The message with which `dot_vox` refuses a buffer.
pub const PARSE_FAILURE: &'static str = "Not a valid MagicaVoxel .vox file";

/// The document that `dot_vox::load_bytes` reads from a buffer, `None` where
/// it refuses the buffer.
pub uninterp spec fn vox_parse(bytes: Seq<u8>) -> Option<DocumentView>;

/// The buffer begins with the four bytes `VOX ` that open every voxel file.
pub open spec fn has_vox_magic(bytes: Seq<u8>) -> bool {
    bytes.len() >= 4 && bytes[0] == 0x56 && bytes[1] == 0x4f && bytes[2] == 0x58 && bytes[3]
        == 0x20
}

/// `dot_vox::load_bytes`, with the models' voxels and the palette copied out
/// of what it returns.
///
/// The parser is a function of the buffer alone, which [`vox_parse`] names.
/// Its first step matches the four opening bytes, so a buffer without them
/// is refused; it refuses every buffer with the one message
/// [`PARSE_FAILURE`].
#[verifier::external_body]
pub(crate) fn parse_document(bytes: &[u8]) -> (parsed: Result<VoxelDocument, String>)
    ensures
        match parsed {
            Ok(doc) => vox_parse(bytes@) == Some(doc@),
            Err(message) => vox_parse(bytes@).is_none() && message@ == PARSE_FAILURE@,
        },
        !has_vox_magic(bytes@) ==> parsed is Err,
{
    match dot_vox::load_bytes(bytes) {
        Ok(data) => Ok(VoxelDocument {
            models: data.models.iter().map(|m| Model {
                voxels: m.voxels.iter().map(|v| Voxel { x: v.x, y: v.y, z: v.z, i: v.i }).collect(),
            }).collect(),
            palette: data.palette.iter().map(|c| Rgba { r: c.r, g: c.g, b: c.b, a: c.a }).collect(),
        }),
        Err(message) => Err(message.to_string()),
    }
}

} // verus!
