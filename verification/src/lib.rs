//! Turns voxel files into scenes: a cube per voxel, a material per used
//! palette color, a node per model.

use vstd::prelude::*;

pub mod document;
pub mod index_set;
pub mod label;
pub mod loader;
pub mod palette;
pub mod parse;
pub mod scene;
pub mod transform;

pub use loader::VoxLoader;

verus! {

/// Adds support for loading voxel files to an application.
#[derive(Clone, Copy, Debug, PartialEq, Eq, Structural)]
pub struct VoxPlugin {
    /// Voxel files take Z as the vertical axis. With this set, Y is the
    /// height.
    pub swap_yz: bool,
}

impl Default for VoxPlugin {
    fn default() -> (plugin: VoxPlugin)
        ensures
            !plugin.swap_yz,
    {
        VoxPlugin { swap_yz: false }
    }
}

impl VoxPlugin {
    /// A plugin that leaves the axes as the file has them.
    pub fn swap() -> (plugin: VoxPlugin)
        ensures
            !plugin.swap_yz,
    {
        VoxPlugin { swap_yz: false }
    }

    /// The loader that this plugin registers: one with the plugin's axis
    /// setting.
    pub fn loader(&self) -> (loader: VoxLoader)
        ensures
            loader.swap_yz == self.swap_yz,
    {
        VoxLoader { swap_yz: self.swap_yz }
    }
}

} // verus!
