//! The data model of a CurseForge pack manifest: which Minecraft version a
//! pack targets, its mod loaders, and the mod files it lists. The manifest
//! is plain data here; the binary layer reads the pack archive and decodes
//! its JSON into these types.

use vstd::prelude::*;

verus! {

/// A pack manifest: which Minecraft version and mod loaders the pack wants,
/// and which mod files it contains.
#[derive(Clone, Debug)]
pub struct Manifest {
    pub minecraft: MinecraftInfo,
    pub manifest_type: String,
    pub overrides: String,
    pub manifest_version: u32,
    pub version: String,
    pub author: String,
    pub name: String,
    pub files: Vec<FileInfo>,
}

/// The Minecraft version a pack targets, with its mod loaders.
#[derive(Clone, Debug)]
pub struct MinecraftInfo {
    pub version: String,
    pub mod_loaders: Vec<LoaderInfo>,
}

/// One mod loader entry of a manifest.
#[derive(Clone, Debug)]
pub struct LoaderInfo {
    pub id: String,
    pub primary: bool,
}

/// One file entry of a manifest: a project and a file within it.
/// This is the task payload handed to the download workers.
#[derive(Clone, Debug)]
pub struct FileInfo {
    pub project_id: i32,
    pub file_id: i32,
    pub required: bool,
}

} // verus!
