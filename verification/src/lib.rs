//! Resolution of layered version manifests into concrete download tasks,
//! rule-conditioned selection of libraries and arguments, retry and progress
//! accounting for batched downloads, and rendering of the launch argument
//! list.

pub mod asset_index;
pub mod download;
pub mod errors;
pub mod launcher;
pub mod launcher_meta;
pub mod parser;
pub mod text;
pub mod util;
pub mod version;
pub mod version_manifest;
