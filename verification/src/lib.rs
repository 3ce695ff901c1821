pub mod arguments;
pub mod asset_index;
pub mod checksum;
pub mod client;
pub mod config;
pub mod download;
pub mod either;
pub mod errors;
pub mod event;
pub mod library;
pub mod manifest;
pub mod models;
pub mod os;
pub mod rules;
pub mod runtime;
pub mod text;
pub mod updater;
pub mod version;
pub mod version_data;

use vstd::prelude::*;

verus! {

/// URL of the Minecraft version manifest.
pub const MC_VERSION_MANIFEST_URL: &'static str =
    "https://piston-meta.mojang.com/mc/game/version_manifest_v2.json";

/// Base URL for Minecraft libraries.
pub const MC_LIBRARIES_BASE_URL: &'static str = "https://libraries.minecraft.net";

/// URL of the manifest that lists the Java runtimes.
pub const JAVA_JRE_MANIFEST_URL: &'static str =
    "https://launchermeta.mojang.com/v1/products/java-runtime/2ec0cc96c44e5a76b9c8b7c39df7210883d12871/all.json";

/// Base URL for Minecraft assets.
pub const MC_ASSETS_BASE_URL: &'static str = "https://resources.download.minecraft.net";

/// Maximum number of files downloaded at the same time.
pub const MAX_PARALLEL_DOWNLOAD: usize = 50;

} // verus!
