//! The requested game version: an id plus the flavour of installation.

use vstd::prelude::*;

verus! {

/// The flavour of a requested version.
#[derive(Debug, PartialEq, Eq)]
pub enum VersionType {
    /// Plain game, no mod loader.
    Vanilla,
    /// Forge with the given loader version.
    Forge(String),
    /// MCP development environment.
    MCP,
}

impl Clone for VersionType {
    /// Copy of the same variant.
    fn clone(&self) -> (r: Self)
        ensures
            r == *self,
    {
        match self {
            VersionType::Vanilla => VersionType::Vanilla,
            VersionType::Forge(v) => VersionType::Forge(v.clone()),
            VersionType::MCP => VersionType::MCP,
        }
    }
}

/// A requested game version.
#[derive(Debug)]
pub struct MinecraftVersion {
    /// The version id; `latest` is the alias for the newest release.
    pub id: String,
    /// The flavour of installation.
    pub version_type: VersionType,
}

impl Clone for MinecraftVersion {
    /// Field-for-field copy.
    fn clone(&self) -> (r: Self)
        ensures
            r == *self,
    {
        MinecraftVersion { id: self.id.clone(), version_type: self.version_type.clone() }
    }
}

/// Builder for a [`MinecraftVersion`].
#[derive(Debug)]
pub struct MinecraftVersionBuilder {
    /// The id to build with.
    pub version_id: String,
    /// The flavour to build with.
    pub version_type: VersionType,
}

impl Default for MinecraftVersionBuilder {
    /// Starts from the `latest` alias and the vanilla flavour.
    fn default() -> (r: Self)
        ensures
            r.version_id@ == "latest"@,
            r.version_type == VersionType::Vanilla,
    {
        MinecraftVersionBuilder {
            version_id: "latest".to_owned(),
            version_type: VersionType::Vanilla,
        }
    }
}

impl MinecraftVersionBuilder {
    /// Sets the version id.
    pub fn version_id(self, id: String) -> (r: Self)
        ensures
            r.version_id == id,
            r.version_type == self.version_type,
    {
        MinecraftVersionBuilder { version_id: id, version_type: self.version_type }
    }

    /// Sets the flavour.
    pub fn version_type(self, v_type: VersionType) -> (r: Self)
        ensures
            r.version_id == self.version_id,
            r.version_type == v_type,
    {
        MinecraftVersionBuilder { version_id: self.version_id, version_type: v_type }
    }

    /// Builds the version value.
    pub fn build(self) -> (r: MinecraftVersion)
        ensures
            r.id == self.version_id,
            r.version_type == self.version_type,
    {
        MinecraftVersion { id: self.version_id, version_type: self.version_type }
    }
}

} // verus!
