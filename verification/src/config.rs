//! The configuration threaded through the engine, and the deterministic
//! cache layout derived from it. All paths are plain strings joined
//! with `/`.

use vstd::prelude::*;

use crate::errors::{GrindstoneError, GrindstoneResult};
use crate::os::{Architecture, Platform};
use crate::text::path_join;
use crate::version::{MinecraftVersion, MinecraftVersionBuilder};

verus! {

/// Relies on dirs::home_dir: the running user's home directory, when the
/// environment reports one. The result depends on the environment, so
/// nothing further is promised of it.
#[verifier::external_body]
fn probe_home_dir() -> Option<String> {
    dirs::home_dir().map(|p| p.to_string_lossy().into_owned())
}

/// Relies on dirs::data_dir: the running user's data directory, when the
/// environment reports one. The result depends on the environment, so
/// nothing further is promised of it.
#[verifier::external_body]
fn probe_data_dir() -> Option<String> {
    dirs::data_dir().map(|p| p.to_string_lossy().into_owned())
}

/// The engine's configuration: where instance files go, which version is
/// requested, and the probed platform context.
#[derive(Debug)]
pub struct Config {
    /// Path of the output folder for updater-private files.
    pub folder_path: String,
    /// Name of the instance.
    pub instance_name: String,
    /// The requested version.
    pub version: MinecraftVersion,
    /// The probed platform.
    pub platform: Platform,
    /// The probed CPU word width.
    pub arch: Architecture,
    /// The platform's per-user directory that `.minecraft` lives under.
    pub data_dir: String,
}

impl Clone for Config {
    /// Field-for-field copy.
    fn clone(&self) -> (r: Self)
        ensures
            r == *self,
    {
        Config {
            folder_path: self.folder_path.clone(),
            instance_name: self.instance_name.clone(),
            version: self.version.clone(),
            platform: self.platform,
            arch: self.arch,
            data_dir: self.data_dir.clone(),
        }
    }
}

/// Builder for a [`Config`].
#[derive(Debug)]
pub struct ConfigBuilder {
    /// Path of the output folder, required.
    pub folder_path: Option<String>,
    /// Name of the instance, required.
    pub instance_name: Option<String>,
    /// The requested version.
    pub version: MinecraftVersion,
    /// The probed platform; decides where `.minecraft` lives.
    pub platform: Platform,
    /// The probed CPU word width.
    pub arch: Architecture,
}

impl Default for ConfigBuilder {
    /// Starts with no folder, no name, the `latest` vanilla version and
    /// an unprobed platform.
    fn default() -> (r: Self)
        ensures
            r.folder_path is None,
            r.instance_name is None,
            r.version.id@ == "latest"@,
            r.platform == Platform::Other,
            r.arch == Architecture::AMD64,
    {
        ConfigBuilder {
            folder_path: None,
            instance_name: None,
            version: MinecraftVersionBuilder::default().build(),
            platform: Platform::Other,
            arch: Architecture::AMD64,
        }
    }
}

impl ConfigBuilder {
    /// Sets the instance name.
    pub fn name(self, instance_name: String) -> (r: Self)
        ensures
            r.instance_name == Some(instance_name),
            r.folder_path == self.folder_path,
            r.version == self.version,
            r.platform == self.platform,
            r.arch == self.arch,
    {
        ConfigBuilder {
            folder_path: self.folder_path,
            instance_name: Some(instance_name),
            version: self.version,
            platform: self.platform,
            arch: self.arch,
        }
    }

    /// Sets the output folder path.
    pub fn minecraft_folder_path(self, folder: String) -> (r: Self)
        ensures
            r.folder_path == Some(folder),
            r.instance_name == self.instance_name,
            r.version == self.version,
            r.platform == self.platform,
            r.arch == self.arch,
    {
        ConfigBuilder {
            folder_path: Some(folder),
            instance_name: self.instance_name,
            version: self.version,
            platform: self.platform,
            arch: self.arch,
        }
    }

    /// Sets the probed platform.
    pub fn platform(self, platform: Platform) -> (r: Self)
        ensures
            r.platform == platform,
            r.folder_path == self.folder_path,
            r.instance_name == self.instance_name,
            r.version == self.version,
            r.arch == self.arch,
    {
        ConfigBuilder {
            folder_path: self.folder_path,
            instance_name: self.instance_name,
            version: self.version,
            platform,
            arch: self.arch,
        }
    }

    /// Sets the probed CPU word width.
    pub fn architecture(self, arch: Architecture) -> (r: Self)
        ensures
            r.arch == arch,
            r.folder_path == self.folder_path,
            r.instance_name == self.instance_name,
            r.version == self.version,
            r.platform == self.platform,
    {
        ConfigBuilder {
            folder_path: self.folder_path,
            instance_name: self.instance_name,
            version: self.version,
            platform: self.platform,
            arch,
        }
    }

    /// Builds the configuration. Fails with `InvalidConfig` when the
    /// instance name, the folder path or the platform's user directory is
    /// missing; the user directory is the data directory on Windows and
    /// the home directory elsewhere.
    pub fn build(self) -> (r: GrindstoneResult<Config>)
        ensures
            match r {
                Ok(c) => {
                    &&& self.instance_name == Some(c.instance_name)
                    &&& self.folder_path == Some(c.folder_path)
                    &&& c.version == self.version
                    &&& c.platform == self.platform
                    &&& c.arch == self.arch
                },
                Err(e) => e is InvalidConfig,
            },
            self.instance_name is None ==> (r matches Err(GrindstoneError::InvalidConfig(f))
                && f@ == "instance_name"@),
            self.instance_name is Some && self.folder_path is None ==> (r matches Err(
                GrindstoneError::InvalidConfig(f),
            ) && f@ == "folder_path"@),
    {
        let instance_name = match self.instance_name {
            Some(n) => n,
            None => {
                return Err(GrindstoneError::InvalidConfig("instance_name".to_owned()));
            },
        };
        let folder_path = match self.folder_path {
            Some(p) => p,
            None => {
                return Err(GrindstoneError::InvalidConfig("folder_path".to_owned()));
            },
        };
        let probed = if matches!(self.platform, Platform::Windows) {
            probe_data_dir()
        } else {
            probe_home_dir()
        };
        let data_dir = match probed {
            Some(d) => d,
            None => {
                return Err(GrindstoneError::InvalidConfig("data_dir".to_owned()));
            },
        };
        Ok(
            Config {
                folder_path,
                instance_name,
                version: self.version,
                platform: self.platform,
                arch: self.arch,
                data_dir,
            },
        )
    }
}

impl Config {
    /// The `.minecraft` folder under the platform's user directory.
    pub open spec fn dot_minecraft_text(&self) -> Seq<char> {
        self.data_dir@ + "/"@ + ".minecraft"@
    }

    /// The versions folder.
    pub open spec fn versions_text(&self) -> Seq<char> {
        self.dot_minecraft_text() + "/"@ + "versions"@
    }

    /// The cached descriptor JSON of the requested version.
    pub open spec fn version_data_text(&self) -> Seq<char> {
        self.versions_text() + "/"@ + self.version.id@ + "/"@ + self.version.id@ + ".json"@
    }

    /// The cached client binary of the requested version.
    pub open spec fn version_jar_text(&self) -> Seq<char> {
        self.versions_text() + "/"@ + self.version.id@ + "/"@ + self.version.id@ + ".jar"@
    }

    /// The assets folder.
    pub open spec fn assets_text(&self) -> Seq<char> {
        self.dot_minecraft_text() + "/"@ + "assets"@
    }

    /// The libraries folder.
    pub open spec fn libraries_text(&self) -> Seq<char> {
        self.dot_minecraft_text() + "/"@ + "libraries"@
    }

    /// Path to the updater folder: files that cannot be placed inside the
    /// `.minecraft` folder.
    pub fn updater_folder(&self) -> (r: String)
        ensures
            r@ == self.folder_path@,
    {
        self.folder_path.clone()
    }

    /// Path to the instance folder.
    pub fn current_instance(&self) -> (r: String)
        ensures
            r@ == self.folder_path@ + "/"@ + "instances"@ + "/"@ + self.instance_name@,
    {
        let step = path_join(self.folder_path.as_str(), "instances");
        path_join(step.as_str(), self.instance_name.as_str())
    }

    /// Path to the `.minecraft` folder.
    pub fn dot_minecraft_path(&self) -> (r: String)
        ensures
            r@ == self.dot_minecraft_text(),
    {
        path_join(self.data_dir.as_str(), ".minecraft")
    }

    /// Path to the game versions, shared with the official launcher.
    pub fn versions_path(&self) -> (r: String)
        ensures
            r@ == self.versions_text(),
    {
        let dot = self.dot_minecraft_path();
        path_join(dot.as_str(), "versions")
    }

    /// Path to the version JAR file.
    pub fn version_jar_path(&self) -> (r: String)
        ensures
            r@ == self.version_jar_text(),
    {
        let step = self.versions_path();
        let step = path_join(step.as_str(), self.version.id.as_str());
        let mut r = path_join(step.as_str(), self.version.id.as_str());
        r.append(".jar");
        proof {
            assert(r@ =~= self.version_jar_text());
        }
        r
    }

    /// Path to the cached version descriptor JSON.
    pub fn version_data_path(&self) -> (r: String)
        ensures
            r@ == self.version_data_text(),
    {
        let step = self.versions_path();
        let step = path_join(step.as_str(), self.version.id.as_str());
        let mut r = path_join(step.as_str(), self.version.id.as_str());
        r.append(".json");
        proof {
            assert(r@ =~= self.version_data_text());
        }
        r
    }

    /// Path to the game assets.
    pub fn assets_path(&self) -> (r: String)
        ensures
            r@ == self.assets_text(),
    {
        let dot = self.dot_minecraft_path();
        path_join(dot.as_str(), "assets")
    }

    /// Path to the asset index JSON files.
    pub fn asset_index_path(&self) -> (r: String)
        ensures
            r@ == self.assets_text() + "/"@ + "indexes"@,
    {
        let step = self.assets_path();
        path_join(step.as_str(), "indexes")
    }

    /// Path to the game libraries, shared with the official launcher.
    pub fn libraries_path(&self) -> (r: String)
        ensures
            r@ == self.libraries_text(),
    {
        let dot = self.dot_minecraft_path();
        path_join(dot.as_str(), "libraries")
    }

    /// Path to the native libraries; the same folder the plain libraries
    /// live under.
    pub fn natives_path(&self) -> (r: String)
        ensures
            r@ == self.libraries_text(),
    {
        let dot = self.dot_minecraft_path();
        path_join(dot.as_str(), "libraries")
    }

    /// Path to the logging configuration files.
    pub fn log_configs_path(&self) -> (r: String)
        ensures
            r@ == self.assets_text() + "/"@ + "log_configs"@,
    {
        let step = self.assets_path();
        path_join(step.as_str(), "log_configs")
    }
}

} // verus!
