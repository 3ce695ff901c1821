//! Plain data records of the remote version metadata. The engine's logic
//! reads them as values; the caller-side driver decodes the wire JSON into
//! them.

use vstd::prelude::*;

use crate::os::Platform;
use crate::text::opt_text;

verus! {

/// Information about a downloadable file.
#[derive(Debug)]
pub struct File {
    /// Identifier of the file, when the descriptor names one.
    pub id: Option<String>,
    /// Relative path of the file, when the descriptor names one.
    pub path: Option<String>,
    /// Hexadecimal SHA-1 digest of the file.
    pub sha1: String,
    /// Size of the file in bytes.
    pub size: usize,
    /// URL of the file.
    pub url: String,
}

impl Clone for File {
    /// Field-for-field copy.
    fn clone(&self) -> (r: Self)
        ensures
            r == *self,
    {
        File {
            id: match &self.id {
                Some(v) => Some(v.clone()),
                None => None,
            },
            path: match &self.path {
                Some(v) => Some(v.clone()),
                None => None,
            },
            sha1: self.sha1.clone(),
            size: self.size,
            url: self.url.clone(),
        }
    }
}

/// Download references for the main client and server binaries.
#[derive(Debug)]
pub struct Downloads {
    /// Client binary.
    pub client: File,
    /// Client mappings.
    pub client_mappings: Option<File>,
    /// Server binary.
    pub server: Option<File>,
    /// Server mappings.
    pub server_mappings: Option<File>,
}

impl Clone for Downloads {
    /// Field-for-field copy.
    fn clone(&self) -> (r: Self)
        ensures
            r == *self,
    {
        Downloads {
            client: self.client.clone(),
            client_mappings: match &self.client_mappings {
                Some(v) => Some(v.clone()),
                None => None,
            },
            server: match &self.server {
                Some(v) => Some(v.clone()),
                None => None,
            },
            server_mappings: match &self.server_mappings {
                Some(v) => Some(v.clone()),
                None => None,
            },
        }
    }
}

/// Exclusion list applied when a native library is extracted.
#[derive(Debug)]
pub struct Extract {
    /// Paths to leave out when extracting.
    pub exclude: Vec<String>,
}

impl Clone for Extract {
    /// Copy with the same exclusion list.
    fn clone(&self) -> (r: Self)
        ensures
            r.exclude@ == self.exclude@,
    {
        let mut exclude: Vec<String> = Vec::new();
        let mut i: usize = 0;
        while i < self.exclude.len()
            invariant
                i <= self.exclude@.len(),
                exclude@.len() == i,
                forall|k: int| 0 <= k < i ==> exclude@[k] == self.exclude@[k],
            decreases self.exclude@.len() - i,
        {
            exclude.push(self.exclude[i].clone());
            i += 1;
        }
        proof {
            assert(exclude@ =~= self.exclude@);
        }
        Extract { exclude }
    }
}

/// The Java runtime a version requires.
#[derive(Debug)]
pub struct JavaVersion {
    /// Name of the runtime component.
    pub component: String,
    /// Required major version.
    pub major_version: i32,
}

impl Clone for JavaVersion {
    /// Field-for-field copy.
    fn clone(&self) -> (r: Self)
        ensures
            r == *self,
    {
        JavaVersion { component: self.component.clone(), major_version: self.major_version }
    }
}

/// The per-OS names of a library's native variants.
#[derive(Debug)]
pub struct Natives {
    /// Linux native name.
    pub linux: Option<String>,
    /// Windows native name.
    pub windows: Option<String>,
    /// MacOs native name.
    pub osx: Option<String>,
}

impl Natives {
    /// The native name declared for platform `p`, if any; only Linux,
    /// Windows and MacOs are supported.
    pub open spec fn name_for(&self, p: Platform) -> Option<Seq<char>> {
        match p {
            Platform::Linux => opt_text(self.linux),
            Platform::Windows => opt_text(self.windows),
            Platform::MacOs => opt_text(self.osx),
            Platform::Other => None,
        }
    }

    /// The native name for the probed platform, or `None` when the
    /// platform is unsupported or has no native variant.
    pub fn get_for_current_platform(&self, current: &Platform) -> (r: Option<String>)
        ensures
            opt_text(r) == self.name_for(*current),
    {
        let chosen = match current {
            Platform::Linux => &self.linux,
            Platform::Windows => &self.windows,
            Platform::MacOs => &self.osx,
            Platform::Other => &None,
        };
        match chosen {
            Some(n) => Some(n.clone()),
            None => None,
        }
    }
}

impl Clone for Natives {
    /// Field-for-field copy.
    fn clone(&self) -> (r: Self)
        ensures
            r == *self,
    {
        Natives {
            linux: match &self.linux {
                Some(v) => Some(v.clone()),
                None => None,
            },
            windows: match &self.windows {
                Some(v) => Some(v.clone()),
                None => None,
            },
            osx: match &self.osx {
                Some(v) => Some(v.clone()),
                None => None,
            },
        }
    }
}

/// Reference to the asset index a version uses.
#[derive(Debug)]
pub struct AssetIndexInfo {
    /// Identifier of the index.
    pub id: String,
    /// Hexadecimal SHA-1 digest of the index JSON.
    pub sha1: String,
    /// Size of the index JSON in bytes.
    pub size: usize,
    /// Combined size of the indexed assets.
    pub total_size: i64,
    /// URL of the index JSON.
    pub url: String,
}

impl Clone for AssetIndexInfo {
    /// Field-for-field copy.
    fn clone(&self) -> (r: Self)
        ensures
            r == *self,
    {
        AssetIndexInfo {
            id: self.id.clone(),
            sha1: self.sha1.clone(),
            size: self.size,
            total_size: self.total_size,
            url: self.url.clone(),
        }
    }
}

/// The logging configuration a version references.
#[derive(Debug)]
pub struct LoggingInfo {
    /// Client-side logging reference.
    pub client: Client,
}

/// Client logging information.
#[derive(Debug)]
pub struct Client {
    /// The argument passed for logging.
    pub argument: String,
    /// The logging configuration file.
    pub file: File,
    /// Type of the logging file.
    pub _type: String,
}

impl Clone for Client {
    /// Field-for-field copy.
    fn clone(&self) -> (r: Self)
        ensures
            r == *self,
    {
        Client {
            argument: self.argument.clone(),
            file: self.file.clone(),
            _type: self._type.clone(),
        }
    }
}

impl Clone for LoggingInfo {
    /// Field-for-field copy.
    fn clone(&self) -> (r: Self)
        ensures
            r == *self,
    {
        LoggingInfo { client: self.client.clone() }
    }
}

/// The type of a game version.
#[derive(Clone, Copy, Debug, PartialEq, Eq, Structural)]
pub enum VersionType {
    /// Stable release.
    Release,
    /// Snapshot or pre-release.
    Snapshot,
    /// Old alpha.
    OldAlpha,
    /// Old beta.
    OldBeta,
}

impl VersionType {
    /// A short description of the version type.
    pub fn describe(&self) -> (r: String)
        ensures
            match self {
                VersionType::Release => r@ == "Release"@,
                VersionType::Snapshot => r@ == "Snapshot"@,
                VersionType::OldAlpha => r@ == "Alpha"@,
                VersionType::OldBeta => r@ == "Beta"@,
            },
    {
        match self {
            VersionType::Release => "Release".to_owned(),
            VersionType::Snapshot => "Snapshot".to_owned(),
            VersionType::OldAlpha => "Alpha".to_owned(),
            VersionType::OldBeta => "Beta".to_owned(),
        }
    }
}

} // verus!
