//! The version manifest: the index of all known game versions, with the
//! alias resolution and the id lookup the orchestrator relies on.

use vstd::prelude::*;

use crate::errors::{GrindstoneError, GrindstoneResult};
use crate::models::VersionType;
use crate::text::str_eq;
use crate::version::MinecraftVersion;

verus! {

/// Summary of a version as the manifest lists it.
#[derive(Debug)]
pub struct VersionSummary {
    /// The version id.
    pub id: String,
    /// The type of version.
    pub _type: VersionType,
    /// The URL of the version descriptor JSON.
    pub url: String,
    /// Time of the listing, as seconds since the Unix epoch.
    pub time: i64,
    /// Release time, as seconds since the Unix epoch.
    pub release_time: i64,
    /// Hexadecimal SHA-1 digest of the descriptor JSON.
    pub sha1: String,
}

impl Clone for VersionSummary {
    /// Field-for-field copy.
    fn clone(&self) -> (r: Self)
        ensures
            r == *self,
    {
        VersionSummary {
            id: self.id.clone(),
            _type: self._type,
            url: self.url.clone(),
            time: self.time,
            release_time: self.release_time,
            sha1: self.sha1.clone(),
        }
    }
}

/// The ids of the latest release and snapshot.
#[derive(Debug)]
pub struct LatestVersion {
    /// Latest stable release.
    pub release: String,
    /// Latest snapshot release.
    pub snapshot: String,
}

impl Clone for LatestVersion {
    /// Field-for-field copy.
    fn clone(&self) -> (r: Self)
        ensures
            r == *self,
    {
        LatestVersion { release: self.release.clone(), snapshot: self.snapshot.clone() }
    }
}

/// The first summary with id `id`, if any.
pub open spec fn find_version(versions: Seq<VersionSummary>, id: Seq<char>) -> Option<
    VersionSummary,
>
    decreases versions.len(),
{
    if versions.len() == 0 {
        None
    } else if versions[0].id@ == id {
        Some(versions[0])
    } else {
        find_version(versions.skip(1), id)
    }
}

/// Manifest with all game versions and the latest release ids.
/// Version ids are unique within a manifest as the server publishes it;
/// lookups take the first match either way.
#[derive(Debug)]
pub struct VersionsManifest {
    /// Latest release and snapshot ids.
    pub latest: LatestVersion,
    /// All versions the manifest lists.
    pub versions: Vec<VersionSummary>,
}

impl VersionsManifest {
    /// The requested id with the `latest` alias substituted by the
    /// manifest's current release id.
    pub fn resolve_alias(&self, id: &String) -> (r: String)
        ensures
            id@ == "latest"@ ==> r@ == self.latest.release@,
            id@ != "latest"@ ==> r@ == id@,
    {
        if str_eq(id.as_str(), "latest") {
            self.latest.release.clone()
        } else {
            id.clone()
        }
    }

    /// Looks the requested version up.
    /// Fails with `InvalidVersion` exactly when the id is absent.
    pub fn get_version(&self, version: &MinecraftVersion) -> (r: GrindstoneResult<
        &VersionSummary,
    >)
        ensures
            match r {
                Ok(s) => find_version(self.versions@, version.id@) == Some(*s),
                Err(e) => {
                    &&& find_version(self.versions@, version.id@) is None
                    &&& e matches GrindstoneError::InvalidVersion(i) && i@ == version.id@
                },
            },
    {
        let mut i: usize = 0;
        proof {
            assert(self.versions@.skip(0) =~= self.versions@);
        }
        while i < self.versions.len()
            invariant
                i <= self.versions@.len(),
                find_version(self.versions@, version.id@) == find_version(
                    self.versions@.skip(i as int),
                    version.id@,
                ),
            decreases self.versions@.len() - i,
        {
            proof {
                assert(self.versions@.skip(i as int)[0] == self.versions@[i as int]);
                assert(self.versions@.skip(i as int).skip(1) =~= self.versions@.skip(i as int + 1));
            }
            if str_eq(self.versions[i].id.as_str(), version.id.as_str()) {
                return Ok(&self.versions[i]);
            }
            i += 1;
        }
        proof {
            assert(self.versions@.skip(self.versions@.len() as int).len() == 0);
        }
        Err(GrindstoneError::InvalidVersion(version.id.clone()))
    }
}

} // verus!
