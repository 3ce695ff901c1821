//! The asset index: content-addressed storage of game assets, sharded by
//! the first two digest characters, with the optional legacy resource
//! mapping that exposes assets under human-readable paths.

use vstd::prelude::*;

use crate::checksum::{decode_checksum, hex_bytes, is_hex_text};
use crate::download::{opt_bytes, Download, SymlinkTask};
use crate::errors::{GrindstoneError, GrindstoneResult};
use crate::text::path_join;
use crate::MC_ASSETS_BASE_URL;

verus! {

/// Information of a single asset.
#[derive(Debug)]
pub struct AssetInfo {
    /// Hexadecimal SHA-1 digest of the asset file, which also addresses
    /// it.
    pub hash: String,
    /// Size of the asset file.
    pub size: usize,
}

impl Clone for AssetInfo {
    /// Field-for-field copy.
    fn clone(&self) -> (r: Self)
        ensures
            r == *self,
    {
        AssetInfo { hash: self.hash.clone(), size: self.size }
    }
}

impl AssetInfo {
    /// The shard directory: the first two characters of the digest.
    pub open spec fn shard_text(&self) -> Seq<char> {
        if self.hash@.len() >= 2 {
            self.hash@.take(2)
        } else {
            self.hash@
        }
    }

    /// The content-addressed storage path below `assets_path`.
    pub open spec fn asset_path_text(&self, assets_path: Seq<char>) -> Seq<char> {
        assets_path + "/"@ + "objects"@ + "/"@ + self.shard_text() + "/"@ + self.hash@
    }

    /// The download URL under the assets base host.
    pub open spec fn download_url_text(&self) -> Seq<char> {
        MC_ASSETS_BASE_URL@ + "/"@ + self.shard_text() + "/"@ + self.hash@
    }

    /// Builds the complete path for the asset file.
    pub fn asset_path(&self, assets_path: &str) -> (r: String)
        ensures
            r@ == self.asset_path_text(assets_path@),
    {
        let n = self.hash.as_str().unicode_len();
        let k: usize = if n >= 2 {
            2
        } else {
            n
        };
        let shard = self.hash.as_str().substring_char(0, k);
        proof {
            assert(shard@ =~= self.shard_text());
        }
        let step = path_join(assets_path, "objects");
        let step = path_join(step.as_str(), shard);
        let r = path_join(step.as_str(), self.hash.as_str());
        proof {
            assert(r@ =~= self.asset_path_text(assets_path@));
        }
        r
    }

    /// Builds the path the asset is exposed at when mapped as a resource.
    pub fn resource_path(key: &str, minecraft_path: &str) -> (r: String)
        ensures
            r@ == minecraft_path@ + "/"@ + "resources"@ + "/"@ + key@,
    {
        let step = path_join(minecraft_path, "resources");
        path_join(step.as_str(), key)
    }

    /// Builds the download URL for the asset.
    pub fn download_url(&self) -> (r: String)
        ensures
            r@ == self.download_url_text(),
    {
        let n = self.hash.as_str().unicode_len();
        let k: usize = if n >= 2 {
            2
        } else {
            n
        };
        let shard = self.hash.as_str().substring_char(0, k);
        proof {
            assert(shard@ =~= self.shard_text());
        }
        let step = path_join(MC_ASSETS_BASE_URL, shard);
        let r = path_join(step.as_str(), self.hash.as_str());
        proof {
            assert(r@ =~= self.download_url_text());
        }
        r
    }
}

/// One entry of the asset map: a logical key and the asset it names.
#[derive(Debug)]
pub struct AssetObject {
    /// The logical name of the asset.
    pub key: String,
    /// The asset's digest and size.
    pub info: AssetInfo,
}

impl Clone for AssetObject {
    /// Field-for-field copy.
    fn clone(&self) -> (r: Self)
        ensures
            r == *self,
    {
        AssetObject { key: self.key.clone(), info: self.info.clone() }
    }
}

/// Map of all the assets of a game version.
#[derive(Debug)]
pub struct AssetIndex {
    /// Whether to additionally expose the assets as resources, used on
    /// old versions.
    pub map_to_resources: bool,
    /// The asset objects, keyed by logical name.
    pub objects: Vec<AssetObject>,
}

impl AssetIndex {
    /// Whether every asset digest in the index is well formed.
    pub open spec fn hashes_ok(&self) -> bool {
        forall|i: int|
            0 <= i < self.objects@.len() ==> is_hex_text(
                (#[trigger] self.objects@[i]).info.hash@,
            )
    }

    /// Builds the checksum-verified download of every object to its
    /// content-addressed path below `assets_path`.
    /// Fails with `InvalidChecksum` exactly when some digest is
    /// malformed.
    pub fn build_downloads(&self, assets_path: &str) -> (r: GrindstoneResult<Vec<Download>>)
        ensures
            r is Ok <==> self.hashes_ok(),
            r matches Ok(v) ==> {
                &&& v@.len() == self.objects@.len()
                &&& forall|i: int|
                    0 <= i < v@.len() ==> {
                        let obj = self.objects@[i];
                        &&& (#[trigger] v@[i]).url@ == obj.info.download_url_text()
                        &&& v@[i].file@ == obj.info.asset_path_text(assets_path@)
                        &&& opt_bytes(v@[i].sha1) == Some(hex_bytes(obj.info.hash@))
                    }
            },
            r matches Err(e) ==> e is InvalidChecksum,
    {
        let mut tasks: Vec<Download> = Vec::new();
        let mut i: usize = 0;
        while i < self.objects.len()
            invariant
                i <= self.objects@.len(),
                tasks@.len() == i,
                forall|k: int| 0 <= k < i ==> is_hex_text((#[trigger] self.objects@[k]).info.hash@),
                forall|k: int|
                    0 <= k < i ==> {
                        let obj = self.objects@[k];
                        &&& (#[trigger] tasks@[k]).url@ == obj.info.download_url_text()
                        &&& tasks@[k].file@ == obj.info.asset_path_text(assets_path@)
                        &&& opt_bytes(tasks@[k].sha1) == Some(hex_bytes(obj.info.hash@))
                    },
            decreases self.objects@.len() - i,
        {
            let obj = &self.objects[i];
            let sha = match decode_checksum(obj.info.hash.as_str()) {
                Ok(s) => s,
                Err(e) => {
                    return Err(e);
                },
            };
            let task = Download {
                url: obj.info.download_url(),
                file: obj.info.asset_path(assets_path),
                sha1: Some(sha),
            };
            tasks.push(task);
            i += 1;
        }
        Ok(tasks)
    }

    /// Builds the symlink of every object from its logical resource path
    /// to its content-addressed path, for the legacy resource mapping.
    pub fn resource_links(&self, assets_path: &str, minecraft_path: &str) -> (r: Vec<SymlinkTask>)
        ensures
            r@.len() == self.objects@.len(),
            forall|i: int|
                0 <= i < r@.len() ==> {
                    let obj = self.objects@[i];
                    &&& (#[trigger] r@[i]).path@ == minecraft_path@ + "/"@ + "resources"@ + "/"@
                        + obj.key@
                    &&& r@[i].target@ == obj.info.asset_path_text(assets_path@)
                },
    {
        let mut links: Vec<SymlinkTask> = Vec::new();
        let mut i: usize = 0;
        while i < self.objects.len()
            invariant
                i <= self.objects@.len(),
                links@.len() == i,
                forall|k: int|
                    0 <= k < i ==> {
                        let obj = self.objects@[k];
                        &&& (#[trigger] links@[k]).path@ == minecraft_path@ + "/"@ + "resources"@
                            + "/"@ + obj.key@
                        &&& links@[k].target@ == obj.info.asset_path_text(assets_path@)
                    },
            decreases self.objects@.len() - i,
        {
            let obj = &self.objects[i];
            let link = SymlinkTask {
                path: AssetInfo::resource_path(obj.key.as_str(), minecraft_path),
                target: obj.info.asset_path(assets_path),
            };
            links.push(link);
            i += 1;
        }
        links
    }
}

} // verus!
