//! The install orchestrator: a strictly sequential phase machine that
//! turns the resolved version metadata into the download, directory and
//! symlink work of each phase. The caller-side driver performs that work
//! and feeds the results back; a failed phase aborts the pipeline, and
//! everything already verified on disk is reused on the next run.

use vstd::prelude::*;

use crate::checksum::{decode_checksum, hex_bytes, is_hex_text};
use crate::client::Client;
use crate::config::Config;
use crate::download::{opt_bytes, Download, SymlinkTask};
use crate::errors::{GrindstoneError, GrindstoneResult};
use crate::event::{CallbackEvent, EventType};
use crate::library::{classifier_find, Library};
use crate::manifest::{find_version, VersionsManifest};
use crate::os::{Architecture, Platform};
use crate::version_data::{needed_of, VersionData};

verus! {

/// The phase the pipeline stands in. Phases advance strictly in order
/// and stop at the first failure.
#[derive(Clone, Copy, Debug, PartialEq, Eq, Structural)]
pub enum UpdatePhase {
    /// Nothing started yet.
    Idle,
    /// The version manifest is being fetched.
    FetchingManifest,
    /// The version descriptor is being fetched into the cache.
    FetchingDescriptor,
    /// The runtime is being located and installed.
    InstallingRuntime,
    /// The libraries are being installed.
    InstallingLibraries,
    /// The asset index is being fetched into the cache.
    FetchingAssetIndex,
    /// The assets are being installed.
    InstallingAssets,
    /// The logging patch is being installed.
    InstallingLogPatch,
    /// The pipeline finished.
    Done,
    /// The pipeline aborted on an error.
    Failed,
}

/// The URL a library resolves to: its mapped classifier or artifact
/// download, or the synthesized fallback.
pub open spec fn lib_url_text(lib: Library, p: Platform, a: Architecture) -> Seq<char> {
    match lib.native_text(p, a) {
        Some(n) => match classifier_find(lib.downloads.classifiers@, n) {
            Some(f) => f.url@,
            None => lib.fallback_url_text(p, a),
        },
        None => match lib.downloads.artifact {
            Some(f) => f.url@,
            None => lib.fallback_url_text(p, a),
        },
    }
}

/// The digest string a library's download carries, if any.
pub open spec fn lib_sha_text(lib: Library, p: Platform, a: Architecture) -> Option<Seq<char>> {
    match lib.native_text(p, a) {
        Some(n) => match classifier_find(lib.downloads.classifiers@, n) {
            Some(f) => Some(f.sha1@),
            None => None,
        },
        None => match lib.downloads.artifact {
            Some(f) => Some(f.sha1@),
            None => None,
        },
    }
}

/// Whether a library can be planned: its coordinate is well formed and
/// its digest, when it carries one, is well-formed hexadecimal.
pub open spec fn lib_ok(lib: Library, p: Platform, a: Architecture) -> bool {
    &&& lib.coord_ok()
    &&& match lib_sha_text(lib, p, a) {
        Some(h) => is_hex_text(h),
        None => true,
    }
}

/// Whether `task` is the download that installs `lib` below `base`.
pub open spec fn lib_task_matches(
    task: Download,
    lib: Library,
    base: Seq<char>,
    p: Platform,
    a: Architecture,
) -> bool {
    &&& task.url@ == lib_url_text(lib, p, a)
    &&& task.file@ == lib.jar_path_text(base, p, a)
    &&& opt_bytes(task.sha1) == match lib_sha_text(lib, p, a) {
        Some(h) => Some(hex_bytes(h)),
        None => None,
    }
}

/// The updater: the configuration, the runtime location once chosen, and
/// the pipeline phase.
#[derive(Debug)]
pub struct GrindstoneUpdater {
    /// The configuration the pipeline runs under.
    pub config: Config,
    /// Where the Java runtime lives, once the runtime phase chose it.
    pub java_runtime_path: String,
    /// Where the pipeline stands.
    pub phase: UpdatePhase,
}

impl GrindstoneUpdater {
    /// An updater over `config`, with no phase started.
    pub fn new(config: Config) -> (r: Self)
        ensures
            r.config == config,
            r.java_runtime_path@ == Seq::<char>::empty(),
            r.phase == UpdatePhase::Idle,
    {
        GrindstoneUpdater { config, java_runtime_path: String::new(), phase: UpdatePhase::Idle }
    }

    /// Starts the pipeline: the events to deliver and the folders to
    /// create before the manifest is fetched.
    pub fn begin_update(&mut self) -> (r: (Vec<CallbackEvent>, Vec<String>))
        requires
            old(self).phase == UpdatePhase::Idle,
        ensures
            final(self).phase == UpdatePhase::FetchingManifest,
            final(self).config == old(self).config,
            final(self).java_runtime_path == old(self).java_runtime_path,
            r.1@.len() == 2,
            r.1@[0]@ == old(self).config.dot_minecraft_text(),
            r.1@[1]@ == old(self).config.folder_path@,
            r.0@.len() == 3,
            r.0@[0].event_type is Starting && r.0@[0].message@ == "Starting Updater !"@,
            r.0@[1].event_type is CreatingFolders && r.0@[1].message@
                == "Creating required folders"@,
            r.0@[2].event_type is DownloadManifest && r.0@[2].message@
                == "Downloading version manifest"@,
    {
        let mut events: Vec<CallbackEvent> = Vec::new();
        events.push(
            CallbackEvent {
                event_type: EventType::Starting,
                message: "Starting Updater !".to_owned(),
            },
        );
        events.push(
            CallbackEvent {
                event_type: EventType::CreatingFolders,
                message: "Creating required folders".to_owned(),
            },
        );
        events.push(
            CallbackEvent {
                event_type: EventType::DownloadManifest,
                message: "Downloading version manifest".to_owned(),
            },
        );
        let mut folders: Vec<String> = Vec::new();
        folders.push(self.config.dot_minecraft_path());
        folders.push(self.config.updater_folder());
        self.phase = UpdatePhase::FetchingManifest;
        (events, folders)
    }

    /// Resolves the requested version against the manifest: substitutes
    /// the `latest` alias by the manifest's release id, looks the id up,
    /// and plans the checksum-verified download of the descriptor to the
    /// version cache. Fails with `InvalidVersion` exactly when the
    /// resolved id is absent, and with `InvalidChecksum` on a malformed
    /// descriptor digest.
    pub fn resolve_version(&mut self, manifest: &VersionsManifest) -> (r: GrindstoneResult<
        Download,
    >)
        requires
            old(self).phase == UpdatePhase::FetchingManifest,
        ensures
            final(self).java_runtime_path == old(self).java_runtime_path,
            final(self).config.folder_path == old(self).config.folder_path,
            final(self).config.instance_name == old(self).config.instance_name,
            final(self).config.platform == old(self).config.platform,
            final(self).config.arch == old(self).config.arch,
            final(self).config.data_dir == old(self).config.data_dir,
            final(self).config.version.version_type == old(self).config.version.version_type,
            ({
                let resolved = if old(self).config.version.id@ == "latest"@ {
                    manifest.latest.release@
                } else {
                    old(self).config.version.id@
                };
                &&& final(self).config.version.id@ == resolved
                &&& match r {
                    Ok(task) => {
                        &&& final(self).phase == UpdatePhase::FetchingDescriptor
                        &&& match find_version(manifest.versions@, resolved) {
                            Some(summary) => {
                                &&& is_hex_text(summary.sha1@)
                                &&& task.url@ == summary.url@
                                &&& task.file@ == final(self).config.version_data_text()
                                &&& opt_bytes(task.sha1) == Some(hex_bytes(summary.sha1@))
                            },
                            None => false,
                        }
                    },
                    Err(e) => {
                        &&& final(self).phase == UpdatePhase::Failed
                        &&& match e {
                            GrindstoneError::InvalidVersion(i) => {
                                &&& i@ == resolved
                                &&& find_version(manifest.versions@, resolved) is None
                            },
                            GrindstoneError::InvalidChecksum(_) => match find_version(
                                manifest.versions@,
                                resolved,
                            ) {
                                Some(summary) => !is_hex_text(summary.sha1@),
                                None => false,
                            },
                            _ => false,
                        }
                    },
                }
            }),
    {
        let resolved = manifest.resolve_alias(&self.config.version.id);
        self.config.version.id = resolved;
        let summary = match manifest.get_version(&self.config.version) {
            Ok(s) => s,
            Err(e) => {
                self.phase = UpdatePhase::Failed;
                return Err(e);
            },
        };
        let sha = match decode_checksum(summary.sha1.as_str()) {
            Ok(s) => s,
            Err(e) => {
                self.phase = UpdatePhase::Failed;
                return Err(e);
            },
        };
        let task = Download {
            url: summary.url.clone(),
            file: self.config.version_data_path(),
            sha1: Some(sha),
        };
        self.phase = UpdatePhase::FetchingDescriptor;
        Ok(task)
    }

    /// Chooses where the required runtime lives: the preinstalled folder
    /// the caller's search found, or the component's folder under the
    /// runtimes directory. Returns the location and whether an install
    /// is needed — only when no preinstalled runtime was found.
    pub fn choose_runtime_target(&mut self, data: &VersionData, preinstalled: Option<String>) -> (r:
        (String, bool))
        requires
            old(self).phase == UpdatePhase::FetchingDescriptor,
        ensures
            final(self).phase == UpdatePhase::InstallingRuntime,
            final(self).config == old(self).config,
            final(self).java_runtime_path == r.0,
            match preinstalled {
                Some(found) => r.0 == found && r.1 == false,
                None => r.0@ == old(self).config.dot_minecraft_text() + "/"@ + "runtime"@ + "/"@
                    + data.java_version.component@ && r.1 == true,
            },
    {
        let target = match preinstalled {
            Some(found) => {
                self.phase = UpdatePhase::InstallingRuntime;
                self.java_runtime_path = found.clone();
                return (found, false);
            },
            None => {
                let dot = self.config.dot_minecraft_path();
                let base = crate::text::path_join(dot.as_str(), "runtime");
                crate::text::path_join(base.as_str(), data.java_version.component.as_str())
            },
        };
        self.phase = UpdatePhase::InstallingRuntime;
        self.java_runtime_path = target.clone();
        (target, true)
    }

    /// Plans the checksum-verified download of every library whose rules
    /// allow it on the configured platform, in order. Fails with
    /// `LibraryNameFormat` on a malformed coordinate and with
    /// `InvalidChecksum` on a malformed digest among the needed
    /// libraries.
    pub fn plan_libraries(&mut self, data: &VersionData) -> (r: GrindstoneResult<Vec<Download>>)
        requires
            old(self).phase == UpdatePhase::InstallingRuntime,
        ensures
            final(self).config == old(self).config,
            final(self).java_runtime_path == old(self).java_runtime_path,
            ({
                let p = old(self).config.platform;
                let a = old(self).config.arch;
                let base = old(self).config.libraries_text();
                let needed = needed_of(data.libraries@, p);
                match r {
                    Ok(v) => {
                        &&& final(self).phase == UpdatePhase::InstallingLibraries
                        &&& v@.len() == needed.len()
                        &&& forall|k: int|
                            0 <= k < needed.len() ==> lib_ok(#[trigger] needed[k], p, a)
                        &&& forall|k: int|
                            0 <= k < needed.len() ==> lib_task_matches(
                                #[trigger] v@[k],
                                needed[k],
                                base,
                                p,
                                a,
                            )
                    },
                    Err(e) => {
                        &&& final(self).phase == UpdatePhase::Failed
                        &&& (e is LibraryNameFormat || e is InvalidChecksum)
                        &&& !(forall|k: int|
                            0 <= k < needed.len() ==> lib_ok(#[trigger] needed[k], p, a))
                    },
                }
            }),
    {
        let platform = self.config.platform;
        let arch = self.config.arch;
        let base = self.config.libraries_path();
        let ghost needed = needed_of(data.libraries@, platform);
        let mut tasks: Vec<Download> = Vec::new();
        let mut i: usize = 0;
        proof {
            assert(data.libraries@.skip(0) =~= data.libraries@);
            assert(needed.skip(0) =~= needed);
        }
        while i < data.libraries.len()
            invariant
                i <= data.libraries@.len(),
                self.config == old(self).config,
                self.java_runtime_path == old(self).java_runtime_path,
                platform == self.config.platform,
                arch == self.config.arch,
                base@ == self.config.libraries_text(),
                needed == needed_of(data.libraries@, platform),
                tasks@.len() <= needed.len(),
                needed.skip(tasks@.len() as int) == needed_of(
                    data.libraries@.skip(i as int),
                    platform,
                ),
                forall|k: int| 0 <= k < tasks@.len() ==> lib_ok(#[trigger] needed[k], platform, arch),
                forall|k: int|
                    0 <= k < tasks@.len() ==> lib_task_matches(
                        #[trigger] tasks@[k],
                        needed[k],
                        base@,
                        platform,
                        arch,
                    ),
            decreases data.libraries@.len() - i,
        {
            proof {
                assert(data.libraries@.skip(i as int)[0] == data.libraries@[i as int]);
                assert(data.libraries@.skip(i as int).skip(1) =~= data.libraries@.skip(
                    i as int + 1,
                ));
            }
            let lib = &data.libraries[i];
            if lib.check_use(&platform) {
                let ghost j = tasks@.len() as int;
                proof {
                    assert(needed_of(data.libraries@.skip(i as int), platform) == seq![
                        data.libraries@[i as int],
                    ] + needed_of(data.libraries@.skip(i as int + 1), platform));
                    assert(needed.skip(j).len() >= 1);
                    assert(j < needed.len());
                    assert(needed.skip(j)[0] == data.libraries@[i as int]);
                    assert(needed[j] == data.libraries@[i as int]);
                    assert(needed.skip(j).skip(1) =~= needed.skip(j + 1));
                }
                let file = match lib.jar_path(base.as_str(), &platform, &arch) {
                    Ok(f) => f,
                    Err(e) => {
                        self.phase = UpdatePhase::Failed;
                        return Err(e);
                    },
                };
                let (url, sha_hex, _size) = match lib.download_url(&platform, &arch) {
                    Ok(t) => t,
                    Err(e) => {
                        self.phase = UpdatePhase::Failed;
                        return Err(e);
                    },
                };
                let sha = match sha_hex {
                    Some(h) => match decode_checksum(h.as_str()) {
                        Ok(s) => Some(s),
                        Err(e) => {
                            self.phase = UpdatePhase::Failed;
                            return Err(e);
                        },
                    },
                    None => None,
                };
                tasks.push(Download { url, file, sha1: sha });
            } else {
                proof {
                    assert(needed_of(data.libraries@.skip(i as int), platform) == needed_of(
                        data.libraries@.skip(i as int + 1),
                        platform,
                    ));
                }
            }
            i += 1;
        }
        proof {
            assert(data.libraries@.skip(data.libraries@.len() as int).len() == 0);
            assert(needed.skip(tasks@.len() as int).len() == 0);
            assert(tasks@.len() == needed.len());
        }
        self.phase = UpdatePhase::InstallingLibraries;
        Ok(tasks)
    }

    /// Plans the checksum-verified download of the asset index JSON into
    /// the index cache. Fails with `InvalidChecksum` exactly on a
    /// malformed index digest.
    pub fn plan_asset_index(&mut self, data: &VersionData) -> (r: GrindstoneResult<Download>)
        requires
            old(self).phase == UpdatePhase::InstallingLibraries,
        ensures
            final(self).config == old(self).config,
            final(self).java_runtime_path == old(self).java_runtime_path,
            match r {
                Ok(task) => {
                    &&& final(self).phase == UpdatePhase::FetchingAssetIndex
                    &&& is_hex_text(data.asset_index.sha1@)
                    &&& task.url@ == data.asset_index.url@
                    &&& task.file@ == old(self).config.assets_text() + "/"@ + "indexes"@ + "/"@
                        + data.assets@ + ".json"@
                    &&& opt_bytes(task.sha1) == Some(hex_bytes(data.asset_index.sha1@))
                },
                Err(e) => {
                    &&& final(self).phase == UpdatePhase::Failed
                    &&& e is InvalidChecksum
                    &&& !is_hex_text(data.asset_index.sha1@)
                },
            },
    {
        let sha = match decode_checksum(data.asset_index.sha1.as_str()) {
            Ok(s) => s,
            Err(e) => {
                self.phase = UpdatePhase::Failed;
                return Err(e);
            },
        };
        let indexes = self.config.asset_index_path();
        let mut file = crate::text::path_join(indexes.as_str(), data.assets.as_str());
        file.append(".json");
        let task = Download { url: data.asset_index.url.clone(), file, sha1: Some(sha) };
        self.phase = UpdatePhase::FetchingAssetIndex;
        Ok(task)
    }

    /// Plans the download of every asset object to its content-addressed
    /// path, and — when the index requests the legacy resource mapping —
    /// the symlink tree from logical keys to those paths. Fails with
    /// `InvalidChecksum` exactly when some object digest is malformed.
    pub fn plan_assets(&mut self, index: &crate::asset_index::AssetIndex) -> (r: GrindstoneResult<
        (Vec<Download>, Vec<SymlinkTask>),
    >)
        requires
            old(self).phase == UpdatePhase::FetchingAssetIndex,
        ensures
            final(self).config == old(self).config,
            final(self).java_runtime_path == old(self).java_runtime_path,
            r is Ok <==> index.hashes_ok(),
            r matches Ok(t) ==> {
                let assets = old(self).config.assets_text();
                let dot = old(self).config.dot_minecraft_text();
                &&& final(self).phase == UpdatePhase::InstallingAssets
                &&& t.0@.len() == index.objects@.len()
                &&& forall|k: int|
                    0 <= k < t.0@.len() ==> {
                        let obj = index.objects@[k];
                        &&& (#[trigger] t.0@[k]).url@ == obj.info.download_url_text()
                        &&& t.0@[k].file@ == obj.info.asset_path_text(assets)
                        &&& opt_bytes(t.0@[k].sha1) == Some(hex_bytes(obj.info.hash@))
                    }
                &&& index.map_to_resources ==> {
                    &&& t.1@.len() == index.objects@.len()
                    &&& forall|k: int|
                        0 <= k < t.1@.len() ==> {
                            let obj = index.objects@[k];
                            &&& (#[trigger] t.1@[k]).path@ == dot + "/"@ + "resources"@ + "/"@
                                + obj.key@
                            &&& t.1@[k].target@ == obj.info.asset_path_text(assets)
                        }
                }
                &&& !index.map_to_resources ==> t.1@.len() == 0
            },
            r matches Err(e) ==> final(self).phase == UpdatePhase::Failed && e is InvalidChecksum,
    {
        let assets = self.config.assets_path();
        let downloads = match index.build_downloads(assets.as_str()) {
            Ok(d) => d,
            Err(e) => {
                self.phase = UpdatePhase::Failed;
                return Err(e);
            },
        };
        let links = if index.map_to_resources {
            let dot = self.config.dot_minecraft_path();
            index.resource_links(assets.as_str(), dot.as_str())
        } else {
            Vec::new()
        };
        self.phase = UpdatePhase::InstallingAssets;
        Ok((downloads, links))
    }

    /// Plans the checksum-verified download of the logging patch, when
    /// the descriptor references one. Fails with `Decode` on a logging
    /// file without an id and with `InvalidChecksum` on a malformed
    /// digest.
    pub fn plan_log_patch(&mut self, data: &VersionData) -> (r: GrindstoneResult<Option<Download>>)
        requires
            old(self).phase == UpdatePhase::InstallingAssets,
        ensures
            final(self).config == old(self).config,
            final(self).java_runtime_path == old(self).java_runtime_path,
            data.logging is None ==> (r matches Ok(o) && o is None && final(self).phase
                == UpdatePhase::InstallingLogPatch),
            data.logging matches Some(info) ==> match r {
                Ok(o) => {
                    &&& final(self).phase == UpdatePhase::InstallingLogPatch
                    &&& info.client.file.id matches Some(id)
                    &&& is_hex_text(info.client.file.sha1@)
                    &&& o matches Some(task) && task.url@ == info.client.file.url@ && task.file@
                        == old(self).config.assets_text() + "/"@ + "log_configs"@ + "/"@ + id@
                        && opt_bytes(task.sha1) == Some(hex_bytes(info.client.file.sha1@))
                },
                Err(e) => {
                    &&& final(self).phase == UpdatePhase::Failed
                    &&& (e is Decode && info.client.file.id is None) || (e is InvalidChecksum
                        && info.client.file.id is Some && !is_hex_text(info.client.file.sha1@))
                },
            },
    {
        let info = match &data.logging {
            Some(info) => info,
            None => {
                self.phase = UpdatePhase::InstallingLogPatch;
                return Ok(None);
            },
        };
        let id = match &info.client.file.id {
            Some(id) => id,
            None => {
                self.phase = UpdatePhase::Failed;
                return Err(
                    GrindstoneError::Decode("logging configuration carries no id".to_owned()),
                );
            },
        };
        let sha = match decode_checksum(info.client.file.sha1.as_str()) {
            Ok(s) => s,
            Err(e) => {
                self.phase = UpdatePhase::Failed;
                return Err(e);
            },
        };
        let configs = self.config.log_configs_path();
        let file = crate::text::path_join(configs.as_str(), id.as_str());
        let task = Download { url: info.client.file.url.clone(), file, sha1: Some(sha) };
        self.phase = UpdatePhase::InstallingLogPatch;
        Ok(Some(task))
    }

    /// Plans the checksum-verified download of the main client binary,
    /// when the descriptor carries one, and closes the pipeline. Fails
    /// with `InvalidChecksum` exactly on a malformed client digest.
    pub fn plan_client(&mut self, data: &VersionData) -> (r: GrindstoneResult<Option<Download>>)
        requires
            old(self).phase == UpdatePhase::InstallingLogPatch,
        ensures
            final(self).config == old(self).config,
            final(self).java_runtime_path == old(self).java_runtime_path,
            data.downloads is None ==> (r matches Ok(o) && o is None && final(self).phase
                == UpdatePhase::Done),
            data.downloads matches Some(d) ==> match r {
                Ok(o) => {
                    &&& final(self).phase == UpdatePhase::Done
                    &&& is_hex_text(d.client.sha1@)
                    &&& o matches Some(task) && task.url@ == d.client.url@ && task.file@ == old(
                        self,
                    ).config.version_jar_text() && opt_bytes(task.sha1) == Some(
                        hex_bytes(d.client.sha1@),
                    )
                },
                Err(e) => {
                    &&& final(self).phase == UpdatePhase::Failed
                    &&& e is InvalidChecksum
                    &&& !is_hex_text(d.client.sha1@)
                },
            },
    {
        match Client::build_download(&self.config, data) {
            Ok(o) => {
                self.phase = UpdatePhase::Done;
                Ok(o)
            },
            Err(e) => {
                self.phase = UpdatePhase::Failed;
                Err(e)
            },
        }
    }

    /// Launching is not part of the synchronization engine yet.
    pub fn launch() -> (r: GrindstoneResult<()>)
        ensures
            r is Ok,
    {
        Ok(())
    }
}

} // verus!
