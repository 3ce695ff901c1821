//! The runtime installer's decision core: selecting the runtime to
//! install and replaying its remote file-tree manifest into directories,
//! checksum-verified downloads, deferred symlinks and executable bits.

use vstd::prelude::*;

use crate::checksum::{decode_checksum, hex_bytes, is_hex_text};
use crate::config::Config;
use crate::download::{opt_bytes, Download, SymlinkTask};
use crate::errors::{GrindstoneError, GrindstoneResult};
use crate::os::Platform;
use crate::text::{path_join, str_eq};

verus! {

/// A downloadable file as the runtime manifests reference it.
#[derive(Debug)]
pub struct DownloadFile {
    /// Hexadecimal SHA-1 digest of the file.
    pub sha1: String,
    /// Size of the file in bytes.
    pub size: usize,
    /// URL of the file.
    pub url: String,
}

impl Clone for DownloadFile {
    /// Field-for-field copy.
    fn clone(&self) -> (r: Self)
        ensures
            r == *self,
    {
        DownloadFile { sha1: self.sha1.clone(), size: self.size, url: self.url.clone() }
    }
}

/// The kind of one entry of a runtime file tree.
#[derive(Clone, Copy, Debug, PartialEq, Eq, Structural)]
pub enum FileType {
    /// A directory to create.
    Directory,
    /// A regular file to download.
    File,
    /// A symlink to materialize after the files.
    Link,
}

/// The download variants of one runtime file.
#[derive(Debug)]
pub struct JreFileDownload {
    /// The raw (uncompressed) download.
    pub raw: DownloadFile,
}

impl Clone for JreFileDownload {
    /// Field-for-field copy.
    fn clone(&self) -> (r: Self)
        ensures
            r == *self,
    {
        JreFileDownload { raw: self.raw.clone() }
    }
}

/// One entry of a runtime file tree.
#[derive(Debug)]
pub struct JreFile {
    /// The kind of entry.
    pub file_type: FileType,
    /// Whether the file carries the executable bit.
    pub executable: Option<bool>,
    /// The downloads of a regular file.
    pub downloads: Option<JreFileDownload>,
    /// The target of a symlink.
    pub target: Option<String>,
}

/// A runtime file-tree entry together with its relative path.
#[derive(Debug)]
pub struct JreEntry {
    /// The path relative to the runtime root.
    pub path: String,
    /// The entry itself.
    pub file: JreFile,
}

/// The file tree of one runtime, keyed by relative path.
#[derive(Debug)]
pub struct JreRuntimeManifest {
    /// The entries of the tree.
    pub files: Vec<JreEntry>,
}

/// Whether one entry carries what its kind needs: a regular file carries
/// a download with a well-formed digest, a link carries a target.
pub open spec fn entry_ok(e: JreEntry) -> bool {
    match e.file.file_type {
        FileType::Directory => true,
        FileType::File => e.file.downloads matches Some(d) && is_hex_text(d.raw.sha1@),
        FileType::Link => e.file.target is Some,
    }
}

/// Whether every entry of the tree is well formed.
pub open spec fn entries_ok(files: Seq<JreEntry>) -> bool {
    forall|i: int| 0 <= i < files.len() ==> entry_ok(#[trigger] files[i])
}

/// The directories of the tree, each below `dest`.
pub open spec fn runtime_dirs(files: Seq<JreEntry>, dest: Seq<char>) -> Seq<Seq<char>>
    decreases files.len(),
{
    if files.len() == 0 {
        Seq::empty()
    } else {
        (if files[0].file.file_type is Directory {
            seq![dest + "/"@ + files[0].path@]
        } else {
            Seq::empty()
        }) + runtime_dirs(files.skip(1), dest)
    }
}

/// The download of every regular file of the tree, as
/// (URL, destination, digest) triples.
pub open spec fn runtime_tasks(files: Seq<JreEntry>, dest: Seq<char>) -> Seq<
    (Seq<char>, Seq<char>, Seq<u8>),
>
    recommends
        entries_ok(files),
    decreases files.len(),
{
    if files.len() == 0 {
        Seq::empty()
    } else {
        (if files[0].file.file_type is File {
            seq![
                (
                    files[0].file.downloads.unwrap().raw.url@,
                    dest + "/"@ + files[0].path@,
                    hex_bytes(files[0].file.downloads.unwrap().raw.sha1@),
                ),
            ]
        } else {
            Seq::empty()
        }) + runtime_tasks(files.skip(1), dest)
    }
}

/// The symlinks of the tree, as (path, target) pairs, each path below
/// `dest`.
pub open spec fn runtime_links(files: Seq<JreEntry>, dest: Seq<char>) -> Seq<
    (Seq<char>, Seq<char>),
>
    recommends
        entries_ok(files),
    decreases files.len(),
{
    if files.len() == 0 {
        Seq::empty()
    } else {
        (if files[0].file.file_type is Link {
            seq![(dest + "/"@ + files[0].path@, files[0].file.target.unwrap()@)]
        } else {
            Seq::empty()
        }) + runtime_links(files.skip(1), dest)
    }
}

/// The paths of the regular files flagged executable, each below `dest`.
pub open spec fn runtime_execs(files: Seq<JreEntry>, dest: Seq<char>) -> Seq<Seq<char>>
    decreases files.len(),
{
    if files.len() == 0 {
        Seq::empty()
    } else {
        (if files[0].file.file_type is File && files[0].file.executable == Some(true) {
            seq![dest + "/"@ + files[0].path@]
        } else {
            Seq::empty()
        }) + runtime_execs(files.skip(1), dest)
    }
}

/// The replay plan of a runtime file tree: directories first, then the
/// file downloads, then — only after every file has completed — the
/// symlinks, and last the executable bits on POSIX platforms.
#[derive(Debug)]
pub struct RuntimePlan {
    /// Directories to create eagerly.
    pub dirs: Vec<String>,
    /// Checksum-verified downloads of the regular files.
    pub tasks: Vec<Download>,
    /// Symlinks to materialize after all file downloads completed.
    pub links: Vec<SymlinkTask>,
    /// Paths to give the owner-execute bit after files and links.
    pub executables: Vec<String>,
}

impl JreRuntimeManifest {
    /// Builds the replay plan of the tree below `dest`.
    /// Fails with `Decode` on an entry missing what its kind needs, and
    /// with `InvalidChecksum` on a malformed digest.
    pub fn install_plan(&self, dest: &str) -> (r: GrindstoneResult<RuntimePlan>)
        ensures
            r is Ok <==> entries_ok(self.files@),
            r matches Ok(plan) ==> {
                let spec_tasks = runtime_tasks(self.files@, dest@);
                let spec_links = runtime_links(self.files@, dest@);
                &&& plan.dirs.deep_view() == runtime_dirs(self.files@, dest@)
                &&& plan.executables.deep_view() == runtime_execs(self.files@, dest@)
                &&& plan.tasks@.len() == spec_tasks.len()
                &&& forall|k: int|
                    0 <= k < spec_tasks.len() ==> {
                        &&& (#[trigger] plan.tasks@[k]).url@ == spec_tasks[k].0
                        &&& plan.tasks@[k].file@ == spec_tasks[k].1
                        &&& opt_bytes(plan.tasks@[k].sha1) == Some(spec_tasks[k].2)
                    }
                &&& plan.links@.len() == spec_links.len()
                &&& forall|k: int|
                    0 <= k < spec_links.len() ==> {
                        &&& (#[trigger] plan.links@[k]).path@ == spec_links[k].0
                        &&& plan.links@[k].target@ == spec_links[k].1
                    }
            },
            r matches Err(e) ==> (e is Decode || e is InvalidChecksum),
    {
        let ghost dv = dest@;
        let ghost spec_dirs = runtime_dirs(self.files@, dv);
        let ghost spec_tasks = runtime_tasks(self.files@, dv);
        let ghost spec_links = runtime_links(self.files@, dv);
        let ghost spec_execs = runtime_execs(self.files@, dv);
        let mut dirs: Vec<String> = Vec::new();
        let mut tasks: Vec<Download> = Vec::new();
        let mut links: Vec<SymlinkTask> = Vec::new();
        let mut executables: Vec<String> = Vec::new();
        let mut i: usize = 0;
        proof {
            assert(self.files@.skip(0) =~= self.files@);
            assert(dirs.deep_view() + spec_dirs =~= spec_dirs);
            assert(executables.deep_view() + spec_execs =~= spec_execs);
        }
        while i < self.files.len()
            invariant
                i <= self.files@.len(),
                dv == dest@,
                spec_dirs == runtime_dirs(self.files@, dv),
                spec_tasks == runtime_tasks(self.files@, dv),
                spec_links == runtime_links(self.files@, dv),
                spec_execs == runtime_execs(self.files@, dv),
                forall|k: int| 0 <= k < i ==> entry_ok(#[trigger] self.files@[k]),
                spec_dirs == dirs.deep_view() + runtime_dirs(self.files@.skip(i as int), dv),
                spec_execs == executables.deep_view() + runtime_execs(
                    self.files@.skip(i as int),
                    dv,
                ),
                tasks@.len() <= spec_tasks.len(),
                spec_tasks.skip(tasks@.len() as int) == runtime_tasks(
                    self.files@.skip(i as int),
                    dv,
                ),
                forall|k: int|
                    0 <= k < tasks@.len() ==> {
                        &&& (#[trigger] tasks@[k]).url@ == spec_tasks[k].0
                        &&& tasks@[k].file@ == spec_tasks[k].1
                        &&& opt_bytes(tasks@[k].sha1) == Some(spec_tasks[k].2)
                    },
                links@.len() <= spec_links.len(),
                spec_links.skip(links@.len() as int) == runtime_links(
                    self.files@.skip(i as int),
                    dv,
                ),
                forall|k: int|
                    0 <= k < links@.len() ==> {
                        &&& (#[trigger] links@[k]).path@ == spec_links[k].0
                        &&& links@[k].target@ == spec_links[k].1
                    },
            decreases self.files@.len() - i,
        {
            proof {
                assert(self.files@.skip(i as int)[0] == self.files@[i as int]);
                assert(self.files@.skip(i as int).skip(1) =~= self.files@.skip(i as int + 1));
            }
            let entry = &self.files[i];
            let location = path_join(dest, entry.path.as_str());
            match entry.file.file_type {
                FileType::Directory => {
                    let ghost before = dirs.deep_view();
                    dirs.push(location);
                    proof {
                        assert(dirs.deep_view() =~= before.push(dv + "/"@ + entry.path@));
                        assert(dirs.deep_view() + runtime_dirs(
                            self.files@.skip(i as int + 1),
                            dv,
                        ) =~= spec_dirs);
                        assert(executables.deep_view() + runtime_execs(
                            self.files@.skip(i as int + 1),
                            dv,
                        ) =~= spec_execs);
                    }
                },
                FileType::File => {
                    let download = match &entry.file.downloads {
                        Some(d) => d,
                        None => {
                            return Err(
                                GrindstoneError::Decode(
                                    "runtime file entry carries no download".to_owned(),
                                ),
                            );
                        },
                    };
                    let sha = match decode_checksum(download.raw.sha1.as_str()) {
                        Ok(s) => s,
                        Err(e) => {
                            return Err(e);
                        },
                    };
                    let ghost j = tasks@.len() as int;
                    proof {
                        assert(runtime_tasks(self.files@.skip(i as int), dv) == seq![
                            (
                                self.files@[i as int].file.downloads.unwrap().raw.url@,
                                dv + "/"@ + self.files@[i as int].path@,
                                hex_bytes(
                                    self.files@[i as int].file.downloads.unwrap().raw.sha1@,
                                ),
                            ),
                        ] + runtime_tasks(self.files@.skip(i as int + 1), dv));
                        assert(spec_tasks.skip(j).len() >= 1);
                        assert(j < spec_tasks.len());
                        assert(spec_tasks.skip(j)[0] == spec_tasks[j]);
                        assert(spec_tasks.skip(j).skip(1) =~= spec_tasks.skip(j + 1));
                    }
                    tasks.push(
                        Download {
                            url: download.raw.url.clone(),
                            file: location.clone(),
                            sha1: Some(sha),
                        },
                    );
                    let is_executable = match entry.file.executable {
                        Some(true) => true,
                        _ => false,
                    };
                    let ghost before = executables.deep_view();
                    if is_executable {
                        executables.push(location);
                        proof {
                            assert(executables.deep_view() =~= before.push(
                                dv + "/"@ + entry.path@,
                            ));
                        }
                    }
                    proof {
                        assert(executables.deep_view() + runtime_execs(
                            self.files@.skip(i as int + 1),
                            dv,
                        ) =~= spec_execs);
                        assert(dirs.deep_view() + runtime_dirs(
                            self.files@.skip(i as int + 1),
                            dv,
                        ) =~= spec_dirs);
                    }
                },
                FileType::Link => {
                    let target = match &entry.file.target {
                        Some(t) => t,
                        None => {
                            return Err(
                                GrindstoneError::Decode(
                                    "runtime link entry carries no target".to_owned(),
                                ),
                            );
                        },
                    };
                    let ghost j = links@.len() as int;
                    proof {
                        assert(runtime_links(self.files@.skip(i as int), dv) == seq![
                            (
                                dv + "/"@ + self.files@[i as int].path@,
                                self.files@[i as int].file.target.unwrap()@,
                            ),
                        ] + runtime_links(self.files@.skip(i as int + 1), dv));
                        assert(spec_links.skip(j).len() >= 1);
                        assert(j < spec_links.len());
                        assert(spec_links.skip(j)[0] == spec_links[j]);
                        assert(spec_links.skip(j).skip(1) =~= spec_links.skip(j + 1));
                    }
                    links.push(SymlinkTask { path: location, target: target.clone() });
                    proof {
                        assert(dirs.deep_view() + runtime_dirs(
                            self.files@.skip(i as int + 1),
                            dv,
                        ) =~= spec_dirs);
                        assert(executables.deep_view() + runtime_execs(
                            self.files@.skip(i as int + 1),
                            dv,
                        ) =~= spec_execs);
                    }
                },
            }
            i += 1;
        }
        proof {
            assert(self.files@.skip(self.files@.len() as int).len() == 0);
            assert(spec_tasks.skip(tasks@.len() as int).len() == 0);
            assert(tasks@.len() == spec_tasks.len());
            assert(spec_links.skip(links@.len() as int).len() == 0);
            assert(links@.len() == spec_links.len());
            assert(dirs.deep_view() =~= spec_dirs);
            assert(executables.deep_view() =~= spec_execs);
        }
        Ok(RuntimePlan { dirs, tasks, links, executables })
    }
}

/// The version stamp of one published runtime.
#[derive(Debug)]
pub struct RuntimeVersion {
    /// Name of the runtime build.
    pub name: String,
    /// Release time, as seconds since the Unix epoch.
    pub released: i64,
}

impl Clone for RuntimeVersion {
    /// Field-for-field copy.
    fn clone(&self) -> (r: Self)
        ensures
            r == *self,
    {
        RuntimeVersion { name: self.name.clone(), released: self.released }
    }
}

/// One published runtime: where its file-tree manifest lives, and its
/// version stamp.
#[derive(Debug)]
pub struct RuntimeData {
    /// The runtime's file-tree manifest.
    pub manifest: DownloadFile,
    /// The runtime's version.
    pub version: RuntimeVersion,
}

impl Clone for RuntimeData {
    /// Field-for-field copy.
    fn clone(&self) -> (r: Self)
        ensures
            r == *self,
    {
        RuntimeData { manifest: self.manifest.clone(), version: self.version.clone() }
    }
}

/// The published runtimes of one component name.
#[derive(Debug)]
pub struct JreComponentEntry {
    /// The component name.
    pub key: String,
    /// The published runtimes, newest first.
    pub data: Vec<RuntimeData>,
}

/// The first entry for `key`, if any.
pub open spec fn component_find(entries: Seq<JreComponentEntry>, key: Seq<char>) -> Option<
    JreComponentEntry,
>
    decreases entries.len(),
{
    if entries.len() == 0 {
        None
    } else if entries[0].key@ == key {
        Some(entries[0])
    } else {
        component_find(entries.skip(1), key)
    }
}

/// The manifest of all published runtimes, one component map per OS.
#[derive(Debug)]
pub struct JreManifest {
    /// Linux runtimes.
    pub linux: Vec<JreComponentEntry>,
    /// MacOs runtimes.
    pub mac_os: Vec<JreComponentEntry>,
    /// MacOs runtimes for 64-bit ARM.
    pub mac_os_arm64: Vec<JreComponentEntry>,
    /// Windows runtimes.
    pub windows: Vec<JreComponentEntry>,
}

impl JreManifest {
    /// The component map of platform `p`; unsupported platforms have
    /// none.
    pub open spec fn entries_for(&self, p: Platform) -> Seq<JreComponentEntry> {
        match p {
            Platform::Linux => self.linux@,
            Platform::Windows => self.windows@,
            Platform::MacOs => self.mac_os@,
            Platform::Other => Seq::empty(),
        }
    }

    /// The newest published runtime for component `key` on platform `p`:
    /// the first element of the component's list, or `None` when the
    /// component is unknown or its list is empty.
    pub open spec fn runtime_pick(&self, p: Platform, key: Seq<char>) -> Option<RuntimeData> {
        match component_find(self.entries_for(p), key) {
            Some(entry) => if entry.data@.len() > 0 {
                Some(entry.data@[0])
            } else {
                None
            },
            None => None,
        }
    }

    /// Looks up the runtime to install for component `name` on `p`.
    pub fn find_runtime(&self, p: &Platform, name: &str) -> (r: Option<&RuntimeData>)
        ensures
            match r {
                Some(d) => self.runtime_pick(*p, name@) == Some(*d),
                None => self.runtime_pick(*p, name@) is None,
            },
    {
        let entries = match p {
            Platform::Linux => &self.linux,
            Platform::Windows => &self.windows,
            Platform::MacOs => &self.mac_os,
            Platform::Other => {
                return None;
            },
        };
        let mut i: usize = 0;
        proof {
            assert(entries@.skip(0) =~= entries@);
        }
        while i < entries.len()
            invariant
                i <= entries@.len(),
                entries@ == self.entries_for(*p),
                component_find(entries@, name@) == component_find(
                    entries@.skip(i as int),
                    name@,
                ),
            decreases entries@.len() - i,
        {
            proof {
                assert(entries@.skip(i as int)[0] == entries@[i as int]);
                assert(entries@.skip(i as int).skip(1) =~= entries@.skip(i as int + 1));
            }
            if str_eq(entries[i].key.as_str(), name) {
                if entries[i].data.len() > 0 {
                    return Some(&entries[i].data[0]);
                } else {
                    return None;
                }
            }
            i += 1;
        }
        proof {
            assert(entries@.skip(entries@.len() as int).len() == 0);
        }
        None
    }
}

/// The runtime locator: where runtimes live for this configuration, and
/// whether a preinstalled one satisfies a component.
#[derive(Debug)]
pub struct Java {
    /// The configuration the locator works under.
    pub config: Config,
}

impl Java {
    /// A locator under `config`.
    pub fn new(config: Config) -> (r: Self)
        ensures
            r.config == config,
    {
        Java { config }
    }

    /// The folder the runtimes live under: `runtime` below the
    /// `.minecraft` folder.
    pub fn runtime_path(&self) -> (r: GrindstoneResult<String>)
        ensures
            r matches Ok(s) && s@ == self.config.dot_minecraft_text() + "/"@ + "runtime"@,
    {
        let dot = self.config.dot_minecraft_path();
        Ok(path_join(dot.as_str(), "runtime"))
    }

    /// Decides whether a preinstalled runtime satisfies component
    /// `name`: the caller probes whether the component's folder exists
    /// and passes the answer in.
    pub fn search_jre(&self, name: &str, folder_exists: bool) -> (r: GrindstoneResult<
        Option<String>,
    >)
        ensures
            ({
                let folder = self.config.dot_minecraft_text() + "/"@ + "runtime"@ + "/"@ + name@;
                match r {
                    Ok(found) => match found {
                        Some(p) => folder_exists && p@ == folder,
                        None => !folder_exists,
                    },
                    Err(_) => false,
                }
            }),
    {
        let base = match self.runtime_path() {
            Ok(b) => b,
            Err(e) => {
                return Err(e);
            },
        };
        let candidate = path_join(base.as_str(), name);
        if folder_exists {
            Ok(Some(candidate))
        } else {
            Ok(None)
        }
    }
}

} // verus!
