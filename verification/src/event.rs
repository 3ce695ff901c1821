//! Progress events: purely observational values handed to the caller at
//! phase boundaries and per completed unit of work.

use vstd::prelude::*;

verus! {

/// A progress report within one phase.
#[derive(Debug)]
pub struct Progress {
    /// Units of work finished so far.
    pub current: u32,
    /// Units of work in the phase.
    pub max: u32,
    /// A free-text note on the finished unit.
    pub message: String,
}

/// Update of library installation.
#[derive(Clone, Copy, Debug, PartialEq, Eq, Structural)]
pub enum LibraryInstallationUpdate {
    /// Download status.
    Downloading,
    /// Extracting.
    Extracting,
}

/// Update of asset installation.
#[derive(Clone, Copy, Debug, PartialEq, Eq, Structural)]
pub enum AssetInstallationUpdate {
    /// Download status.
    Downloading,
    /// Symlinks.
    Symlink,
}

/// The phase tag of an event.
#[derive(Debug)]
pub enum EventType {
    /// The updater is starting.
    Starting,
    /// Required folders are being created.
    CreatingFolders,
    /// The version manifest is being downloaded.
    DownloadManifest,
    /// Preinstalled runtimes are being searched.
    SearchingForJRE,
    /// The runtime file tree is being downloaded.
    DownloadJRE(Progress),
    /// The asset index is being downloaded.
    DownloadAssetIndex,
    /// Libraries are being installed.
    Libraries(Progress, LibraryInstallationUpdate),
    /// Assets are being installed.
    Assets(Progress, AssetInstallationUpdate),
    /// The logging configuration is being downloaded.
    DownloadLogConfig,
    /// The client binary is being downloaded.
    DownloadClient,
}

/// One event as delivered to the caller's sink.
#[derive(Debug)]
pub struct CallbackEvent {
    /// The phase tag, with any progress record it carries.
    pub event_type: EventType,
    /// A free-text message.
    pub message: String,
}

} // verus!
