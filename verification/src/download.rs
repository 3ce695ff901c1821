//! The download engine's decision core.
//!
//! Network and file I/O cannot be verified, so the engine is split: the
//! caller-side driver performs the probes, transfers and hashing, and the
//! state machines here make every decision — when an existing file is
//! trusted, when it is re-fetched, when a checksum mismatch is an error,
//! and how many transfers may be in flight at once.

use vstd::prelude::*;

use crate::errors::GrindstoneError;
use crate::event::Progress;

verus! {

/// One download task: a URL, a destination path, and an optional expected
/// SHA-1 digest. No two tasks of a batch target the same destination.
#[derive(Debug)]
pub struct Download {
    /// The URL to fetch.
    pub url: String,
    /// The path the file is saved at.
    pub file: String,
    /// The expected digest of the file, when one is known.
    pub sha1: Option<Vec<u8>>,
}

/// The digest bytes of an optional digest.
pub open spec fn opt_bytes(o: Option<Vec<u8>>) -> Option<Seq<u8>> {
    match o {
        Some(v) => Some(v@),
        None => None,
    }
}

/// Whether task `a` carries the same URL, destination and digest as `b`.
pub open spec fn same_task(a: Download, b: Download) -> bool {
    a.url == b.url && a.file == b.file && opt_bytes(a.sha1) == opt_bytes(b.sha1)
}

impl Clone for Download {
    /// Copy with the same URL, destination and digest.
    fn clone(&self) -> (r: Self)
        ensures
            same_task(r, *self),
    {
        let sha1 = match &self.sha1 {
            Some(v) => {
                let mut c: Vec<u8> = Vec::new();
                let mut i: usize = 0;
                while i < v.len()
                    invariant
                        i <= v@.len(),
                        c@ == v@.subrange(0, i as int),
                    decreases v@.len() - i,
                {
                    c.push(v[i]);
                    proof {
                        assert(c@ =~= v@.subrange(0, i as int + 1));
                    }
                    i += 1;
                }
                proof {
                    assert(c@ =~= v@);
                }
                Some(c)
            },
            None => None,
        };
        Download { url: self.url.clone(), file: self.file.clone(), sha1 }
    }
}

/// One symlink to materialize: the link at `path` pointing at `target`.
#[derive(Debug)]
pub struct SymlinkTask {
    /// Where the link itself lives.
    pub path: String,
    /// What the link points at.
    pub target: String,
}

impl Clone for SymlinkTask {
    /// Field-for-field copy.
    fn clone(&self) -> (r: Self)
        ensures
            r == *self,
    {
        SymlinkTask { path: self.path.clone(), target: self.target.clone() }
    }
}

/// What to do for one symlink, given what already sits at its path.
#[derive(Clone, Copy, Debug, PartialEq, Eq, Structural)]
pub enum LinkStep {
    /// Nothing sits there: create the link.
    Create,
    /// A correct link already sits there: leave it.
    Keep,
    /// Something else sits there: remove it, then create the link.
    Replace,
}

/// Decides how to materialize one symlink: an existing path is kept only
/// when it is already a symlink pointing at the declared target;
/// anything else at the path is replaced; an empty path is created.
pub fn plan_link(exists: bool, is_symlink: bool, points_at_target: bool) -> (r: LinkStep)
    ensures
        !exists ==> r == LinkStep::Create,
        exists && is_symlink && points_at_target ==> r == LinkStep::Keep,
        exists && !(is_symlink && points_at_target) ==> r == LinkStep::Replace,
{
    if !exists {
        LinkStep::Create
    } else if is_symlink && points_at_target {
        LinkStep::Keep
    } else {
        LinkStep::Replace
    }
}

/// Progress of an ongoing download, as the driver may report it.
#[derive(Debug)]
pub struct DownloadProgress {
    /// The URL of the download.
    pub url: String,
    /// The path where the file is saved.
    pub file: String,
    /// Current file index.
    pub current_file: usize,
    /// Number of files that are being downloaded.
    pub total_files: usize,
    /// Bytes that already got downloaded.
    pub downloaded_bytes: u64,
    /// Total bytes of the file.
    pub total_bytes: u64,
}

/// Where a single verified fetch stands.
#[derive(Clone, Copy, Debug, PartialEq, Eq, Structural)]
pub enum FetchPhase {
    /// Waiting to learn whether the destination exists.
    Probe,
    /// The destination exists and a digest is expected: waiting for the
    /// local file's digest.
    CheckLocal,
    /// A fresh transfer is running; `refetch` records whether it replaces
    /// an existing corrupt file.
    Transfer { refetch: bool },
    /// The transfer finished and a digest is expected: waiting for the
    /// fetched file's digest.
    CheckFetched,
    /// The fetch is decided.
    Complete,
}

/// How a verified fetch ended.
#[derive(Debug)]
pub enum FetchOutcome {
    /// The existing destination already satisfies the task; nothing was
    /// transferred.
    AlreadyValid,
    /// A fresh transfer completed (and matched the digest, if one was
    /// expected).
    Fetched,
    /// The fetch failed with the given error.
    Failed(GrindstoneError),
}

/// What the driver must do next for a single verified fetch.
#[derive(Debug)]
pub enum FetchAction {
    /// Report whether the destination path exists.
    CheckExists,
    /// Report the SHA-1 digest of the existing destination file.
    HashLocal,
    /// Create the parent directory, fetch the URL, require a success
    /// status, write the body to the destination and durably close it;
    /// then report the result.
    Transfer,
    /// Report the SHA-1 digest of the freshly fetched file.
    HashFetched,
    /// The fetch is decided; stop.
    Finish(FetchOutcome),
}

/// What the driver observed for a single verified fetch.
#[derive(Debug)]
pub enum FetchEvent {
    /// Whether the destination path exists.
    Exists(bool),
    /// The digest of the existing destination, or the failure reading it.
    LocalHash(Result<Vec<u8>, GrindstoneError>),
    /// The outcome of the fresh transfer.
    Transferred(Result<(), GrindstoneError>),
    /// The digest of the fetched destination, or the failure reading it.
    FetchedHash(Result<Vec<u8>, GrindstoneError>),
}

/// The next phase and action after observing `ev` in state `s`:
/// an existing file with no expected digest is trusted outright; an
/// existing file with a matching digest is kept without any transfer; a
/// mismatch or a missing file triggers exactly one fresh transfer; a
/// fetched file that still mismatches fails with `ChecksumMismatch`.
pub open spec fn fetch_step(s: FetchVerified, ev: FetchEvent) -> (FetchPhase, FetchAction) {
    match ev {
        FetchEvent::Exists(exists) => {
            if !exists {
                (FetchPhase::Transfer { refetch: false }, FetchAction::Transfer)
            } else {
                match s.task.sha1 {
                    None => (
                        FetchPhase::Complete,
                        FetchAction::Finish(FetchOutcome::AlreadyValid),
                    ),
                    Some(_) => (FetchPhase::CheckLocal, FetchAction::HashLocal),
                }
            }
        },
        FetchEvent::LocalHash(res) => match res {
            Err(e) => (FetchPhase::Complete, FetchAction::Finish(FetchOutcome::Failed(e))),
            Ok(h) => {
                if opt_bytes(s.task.sha1) == Some(h@) {
                    (FetchPhase::Complete, FetchAction::Finish(FetchOutcome::AlreadyValid))
                } else {
                    (FetchPhase::Transfer { refetch: true }, FetchAction::Transfer)
                }
            },
        },
        FetchEvent::Transferred(res) => match res {
            Err(e) => (FetchPhase::Complete, FetchAction::Finish(FetchOutcome::Failed(e))),
            Ok(_) => match s.task.sha1 {
                None => (FetchPhase::Complete, FetchAction::Finish(FetchOutcome::Fetched)),
                Some(_) => (FetchPhase::CheckFetched, FetchAction::HashFetched),
            },
        },
        FetchEvent::FetchedHash(res) => match res {
            Err(e) => (FetchPhase::Complete, FetchAction::Finish(FetchOutcome::Failed(e))),
            Ok(h) => {
                if opt_bytes(s.task.sha1) == Some(h@) {
                    (FetchPhase::Complete, FetchAction::Finish(FetchOutcome::Fetched))
                } else {
                    (
                        FetchPhase::Complete,
                        FetchAction::Finish(FetchOutcome::Failed(GrindstoneError::ChecksumMismatch)),
                    )
                }
            },
        },
    }
}

/// The state machine of one checksum-verified fetch.
#[derive(Debug)]
pub struct FetchVerified {
    /// The task being carried out.
    pub task: Download,
    /// Where the fetch stands.
    pub phase: FetchPhase,
    /// How many fresh transfers were started.
    pub transfers: u32,
}

impl FetchVerified {
    /// The machine never starts more than one fresh transfer, and the
    /// digest-checking phases only arise when a digest is expected.
    pub open spec fn wf(&self) -> bool {
        match self.phase {
            FetchPhase::Probe => self.transfers == 0,
            FetchPhase::CheckLocal => self.transfers == 0 && self.task.sha1 is Some,
            FetchPhase::Transfer { refetch } => self.transfers == 1 && (refetch
                ==> self.task.sha1 is Some),
            FetchPhase::CheckFetched => self.transfers == 1 && self.task.sha1 is Some,
            FetchPhase::Complete => self.transfers <= 1,
        }
    }

    /// Whether `ev` answers what the machine is waiting for.
    pub open spec fn event_fits(&self, ev: FetchEvent) -> bool {
        match self.phase {
            FetchPhase::Probe => ev is Exists,
            FetchPhase::CheckLocal => ev is LocalHash,
            FetchPhase::Transfer { .. } => ev is Transferred,
            FetchPhase::CheckFetched => ev is FetchedHash,
            FetchPhase::Complete => false,
        }
    }

    /// Starts a verified fetch of `task`.
    pub fn new(task: Download) -> (s: Self)
        ensures
            s.task == task,
            s.phase == FetchPhase::Probe,
            s.transfers == 0,
            s.wf(),
    {
        FetchVerified { task, phase: FetchPhase::Probe, transfers: 0 }
    }

    /// The first thing the driver must do: probe the destination.
    pub fn first_action(&self) -> (a: FetchAction)
        requires
            self.phase == FetchPhase::Probe,
        ensures
            a is CheckExists,
    {
        FetchAction::CheckExists
    }

    /// Feeds the observation `ev` to the machine and returns what to do
    /// next, following [`fetch_step`] exactly.
    pub fn advance(&mut self, ev: FetchEvent) -> (a: FetchAction)
        requires
            old(self).wf(),
            old(self).event_fits(ev),
        ensures
            final(self).task == old(self).task,
            (final(self).phase, a) == fetch_step(*old(self), ev),
            final(self).transfers == old(self).transfers + if a is Transfer {
                1int
            } else {
                0int
            },
            final(self).wf(),
    {
        match ev {
            FetchEvent::Exists(exists) => {
                if !exists {
                    self.phase = FetchPhase::Transfer { refetch: false };
                    self.transfers = self.transfers + 1;
                    FetchAction::Transfer
                } else if self.task.sha1.is_some() {
                    self.phase = FetchPhase::CheckLocal;
                    FetchAction::HashLocal
                } else {
                    self.phase = FetchPhase::Complete;
                    FetchAction::Finish(FetchOutcome::AlreadyValid)
                }
            },
            FetchEvent::LocalHash(res) => match res {
                Err(e) => {
                    self.phase = FetchPhase::Complete;
                    FetchAction::Finish(FetchOutcome::Failed(e))
                },
                Ok(h) => {
                    let matches_expected = match &self.task.sha1 {
                        Some(expected) => crate::checksum::bytes_eq(expected, &h),
                        None => false,
                    };
                    if matches_expected {
                        self.phase = FetchPhase::Complete;
                        FetchAction::Finish(FetchOutcome::AlreadyValid)
                    } else {
                        self.phase = FetchPhase::Transfer { refetch: true };
                        self.transfers = self.transfers + 1;
                        FetchAction::Transfer
                    }
                },
            },
            FetchEvent::Transferred(res) => match res {
                Err(e) => {
                    self.phase = FetchPhase::Complete;
                    FetchAction::Finish(FetchOutcome::Failed(e))
                },
                Ok(_) => {
                    if self.task.sha1.is_some() {
                        self.phase = FetchPhase::CheckFetched;
                        FetchAction::HashFetched
                    } else {
                        self.phase = FetchPhase::Complete;
                        FetchAction::Finish(FetchOutcome::Fetched)
                    }
                },
            },
            FetchEvent::FetchedHash(res) => match res {
                Err(e) => {
                    self.phase = FetchPhase::Complete;
                    FetchAction::Finish(FetchOutcome::Failed(e))
                },
                Ok(h) => {
                    let matches_expected = match &self.task.sha1 {
                        Some(expected) => crate::checksum::bytes_eq(expected, &h),
                        None => false,
                    };
                    if matches_expected {
                        self.phase = FetchPhase::Complete;
                        FetchAction::Finish(FetchOutcome::Fetched)
                    } else {
                        self.phase = FetchPhase::Complete;
                        FetchAction::Finish(
                            FetchOutcome::Failed(GrindstoneError::ChecksumMismatch),
                        )
                    }
                },
            },
        }
    }
}

/// Idempotence of a verified fetch: when the destination already exists
/// and its digest equals the expected one, the machine finishes with
/// `AlreadyValid` after the probe and the local hash alone — it never
/// orders a transfer, so a second run over an already verified file
/// performs no network fetch.
pub proof fn lemma_fetch_idempotent(s: FetchVerified, h: Vec<u8>)
    requires
        s.phase == FetchPhase::Probe,
        opt_bytes(s.task.sha1) == Some(h@),
    ensures
        ({
            let (p1, a1) = fetch_step(s, FetchEvent::Exists(true));
            let s1 = FetchVerified { phase: p1, ..s };
            let (p2, a2) = fetch_step(s1, FetchEvent::LocalHash(Ok(h)));
            &&& a1 == FetchAction::HashLocal
            &&& !(a1 is Transfer)
            &&& a2 == FetchAction::Finish(FetchOutcome::AlreadyValid)
            &&& !(a2 is Transfer)
            &&& p2 == FetchPhase::Complete
        }),
{
}

/// Corruption recovery: when the destination exists with a wrong digest,
/// the machine orders exactly one fresh transfer; if the fetched content
/// then matches the expected digest the fetch succeeds, and if it still
/// mismatches the fetch fails with `ChecksumMismatch` and no further
/// transfer is ordered.
pub proof fn lemma_fetch_corruption_recovery(s: FetchVerified, wrong: Vec<u8>, fresh: Vec<u8>)
    requires
        s.phase == FetchPhase::Probe,
        s.task.sha1 is Some,
        opt_bytes(s.task.sha1) != Some(wrong@),
    ensures
        ({
            let (p1, a1) = fetch_step(s, FetchEvent::Exists(true));
            let s1 = FetchVerified { phase: p1, ..s };
            let (p2, a2) = fetch_step(s1, FetchEvent::LocalHash(Ok(wrong)));
            let s2 = FetchVerified { phase: p2, transfers: 1, ..s };
            let (p3, a3) = fetch_step(s2, FetchEvent::Transferred(Ok(())));
            let s3 = FetchVerified { phase: p3, ..s2 };
            let (p4, a4) = fetch_step(s3, FetchEvent::FetchedHash(Ok(fresh)));
            &&& a1 == FetchAction::HashLocal
            &&& a2 == FetchAction::Transfer
            &&& a3 == FetchAction::HashFetched
            &&& !(a3 is Transfer)
            &&& !(a4 is Transfer)
            &&& p4 == FetchPhase::Complete
            &&& (opt_bytes(s.task.sha1) == Some(fresh@) ==> a4 == FetchAction::Finish(
                FetchOutcome::Fetched,
            ))
            &&& (opt_bytes(s.task.sha1) != Some(fresh@) ==> a4 == FetchAction::Finish(
                FetchOutcome::Failed(GrindstoneError::ChecksumMismatch),
            ))
        }),
{
}

/// The batch driver's admission state: at most `limit` tasks in flight,
/// completions counted monotonically, the first error kept.
#[derive(Debug)]
pub struct BatchState {
    /// The tasks of the batch, in submission order.
    pub tasks: Vec<Download>,
    /// How many tasks have been admitted so far.
    pub next: usize,
    /// How many admitted tasks have not completed yet.
    pub in_flight: usize,
    /// How many tasks have completed, in any order.
    pub completed: usize,
    /// The admission bound.
    pub limit: usize,
    /// The first error reported by any task, if any.
    pub first_error: Option<GrindstoneError>,
}

impl BatchState {
    /// Counts are consistent and the bound holds: the tasks in flight
    /// never exceed `limit`.
    pub open spec fn wf(&self) -> bool {
        &&& 1 <= self.limit
        &&& self.in_flight <= self.limit
        &&& self.next <= self.tasks@.len()
        &&& self.completed + self.in_flight == self.next
    }

    /// Starts a batch over `tasks` with admission bound `limit`.
    pub fn new(tasks: Vec<Download>, limit: usize) -> (s: Self)
        requires
            limit >= 1,
        ensures
            s.wf(),
            s.tasks == tasks,
            s.next == 0,
            s.in_flight == 0,
            s.completed == 0,
            s.limit == limit,
            s.first_error is None,
    {
        BatchState { tasks, next: 0, in_flight: 0, completed: 0, limit, first_error: None }
    }

    /// Admits the next task when one is pending and the bound allows it;
    /// returns `None` when the queue is drained or `limit` tasks are
    /// already in flight.
    pub fn try_admit(&mut self) -> (t: Option<Download>)
        requires
            old(self).wf(),
        ensures
            final(self).wf(),
            final(self).tasks == old(self).tasks,
            final(self).limit == old(self).limit,
            final(self).completed == old(self).completed,
            final(self).first_error == old(self).first_error,
            if old(self).next < old(self).tasks@.len() && old(self).in_flight < old(self).limit {
                &&& t matches Some(d) && same_task(d, old(self).tasks@[old(self).next as int])
                &&& final(self).next == old(self).next + 1
                &&& final(self).in_flight == old(self).in_flight + 1
            } else {
                &&& t is None
                &&& final(self).next == old(self).next
                &&& final(self).in_flight == old(self).in_flight
            },
    {
        if self.next < self.tasks.len() && self.in_flight < self.limit {
            let d = self.tasks[self.next].clone();
            self.next = self.next + 1;
            self.in_flight = self.in_flight + 1;
            Some(d)
        } else {
            None
        }
    }

    /// Records one completion, in whatever order tasks finish: frees one
    /// admission slot, advances the monotonic counter, keeps the first
    /// error, and reports progress over the whole batch.
    pub fn on_complete(&mut self, res: Result<String, GrindstoneError>, message: String) -> (p:
        Progress)
        requires
            old(self).wf(),
            old(self).in_flight >= 1,
            old(self).tasks@.len() <= u32::MAX,
        ensures
            final(self).wf(),
            final(self).tasks == old(self).tasks,
            final(self).limit == old(self).limit,
            final(self).next == old(self).next,
            final(self).in_flight == old(self).in_flight - 1,
            final(self).completed == old(self).completed + 1,
            old(self).first_error is Some ==> final(self).first_error == old(self).first_error,
            old(self).first_error is None ==> match res {
                Ok(_) => final(self).first_error is None,
                Err(e) => final(self).first_error == Some(e),
            },
            p.current as int == final(self).completed as int,
            p.max as int == old(self).tasks@.len() as int,
            p.message == message,
    {
        self.in_flight = self.in_flight - 1;
        self.completed = self.completed + 1;
        match res {
            Ok(_) => {},
            Err(e) => {
                if self.first_error.is_none() {
                    self.first_error = Some(e);
                }
            },
        }
        Progress { current: self.completed as u32, max: self.tasks.len() as u32, message }
    }

    /// Whether every task of the batch has completed.
    pub fn is_done(&self) -> (r: bool)
        ensures
            r == (self.completed == self.tasks@.len() && self.in_flight == 0),
    {
        self.completed == self.tasks.len() && self.in_flight == 0
    }
}

/// Bounded concurrency: in every well-formed batch state the number of
/// tasks in flight is at most the admission bound, and every operation
/// of the batch keeps the state well formed.
pub proof fn lemma_batch_bounded(s: BatchState)
    requires
        s.wf(),
    ensures
        s.in_flight <= s.limit,
{
}

} // verus!
