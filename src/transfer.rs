//! Bringing one cataloged file to one destination.
//!
//! For each file and destination the steps are: make sure the parent
//! directories of the destination path exist, fingerprint the source, then
//! the destination, and copy the bytes only when the two fingerprints differ
//! or the destination has none. The driver below decides; the caller does
//! the work of each step and hands back its result.
use vstd::prelude::*;
use crate::catalog::LocalSourceManager;
use crate::fingerprint::{HashError, LocalFile};
use crate::materialize::MaterializeError;
use crate::paths::{destination_of, is_path_prefix};
use crate::session::SessionError;
use crate::text::{push_char, trimmed_of, trim};

verus! {

/// Why the bytes of a file could not be copied.
#[derive(Clone, Copy, Debug, PartialEq, Eq, Structural)]
pub enum TransferError {
    PermissionDenied,
    DiskFull,
    ConnectionLost,
    IoFailure,
}

/// Why a single file was skipped; the other files go on.
#[derive(Clone, Copy, Debug, PartialEq, Eq, Structural)]
pub enum FileFailure {
    Hash(HashError),
    Transfer(TransferError),
    /// A parent directory could not be created at the given level.
    Directory { level: usize },
}

/// Why a whole destination is given up for the rest of the cycle.
#[derive(Clone, Copy, Debug, PartialEq, Eq, Structural)]
pub enum BackendFailure {
    /// Not even the destination base answers.
    Unreachable,
    Session(SessionError),
}

/// How the transfer of one file ended.
#[derive(Clone, Copy, Debug, PartialEq, Eq, Structural)]
pub enum FileOutcome {
    /// The destination already held the same content: nothing was copied.
    UpToDate,
    Copied,
    Skipped(FileFailure),
    BackendFailed(BackendFailure),
}

/// The stage of a file's transfer.
#[derive(Clone, Debug)]
pub enum TransferPhase {
    Materializing,
    HashingSource,
    HashingTarget { source: String },
    Receiving,
    Finished(FileOutcome),
}

/// The result of a step, handed back to the driver.
#[derive(Debug)]
pub enum TransferEvent {
    ParentsReady(Result<(), MaterializeError>),
    SourceHashed(Result<String, HashError>),
    /// The destination's fingerprint; `None` when no file is there.
    TargetHashed(Result<Option<String>, HashError>),
    Received(Result<(), TransferError>),
    /// The session could not serve the step, even after its retries.
    SessionLost(SessionError),
}

/// What the caller does next.
#[derive(Clone, Copy, Debug, PartialEq, Eq, Structural)]
pub enum TransferAction {
    MaterializeParents,
    HashSource,
    HashTarget,
    /// Copy the source's bytes over the destination, unconditionally.
    Receive,
    Finish(FileOutcome),
}

/// The stage that follows `phase` once `event` comes in. An event that does
/// not answer the pending step leaves the stage as it is.
pub open spec fn transfer_next(phase: TransferPhase, event: TransferEvent) -> TransferPhase {
    match phase {
        TransferPhase::Finished(_) => phase,
        _ => match event {
            TransferEvent::SessionLost(e) => TransferPhase::Finished(
                FileOutcome::BackendFailed(BackendFailure::Session(e)),
            ),
            TransferEvent::ParentsReady(r) => match phase {
                TransferPhase::Materializing => match r {
                    Ok(_) => TransferPhase::HashingSource,
                    Err(MaterializeError::RemoteUnreachable) => TransferPhase::Finished(
                        FileOutcome::BackendFailed(BackendFailure::Unreachable),
                    ),
                    Err(MaterializeError::CreateFailed { level }) => TransferPhase::Finished(
                        FileOutcome::Skipped(FileFailure::Directory { level }),
                    ),
                },
                _ => phase,
            },
            TransferEvent::SourceHashed(r) => match phase {
                TransferPhase::HashingSource => match r {
                    Ok(h) => TransferPhase::HashingTarget { source: h },
                    Err(e) => TransferPhase::Finished(FileOutcome::Skipped(FileFailure::Hash(e))),
                },
                _ => phase,
            },
            TransferEvent::TargetHashed(r) => match phase {
                TransferPhase::HashingTarget { source } => match r {
                    Ok(Some(t)) => if t@ == source@ {
                        TransferPhase::Finished(FileOutcome::UpToDate)
                    } else {
                        TransferPhase::Receiving
                    },
                    Ok(None) => TransferPhase::Receiving,
                    Err(e) => TransferPhase::Finished(FileOutcome::Skipped(FileFailure::Hash(e))),
                },
                _ => phase,
            },
            TransferEvent::Received(r) => match phase {
                TransferPhase::Receiving => match r {
                    Ok(_) => TransferPhase::Finished(FileOutcome::Copied),
                    Err(e) => TransferPhase::Finished(
                        FileOutcome::Skipped(FileFailure::Transfer(e)),
                    ),
                },
                _ => phase,
            },
        },
    }
}

/// The step that goes with a stage.
pub open spec fn transfer_action_of(phase: TransferPhase) -> TransferAction {
    match phase {
        TransferPhase::Materializing => TransferAction::MaterializeParents,
        TransferPhase::HashingSource => TransferAction::HashSource,
        TransferPhase::HashingTarget { .. } => TransferAction::HashTarget,
        TransferPhase::Receiving => TransferAction::Receive,
        TransferPhase::Finished(o) => TransferAction::Finish(o),
    }
}

/// The transfer of one file to one destination.
pub struct FileTransfer {
    /// The destination path, relative to the destination base.
    pub target: Vec<String>,
    pub phase: TransferPhase,
}

impl FileTransfer {
    /// A transfer to `target` that starts by materializing its parents.
    pub fn new(target: Vec<String>) -> (r: FileTransfer)
        ensures
            r.target == target,
            r.phase == TransferPhase::Materializing,
    {
        FileTransfer { target, phase: TransferPhase::Materializing }
    }

    /// The next step (see `transfer_action_of`).
    pub fn action(&self) -> (r: TransferAction)
        ensures
            r == transfer_action_of(self.phase),
    {
        match &self.phase {
            TransferPhase::Materializing => TransferAction::MaterializeParents,
            TransferPhase::HashingSource => TransferAction::HashSource,
            TransferPhase::HashingTarget { .. } => TransferAction::HashTarget,
            TransferPhase::Receiving => TransferAction::Receive,
            TransferPhase::Finished(o) => TransferAction::Finish(*o),
        }
    }

    /// Feeds the result of the pending step and says what to do next. When
    /// the destination's fingerprint equals the source's, the transfer ends
    /// as up to date and no copy is asked for.
    pub fn step(&mut self, event: TransferEvent) -> (r: TransferAction)
        ensures
            final(self).target == old(self).target,
            final(self).phase == transfer_next(old(self).phase, event),
            r == transfer_action_of(final(self).phase),
    {
        let next = match &self.phase {
            TransferPhase::Finished(_) => {
                return self.action();
            },
            _ => match event {
                TransferEvent::SessionLost(e) => TransferPhase::Finished(
                    FileOutcome::BackendFailed(BackendFailure::Session(e)),
                ),
                TransferEvent::ParentsReady(r) => match &self.phase {
                    TransferPhase::Materializing => match r {
                        Ok(_) => TransferPhase::HashingSource,
                        Err(MaterializeError::RemoteUnreachable) => TransferPhase::Finished(
                            FileOutcome::BackendFailed(BackendFailure::Unreachable),
                        ),
                        Err(MaterializeError::CreateFailed { level }) => TransferPhase::Finished(
                            FileOutcome::Skipped(FileFailure::Directory { level }),
                        ),
                    },
                    _ => {
                        return self.action();
                    },
                },
                TransferEvent::SourceHashed(r) => match &self.phase {
                    TransferPhase::HashingSource => match r {
                        Ok(h) => TransferPhase::HashingTarget { source: h },
                        Err(e) => TransferPhase::Finished(
                            FileOutcome::Skipped(FileFailure::Hash(e)),
                        ),
                    },
                    _ => {
                        return self.action();
                    },
                },
                TransferEvent::TargetHashed(r) => match &self.phase {
                    TransferPhase::HashingTarget { source } => match r {
                        Ok(Some(t)) => if t == *source {
                            TransferPhase::Finished(FileOutcome::UpToDate)
                        } else {
                            TransferPhase::Receiving
                        },
                        Ok(None) => TransferPhase::Receiving,
                        Err(e) => TransferPhase::Finished(
                            FileOutcome::Skipped(FileFailure::Hash(e)),
                        ),
                    },
                    _ => {
                        return self.action();
                    },
                },
                TransferEvent::Received(r) => match &self.phase {
                    TransferPhase::Receiving => match r {
                        Ok(_) => TransferPhase::Finished(FileOutcome::Copied),
                        Err(e) => TransferPhase::Finished(
                            FileOutcome::Skipped(FileFailure::Transfer(e)),
                        ),
                    },
                    _ => {
                        return self.action();
                    },
                },
            },
        };
        self.phase = next;
        self.action()
    }
}

/// The tally of one destination over one cycle. A destination failure ends
/// the destination's cycle; file failures only skip the file.
pub struct CycleTally {
    pub copied: u64,
    pub up_to_date: u64,
    pub skipped: u64,
    /// Set once the destination failed; it is then skipped until the next
    /// cycle.
    pub failed: Option<BackendFailure>,
}

impl CycleTally {
    /// A tally with nothing recorded.
    pub fn new() -> (r: CycleTally)
        ensures
            r.copied == 0 && r.up_to_date == 0 && r.skipped == 0 && r.failed is None,
    {
        CycleTally { copied: 0, up_to_date: 0, skipped: 0, failed: None }
    }

    /// Whether the destination still takes files this cycle.
    pub fn goes_on(&self) -> (r: bool)
        ensures
            r == (self.failed is None),
    {
        self.failed.is_none()
    }

    /// Records how a file's transfer ended. Counts saturate at `u64::MAX`.
    pub fn record(&mut self, outcome: FileOutcome)
        ensures
            final(self).copied == (if outcome == FileOutcome::Copied && old(self).copied < u64::MAX {
                (old(self).copied + 1) as u64
            } else {
                old(self).copied
            }),
            final(self).up_to_date == (if outcome == FileOutcome::UpToDate && old(self).up_to_date
                < u64::MAX {
                (old(self).up_to_date + 1) as u64
            } else {
                old(self).up_to_date
            }),
            final(self).skipped == (if outcome is Skipped && old(self).skipped < u64::MAX {
                (old(self).skipped + 1) as u64
            } else {
                old(self).skipped
            }),
            final(self).failed == (match outcome {
                FileOutcome::BackendFailed(f) => Some(f),
                _ => old(self).failed,
            }),
    {
        match outcome {
            FileOutcome::Copied => {
                self.copied = self.copied.saturating_add(1);
            },
            FileOutcome::UpToDate => {
                self.up_to_date = self.up_to_date.saturating_add(1);
            },
            FileOutcome::Skipped(_) => {
                self.skipped = self.skipped.saturating_add(1);
            },
            FileOutcome::BackendFailed(f) => {
                self.failed = Some(f);
            },
        }
    }
}

/// Whether a transfer result, when it reports a fingerprint of the source
/// or of a present destination file, reports `h`.
pub open spec fn reports_only(event: TransferEvent, h: Seq<char>) -> bool {
    match event {
        TransferEvent::SourceHashed(Ok(s)) => s@ == h,
        TransferEvent::TargetHashed(Ok(Some(t))) => t@ == h,
        TransferEvent::TargetHashed(Ok(None)) => false,
        _ => true,
    }
}

/// The number of copies a transfer asks for over a sequence of results.
pub open spec fn copies_asked(phase: TransferPhase, events: Seq<TransferEvent>) -> nat
    decreases events.len(),
{
    if events.len() == 0 {
        0
    } else {
        let next = transfer_next(phase, events[0]);
        let asked: nat = if next is Receiving && !(phase is Receiving) {
            1
        } else {
            0
        };
        asked + copies_asked(next, events.drop_first())
    }
}

/// The stages a transfer passes through while every fingerprint is `h`.
pub open spec fn before_copy(phase: TransferPhase, h: Seq<char>) -> bool {
    match phase {
        TransferPhase::Materializing => true,
        TransferPhase::HashingSource => true,
        TransferPhase::HashingTarget { source } => source@ == h,
        TransferPhase::Finished(_) => true,
        TransferPhase::Receiving => false,
    }
}

proof fn lemma_no_copy_from(phase: TransferPhase, h: Seq<char>, events: Seq<TransferEvent>)
    requires
        before_copy(phase, h),
        forall|i: int| 0 <= i < events.len() ==> reports_only(#[trigger] events[i], h),
    ensures
        copies_asked(phase, events) == 0,
    decreases events.len(),
{
    if events.len() > 0 {
        assert(reports_only(events[0], h));
        let next = transfer_next(phase, events[0]);
        assert(before_copy(next, h));
        let rest = events.drop_first();
        assert forall|i: int| 0 <= i < rest.len() implies reports_only(#[trigger] rest[i], h) by {
            assert(rest[i] == events[i + 1]);
        }
        lemma_no_copy_from(next, h, rest);
    }
}

/// A file whose destination already holds a file with the same fingerprint
/// is never copied: whatever results a transfer receives, as long as every
/// fingerprint reported for the source and for the destination is the same
/// value, it asks for no copy.
pub proof fn lemma_idempotent_transfer(h: Seq<char>, events: Seq<TransferEvent>)
    requires
        forall|i: int| 0 <= i < events.len() ==> reports_only(#[trigger] events[i], h),
    ensures
        copies_asked(TransferPhase::Materializing, events) == 0,
{
    lemma_no_copy_from(TransferPhase::Materializing, h, events);
}

/// The destination path of a cataloged file found under a source root;
/// `None` when the file does not lie under that root.
pub fn convert_local_file_to_target(source: &LocalFile, root: &LocalSourceManager) -> (r: Option<Vec<String>>)
    ensures
        r is Some <==> is_path_prefix(source.path.deep_view(), root.base_path.deep_view()),
        r is Some ==> r->0.deep_view() == destination_of(
            root.base_path.deep_view(),
            source.path.deep_view(),
        ),
{
    crate::paths::destination_path(&root.base_path, &source.path)
}

impl LocalFile {
    /// Starts the transfer of this file, found under `root`, to its
    /// destination path; `None` when the file does not lie under `root`.
    pub fn upload_to_folder(&self, root: &LocalSourceManager) -> (r: Option<FileTransfer>)
        ensures
            r is Some <==> is_path_prefix(self.path.deep_view(), root.base_path.deep_view()),
            r is Some ==> r->0.target.deep_view() == destination_of(
                root.base_path.deep_view(),
                self.path.deep_view(),
            ) && r->0.phase == TransferPhase::Materializing,
    {
        match convert_local_file_to_target(self, root) {
            Some(target) => Some(FileTransfer::new(target)),
            None => None,
        }
    }
}

/// The destination paths of the files that lie under `root`, in order.
pub open spec fn targets_under(root: Seq<Seq<char>>, files: Seq<LocalFile>) -> Seq<Seq<Seq<char>>>
    decreases files.len(),
{
    if files.len() == 0 {
        seq![]
    } else {
        let prev = targets_under(root, files.drop_last());
        let p = files.last().path.deep_view();
        if is_path_prefix(p, root) {
            prev.push(destination_of(root, p))
        } else {
            prev
        }
    }
}

impl LocalSourceManager {
    /// Starts the transfers of the files that lie under this root, in order;
    /// the others are left out.
    pub fn upload_to_folder(&self, files: &Vec<LocalFile>) -> (r: Vec<FileTransfer>)
        ensures
            r.len() == targets_under(self.base_path.deep_view(), files@).len(),
            forall|i: int|
                0 <= i < r.len() ==> (#[trigger] r[i]).target.deep_view() == targets_under(
                    self.base_path.deep_view(),
                    files@,
                )[i] && r[i].phase == TransferPhase::Materializing,
    {
        let ghost root = self.base_path.deep_view();
        let mut out: Vec<FileTransfer> = Vec::new();
        let mut i: usize = 0;
        while i < files.len()
            invariant
                root == self.base_path.deep_view(),
                i <= files.len(),
                out.len() == targets_under(root, files@.subrange(0, i as int)).len(),
                forall|j: int|
                    0 <= j < out.len() ==> (#[trigger] out[j]).target.deep_view() == targets_under(
                        root,
                        files@.subrange(0, i as int),
                    )[j] && out[j].phase == TransferPhase::Materializing,
            decreases files.len() - i,
        {
            assert(files@.subrange(0, i + 1).drop_last() =~= files@.subrange(0, i as int));
            assert(files@.subrange(0, i + 1).last() == files@[i as int]);
            match files[i].upload_to_folder(self) {
                Some(t) => {
                    out.push(t);
                },
                None => {},
            }
            i = i + 1;
        }
        assert(files@.subrange(0, files.len() as int) =~= files@);
        out
    }
}

/// A path made safe inside single quotes of a POSIX shell: backslashes
/// become slashes and each quote is closed, escaped and reopened.
pub open spec fn shell_quoted(s: Seq<char>) -> Seq<char>
    decreases s.len(),
{
    if s.len() == 0 {
        seq![]
    } else {
        shell_quoted(s.drop_last()) + quote_char(s.last())
    }
}

/// The quoted form of one character (see `shell_quoted`).
pub open spec fn quote_char(c: char) -> Seq<char> {
    if c == '\\' {
        seq!['/']
    } else if c == '\'' {
        seq!['\'', '\\', '\'', '\'']
    } else {
        seq![c]
    }
}

/// The remote command that prints the digest of the file at `path`.
pub open spec fn digest_command_of(path: Seq<char>) -> Seq<char> {
    "sha256sum '"@ + shell_quoted(path) + "' | awk '{print $1}'"@
}

/// Builds the remote command that prints the digest of the file at `path`,
/// so that only the digest travels back.
pub fn remote_digest_command(path: &str) -> (r: String)
    ensures
        r@ == digest_command_of(path@),
{
    let mut cmd = String::from_str("sha256sum '");
    let ghost head = cmd@;
    let n = path.unicode_len();
    let mut i: usize = 0;
    while i < n
        invariant
            n == path@.len(),
            i <= n,
            head == "sha256sum '"@,
            cmd@ == head + shell_quoted(path@.subrange(0, i as int)),
        decreases n - i,
    {
        let c = path.get_char(i);
        let ghost before = cmd@;
        if c == '\\' {
            push_char(&mut cmd, '/');
        } else if c == '\'' {
            push_char(&mut cmd, '\'');
            push_char(&mut cmd, '\\');
            push_char(&mut cmd, '\'');
            push_char(&mut cmd, '\'');
        } else {
            push_char(&mut cmd, c);
        }
        assert(cmd@ =~= before + quote_char(c));
        assert(path@.subrange(0, i + 1).drop_last() =~= path@.subrange(0, i as int));
        assert(cmd@ =~= head + shell_quoted(path@.subrange(0, i + 1)));
        i = i + 1;
    }
    assert(path@.subrange(0, n as int) =~= path@);
    cmd.append("' | awk '{print $1}'");
    cmd
}

/// The destination fingerprint from what the remote side reported: `None`
/// when no file is at the path, the trimmed output of a command that exited
/// with 0, `RemoteExecutionFailed` with any other exit code, and
/// `ConnectionLost` when no exit code could be read.
pub fn remote_digest_result(present: bool, exit_status: Option<i32>, output: &str) -> (r: Result<
    Option<String>,
    HashError,
>)
    ensures
        !present ==> r is Ok && r->Ok_0 is None,
        present && exit_status is None ==> r == Err::<Option<String>, HashError>(
            HashError::ConnectionLost,
        ),
        present && exit_status == Some(0i32) ==> r is Ok && r->Ok_0 is Some && r->Ok_0->0@
            == trimmed_of(output@),
        present && exit_status is Some && exit_status != Some(0i32) ==> r == Err::<
            Option<String>,
            HashError,
        >(HashError::RemoteExecutionFailed { exit_code: exit_status->0 }),
{
    if !present {
        return Ok(None);
    }
    match exit_status {
        None => Err(HashError::ConnectionLost),
        Some(code) => if code == 0 {
            Ok(Some(trim(output)))
        } else {
            Err(HashError::RemoteExecutionFailed { exit_code: code })
        },
    }
}

} // verus!
