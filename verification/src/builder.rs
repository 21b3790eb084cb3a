//! One package's build, orchestrated step by step.
//!
//! A [`Worker`] owns one package and decides every step of its build:
//! which directory to replace, which files go into each payload and
//! under which names, when the build has failed and with which error,
//! and whether the finished archive is folded into the shared bundle.
//! The caller carries each decided action out against the filesystem and
//! the archive streams, then reports the outcome back as the next event.
//! Every decision — every path, every in-archive name, every state
//! change — is fixed by the contracts here; the caller adds nothing.

use crate::metadata::{chosen, select_metadata};
use crate::pathname::{
    bundle_member_name, deb_file_name, deb_suffix, in_archive_name, join_path, joined,
    member_prefix, strip_root,
};
use vstd::pervasive::unreached;
use vstd::prelude::*;

verus! {

/// The fixed in-archive name of the synthesized control entry.
pub open spec fn control_name() -> Seq<char> {
    "control"@
}

/// The administrative subdirectory that holds per-package metadata files.
pub open spec fn info_name() -> Seq<char> {
    "info"@
}

/// Settings shared by every worker of one run.
#[derive(Clone, Debug)]
pub struct Preferences {
    /// Delete a standalone archive once it was folded into a bundle.
    pub remove_deb: bool,
    /// The package manager's administrative root, read-only.
    pub admin_dir: String,
    /// The output directory, read-write.
    pub destination: String,
    /// Compression level for both payloads, 0 (none) through 9 (maximum).
    pub compression_level: u32,
}

impl Preferences {
    /// A compression level an assembler can be asked for.
    pub open spec fn wf(self) -> bool {
        self.compression_level <= 9
    }

    /// Fresh preferences: archives are removed after a successful fold,
    /// and payloads are stored uncompressed.
    pub fn new(admin_dir: &str, destination: &str) -> (r: Self)
        ensures
            r.remove_deb == true,
            r.admin_dir@ == admin_dir@,
            r.destination@ == destination@,
            r.compression_level == 0,
            r.wf(),
    {
        Self {
            remove_deb: true,
            admin_dir: String::from_str(admin_dir),
            destination: String::from_str(destination),
            compression_level: 0,
        }
    }
}

/// What the build needs to know of one installed package, read from the
/// administrative database by the caller.
#[derive(Clone, Debug)]
pub struct Package {
    /// The stable administrative key.
    pub id: String,
    /// The filesystem-safe name, used for the working directory and the
    /// standalone archive's file name.
    pub canonical_name: String,
    /// The human-readable display name.
    pub human_name: String,
    /// The serialized control-file text.
    pub control: String,
}

/// A progress sink: reports a status line and counts finished units.
/// Implementations must not block appreciably.
pub trait Progress {
    /// Sets a human-readable status message.
    fn set_message(&self, message: String);

    /// Adds to the completed-unit counter.
    fn increment(&self, amount: u64);
}

/// One write into an archive payload.
#[derive(Clone, Debug, PartialEq, Eq)]
pub enum ArchiveWrite {
    /// Bytes handed to the archive as a fresh entry under `name`.
    Content { name: String, content: String },
    /// A real file copied from `source` into the archive under `name`.
    FromPath { source: String, name: String },
}

/// The phase a fatal error belongs to, named so a failure can be told
/// apart by what the build was doing.
#[derive(Clone, Copy, Debug, PartialEq, Eq, Structural)]
pub enum BuildPhase {
    /// Replacing the working directory.
    Preparation,
    /// Gathering installed files or metadata.
    Collection,
    /// Opening or finalizing the package archive.
    Assembly,
    /// Appending the finished archive into the shared bundle.
    Fold,
}

/// Why a build failed.
#[derive(Clone, Copy, Debug, PartialEq, Eq, Structural)]
pub enum BuildError {
    /// A fatal filesystem or archive error in the given phase.
    Io { phase: BuildPhase },
    /// The shared bundle's lock was held by another fold; never waited
    /// out or retried by the build itself.
    LockContention,
}

/// The instruction to fold one finished archive into the shared bundle.
#[derive(Clone, Debug, PartialEq, Eq)]
pub struct FoldPlan {
    /// The standalone archive to append.
    pub source: String,
    /// The name it is stored under inside the bundle.
    pub member_name: String,
    /// Whether to delete the standalone archive, best-effort, once it
    /// was appended.
    pub remove_after: bool,
}

/// Where one package's build stands.
#[derive(Clone, Debug, PartialEq, Eq)]
pub enum WorkState {
    /// Nothing happened yet.
    Ready,
    /// The working directory is being replaced.
    Preparing,
    /// The archive assembler is being opened.
    Opening,
    /// The installed-file enumeration is being read.
    CollectingFiles,
    /// Installed files are being appended to the data payload.
    AppendingData,
    /// The control entry is being written to the control payload.
    WritingControl,
    /// The administrative `info` directory is being listed.
    CollectingMetadata,
    /// Metadata files are being appended to the control payload.
    AppendingMetadata,
    /// The assembler is composing the final container.
    Finalizing,
    /// The working directory is being removed after a finished build.
    CleaningUp,
    /// The finished archive is being folded into the shared bundle.
    Folding,
    /// The working directory is being removed after a failed build.
    FailingCleanup { error: BuildError },
    /// The build finished; the standalone archive stood at `deb_path`
    /// and was folded into the bundle iff `folded`.
    Done { deb_path: String, folded: bool },
    /// The build failed.
    Failed { error: BuildError },
}

/// What the caller reports back after carrying an action out.
#[derive(Clone, Debug, PartialEq, Eq)]
pub enum WorkEvent {
    /// Begin the build.
    Start,
    /// The working directory was destroyed and created anew; `ok` is
    /// whether creation succeeded.
    DirPrepared { ok: bool },
    /// The archive assembler was opened.
    AssemblerOpened { ok: bool },
    /// The package's installed-file enumeration, absolute paths; absent
    /// when it could not be obtained.
    InstalledFiles { files: Option<Vec<String>> },
    /// Every data append was attempted; `failed` names the files that
    /// could not be copied, each already logged by the caller.
    DataAppended { failed: Vec<String> },
    /// The control entry was written.
    ControlWritten { ok: bool },
    /// The `info` directory's entry names; absent when it was unreadable.
    InfoListed { entries: Option<Vec<String>> },
    /// Every metadata append was attempted; `failed` as for data.
    MetadataAppended { failed: Vec<String> },
    /// The final container was composed.
    Finalized { ok: bool },
    /// Working-directory removal was attempted, success or not.
    CleanedUp,
    /// The fold into the shared bundle ended.
    FoldFinished { outcome: FoldOutcome },
}

/// How a fold into the shared bundle ended.
#[derive(Clone, Copy, Debug, PartialEq, Eq, Structural)]
pub enum FoldOutcome {
    /// The archive was fully appended, exactly once.
    Appended,
    /// The bundle's lock was held by another fold; nothing was appended.
    Contended,
    /// Appending failed partway; the caller reports it as an error.
    AppendFailed,
}

/// What the caller must do next.
#[derive(Clone, Debug, PartialEq, Eq)]
pub enum WorkAction {
    /// Destroy the directory if present — a leftover from an earlier
    /// run, not an error — then create it fresh.
    PrepareWorkingDir { path: String },
    /// Open an assembler that will compose `deb_path` from the payloads
    /// staged under `working_dir`.
    OpenAssembler { working_dir: String, deb_path: String, compression_level: u32 },
    /// Read the package's installed-file enumeration against the
    /// administrative root.
    EnumerateInstalledFiles { admin_dir: String },
    /// Append each write to the data payload; a single failure is logged
    /// with the package id and skipped, never fatal.
    AppendData { writes: Vec<ArchiveWrite> },
    /// Write the control entry to the control payload; failure is fatal.
    WriteControl { write: ArchiveWrite },
    /// List the entry names of the given directory.
    ListInfoDir { path: String },
    /// Append each write to the control payload; a single failure is
    /// logged with the package id and skipped, never fatal.
    AppendMetadata { writes: Vec<ArchiveWrite> },
    /// Compress the payloads, write the format marker and compose the
    /// final container.
    FinalizeArchive,
    /// Remove the directory, best-effort; errors are ignored.
    CleanupWorkingDir { path: String },
    /// Acquire the bundle's lock without blocking; under contention fail
    /// at once, otherwise append the source, then carry out the plan's
    /// removal, and release the lock on every path.
    TryFold { plan: FoldPlan },
    /// The build ended; there is nothing left to do.
    Finish,
}

/// Whether one write copies the installed file at `path` into the
/// archive under its root-stripped name.
pub open spec fn write_is_data_copy(path: Seq<char>, w: ArchiveWrite) -> bool {
    w matches ArchiveWrite::FromPath { source, name } && source@ == path && name@ == strip_root(
        path,
    )
}

/// Whether `writes` copies exactly the enumerated installed files, in
/// order, each under its root-stripped name.
pub open spec fn data_writes_for(files: Seq<Seq<char>>, writes: Seq<ArchiveWrite>) -> bool {
    &&& writes.len() == files.len()
    &&& forall|i: int| 0 <= i < files.len() ==> write_is_data_copy(files[i], #[trigger] writes[i])
}

/// Whether one write copies the selected metadata entry out of the
/// `info` directory into the archive under its suffix name.
pub open spec fn write_is_metadata_copy(
    info_dir: Seq<char>,
    entry: (Seq<char>, Seq<char>),
    w: ArchiveWrite,
) -> bool {
    w matches ArchiveWrite::FromPath { source, name } && source@ == joined(info_dir, entry.0)
        && name@ == entry.1
}

/// Whether `writes` copies exactly the metadata entries chosen from the
/// directory listing, in listing order.
pub open spec fn metadata_writes_for(
    id: Seq<char>,
    entries: Seq<Seq<char>>,
    info_dir: Seq<char>,
    writes: Seq<ArchiveWrite>,
) -> bool {
    &&& writes.len() == chosen(id, entries).len()
    &&& forall|i: int|
        0 <= i < writes.len() ==> write_is_metadata_copy(
            info_dir,
            chosen(id, entries)[i],
            #[trigger] writes[i],
        )
}

/// Whether the state is one of the two the build can end in.
pub open spec fn is_terminal(state: WorkState) -> bool {
    state is Done || state is Failed
}

/// The event each state waits for; terminal states wait for none.
pub open spec fn expects(state: WorkState, event: WorkEvent) -> bool {
    match state {
        WorkState::Ready => event is Start,
        WorkState::Preparing => event is DirPrepared,
        WorkState::Opening => event is AssemblerOpened,
        WorkState::CollectingFiles => event is InstalledFiles,
        WorkState::AppendingData => event is DataAppended,
        WorkState::WritingControl => event is ControlWritten,
        WorkState::CollectingMetadata => event is InfoListed,
        WorkState::AppendingMetadata => event is MetadataAppended,
        WorkState::Finalizing => event is Finalized,
        WorkState::CleaningUp => event is CleanedUp,
        WorkState::Folding => event is FoldFinished,
        WorkState::FailingCleanup { .. } => event is CleanedUp,
        WorkState::Done { .. } => false,
        WorkState::Failed { .. } => false,
    }
}

/// How far a build has come; every step strictly increases it.
pub open spec fn state_rank(state: WorkState) -> nat {
    match state {
        WorkState::Ready => 0,
        WorkState::Preparing => 1,
        WorkState::Opening => 2,
        WorkState::CollectingFiles => 3,
        WorkState::AppendingData => 4,
        WorkState::WritingControl => 5,
        WorkState::CollectingMetadata => 6,
        WorkState::AppendingMetadata => 7,
        WorkState::Finalizing => 8,
        WorkState::CleaningUp => 9,
        WorkState::Folding => 10,
        WorkState::FailingCleanup { .. } => 11,
        WorkState::Done { .. } => 12,
        WorkState::Failed { .. } => 12,
    }
}

/// Builds one package's standalone archive and optionally folds it into
/// a shared bundle. One worker is created and driven per package; it is
/// not reused.
pub struct Worker<T: Progress> {
    /// The package this worker builds.
    pub package: Package,
    /// Where status and completed units are reported.
    pub progress: T,
    /// Whether a shared bundle is attached, into which the finished
    /// archive is folded.
    pub archive: bool,
    /// The run's shared settings.
    pub preferences: Preferences,
    /// This worker's private scratch directory, derived from the
    /// destination and the package's canonical name.
    pub working_dir: String,
}

impl<T: Progress> Worker<T> {
    /// The working directory this worker owns: no other package's worker
    /// derives the same path from its canonical name.
    pub open spec fn working_dir_spec(self) -> Seq<char> {
        joined(self.preferences.destination@, self.package.canonical_name@)
    }

    /// Where the standalone archive is written.
    pub open spec fn deb_path_spec(self) -> Seq<char> {
        joined(self.preferences.destination@, self.package.canonical_name@ + deb_suffix())
    }

    /// The administrative `info` directory the metadata is read from.
    pub open spec fn info_dir_spec(self) -> Seq<char> {
        joined(self.preferences.admin_dir@, info_name())
    }

    /// A worker whose derived working directory agrees with its fields.
    pub open spec fn wf(self) -> bool {
        self.working_dir@ == self.working_dir_spec() && self.preferences.wf()
    }

    /// A worker for one package, with its working directory derived from
    /// the destination and the package's canonical name.
    pub fn new(package: Package, progress: T, archive: bool, preferences: Preferences) -> (r: Self)
        requires
            preferences.wf(),
        ensures
            r.package == package,
            r.archive == archive,
            r.preferences == preferences,
            r.wf(),
    {
        let working_dir = join_path(preferences.destination.as_str(), package.canonical_name.as_str());
        Self { package, progress, archive, preferences, working_dir }
    }

    /// The writes that copy the enumerated installed files into the data
    /// payload: every file, in order, under its root-stripped name.
    pub fn archive_files(&self, files: &Vec<String>) -> (r: Vec<ArchiveWrite>)
        ensures
            data_writes_for(files.deep_view(), r@),
    {
        let mut r: Vec<ArchiveWrite> = Vec::new();
        let mut i: usize = 0;
        while i < files.len()
            invariant
                i <= files.len(),
                r@.len() == i,
                forall|j: int|
                    0 <= j < i ==> write_is_data_copy(files.deep_view()[j], #[trigger] r@[j]),
            decreases files.len() - i,
        {
            let source = files[i].clone();
            let name = in_archive_name(files[i].as_str());
            r.push(ArchiveWrite::FromPath { source, name });
            i += 1;
        }
        r
    }

    /// The writes that copy the chosen metadata entries out of the
    /// `info` directory into the control payload, each under its suffix
    /// name, in listing order.
    fn metadata_appends(&self, entries: &Vec<String>) -> (r: Vec<ArchiveWrite>)
        ensures
            metadata_writes_for(
                self.package.id@,
                entries.deep_view(),
                self.info_dir_spec(),
                r@,
            ),
    {
        let sel = select_metadata(self.package.id.as_str(), entries);
        let info_dir = join_path(self.preferences.admin_dir.as_str(), "info");
        let mut r: Vec<ArchiveWrite> = Vec::new();
        let mut i: usize = 0;
        while i < sel.len()
            invariant
                i <= sel.len(),
                r@.len() == i,
                info_dir@ == self.info_dir_spec(),
                sel.deep_view() == chosen(self.package.id@, entries.deep_view()),
                forall|j: int|
                    0 <= j < i ==> write_is_metadata_copy(
                        self.info_dir_spec(),
                        chosen(self.package.id@, entries.deep_view())[j],
                        #[trigger] r@[j],
                    ),
            decreases sel.len() - i,
        {
            let source = join_path(info_dir.as_str(), sel[i].0.as_str());
            let name = sel[i].1.clone();
            r.push(ArchiveWrite::FromPath { source, name });
            i += 1;
        }
        r
    }

    /// The full control-payload write list of the original collection
    /// step: the synthesized control entry first, then every chosen
    /// metadata entry.
    pub fn archive_metadata(&self, entries: &Vec<String>) -> (r: Vec<ArchiveWrite>)
        ensures
            r@.len() == chosen(self.package.id@, entries.deep_view()).len() + 1,
            r@[0] matches ArchiveWrite::Content { name, content } && name@ == control_name()
                && content@ == self.package.control@,
            metadata_writes_for(
                self.package.id@,
                entries.deep_view(),
                self.info_dir_spec(),
                r@.skip(1),
            ),
    {
        let mut r = self.metadata_appends(entries);
        let ghost appends = r@;
        r.insert(
            0,
            ArchiveWrite::Content {
                name: String::from_str("control"),
                content: self.package.control.clone(),
            },
        );
        proof {
            assert(r@.skip(1) =~= appends);
        }
        r
    }

    /// A failed build turns to its cleanup step: the working directory
    /// is removed before the error is surfaced.
    pub open spec fn fail_step(self, error: BuildError, r: (WorkState, WorkAction)) -> bool {
        &&& r.0 == (WorkState::FailingCleanup { error })
        &&& r.1 matches WorkAction::CleanupWorkingDir { path } && path@ == self.working_dir_spec()
    }

    /// The whole transition table of one build: for each state and each
    /// outcome the caller can report, the state the build moves to and
    /// the one action the caller must carry out next.
    pub open spec fn step_ok(self, state: WorkState, event: WorkEvent, r: (WorkState, WorkAction)) -> bool {
        match (state, event) {
            (WorkState::Ready, WorkEvent::Start) => {
                &&& r.0 is Preparing
                &&& r.1 matches WorkAction::PrepareWorkingDir { path } && path@
                    == self.working_dir_spec()
            },
            (WorkState::Preparing, WorkEvent::DirPrepared { ok }) => if ok {
                &&& r.0 is Opening
                &&& r.1 matches WorkAction::OpenAssembler { working_dir, deb_path, compression_level }
                    && working_dir@ == self.working_dir_spec() && deb_path@ == self.deb_path_spec()
                    && compression_level == self.preferences.compression_level
            } else {
                self.fail_step(BuildError::Io { phase: BuildPhase::Preparation }, r)
            },
            (WorkState::Opening, WorkEvent::AssemblerOpened { ok }) => if ok {
                &&& r.0 is CollectingFiles
                &&& r.1 matches WorkAction::EnumerateInstalledFiles { admin_dir } && admin_dir@
                    == self.preferences.admin_dir@
            } else {
                self.fail_step(BuildError::Io { phase: BuildPhase::Assembly }, r)
            },
            (WorkState::CollectingFiles, WorkEvent::InstalledFiles { files }) => match files {
                Some(files) => {
                    &&& r.0 is AppendingData
                    &&& r.1 matches WorkAction::AppendData { writes } && data_writes_for(
                        files.deep_view(),
                        writes@,
                    )
                },
                None => self.fail_step(BuildError::Io { phase: BuildPhase::Collection }, r),
            },
            (WorkState::AppendingData, WorkEvent::DataAppended { .. }) => {
                &&& r.0 is WritingControl
                &&& r.1 matches WorkAction::WriteControl { write } && (write matches
                    ArchiveWrite::Content { name, content } && name@ == control_name() && content@
                    == self.package.control@)
            },
            (WorkState::WritingControl, WorkEvent::ControlWritten { ok }) => if ok {
                &&& r.0 is CollectingMetadata
                &&& r.1 matches WorkAction::ListInfoDir { path } && path@ == self.info_dir_spec()
            } else {
                self.fail_step(BuildError::Io { phase: BuildPhase::Collection }, r)
            },
            (WorkState::CollectingMetadata, WorkEvent::InfoListed { entries }) => match entries {
                Some(entries) => {
                    &&& r.0 is AppendingMetadata
                    &&& r.1 matches WorkAction::AppendMetadata { writes } && metadata_writes_for(
                        self.package.id@,
                        entries.deep_view(),
                        self.info_dir_spec(),
                        writes@,
                    )
                },
                None => self.fail_step(BuildError::Io { phase: BuildPhase::Collection }, r),
            },
            (WorkState::AppendingMetadata, WorkEvent::MetadataAppended { .. }) => {
                &&& r.0 is Finalizing
                &&& r.1 is FinalizeArchive
            },
            (WorkState::Finalizing, WorkEvent::Finalized { ok }) => if ok {
                &&& r.0 is CleaningUp
                &&& r.1 matches WorkAction::CleanupWorkingDir { path } && path@
                    == self.working_dir_spec()
            } else {
                self.fail_step(BuildError::Io { phase: BuildPhase::Assembly }, r)
            },
            (WorkState::CleaningUp, WorkEvent::CleanedUp) => if self.archive {
                &&& r.0 is Folding
                &&& r.1 matches WorkAction::TryFold { plan } && plan.source@ == self.deb_path_spec()
                    && plan.member_name@ == member_prefix() + (self.package.canonical_name@
                    + deb_suffix()) && plan.remove_after == self.preferences.remove_deb
            } else {
                &&& r.0 matches WorkState::Done { deb_path, folded } && deb_path@
                    == self.deb_path_spec() && folded == false
                &&& r.1 is Finish
            },
            (WorkState::Folding, WorkEvent::FoldFinished { outcome }) => match outcome {
                FoldOutcome::Appended => {
                    &&& r.0 matches WorkState::Done { deb_path, folded } && deb_path@
                        == self.deb_path_spec() && folded == true
                    &&& r.1 is Finish
                },
                FoldOutcome::Contended => {
                    &&& r.0 == (WorkState::Failed { error: BuildError::LockContention })
                    &&& r.1 is Finish
                },
                FoldOutcome::AppendFailed => {
                    &&& r.0 == (WorkState::Failed {
                        error: BuildError::Io { phase: BuildPhase::Fold },
                    })
                    &&& r.1 is Finish
                },
            },
            (WorkState::FailingCleanup { error }, WorkEvent::CleanedUp) => {
                &&& r.0 == (WorkState::Failed { error })
                &&& r.1 is Finish
            },
            _ => false,
        }
    }

    /// The failure transition: the working directory's removal is still
    /// requested before the error is surfaced.
    fn fail(&self, error: BuildError) -> (r: (WorkState, WorkAction))
        requires
            self.wf(),
        ensures
            self.fail_step(error, r),
    {
        (
            WorkState::FailingCleanup { error },
            WorkAction::CleanupWorkingDir { path: self.working_dir.clone() },
        )
    }

    /// Where the standalone archive is written: the destination joined
    /// with the canonical name and the archive extension.
    fn deb_path(&self) -> (r: String)
        ensures
            r@ == self.deb_path_spec(),
    {
        let file_name = deb_file_name(self.package.canonical_name.as_str());
        join_path(self.preferences.destination.as_str(), file_name.as_str())
    }

    /// Advances this package's build by one step: takes the outcome the
    /// caller reports for the pending step, reports progress around it,
    /// and decides the next state and the next action. Every decision is
    /// fixed by the transition table [`Worker::step_ok`].
    pub fn work(&self, state: WorkState, event: WorkEvent) -> (r: (WorkState, WorkAction))
        requires
            self.wf(),
            expects(state, event),
        ensures
            self.step_ok(state, event, r),
    {
        match (state, event) {
            (WorkState::Ready, WorkEvent::Start) => {
                let mut message = String::from_str("Processing ");
                message.append(self.package.human_name.as_str());
                self.progress.set_message(message);
                (
                    WorkState::Preparing,
                    WorkAction::PrepareWorkingDir { path: self.working_dir.clone() },
                )
            },
            (WorkState::Preparing, WorkEvent::DirPrepared { ok }) => if ok {
                (
                    WorkState::Opening,
                    WorkAction::OpenAssembler {
                        working_dir: self.working_dir.clone(),
                        deb_path: self.deb_path(),
                        compression_level: self.preferences.compression_level,
                    },
                )
            } else {
                self.fail(BuildError::Io { phase: BuildPhase::Preparation })
            },
            (WorkState::Opening, WorkEvent::AssemblerOpened { ok }) => if ok {
                (
                    WorkState::CollectingFiles,
                    WorkAction::EnumerateInstalledFiles {
                        admin_dir: self.preferences.admin_dir.clone(),
                    },
                )
            } else {
                self.fail(BuildError::Io { phase: BuildPhase::Assembly })
            },
            (WorkState::CollectingFiles, WorkEvent::InstalledFiles { files }) => match files {
                Some(files) => (
                    WorkState::AppendingData,
                    WorkAction::AppendData { writes: self.archive_files(&files) },
                ),
                None => self.fail(BuildError::Io { phase: BuildPhase::Collection }),
            },
            (WorkState::AppendingData, WorkEvent::DataAppended { .. }) => (
                WorkState::WritingControl,
                WorkAction::WriteControl {
                    write: ArchiveWrite::Content {
                        name: String::from_str("control"),
                        content: self.package.control.clone(),
                    },
                },
            ),
            (WorkState::WritingControl, WorkEvent::ControlWritten { ok }) => if ok {
                (
                    WorkState::CollectingMetadata,
                    WorkAction::ListInfoDir {
                        path: join_path(self.preferences.admin_dir.as_str(), "info"),
                    },
                )
            } else {
                self.fail(BuildError::Io { phase: BuildPhase::Collection })
            },
            (WorkState::CollectingMetadata, WorkEvent::InfoListed { entries }) => match entries {
                Some(entries) => (
                    WorkState::AppendingMetadata,
                    WorkAction::AppendMetadata { writes: self.metadata_appends(&entries) },
                ),
                None => self.fail(BuildError::Io { phase: BuildPhase::Collection }),
            },
            (WorkState::AppendingMetadata, WorkEvent::MetadataAppended { .. }) => (
                WorkState::Finalizing,
                WorkAction::FinalizeArchive,
            ),
            (WorkState::Finalizing, WorkEvent::Finalized { ok }) => if ok {
                (
                    WorkState::CleaningUp,
                    WorkAction::CleanupWorkingDir { path: self.working_dir.clone() },
                )
            } else {
                self.fail(BuildError::Io { phase: BuildPhase::Assembly })
            },
            (WorkState::CleaningUp, WorkEvent::CleanedUp) => {
                self.progress.increment(1);
                let mut message = String::from_str("Done ");
                message.append(self.package.human_name.as_str());
                self.progress.set_message(message);
                if self.archive {
                    let file_name = deb_file_name(self.package.canonical_name.as_str());
                    (
                        WorkState::Folding,
                        WorkAction::TryFold {
                            plan: FoldPlan {
                                source: self.deb_path(),
                                member_name: bundle_member_name(file_name.as_str()),
                                remove_after: self.preferences.remove_deb,
                            },
                        },
                    )
                } else {
                    (
                        WorkState::Done { deb_path: self.deb_path(), folded: false },
                        WorkAction::Finish,
                    )
                }
            },
            (WorkState::Folding, WorkEvent::FoldFinished { outcome }) => match outcome {
                FoldOutcome::Appended => (
                    WorkState::Done { deb_path: self.deb_path(), folded: true },
                    WorkAction::Finish,
                ),
                FoldOutcome::Contended => (
                    WorkState::Failed { error: BuildError::LockContention },
                    WorkAction::Finish,
                ),
                FoldOutcome::AppendFailed => (
                    WorkState::Failed { error: BuildError::Io { phase: BuildPhase::Fold } },
                    WorkAction::Finish,
                ),
            },
            (WorkState::FailingCleanup { error }, WorkEvent::CleanedUp) => (
                WorkState::Failed { error },
                WorkAction::Finish,
            ),
            _ => unreached(),
        }
    }
}

/// Every build begins by destroying and recreating its own working
/// directory, so a second run against the same destination and package
/// starts from a fully replaced directory, with no residue of the first.
pub proof fn lemma_build_replaces_working_dir<T: Progress>(
    w: Worker<T>,
    r: (WorkState, WorkAction),
)
    requires
        w.step_ok(WorkState::Ready, WorkEvent::Start, r),
    ensures
        r.0 is Preparing,
        r.1 matches WorkAction::PrepareWorkingDir { path } && path@ == w.working_dir_spec(),
{
}

/// No data payload entry is stored under an absolute name: every write
/// carries its installed path's root-stripped name, and — provided no
/// installed path begins with a doubled separator — no in-archive name
/// begins with a separator.
pub proof fn lemma_archive_names_relative(files: Seq<Seq<char>>, writes: Seq<ArchiveWrite>)
    requires
        data_writes_for(files, writes),
        forall|i: int|
            0 <= i < files.len() ==> !(#[trigger] files[i].len() >= 2 && files[i][0] == '/'
                && files[i][1] == '/'),
    ensures
        forall|i: int| 0 <= i < writes.len() ==> write_name_relative(#[trigger] writes[i]),
{
    assert forall|i: int| 0 <= i < writes.len() implies write_name_relative(
        #[trigger] writes[i],
    ) by {
        assert(write_is_data_copy(files[i], writes[i]));
        crate::pathname::lemma_in_archive_name_relative(files[i]);
    }
}

/// Whether a write copies a file into the archive under a name that
/// does not begin with the path separator.
pub open spec fn write_name_relative(w: ArchiveWrite) -> bool {
    w matches ArchiveWrite::FromPath { name, .. } && (name@.len() > 0 ==> name@[0] != '/')
}

/// A fold into the shared bundle is asked for only out of the cleanup
/// step of a finished build, and only with a bundle attached. Since
/// every step strictly advances the build, no run asks for it twice.
pub proof fn lemma_fold_only_from_cleanup<T: Progress>(
    w: Worker<T>,
    state: WorkState,
    event: WorkEvent,
    r: (WorkState, WorkAction),
)
    requires
        w.step_ok(state, event, r),
        r.1 matches WorkAction::TryFold { .. },
    ensures
        state is CleaningUp,
        w.archive,
{
}

/// Every step strictly advances the build: no state is ever entered a
/// second time, and a run always terminates.
pub proof fn lemma_steps_advance<T: Progress>(
    w: Worker<T>,
    state: WorkState,
    event: WorkEvent,
    r: (WorkState, WorkAction),
)
    requires
        w.step_ok(state, event, r),
    ensures
        state_rank(r.0) > state_rank(state),
{
}

/// The fold removes the standalone archive exactly when the run's
/// preferences ask for it: the plan requests removal iff `remove_deb`,
/// and names the standalone archive as its source.
pub proof fn lemma_fold_removal_follows_preference<T: Progress>(
    w: Worker<T>,
    state: WorkState,
    event: WorkEvent,
    r: (WorkState, WorkAction),
    plan: FoldPlan,
)
    requires
        w.step_ok(state, event, r),
        r.1 == (WorkAction::TryFold { plan }),
    ensures
        plan.remove_after == w.preferences.remove_deb,
        plan.source@ == w.deb_path_spec(),
        plan.member_name@ == member_prefix() + (w.package.canonical_name@ + deb_suffix()),
{
}

/// Per-file append failures are never fatal: whatever the caller lists
/// as failed, appending moves the build on to its next step, never to a
/// failure.
pub proof fn lemma_appends_fault_tolerant<T: Progress>(
    w: Worker<T>,
    state: WorkState,
    event: WorkEvent,
    r: (WorkState, WorkAction),
)
    requires
        w.step_ok(state, event, r),
        state is AppendingData || state is AppendingMetadata,
    ensures
        state is AppendingData ==> r.0 is WritingControl,
        state is AppendingMetadata ==> r.0 is Finalizing,
{
}

/// Contention on the bundle's lock fails the fold at once and cleanly,
/// with its own error, distinct from every I/O failure; nothing is
/// retried.
pub proof fn lemma_contention_fails_cleanly<T: Progress>(
    w: Worker<T>,
    state: WorkState,
    r: (WorkState, WorkAction),
)
    requires
        w.step_ok(state, WorkEvent::FoldFinished { outcome: FoldOutcome::Contended }, r),
    ensures
        r.0 == (WorkState::Failed { error: BuildError::LockContention }),
        r.1 is Finish,
{
}

/// A build ends only out of a cleanup or fold step: working-directory
/// removal is attempted on the way to success and failure alike.
pub proof fn lemma_cleanup_precedes_end<T: Progress>(
    w: Worker<T>,
    state: WorkState,
    event: WorkEvent,
    r: (WorkState, WorkAction),
)
    requires
        w.step_ok(state, event, r),
        is_terminal(r.0),
    ensures
        state is CleaningUp || state is Folding || state is FailingCleanup,
{
}

} // verus!
