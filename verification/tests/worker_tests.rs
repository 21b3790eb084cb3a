use std::cell::{Cell, RefCell};
use std::rc::Rc;
use twackup::builder::{
    ArchiveWrite, BuildError, BuildPhase, FoldOutcome, Package, Preferences, Progress, WorkAction,
    WorkEvent, WorkState, Worker,
};

struct Recorder {
    messages: Rc<RefCell<Vec<String>>>,
    units: Rc<Cell<u64>>,
}

impl Progress for Recorder {
    fn set_message(&self, message: String) {
        self.messages.borrow_mut().push(message);
    }

    fn increment(&self, amount: u64) {
        self.units.set(self.units.get() + amount);
    }
}

fn sample_package() -> Package {
    Package {
        id: "com.example.app".to_string(),
        canonical_name: "com.example.app".to_string(),
        human_name: "Example App".to_string(),
        control: "Package: com.example.app\nVersion: 1.0\n".to_string(),
    }
}

fn sample_worker(archive: bool, remove_deb: bool) -> (Worker<Recorder>, Rc<RefCell<Vec<String>>>, Rc<Cell<u64>>) {
    let messages = Rc::new(RefCell::new(Vec::new()));
    let units = Rc::new(Cell::new(0));
    let progress = Recorder { messages: Rc::clone(&messages), units: Rc::clone(&units) };
    let mut preferences = Preferences::new("/var/lib/dpkg", "/var/backup");
    preferences.remove_deb = remove_deb;
    let worker = Worker::new(sample_package(), progress, archive, preferences);
    (worker, messages, units)
}

#[test]
fn preferences_defaults() {
    let p = Preferences::new("/var/lib/dpkg", "/var/backup");
    assert!(p.remove_deb);
    assert_eq!(p.admin_dir, "/var/lib/dpkg");
    assert_eq!(p.destination, "/var/backup");
    assert_eq!(p.compression_level, 0);
}

#[test]
fn worker_derives_its_working_dir() {
    let (worker, _, _) = sample_worker(false, true);
    assert_eq!(worker.working_dir, "/var/backup/com.example.app");
}

#[test]
fn build_starts_by_replacing_the_working_dir() {
    let (worker, messages, _) = sample_worker(false, true);
    let (state, action) = worker.work(WorkState::Ready, WorkEvent::Start);
    assert_eq!(state, WorkState::Preparing);
    assert_eq!(
        action,
        WorkAction::PrepareWorkingDir { path: "/var/backup/com.example.app".to_string() }
    );
    assert_eq!(messages.borrow().as_slice(), ["Processing Example App"]);
}

#[test]
fn repeated_builds_make_the_same_first_decision() {
    let (worker, _, _) = sample_worker(false, true);
    let first = worker.work(WorkState::Ready, WorkEvent::Start);
    let second = worker.work(WorkState::Ready, WorkEvent::Start);
    assert_eq!(first, second);
}

#[test]
fn full_build_without_bundle_leaves_the_standalone_archive() {
    let (worker, messages, units) = sample_worker(false, true);
    let (state, action) = worker.work(WorkState::Ready, WorkEvent::Start);
    assert_eq!(state, WorkState::Preparing);
    assert!(matches!(action, WorkAction::PrepareWorkingDir { .. }));

    let (state, action) = worker.work(state, WorkEvent::DirPrepared { ok: true });
    assert_eq!(state, WorkState::Opening);
    assert_eq!(
        action,
        WorkAction::OpenAssembler {
            working_dir: "/var/backup/com.example.app".to_string(),
            deb_path: "/var/backup/com.example.app.deb".to_string(),
            compression_level: 0,
        }
    );

    let (state, action) = worker.work(state, WorkEvent::AssemblerOpened { ok: true });
    assert_eq!(state, WorkState::CollectingFiles);
    assert_eq!(
        action,
        WorkAction::EnumerateInstalledFiles { admin_dir: "/var/lib/dpkg".to_string() }
    );

    let files = vec!["/usr/bin/foo".to_string(), "/etc/foo.conf".to_string()];
    let (state, action) = worker.work(state, WorkEvent::InstalledFiles { files: Some(files) });
    assert_eq!(state, WorkState::AppendingData);
    assert_eq!(
        action,
        WorkAction::AppendData {
            writes: vec![
                ArchiveWrite::FromPath {
                    source: "/usr/bin/foo".to_string(),
                    name: "usr/bin/foo".to_string(),
                },
                ArchiveWrite::FromPath {
                    source: "/etc/foo.conf".to_string(),
                    name: "etc/foo.conf".to_string(),
                },
            ],
        }
    );

    let (state, action) = worker.work(state, WorkEvent::DataAppended { failed: Vec::new() });
    assert_eq!(state, WorkState::WritingControl);
    assert_eq!(
        action,
        WorkAction::WriteControl {
            write: ArchiveWrite::Content {
                name: "control".to_string(),
                content: "Package: com.example.app\nVersion: 1.0\n".to_string(),
            },
        }
    );

    let (state, action) = worker.work(state, WorkEvent::ControlWritten { ok: true });
    assert_eq!(state, WorkState::CollectingMetadata);
    assert_eq!(action, WorkAction::ListInfoDir { path: "/var/lib/dpkg/info".to_string() });

    let entries = vec![
        "com.example.app.postinst".to_string(),
        "com.example.app.list".to_string(),
        "com.example.other.config".to_string(),
    ];
    let (state, action) = worker.work(state, WorkEvent::InfoListed { entries: Some(entries) });
    assert_eq!(state, WorkState::AppendingMetadata);
    assert_eq!(
        action,
        WorkAction::AppendMetadata {
            writes: vec![ArchiveWrite::FromPath {
                source: "/var/lib/dpkg/info/com.example.app.postinst".to_string(),
                name: "postinst".to_string(),
            }],
        }
    );

    let (state, action) = worker.work(state, WorkEvent::MetadataAppended { failed: Vec::new() });
    assert_eq!(state, WorkState::Finalizing);
    assert_eq!(action, WorkAction::FinalizeArchive);

    let (state, action) = worker.work(state, WorkEvent::Finalized { ok: true });
    assert_eq!(state, WorkState::CleaningUp);
    assert_eq!(
        action,
        WorkAction::CleanupWorkingDir { path: "/var/backup/com.example.app".to_string() }
    );

    let (state, action) = worker.work(state, WorkEvent::CleanedUp);
    assert_eq!(
        state,
        WorkState::Done { deb_path: "/var/backup/com.example.app.deb".to_string(), folded: false }
    );
    assert_eq!(action, WorkAction::Finish);

    assert_eq!(units.get(), 1);
    assert_eq!(messages.borrow().as_slice(), ["Processing Example App", "Done Example App"]);
}

fn drive_to_fold(worker: &Worker<Recorder>) -> (WorkState, WorkAction) {
    let (state, _) = worker.work(WorkState::Ready, WorkEvent::Start);
    let (state, _) = worker.work(state, WorkEvent::DirPrepared { ok: true });
    let (state, _) = worker.work(state, WorkEvent::AssemblerOpened { ok: true });
    let (state, _) = worker.work(state, WorkEvent::InstalledFiles { files: Some(Vec::new()) });
    let (state, _) = worker.work(state, WorkEvent::DataAppended { failed: Vec::new() });
    let (state, _) = worker.work(state, WorkEvent::ControlWritten { ok: true });
    let (state, _) = worker.work(state, WorkEvent::InfoListed { entries: Some(Vec::new()) });
    let (state, _) = worker.work(state, WorkEvent::MetadataAppended { failed: Vec::new() });
    let (state, _) = worker.work(state, WorkEvent::Finalized { ok: true });
    worker.work(state, WorkEvent::CleanedUp)
}

#[test]
fn fold_plan_requests_removal_iff_remove_deb() {
    let (worker, _, _) = sample_worker(true, true);
    let (state, action) = drive_to_fold(&worker);
    assert_eq!(state, WorkState::Folding);
    match action {
        WorkAction::TryFold { plan } => {
            assert_eq!(plan.source, "/var/backup/com.example.app.deb");
            assert_eq!(plan.member_name, "./com.example.app.deb");
            assert!(plan.remove_after);
        },
        other => panic!("expected a fold, got {:?}", other),
    }

    let (worker, _, _) = sample_worker(true, false);
    let (_, action) = drive_to_fold(&worker);
    match action {
        WorkAction::TryFold { plan } => assert!(!plan.remove_after),
        other => panic!("expected a fold, got {:?}", other),
    }
}

#[test]
fn successful_fold_ends_the_build() {
    let (worker, _, _) = sample_worker(true, true);
    let (state, _) = drive_to_fold(&worker);
    let (state, action) =
        worker.work(state, WorkEvent::FoldFinished { outcome: FoldOutcome::Appended });
    assert_eq!(
        state,
        WorkState::Done { deb_path: "/var/backup/com.example.app.deb".to_string(), folded: true }
    );
    assert_eq!(action, WorkAction::Finish);
}

#[test]
fn contended_fold_fails_with_its_own_error() {
    let (worker, _, _) = sample_worker(true, true);
    let (state, _) = drive_to_fold(&worker);
    let (state, action) =
        worker.work(state, WorkEvent::FoldFinished { outcome: FoldOutcome::Contended });
    assert_eq!(state, WorkState::Failed { error: BuildError::LockContention });
    assert_eq!(action, WorkAction::Finish);
}

#[test]
fn failed_fold_append_is_an_io_error_in_the_fold_phase() {
    let (worker, _, _) = sample_worker(true, true);
    let (state, _) = drive_to_fold(&worker);
    let (state, _) =
        worker.work(state, WorkEvent::FoldFinished { outcome: FoldOutcome::AppendFailed });
    assert_eq!(state, WorkState::Failed { error: BuildError::Io { phase: BuildPhase::Fold } });
}

#[test]
fn per_file_failures_do_not_fail_the_build() {
    let (worker, _, _) = sample_worker(false, true);
    let (state, _) = worker.work(WorkState::Ready, WorkEvent::Start);
    let (state, _) = worker.work(state, WorkEvent::DirPrepared { ok: true });
    let (state, _) = worker.work(state, WorkEvent::AssemblerOpened { ok: true });
    let files = vec!["/usr/bin/foo".to_string(), "/usr/bin/missing".to_string()];
    let (state, _) = worker.work(state, WorkEvent::InstalledFiles { files: Some(files) });
    let failed = vec!["/usr/bin/missing".to_string()];
    let (state, _) = worker.work(state, WorkEvent::DataAppended { failed });
    assert_eq!(state, WorkState::WritingControl);
    let (state, _) = worker.work(state, WorkEvent::ControlWritten { ok: true });
    let (state, _) = worker.work(state, WorkEvent::InfoListed { entries: Some(Vec::new()) });
    let failed = vec!["com.example.app.postinst".to_string()];
    let (state, _) = worker.work(state, WorkEvent::MetadataAppended { failed });
    assert_eq!(state, WorkState::Finalizing);
}

#[test]
fn create_dir_failure_fails_after_cleanup() {
    let (worker, _, units) = sample_worker(false, true);
    let (state, _) = worker.work(WorkState::Ready, WorkEvent::Start);
    let (state, action) = worker.work(state, WorkEvent::DirPrepared { ok: false });
    assert_eq!(
        state,
        WorkState::FailingCleanup { error: BuildError::Io { phase: BuildPhase::Preparation } }
    );
    assert_eq!(
        action,
        WorkAction::CleanupWorkingDir { path: "/var/backup/com.example.app".to_string() }
    );
    let (state, action) = worker.work(state, WorkEvent::CleanedUp);
    assert_eq!(state, WorkState::Failed { error: BuildError::Io { phase: BuildPhase::Preparation } });
    assert_eq!(action, WorkAction::Finish);
    assert_eq!(units.get(), 0);
}

#[test]
fn unreadable_info_dir_is_a_collection_error() {
    let (worker, _, _) = sample_worker(false, true);
    let (state, _) = worker.work(WorkState::Ready, WorkEvent::Start);
    let (state, _) = worker.work(state, WorkEvent::DirPrepared { ok: true });
    let (state, _) = worker.work(state, WorkEvent::AssemblerOpened { ok: true });
    let (state, _) = worker.work(state, WorkEvent::InstalledFiles { files: Some(Vec::new()) });
    let (state, _) = worker.work(state, WorkEvent::DataAppended { failed: Vec::new() });
    let (state, _) = worker.work(state, WorkEvent::ControlWritten { ok: true });
    let (state, _) = worker.work(state, WorkEvent::InfoListed { entries: None });
    assert_eq!(
        state,
        WorkState::FailingCleanup { error: BuildError::Io { phase: BuildPhase::Collection } }
    );
}

#[test]
fn assembler_open_failure_is_an_assembly_error() {
    let (worker, _, _) = sample_worker(false, true);
    let (state, _) = worker.work(WorkState::Ready, WorkEvent::Start);
    let (state, _) = worker.work(state, WorkEvent::DirPrepared { ok: true });
    let (state, _) = worker.work(state, WorkEvent::AssemblerOpened { ok: false });
    assert_eq!(
        state,
        WorkState::FailingCleanup { error: BuildError::Io { phase: BuildPhase::Assembly } }
    );
}

#[test]
fn finalize_failure_is_an_assembly_error() {
    let (worker, _, units) = sample_worker(false, true);
    let (state, _) = worker.work(WorkState::Ready, WorkEvent::Start);
    let (state, _) = worker.work(state, WorkEvent::DirPrepared { ok: true });
    let (state, _) = worker.work(state, WorkEvent::AssemblerOpened { ok: true });
    let (state, _) = worker.work(state, WorkEvent::InstalledFiles { files: Some(Vec::new()) });
    let (state, _) = worker.work(state, WorkEvent::DataAppended { failed: Vec::new() });
    let (state, _) = worker.work(state, WorkEvent::ControlWritten { ok: true });
    let (state, _) = worker.work(state, WorkEvent::InfoListed { entries: Some(Vec::new()) });
    let (state, _) = worker.work(state, WorkEvent::MetadataAppended { failed: Vec::new() });
    let (state, _) = worker.work(state, WorkEvent::Finalized { ok: false });
    assert_eq!(
        state,
        WorkState::FailingCleanup { error: BuildError::Io { phase: BuildPhase::Assembly } }
    );
    let (state, _) = worker.work(state, WorkEvent::CleanedUp);
    assert_eq!(state, WorkState::Failed { error: BuildError::Io { phase: BuildPhase::Assembly } });
    assert_eq!(units.get(), 0);
}

#[test]
fn control_write_failure_is_a_collection_error() {
    let (worker, _, _) = sample_worker(false, true);
    let (state, _) = worker.work(WorkState::Ready, WorkEvent::Start);
    let (state, _) = worker.work(state, WorkEvent::DirPrepared { ok: true });
    let (state, _) = worker.work(state, WorkEvent::AssemblerOpened { ok: true });
    let (state, _) = worker.work(state, WorkEvent::InstalledFiles { files: Some(Vec::new()) });
    let (state, _) = worker.work(state, WorkEvent::DataAppended { failed: Vec::new() });
    let (state, _) = worker.work(state, WorkEvent::ControlWritten { ok: false });
    assert_eq!(
        state,
        WorkState::FailingCleanup { error: BuildError::Io { phase: BuildPhase::Collection } }
    );
}

#[test]
fn missing_file_enumeration_is_a_collection_error() {
    let (worker, _, _) = sample_worker(false, true);
    let (state, _) = worker.work(WorkState::Ready, WorkEvent::Start);
    let (state, _) = worker.work(state, WorkEvent::DirPrepared { ok: true });
    let (state, _) = worker.work(state, WorkEvent::AssemblerOpened { ok: true });
    let (state, _) = worker.work(state, WorkEvent::InstalledFiles { files: None });
    assert_eq!(
        state,
        WorkState::FailingCleanup { error: BuildError::Io { phase: BuildPhase::Collection } }
    );
}

#[test]
fn archive_files_keeps_order_and_sources() {
    let (worker, _, _) = sample_worker(false, true);
    let files = vec!["/usr/bin/foo".to_string(), "relative/path".to_string()];
    let writes = worker.archive_files(&files);
    assert_eq!(
        writes,
        vec![
            ArchiveWrite::FromPath {
                source: "/usr/bin/foo".to_string(),
                name: "usr/bin/foo".to_string(),
            },
            ArchiveWrite::FromPath {
                source: "relative/path".to_string(),
                name: "relative/path".to_string(),
            },
        ]
    );
}

#[test]
fn archive_metadata_writes_control_first() {
    let (worker, _, _) = sample_worker(false, true);
    let entries = vec![
        "com.example.app.postinst".to_string(),
        "com.example.app.list".to_string(),
        "com.example.app.prerm".to_string(),
        "com.example.other.config".to_string(),
    ];
    let writes = worker.archive_metadata(&entries);
    assert_eq!(
        writes,
        vec![
            ArchiveWrite::Content {
                name: "control".to_string(),
                content: "Package: com.example.app\nVersion: 1.0\n".to_string(),
            },
            ArchiveWrite::FromPath {
                source: "/var/lib/dpkg/info/com.example.app.postinst".to_string(),
                name: "postinst".to_string(),
            },
            ArchiveWrite::FromPath {
                source: "/var/lib/dpkg/info/com.example.app.prerm".to_string(),
                name: "prerm".to_string(),
            },
        ]
    );
}
