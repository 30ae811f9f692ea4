use ppt_stealer::catalog::LocalSourceManager;
use ppt_stealer::config::{ServerParams, UploadTarget};
use ppt_stealer::fingerprint::{HashError, LocalFile};
use ppt_stealer::materialize::MaterializeError;
use ppt_stealer::session::{ConfigError, SessionError};
use ppt_stealer::sync::{
    get_default_folder_name, plan_backends, source_roots, Backend, FolderManager,
    LocalTargetManager, RootCandidate, Volume,
};
use ppt_stealer::transfer::{
    convert_local_file_to_target, CycleTally, remote_digest_command, remote_digest_result, BackendFailure,
    FileFailure, FileOutcome, FileTransfer, TransferAction, TransferError, TransferEvent,
};

fn comps(parts: &[&str]) -> Vec<String> {
    parts.iter().map(|s| s.to_string()).collect()
}

/// Drives a transfer with fixed answers; returns the outcome and the number
/// of copies asked for.
fn drive(source: &str, target: Option<&str>) -> (FileOutcome, usize) {
    let mut t = FileTransfer::new(comps(&["Desktop", "a.pptx"]));
    let mut copies = 0;
    let mut action = t.action();
    loop {
        action = match action {
            TransferAction::MaterializeParents => t.step(TransferEvent::ParentsReady(Ok(()))),
            TransferAction::HashSource => t.step(TransferEvent::SourceHashed(Ok(source.to_string()))),
            TransferAction::HashTarget => {
                t.step(TransferEvent::TargetHashed(Ok(target.map(|s| s.to_string()))))
            }
            TransferAction::Receive => {
                copies += 1;
                t.step(TransferEvent::Received(Ok(())))
            }
            TransferAction::Finish(o) => return (o, copies),
        }
    }
}

#[test]
fn same_fingerprint_is_not_copied_again() {
    assert_eq!(drive("abc", Some("abc")), (FileOutcome::UpToDate, 0));
}

#[test]
fn different_or_absent_destination_is_copied() {
    assert_eq!(drive("abc", Some("abd")), (FileOutcome::Copied, 1));
    assert_eq!(drive("abc", None), (FileOutcome::Copied, 1));
}

#[test]
fn failures_end_the_file_or_the_backend() {
    let mut t = FileTransfer::new(comps(&["x"]));
    assert_eq!(
        t.step(TransferEvent::ParentsReady(Err(MaterializeError::RemoteUnreachable))),
        TransferAction::Finish(FileOutcome::BackendFailed(BackendFailure::Unreachable))
    );
    let mut t = FileTransfer::new(comps(&["x"]));
    t.step(TransferEvent::ParentsReady(Ok(())));
    assert_eq!(
        t.step(TransferEvent::SourceHashed(Err(HashError::NotFound))),
        TransferAction::Finish(FileOutcome::Skipped(FileFailure::Hash(HashError::NotFound)))
    );
    let mut t = FileTransfer::new(comps(&["x"]));
    t.step(TransferEvent::ParentsReady(Ok(())));
    t.step(TransferEvent::SourceHashed(Ok("a".to_string())));
    t.step(TransferEvent::TargetHashed(Ok(None)));
    assert_eq!(
        t.step(TransferEvent::Received(Err(TransferError::DiskFull))),
        TransferAction::Finish(FileOutcome::Skipped(FileFailure::Transfer(TransferError::DiskFull)))
    );
    let mut t = FileTransfer::new(comps(&["x"]));
    assert_eq!(
        t.step(TransferEvent::SessionLost(SessionError::SessionUnavailable)),
        TransferAction::Finish(FileOutcome::BackendFailed(BackendFailure::Session(
            SessionError::SessionUnavailable
        )))
    );
    let mut t = FileTransfer::new(comps(&["x"]));
    t.step(TransferEvent::ParentsReady(Err(MaterializeError::CreateFailed { level: 1 })));
    assert_eq!(
        t.action(),
        TransferAction::Finish(FileOutcome::Skipped(FileFailure::Directory { level: 1 }))
    );
}

#[test]
fn unexpected_events_change_nothing() {
    let mut t = FileTransfer::new(comps(&["x"]));
    assert_eq!(t.step(TransferEvent::Received(Ok(()))), TransferAction::MaterializeParents);
}

#[test]
fn upload_to_folder_targets_the_root_label() {
    let root = LocalSourceManager { base_path: comps(&["home", "u", "Desktop"]) };
    let f = LocalFile::new(comps(&["home", "u", "Desktop", "d", "a.docx"]), 0);
    let t = f.upload_to_folder(&root).unwrap();
    assert_eq!(t.target, comps(&["Desktop", "d", "a.docx"]));
    assert_eq!(t.action(), TransferAction::MaterializeParents);
    let elsewhere = LocalFile::new(comps(&["tmp", "a.docx"]), 0);
    assert!(elsewhere.upload_to_folder(&root).is_none());
    assert_eq!(convert_local_file_to_target(&elsewhere, &root), None);
    let all = root.upload_to_folder(&vec![f, elsewhere]);
    assert_eq!(all.len(), 1);
}

#[test]
fn digest_command_quotes_the_path() {
    assert_eq!(
        remote_digest_command("/srv/Desktop/a b.pptx"),
        "sha256sum '/srv/Desktop/a b.pptx' | awk '{print $1}'"
    );
    assert_eq!(
        remote_digest_command("C:\\x\\it's.md"),
        "sha256sum 'C:/x/it'\\''s.md' | awk '{print $1}'"
    );
}

#[test]
fn digest_result_interpretation() {
    assert_eq!(remote_digest_result(false, None, ""), Ok(None));
    assert_eq!(remote_digest_result(true, Some(0), "  abc\n"), Ok(Some("abc".to_string())));
    assert_eq!(
        remote_digest_result(true, Some(127), "x"),
        Err(HashError::RemoteExecutionFailed { exit_code: 127 })
    );
    assert_eq!(remote_digest_result(true, None, ""), Err(HashError::ConnectionLost));
}

fn ok_root(p: &[&str]) -> RootCandidate {
    RootCandidate { path: Some(comps(p)), is_dir: true }
}

#[test]
fn source_roots_union() {
    let desktop = ok_root(&["home", "u", "Desktop"]);
    let volumes = vec![
        Volume { mount_point: comps(&["media", "usb"]), is_removable: true },
        Volume { mount_point: comps(&[]), is_removable: false },
    ];
    let extras = vec![ok_root(&["data"]), ok_root(&["home", "u", "Desktop"])];
    let roots = source_roots(Some(&desktop), &volumes, true, &extras).unwrap();
    assert_eq!(
        roots,
        vec![comps(&["home", "u", "Desktop"]), comps(&["media", "usb"]), comps(&["data"])]
    );
    let without_usb = source_roots(Some(&desktop), &volumes, false, &vec![]).unwrap();
    assert_eq!(without_usb, vec![comps(&["home", "u", "Desktop"])]);
}

#[test]
fn invalid_source_paths_abort() {
    let desktop = ok_root(&["d"]);
    assert_eq!(source_roots(None, &vec![], false, &vec![]), Err(ConfigError::NoDesktop));
    let bad = RootCandidate { path: Some(comps(&["f.txt"])), is_dir: false };
    assert_eq!(
        source_roots(Some(&bad), &vec![], false, &vec![]),
        Err(ConfigError::InvalidSourcePath)
    );
    let missing = RootCandidate { path: None, is_dir: false };
    assert_eq!(
        source_roots(Some(&desktop), &vec![], false, &vec![missing]),
        Err(ConfigError::InvalidSourcePath)
    );
}

fn server() -> ServerParams {
    ServerParams {
        ip: Some("h".to_string()),
        port: Some(22),
        username: Some("u".to_string()),
        password: Some("p".to_string()),
        key_auth: false,
    }
}

#[test]
fn backend_planning() {
    let plan = plan_backends(&vec![UploadTarget::Local, UploadTarget::SshServer], &server()).unwrap();
    assert_eq!(plan.len(), 2);
    assert!(matches!(plan[0], Backend::Local));
    assert!(matches!(plan[1], Backend::Ssh(_)));
    assert!(matches!(plan_backends(&vec![UploadTarget::SshServer, UploadTarget::Local], &server()), Err(ConfigError::OnlyOneRemote)));
    assert!(matches!(plan_backends(&vec![UploadTarget::SshServer, UploadTarget::SshServer], &server()), Err(ConfigError::OnlyOneRemote)));
    assert!(matches!(plan_backends(&vec![UploadTarget::SmbServer], &server()), Err(ConfigError::UnsupportedTarget)));
    assert!(matches!(plan_backends(&vec![UploadTarget::Local, UploadTarget::FtpServer], &server()), Err(ConfigError::UnsupportedTarget)));
    let mut no_pw = server();
    no_pw.password = None;
    assert!(matches!(plan_backends(&vec![UploadTarget::SshServer], &no_pw), Err(ConfigError::Missing(_))));
    assert_eq!(plan_backends(&vec![UploadTarget::Local, UploadTarget::Local], &no_pw).unwrap().len(), 2);
}

#[test]
fn default_folder_and_local_target() {
    assert_eq!(
        get_default_folder_name("2024-05-01", "alice", Some("laptop")),
        comps(&["2024-05-01", "alice--laptop"])
    );
    assert_eq!(get_default_folder_name("2024-05-01", "alice", None), comps(&["2024-05-01", "alice"]));
    let m = LocalTargetManager::new(None, comps(&["2024-05-01", "alice"]));
    assert_eq!(m.get_base_path(), comps(&["2024-05-01", "alice"]));
    let n = LocalTargetManager::new(Some(comps(&["backup"])), comps(&["x"]));
    assert_eq!(n.base_path, comps(&["backup"]));
    let s = LocalSourceManager { base_path: comps(&["r"]) };
    assert_eq!(s.get_base_path(), comps(&["r"]));
}

#[test]
fn tally_stops_destination_after_backend_failure() {
    let mut t = CycleTally::new();
    t.record(FileOutcome::Copied);
    t.record(FileOutcome::UpToDate);
    t.record(FileOutcome::Skipped(FileFailure::Hash(HashError::NotFound)));
    assert!(t.goes_on());
    t.record(FileOutcome::BackendFailed(BackendFailure::Unreachable));
    assert!(!t.goes_on());
    assert_eq!((t.copied, t.up_to_date, t.skipped), (1, 1, 1));
    assert_eq!(t.failed, Some(BackendFailure::Unreachable));
}
