use cloud_edit::session::Backend;
use cloud_edit::session::DownloadError;
use cloud_edit::session::RemoteObjectRef;
use cloud_edit::session::Session;
use cloud_edit::session::SessionFailure;
use cloud_edit::session::UploadError;
use cloud_edit::session::SessionPhase;
use cloud_edit::session::SyncDecision;
use cloud_edit::session::WorkingCopy;

#[test]
fn end_to_end_edit_session() {
    // Remote object b/k holds "v1"; the user edits it to "v2"; one upload
    // carries "v2"; a clean editor exit gives exit code 0.
    let origin = RemoteObjectRef::new(Backend::S3, String::from("b"), String::from("k"), None);
    let copy = WorkingCopy::resolve(origin, None, String::from("/tmp/edit-k"));
    assert!(copy.should_remove_after());

    let mut remote: Vec<u8> = b"v1".to_vec();
    let mut uploads: usize = 0;

    let mut s = Session::new(500);
    s.begin_download();
    let mut local = remote.clone();
    s.download_finished(None);
    assert_eq!(local, b"v1".to_vec());
    assert!(s.watch_started(true));
    assert_eq!(s.phase, SessionPhase::Editing);

    // The editor writes "v2"; the watcher reports a change.
    local = b"v2".to_vec();
    assert_eq!(s.on_change(1_000), Some(1_500));
    // The debounce window passes with no further event: one upload.
    match s.on_timer_fired(1_500) {
        SyncDecision::StartUpload => {
            uploads += 1;
            remote = local.clone();
        }
        other => panic!("expected an upload, got {:?}", other),
    }
    assert!(!s.upload_finished(None));
    assert_eq!(remote, b"v2".to_vec());
    assert_eq!(uploads, 1);

    // The editor exits cleanly; nothing is pending, so no further upload.
    assert!(!s.editor_exited(true));
    s.sync_drained();
    assert_eq!(s.exit_code(), 0);
}

#[test]
fn editor_failure_gives_nonzero_exit() {
    // Same setup, but the editor exits with status 1: the process exit
    // code is non-zero even though the upload for "v2" succeeded.
    let mut remote: Vec<u8> = b"v1".to_vec();
    let mut s = Session::new(500);
    s.begin_download();
    let mut local = remote.clone();
    s.download_finished(None);
    assert!(s.watch_started(true));

    local = b"v2".to_vec();
    s.on_change(1_000);
    match s.on_timer_fired(1_500) {
        SyncDecision::StartUpload => remote = local.clone(),
        other => panic!("expected an upload, got {:?}", other),
    }
    assert!(!s.upload_finished(None));
    assert_eq!(remote, b"v2".to_vec());

    assert!(!s.editor_exited(false));
    s.sync_drained();
    assert_ne!(s.exit_code(), 0);
}

#[test]
fn failed_download_never_launches_editor() {
    let mut s = Session::new(500);
    s.begin_download();
    s.download_finished(Some(DownloadError::NotFound));
    assert_eq!(s.phase, SessionPhase::Terminated);
    assert!(!s.editor_launched);
    assert_eq!(
        s.failure,
        Some(SessionFailure::DownloadFailed(DownloadError::NotFound))
    );
    assert_ne!(s.exit_code(), 0);
}

#[test]
fn failed_watch_is_fatal_before_editing() {
    let mut s = Session::new(500);
    s.begin_download();
    s.download_finished(None);
    assert!(!s.watch_started(false));
    assert_eq!(s.phase, SessionPhase::Terminated);
    assert!(!s.editor_launched);
    assert_eq!(s.failure, Some(SessionFailure::WatchFailed));
    assert_ne!(s.exit_code(), 0);
}

#[test]
fn flush_during_upload_is_queued_not_overlapped() {
    let mut s = Session::new(100);
    s.begin_download();
    s.download_finished(None);
    assert!(s.watch_started(true));

    // First flush starts an upload.
    s.on_change(0);
    assert!(matches!(s.on_timer_fired(100), SyncDecision::StartUpload));
    assert!(s.upload_in_flight);

    // A second flush lands while that upload is in flight: queued.
    s.on_change(150);
    assert!(matches!(s.on_timer_fired(250), SyncDecision::FlushQueued));
    assert!(s.upload_in_flight && s.flush_queued);

    // Only when the first completes does the next begin.
    assert!(s.upload_finished(None));
    assert!(s.upload_in_flight && !s.flush_queued);
    assert!(!s.upload_finished(None));
    assert!(!s.upload_in_flight);
}

#[test]
fn upload_failure_is_not_fatal() {
    let mut s = Session::new(100);
    s.begin_download();
    s.download_finished(None);
    assert!(s.watch_started(true));

    s.on_change(0);
    assert!(matches!(s.on_timer_fired(100), SyncDecision::StartUpload));
    // The upload fails: the session keeps editing; the next flush uploads.
    assert!(!s.upload_finished(Some(UploadError::TransientIo)));
    assert_eq!(s.phase, SessionPhase::Editing);
    s.on_change(200);
    assert!(matches!(s.on_timer_fired(300), SyncDecision::StartUpload));
    assert!(!s.upload_finished(None));

    assert!(!s.editor_exited(true));
    s.sync_drained();
    assert_eq!(s.exit_code(), 0);
}

#[test]
fn pending_edit_flushes_once_more_at_exit() {
    let mut s = Session::new(500);
    s.begin_download();
    s.download_finished(None);
    assert!(s.watch_started(true));

    // A change is still inside its debounce window when the editor exits:
    // the session starts one final upload before stopping.
    s.on_change(1_000);
    assert!(s.editor_exited(true));
    assert!(s.upload_in_flight);
    assert!(!s.upload_finished(None));
    s.sync_drained();
    assert_eq!(s.exit_code(), 0);
    assert!(!s.sync_running);
}

#[test]
fn pending_edit_queues_behind_inflight_upload_at_exit() {
    let mut s = Session::new(500);
    s.begin_download();
    s.download_finished(None);
    assert!(s.watch_started(true));

    s.on_change(0);
    assert!(matches!(s.on_timer_fired(500), SyncDecision::StartUpload));
    s.on_change(600);
    // Editor exits while an upload is in flight and an edit is pending:
    // the final flush is queued, not overlapped.
    assert!(!s.editor_exited(true));
    assert!(s.upload_in_flight && s.flush_queued);
    assert!(s.upload_finished(None));
    assert!(!s.upload_finished(None));
    s.sync_drained();
    assert_eq!(s.exit_code(), 0);
}

#[test]
fn timer_rearms_while_events_keep_coming() {
    let mut s = Session::new(500);
    s.begin_download();
    s.download_finished(None);
    assert!(s.watch_started(true));

    assert_eq!(s.on_change(0), Some(500));
    assert_eq!(s.on_change(400), None);
    assert!(matches!(
        s.on_timer_fired(500),
        SyncDecision::Rearm { deadline: 900 }
    ));
    assert!(matches!(s.on_timer_fired(900), SyncDecision::StartUpload));
}

#[test]
fn backend_names() {
    assert_eq!(Backend::from_name("s3"), Some(Backend::S3));
    assert_eq!(Backend::from_name("gcs"), Some(Backend::Gcs));
    assert_eq!(Backend::from_name("azure"), None);
    assert_eq!(Backend::from_name(""), None);
    assert_eq!(Backend::from_name("s3x"), None);
}

#[test]
fn caller_supplied_path_is_kept() {
    let origin = RemoteObjectRef::new(
        Backend::Gcs,
        String::from("bucket"),
        String::from("key"),
        Some(String::from("r1")),
    );
    let copy = WorkingCopy::resolve(
        origin,
        Some(String::from("/home/u/file.txt")),
        String::from("/tmp/unused"),
    );
    assert_eq!(copy.path, String::from("/home/u/file.txt"));
    assert!(!copy.should_remove_after());
    assert_eq!(copy.origin.bucket, String::from("bucket"));
}
