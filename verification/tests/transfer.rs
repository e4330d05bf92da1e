use anki_sync::collection::Collection;
use anki_sync::error::{AnkiError, SyncErrorKind};
use anki_sync::ids::{TimestampMillis, TimestampSecs, Usn};
use anki_sync::progress::{FullSyncProgress, NormalSyncProgress, SyncStage};
use anki_sync::state::{SyncActionRequired, SyncAuth, SyncMeta};
use anki_sync::syncer::Call;
use anki_sync::transfer::{sync_abort, sync_login, DownloadCall, StatusCall, UploadCall};

const COL: Collection = Collection { server: false };

fn auth() -> SyncAuth {
    SyncAuth { hkey: "key".to_string(), host_number: 6 }
}

fn network_error() -> AnkiError {
    AnkiError::NetworkError { info: "offline".to_string() }
}

fn meta(modified: i64) -> SyncMeta {
    SyncMeta {
        modified: TimestampMillis(modified),
        schema: TimestampMillis(1),
        usn: Usn(2),
        current_time: TimestampSecs(1000),
        server_message: "motd".to_string(),
        should_continue: true,
        host_number: 8,
        empty: false,
    }
}

#[test]
fn login_goes_without_a_key() {
    let login = sync_login("user", "pass");
    assert_eq!(login.username, "user");
    assert_eq!(login.password, "pass");
    assert_eq!(login.remote.hkey, None);
    assert_eq!(login.remote.host_number, 0);
    let auth = login.resume(Ok("key".to_string())).unwrap();
    assert_eq!(auth.hkey, "key");
    assert_eq!(auth.host_number, 0);
    assert!(matches!(
        sync_login("user", "pass").resume(Err(network_error())),
        Err(AnkiError::NetworkError { .. })
    ));
}

#[test]
fn abort_goes_to_the_same_host() {
    let remote = sync_abort("key".to_string(), 4);
    assert_eq!(remote.hkey, Some("key".to_string()));
    assert_eq!(remote.host_number, 4);
}

#[test]
fn status_is_what_the_two_sides_say() {
    let then = match COL.get_sync_status(auth()) {
        StatusCall::Meta { then } => then,
        other => panic!("{:?}", other),
    };
    assert_eq!(then.syncer.remote.hkey, Some("key".to_string()));
    assert_eq!(then.syncer.remote.host_number, 6);
    let then = match then.resume(Ok(meta(5))) {
        StatusCall::LocalMeta { then } => then,
        other => panic!("{:?}", other),
    };
    match then.resume(Ok(meta(6))) {
        StatusCall::Finished(Ok(output)) => {
            assert_eq!(output.required, SyncActionRequired::NormalSyncRequired);
            assert_eq!(output.server_message, "motd");
            assert_eq!(output.host_number, 8);
        }
        other => panic!("{:?}", other),
    }
}

#[test]
fn status_fails_as_the_sync_would() {
    let first = || match COL.get_sync_status(auth()) {
        StatusCall::Meta { then } => then,
        other => panic!("{:?}", other),
    };
    let second = || match first().resume(Ok(meta(5))) {
        StatusCall::LocalMeta { then } => then,
        other => panic!("{:?}", other),
    };
    assert!(matches!(
        first().resume(Err(network_error())),
        StatusCall::Finished(Err(AnkiError::NetworkError { .. }))
    ));
    let mut stopped = meta(5);
    stopped.should_continue = false;
    assert!(matches!(
        first().resume(Ok(stopped)),
        StatusCall::Finished(Err(AnkiError::SyncError {
            kind: SyncErrorKind::ServerMessage,
            ..
        }))
    ));
    assert!(matches!(
        second().resume(Err(AnkiError::DBError { info: "x".to_string() })),
        StatusCall::Finished(Err(AnkiError::DBError { .. }))
    ));
    let mut late = meta(5);
    late.current_time = TimestampSecs(0);
    assert!(matches!(
        second().resume(Ok(late)),
        StatusCall::Finished(Err(AnkiError::SyncError {
            kind: SyncErrorKind::ClockIncorrect,
            ..
        }))
    ));
}

#[test]
fn normal_sync_starts_with_the_server() {
    let turn = COL.normal_sync(auth());
    assert_eq!(turn.reports.len(), 1);
    assert_eq!(turn.reports[0].progress, NormalSyncProgress::default());
    assert_eq!(turn.reports[0].progress.stage, SyncStage::Connecting);
    assert!(!turn.reports[0].throttle);
    match turn.call {
        Call::Meta { then } => {
            assert_eq!(then.syncer.remote.hkey, Some("key".to_string()));
            assert_eq!(then.syncer.remote.host_number, 6);
        }
        other => panic!("{:?}", other),
    }
}

#[test]
fn upload_closes_the_collection_in_the_earlier_form() {
    let then = match COL.full_upload(auth()) {
        UploadCall::BeforeUpload { then } => then,
        other => panic!("{:?}", other),
    };
    let (downgrade, then) = match then.resume(Ok(())) {
        UploadCall::Close { downgrade, then } => (downgrade, then),
        other => panic!("{:?}", other),
    };
    assert!(downgrade);
    let (remote, then) = match then.resume(Ok(())) {
        UploadCall::Upload { remote, then } => (remote, then),
        other => panic!("{:?}", other),
    };
    assert_eq!(remote.hkey, Some("key".to_string()));
    assert_eq!(remote.host_number, 6);
    assert!(matches!(then.resume(Ok(())), UploadCall::Finished(Ok(()))));
}

#[test]
fn upload_stops_at_the_first_error() {
    let prepared = || match COL.full_upload(auth()) {
        UploadCall::BeforeUpload { then } => then,
        other => panic!("{:?}", other),
    };
    let closed = || match prepared().resume(Ok(())) {
        UploadCall::Close { then, .. } => then,
        other => panic!("{:?}", other),
    };
    let uploaded = || match closed().resume(Ok(())) {
        UploadCall::Upload { then, .. } => then,
        other => panic!("{:?}", other),
    };
    assert!(matches!(prepared().resume(Err(network_error())), UploadCall::Finished(Err(_))));
    assert!(matches!(closed().resume(Err(network_error())), UploadCall::Finished(Err(_))));
    assert!(matches!(uploaded().resume(Err(network_error())), UploadCall::Finished(Err(_))));
}

fn downloaded(check_result: &str) -> DownloadCall {
    let (downgrade, then) = match COL.full_download(auth()) {
        DownloadCall::Close { downgrade, then } => (downgrade, then),
        other => panic!("{:?}", other),
    };
    assert!(!downgrade);
    let (remote, then) = match then.resume(Ok(())) {
        DownloadCall::Download { remote, then } => (remote, then),
        other => panic!("{:?}", other),
    };
    assert_eq!(remote.hkey, Some("key".to_string()));
    assert_eq!(remote.host_number, 6);
    match then.resume(Ok(())) {
        DownloadCall::CheckIntegrity { then } => then.resume(Ok(check_result.to_string())),
        other => panic!("{:?}", other),
    }
}

#[test]
fn sound_download_is_saved() {
    match downloaded("ok") {
        DownloadCall::Save { then } => {
            assert!(matches!(then.resume(Ok(())), DownloadCall::Finished(Ok(()))));
        }
        other => panic!("{:?}", other),
    }
}

#[test]
fn failed_save_is_an_io_error() {
    let then = match downloaded("ok") {
        DownloadCall::Save { then } => then,
        other => panic!("{:?}", other),
    };
    match then.resume(Err("disk full".to_string())) {
        DownloadCall::Finished(Err(AnkiError::IOError { info })) => {
            assert_eq!(info, "download save failed: disk full")
        }
        other => panic!("{:?}", other),
    }
}

#[test]
fn corrupt_download_is_not_saved() {
    for check_result in vec!["", "Ok", "ok ", "*** in database main ***"] {
        match downloaded(check_result) {
            DownloadCall::Finished(Err(AnkiError::SyncError { info, kind })) => {
                assert_eq!(info, "download corrupt");
                assert_eq!(kind, SyncErrorKind::Other);
            }
            other => panic!("{:?}", other),
        }
    }
}

#[test]
fn download_stops_at_the_first_error() {
    let closed = || match COL.full_download(auth()) {
        DownloadCall::Close { then, .. } => then,
        other => panic!("{:?}", other),
    };
    let fetched = || match closed().resume(Ok(())) {
        DownloadCall::Download { then, .. } => then,
        other => panic!("{:?}", other),
    };
    let checked = || match fetched().resume(Ok(())) {
        DownloadCall::CheckIntegrity { then } => then,
        other => panic!("{:?}", other),
    };
    assert!(matches!(closed().resume(Err(network_error())), DownloadCall::Finished(Err(_))));
    assert!(matches!(fetched().resume(Err(network_error())), DownloadCall::Finished(Err(_))));
    assert!(matches!(
        checked().resume(Err(AnkiError::DBError { info: "not a database".to_string() })),
        DownloadCall::Finished(Err(AnkiError::DBError { .. }))
    ));
}

#[test]
fn transfer_begins_at_nothing() {
    assert_eq!(
        FullSyncProgress::default(),
        FullSyncProgress { transferred_bytes: 0, total_bytes: 0 }
    );
}
