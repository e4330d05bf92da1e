use anki_sync::collection::Collection;
use anki_sync::error::{AnkiError, SyncErrorKind};
use anki_sync::ids::{TimestampMillis, TimestampSecs, Usn};
use anki_sync::state::{
    check_admission, get_sync_state, SyncActionRequired, SyncMeta, SyncOutput, SyncState,
};

fn meta(modified: i64, schema: i64, time: i64) -> SyncMeta {
    let col = Collection { server: false };
    col.sync_meta(
        TimestampMillis(modified),
        TimestampMillis(schema),
        Usn(7),
        TimestampSecs(time),
        false,
    )
}

fn server_meta(modified: i64, schema: i64, time: i64) -> SyncMeta {
    SyncMeta {
        modified: TimestampMillis(modified),
        schema: TimestampMillis(schema),
        usn: Usn(40),
        current_time: TimestampSecs(time),
        server_message: "hello".to_string(),
        should_continue: true,
        host_number: 3,
        empty: false,
    }
}

fn required(remote: SyncMeta, local: SyncMeta) -> SyncActionRequired {
    match get_sync_state(remote, local) {
        Ok(state) => state.required,
        Err(e) => panic!("{:?}", e),
    }
}

#[test]
fn local_meta_is_made_of_what_the_storage_says() {
    let col = Collection { server: false };
    let m = col.sync_meta(
        TimestampMillis(1),
        TimestampMillis(2),
        Usn(3),
        TimestampSecs(4),
        true,
    );
    assert_eq!(m.modified, TimestampMillis(1));
    assert_eq!(m.schema, TimestampMillis(2));
    assert_eq!(m.usn, Usn(3));
    assert_eq!(m.current_time, TimestampSecs(4));
    assert_eq!(m.server_message, "");
    assert!(m.should_continue);
    assert_eq!(m.host_number, 0);
    assert!(m.empty);
}

#[test]
fn server_that_does_not_continue_is_an_error_with_its_message() {
    let mut remote = server_meta(1, 1, 0);
    remote.should_continue = false;
    match check_admission(remote) {
        Err(AnkiError::SyncError { info, kind }) => {
            assert_eq!(info, "hello");
            assert_eq!(kind, SyncErrorKind::ServerMessage);
        }
        other => panic!("{:?}", other),
    }
    assert_eq!(check_admission(server_meta(1, 1, 0)).unwrap().host_number, 3);
}

#[test]
fn clocks_may_be_five_minutes_apart() {
    assert!(get_sync_state(server_meta(1, 1, 1300), meta(2, 1, 1000)).is_ok());
    assert!(get_sync_state(server_meta(1, 1, 700), meta(2, 1, 1000)).is_ok());
    for time in vec![1301, 699] {
        match get_sync_state(server_meta(1, 1, time), meta(2, 1, 1000)) {
            Err(AnkiError::SyncError { info, kind }) => {
                assert_eq!(info, "");
                assert_eq!(kind, SyncErrorKind::ClockIncorrect);
            }
            other => panic!("{:?}", other),
        }
    }
}

#[test]
fn clocks_that_cannot_be_subtracted_are_not_comparable() {
    assert!(server_meta(1, 1, 5).has_clock_comparable_to(&meta(1, 1, 900)));
    assert!(!server_meta(1, 1, i64::MAX).has_clock_comparable_to(&meta(1, 1, -1)));
    assert!(!server_meta(1, 1, i64::MIN).has_clock_comparable_to(&meta(1, 1, 0)));
    assert!(server_meta(1, 1, i64::MAX).has_clock_comparable_to(&meta(1, 1, 0)));
}

#[test]
fn same_modification_time_means_no_changes() {
    assert_eq!(
        required(server_meta(5, 1, 0), meta(5, 2, 0)),
        SyncActionRequired::NoChanges
    );
}

#[test]
fn same_schema_means_a_normal_sync() {
    assert_eq!(
        required(server_meta(5, 2, 0), meta(6, 2, 0)),
        SyncActionRequired::NormalSyncRequired
    );
}

#[test]
fn other_schema_means_a_full_sync() {
    for remote_empty in vec![false, true] {
        for local_empty in vec![false, true] {
            let mut remote = server_meta(5, 1, 0);
            remote.empty = remote_empty;
            let mut local = meta(6, 2, 0);
            local.empty = local_empty;
            assert_eq!(
                required(remote, local),
                SyncActionRequired::FullSyncRequired {
                    upload_ok: !local_empty || remote_empty,
                    download_ok: !remote_empty || local_empty,
                }
            );
        }
    }
}

#[test]
fn state_takes_over_the_numbers_of_both_sides() {
    let state = get_sync_state(server_meta(5, 2, 0), meta(6, 2, 0)).unwrap();
    assert!(state.local_is_newer);
    assert_eq!(state.usn_at_last_sync, Usn(7));
    assert_eq!(state.latest_usn, Usn(40));
    assert_eq!(state.pending_usn, Usn(-1));
    assert_eq!(state.new_usn, Some(Usn(40)));
    assert_eq!(state.server_message, "hello");
    assert_eq!(state.host_number, 3);
    let output = SyncOutput::from(state);
    assert_eq!(output.required, SyncActionRequired::NormalSyncRequired);
    assert_eq!(output.server_message, "hello");
    assert_eq!(output.host_number, 3);
}

#[test]
fn one_of_two_sides_is_newer() {
    let a: SyncState = get_sync_state(server_meta(5, 2, 0), meta(6, 2, 0)).unwrap();
    let b: SyncState = get_sync_state(server_meta(6, 2, 0), meta(5, 2, 0)).unwrap();
    assert!(a.local_is_newer);
    assert!(!b.local_is_newer);
}

#[test]
fn both_sides_agree_on_the_directions() {
    let mut a = server_meta(5, 1, 0);
    a.empty = true;
    let mut b = server_meta(6, 2, 0);
    assert_eq!(
        required(a, b),
        SyncActionRequired::FullSyncRequired { upload_ok: true, download_ok: false }
    );
    a = server_meta(5, 1, 0);
    a.empty = true;
    b = server_meta(6, 2, 0);
    assert_eq!(
        required(b, a),
        SyncActionRequired::FullSyncRequired { upload_ok: false, download_ok: true }
    );
}

#[test]
fn pending_objects_are_found_by_their_number() {
    assert_eq!(Usn(-1).pending_object_clause(), "usn = ?");
    assert_eq!(Usn(0).pending_object_clause(), "usn >= ?");
    assert_eq!(Usn(12).pending_object_clause(), "usn >= ?");
}
