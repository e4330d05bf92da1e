//! On what the two sides say of themselves.

use crate::collection::Collection;
use crate::error::{AnkiError, SyncErrorKind};
use crate::ids::{TimestampMillis, TimestampSecs, Usn};
use crate::progress::{FullSyncProgress, NormalSyncProgress, SyncStage};
use crate::state::{
    check_admission, get_sync_state, SyncActionRequired, SyncMeta, SyncOutput, SyncState,
};
use vstd::prelude::*;

verus! {

/// The two clocks may be up to five minutes apart, in either direction. If they are further
/// apart, that is the error; else there is none.
pub proof fn law_clocks_may_be_five_minutes_apart(
    remote: SyncMeta,
    local: SyncMeta,
    res: Result<SyncState, AnkiError>,
)
    requires
        call_ensures(get_sync_state, (remote, local), res),
    ensures
        res is Ok <==> -300 <= remote.current_time.0 - local.current_time.0 <= 300,
        res matches Err(e) ==> (e matches AnkiError::SyncError { info, kind } && info@.len() == 0
            && kind == SyncErrorKind::ClockIncorrect),
{
}

/// Nothing is to be done exactly if both sides were changed at the same time. Otherwise it
/// takes a normal sync if they have the same schema, and a full one if not. A full sync goes in
/// a direction unless that puts an empty collection in the place of one that is not.
pub proof fn law_kind_of_sync_goes_by_changes_and_schema(
    remote: SyncMeta,
    local: SyncMeta,
    res: Result<SyncState, AnkiError>,
)
    requires
        call_ensures(get_sync_state, (remote, local), res),
        -300 <= remote.current_time.0 - local.current_time.0 <= 300,
    ensures
        res is Ok,
        res->Ok_0.required == SyncActionRequired::NoChanges <==> remote.modified.0
            == local.modified.0,
        res->Ok_0.required == SyncActionRequired::NormalSyncRequired <==> remote.modified.0
            != local.modified.0 && remote.schema.0 == local.schema.0,
        res->Ok_0.required is FullSyncRequired <==> remote.modified.0 != local.modified.0
            && remote.schema.0 != local.schema.0,
        res->Ok_0.required matches SyncActionRequired::FullSyncRequired { upload_ok, download_ok }
            ==> {
            &&& !upload_ok <==> local.empty && !remote.empty
            &&& !download_ok <==> remote.empty && !local.empty
        },
{
}

/// The state has the client's number from its last sync, the server's number for what is new,
/// and -1 for finding what waits. The client is newer if it was changed later. What the server
/// has to say is handed on.
pub proof fn law_state_holds_the_numbers_of_both_sides(
    remote: SyncMeta,
    local: SyncMeta,
    res: Result<SyncState, AnkiError>,
)
    requires
        call_ensures(get_sync_state, (remote, local), res),
        -300 <= remote.current_time.0 - local.current_time.0 <= 300,
    ensures
        res matches Ok(state) && {
            &&& state.local_is_newer <==> local.modified.0 > remote.modified.0
            &&& state.usn_at_last_sync == local.usn
            &&& state.latest_usn == remote.usn
            &&& state.pending_usn.0 == -1
            &&& state.new_usn == Some(remote.usn)
            &&& state.server_message == remote.server_message
            &&& state.host_number == remote.host_number
        },
{
}

/// As long as they are within five minutes, what the clocks show has no bearing on the state.
pub proof fn law_state_does_not_depend_on_the_clocks(
    remote: SyncMeta,
    local: SyncMeta,
    res: Result<SyncState, AnkiError>,
    remote_time: TimestampSecs,
    local_time: TimestampSecs,
    other: Result<SyncState, AnkiError>,
)
    requires
        call_ensures(get_sync_state, (remote, local), res),
        -300 <= remote.current_time.0 - local.current_time.0 <= 300,
        call_ensures(
            get_sync_state,
            (
                SyncMeta { current_time: remote_time, ..remote },
                SyncMeta { current_time: local_time, ..local },
            ),
            other,
        ),
        -300 <= remote_time.0 - local_time.0 <= 300,
    ensures
        other == res,
{
}

/// The clocks can be compared exactly if their difference, and its size, is a number of 64 bits.
pub proof fn law_comparable_clocks(remote: SyncMeta, local: SyncMeta, res: bool)
    requires
        call_ensures(SyncMeta::has_clock_comparable_to, (&remote, &local), res),
    ensures
        res <==> -0x7fff_ffff_ffff_ffff <= remote.current_time.0 - local.current_time.0
            <= 0x7fff_ffff_ffff_ffff,
{
}

/// The server is let in as it is if it lets the sync go on. If not, its message is the error.
pub proof fn law_server_has_its_say(remote: SyncMeta, res: Result<SyncMeta, AnkiError>)
    requires
        call_ensures(check_admission, (remote,), res),
    ensures
        remote.should_continue ==> res == Ok::<SyncMeta, AnkiError>(remote),
        !remote.should_continue ==> (res matches Err(AnkiError::SyncError { info, kind }) && info
            == remote.server_message && kind == SyncErrorKind::ServerMessage),
{
}

/// The collection says of itself what the storage and the clock say.
pub proof fn law_collection_speaks_for_its_storage(
    col: Collection,
    modified: TimestampMillis,
    schema: TimestampMillis,
    usn: Usn,
    now: TimestampSecs,
    have_at_least_one_card: bool,
    meta: SyncMeta,
)
    requires
        call_ensures(
            Collection::sync_meta,
            (&col, modified, schema, usn, now, have_at_least_one_card),
            meta,
        ),
    ensures
        meta.modified == modified,
        meta.schema == schema,
        meta.usn == usn,
        meta.current_time == now,
        meta.server_message@.len() == 0,
        meta.should_continue,
        meta.host_number == 0,
        meta.empty == have_at_least_one_card,
{
}

/// The outcome has what is required, the server's message and the host's number as they are in
/// the state.
pub proof fn law_outcome_is_taken_from_the_state(state: SyncState, output: SyncOutput)
    requires
        call_ensures(<SyncOutput as From<SyncState>>::from, (state,), output),
    ensures
        output.required == state.required,
        output.server_message == state.server_message,
        output.host_number == state.host_number,
{
}

/// Objects that wait are found by the number -1 itself, and by any other number as those that
/// have it or a later one.
pub proof fn law_waiting_objects_are_found_by_their_number(usn: Usn, clause: &'static str)
    requires
        call_ensures(Usn::pending_object_clause, (usn,), clause),
    ensures
        usn.0 == -1 ==> clause@ == "usn = ?"@,
        usn.0 != -1 ==> clause@ == "usn >= ?"@,
{
}

/// A sync begins with nothing sent or received, while connecting.
pub proof fn law_progress_begins_at_nothing(
    progress: NormalSyncProgress,
    stage: SyncStage,
    full: FullSyncProgress,
)
    requires
        call_ensures(<NormalSyncProgress as Default>::default, (), progress),
        call_ensures(<SyncStage as Default>::default, (), stage),
        call_ensures(<FullSyncProgress as Default>::default, (), full),
    ensures
        stage == SyncStage::Connecting,
        progress.stage == SyncStage::Connecting,
        progress.local_update == 0,
        progress.local_remove == 0,
        progress.remote_update == 0,
        progress.remote_remove == 0,
        full.transferred_bytes == 0,
        full.total_bytes == 0,
{
}

/// Any two sides can be compared whose clocks can.
pub proof fn law_sides_with_comparable_clocks_are_compared(remote: SyncMeta, local: SyncMeta)
    requires
        -0x7fff_ffff_ffff_ffff <= remote.current_time.0 - local.current_time.0
            <= 0x7fff_ffff_ffff_ffff,
    ensures
        call_requires(get_sync_state, (remote, local)),
{
}

} // verus!
