//! On login, status, and the upload or download of the whole collection.

use crate::collection::Collection;
use crate::error::{AnkiError, SyncErrorKind};
use crate::progress::SyncStage;
use crate::state::{SyncActionRequired, SyncAuth, SyncMeta};
use crate::syncer::{Call, SyncEndpoint, Turn};
use crate::transfer::{
    sync_abort, sync_login, DownloadCall, DownloadClosed, Downloaded, IntegrityChecked, Login, Saved,
    StatusCall, StatusLocalMetaRead, StatusMetaReplied, UploadCall, UploadClosed, UploadPrepared,
    Uploaded,
};
use vstd::prelude::*;

verus! {

/// A login goes out with the name and password and without a key, and what comes of it is the key
/// that the server gave.
pub proof fn law_login_gives_the_servers_key<'a>(
    username: &'a str,
    password: &'a str,
    login: Login<'a>,
    reply: Result<String, AnkiError>,
    res: Result<SyncAuth, AnkiError>,
)
    requires
        call_ensures(sync_login, (username, password), login),
        call_ensures(Login::resume, (login, reply), res),
    ensures
        login.username@ == username@,
        login.password@ == password@,
        login.remote.hkey is None,
        login.remote.host_number == 0,
        reply matches Err(e) ==> res == Err::<SyncAuth, AnkiError>(e),
        reply matches Ok(key) ==> (res matches Ok(auth) && auth.hkey == key && auth.host_number
            == 0),
{
}

/// The request to abort goes to the host and with the key that are given.
pub proof fn law_abort_goes_to_its_host(hkey: String, host_number: u32, remote: SyncEndpoint)
    requires
        call_ensures(sync_abort, (hkey, host_number), remote),
    ensures
        remote.hkey == Some(hkey),
        remote.host_number == host_number,
{
}

/// The first call of a status request and of a sync goes to the server that the key is for.
pub proof fn law_first_call_goes_to_the_server(
    col: Collection,
    auth: SyncAuth,
    status: StatusCall,
    turn: Turn,
)
    requires
        call_ensures(Collection::get_sync_status, (col, auth), status),
        call_ensures(Collection::normal_sync, (col, auth), turn),
    ensures
        status matches StatusCall::Meta { then } && then.syncer.col == col && then.syncer.remote.hkey
            == Some(auth.hkey) && then.syncer.remote.host_number == auth.host_number,
        turn.call matches Call::Meta { then } && then.syncer.col == col && then.syncer.remote.hkey
            == Some(auth.hkey) && then.syncer.remote.host_number == auth.host_number
            && then.syncer.progress.stage == SyncStage::Connecting
            && then.syncer.progress.local_update == 0 && then.syncer.progress.local_remove == 0
            && then.syncer.progress.remote_update == 0 && then.syncer.progress.remote_remove == 0,
        turn.reports@.len() == 1,
        !turn.reports@[0].throttle,
        turn.reports@[0].progress.stage == SyncStage::Connecting,
{
}

/// The status is what the two sides say, unless the server does not let a sync go on or the clocks
/// are more than five minutes apart.
pub proof fn law_status_goes_by_both_sides(
    asked: StatusMetaReplied,
    reply: Result<SyncMeta, AnkiError>,
    call: StatusCall,
    waiting: StatusLocalMetaRead,
    found: Result<SyncMeta, AnkiError>,
    last: StatusCall,
)
    requires
        call_ensures(StatusMetaReplied::resume, (asked, reply), call),
        call_ensures(StatusLocalMetaRead::resume, (waiting, found), last),
    ensures
        reply matches Err(e) ==> call == StatusCall::Finished(Err(e)),
        reply matches Ok(remote) ==> {
            &&& remote.should_continue ==> (call matches StatusCall::LocalMeta { then } && then.remote
                == remote)
            &&& !remote.should_continue ==> (call matches StatusCall::Finished(
                Err(AnkiError::SyncError { info, kind }),
            ) && info == remote.server_message && kind == SyncErrorKind::ServerMessage)
        },
        found matches Err(e) ==> last == StatusCall::Finished(Err(e)),
        found matches Ok(local) ==> {
            let remote = waiting.remote;
            let apart = remote.current_time.0 - local.current_time.0;
            &&& !(-300 <= apart <= 300) ==> (last matches StatusCall::Finished(
                Err(AnkiError::SyncError { info, kind }),
            ) && info@.len() == 0 && kind == SyncErrorKind::ClockIncorrect)
            &&& -300 <= apart <= 300 ==> (last matches StatusCall::Finished(Ok(output)) && {
                &&& output.required == SyncActionRequired::NoChanges <==> remote.modified.0
                    == local.modified.0
                &&& output.required == SyncActionRequired::NormalSyncRequired <==> remote.modified.0
                    != local.modified.0 && remote.schema.0 == local.schema.0
                &&& output.required matches SyncActionRequired::FullSyncRequired {
                    upload_ok,
                    download_ok,
                } ==> upload_ok == (!local.empty || remote.empty) && download_ok == (!remote.empty
                    || local.empty)
                &&& output.server_message == remote.server_message
                &&& output.host_number == remote.host_number
            })
        },
{
}

/// For an upload the collection is prepared, closed in the form of earlier versions, and sent to
/// the server that the key is for. The first error is the end of it.
pub proof fn law_upload_goes_step_by_step(
    col: Collection,
    auth: SyncAuth,
    first: UploadCall,
    prepared: UploadPrepared,
    closed: UploadClosed,
    uploaded: Uploaded,
    reply: Result<(), AnkiError>,
    calls: (UploadCall, UploadCall, UploadCall),
)
    requires
        call_ensures(Collection::full_upload, (col, auth), first),
        call_ensures(UploadPrepared::resume, (prepared, reply), calls.0),
        call_ensures(UploadClosed::resume, (closed, reply), calls.1),
        call_ensures(Uploaded::resume, (uploaded, reply), calls.2),
    ensures
        first matches UploadCall::BeforeUpload { then } && then.auth == auth,
        reply matches Err(e) ==> calls.0 == UploadCall::Finished(Err(e)) && calls.1
            == UploadCall::Finished(Err(e)) && calls.2 == UploadCall::Finished(Err(e)),
        reply is Ok ==> (calls.0 matches UploadCall::Close { downgrade, then } && downgrade
            && then.auth == prepared.auth),
        reply is Ok ==> (calls.1 matches UploadCall::Upload { remote, .. } && remote.hkey == Some(
            closed.auth.hkey,
        ) && remote.host_number == closed.auth.host_number),
        reply is Ok ==> (calls.2 matches UploadCall::Finished(result) && result is Ok),
{
}

/// For a download the collection is closed as it is, and the server's is fetched from the server
/// that the key is for and checked. The first error is the end of it.
pub proof fn law_download_goes_step_by_step(
    col: Collection,
    auth: SyncAuth,
    first: DownloadCall,
    closed: DownloadClosed,
    downloaded: Downloaded,
    reply: Result<(), AnkiError>,
    calls: (DownloadCall, DownloadCall),
)
    requires
        call_ensures(Collection::full_download, (col, auth), first),
        call_ensures(DownloadClosed::resume, (closed, reply), calls.0),
        call_ensures(Downloaded::resume, (downloaded, reply), calls.1),
    ensures
        first matches DownloadCall::Close { downgrade, then } && !downgrade && then.auth == auth,
        reply matches Err(e) ==> calls.0 == DownloadCall::Finished(Err(e)) && calls.1
            == DownloadCall::Finished(Err(e)),
        reply is Ok ==> (calls.0 matches DownloadCall::Download { remote, .. } && remote.hkey == Some(
            closed.auth.hkey,
        ) && remote.host_number == closed.auth.host_number),
        reply is Ok ==> calls.1 is CheckIntegrity,
{
}

/// What was downloaded is put in the place of the collection exactly if its database says that it
/// is ok. If it says anything else, the download is corrupt, and the collection is left alone.
pub proof fn law_download_is_saved_only_if_sound(
    checked: IntegrityChecked,
    reply: Result<String, AnkiError>,
    call: DownloadCall,
)
    requires
        call_ensures(IntegrityChecked::resume, (checked, reply), call),
    ensures
        call is Save <==> (reply matches Ok(text) && text@ == seq!['o', 'k']),
        reply matches Err(e) ==> call == DownloadCall::Finished(Err(e)),
        reply matches Ok(text) ==> (text@ != seq!['o', 'k'] ==> (call matches DownloadCall::Finished(
            Err(AnkiError::SyncError { info, kind }),
        ) && info@ == "download corrupt"@ && kind == SyncErrorKind::Other)),
{
    reveal_strlit("ok");
    assert("ok"@ =~= seq!['o', 'k']);
}

/// The download has succeeded exactly if the file is in its place, and else says why it is not.
pub proof fn law_download_succeeds_once_saved(
    saved: Saved,
    reply: Result<(), String>,
    call: DownloadCall,
)
    requires
        call_ensures(Saved::resume, (saved, reply), call),
    ensures
        reply is Ok ==> call == DownloadCall::Finished(Ok(())),
        reply matches Err(text) ==> (call matches DownloadCall::Finished(
            Err(AnkiError::IOError { info }),
        ) && info@ == "download save failed: "@ + text@),
{
}

/// Any two sides have a status whose clocks can be compared.
pub proof fn law_comparable_sides_have_a_status(
    waiting: StatusLocalMetaRead,
    reply: Result<SyncMeta, AnkiError>,
)
    requires
        reply matches Ok(local) ==> -0x7fff_ffff_ffff_ffff <= waiting.remote.current_time.0
            - local.current_time.0 <= 0x7fff_ffff_ffff_ffff,
    ensures
        call_requires(StatusLocalMetaRead::resume, (waiting, reply)),
{
}

} // verus!
