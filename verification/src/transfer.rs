//! What is asked of the server and the storage outside of a normal sync: to log in, to abort,
//! to say where the two sides stand, and to replace one side by the other as a whole.
//!
//! As in a normal sync, a call holds what waits for its reply; resuming that with the reply
//! gives the next call, until the call is `Finished`.

use crate::collection::Collection;
use crate::error::{AnkiError, SyncErrorKind};
use crate::progress;
use crate::progress::ProgressReport;
use crate::state;
use crate::state::{
    check_admission, get_sync_state, SyncActionRequired, SyncAuth, SyncMeta, SyncOutput,
};
use crate::syncer::{Call, LocalMetaRead, MetaReplied, NormalSyncer, SyncEndpoint, Turn};
use vstd::prelude::*;

verus! {

/// A request to log in on the server `remote`, which answers with a key.
#[derive(Debug)]
pub struct Login<'a> {
    pub remote: SyncEndpoint,
    pub username: &'a str,
    pub password: &'a str,
}

/// Starts to log in, without a key as yet and on no host in particular.
pub fn sync_login<'a>(username: &'a str, password: &'a str) -> (login: Login<'a>)
    ensures
        login == (Login {
            remote: SyncEndpoint { hkey: None, host_number: 0 },
            username,
            password,
        }),
{
    Login { remote: SyncEndpoint::new(None, 0), username, password }
}

impl<'a> Login<'a> {
    /// What a client that has logged in identifies itself with.
    pub open spec fn outcome(reply: Result<String, AnkiError>) -> Result<SyncAuth, AnkiError> {
        match reply {
            Err(e) => Err(e),
            Ok(hkey) => Ok(SyncAuth { hkey, host_number: 0 }),
        }
    }

    pub fn resume(self, reply: Result<String, AnkiError>) -> (res: Result<SyncAuth, AnkiError>)
        ensures
            res == Login::outcome(reply),
    {
        match reply {
            Err(e) => Err(e),
            Ok(hkey) => Ok(SyncAuth { hkey, host_number: 0 }),
        }
    }
}

/// The connection over which the server is asked to abort. Its answer is the outcome.
pub fn sync_abort(hkey: String, host_number: u32) -> (remote: SyncEndpoint)
    ensures
        remote == (SyncEndpoint { hkey: Some(hkey), host_number }),
{
    SyncEndpoint::new(Some(hkey), host_number)
}

/// A call that is made to find out where the two sides stand.
#[derive(Debug)]
#[allow(inconsistent_fields)]
pub enum StatusCall {
    /// Ask the server what it says of itself.
    Meta { then: StatusMetaReplied },
    /// Read what the collection says of itself.
    LocalMeta { then: StatusLocalMetaRead },
    /// It is known where they stand.
    Finished(Result<SyncOutput, AnkiError>),
}

/// Waits for the server's word.
#[derive(Debug)]
pub struct StatusMetaReplied {
    pub syncer: NormalSyncer,
}

/// Waits for the collection's word.
#[derive(Debug)]
pub struct StatusLocalMetaRead {
    pub remote: SyncMeta,
}

impl StatusMetaReplied {
    /// What follows on the server's word.
    pub open spec fn leads_to(self, reply: Result<SyncMeta, AnkiError>, call: StatusCall) -> bool {
        match reply {
            Err(e) => call == StatusCall::Finished(Err(e)),
            Ok(remote) => match state::admitted(remote) {
                Err(e) => call == StatusCall::Finished(Err(e)),
                Ok(remote) => call == (StatusCall::LocalMeta {
                    then: StatusLocalMetaRead { remote },
                }),
            },
        }
    }

    pub fn resume(self, reply: Result<SyncMeta, AnkiError>) -> (call: StatusCall)
        ensures
            self.leads_to(reply, call),
    {
        match reply {
            Err(e) => StatusCall::Finished(Err(e)),
            Ok(remote) => match check_admission(remote) {
                Err(e) => StatusCall::Finished(Err(e)),
                Ok(remote) => StatusCall::LocalMeta { then: StatusLocalMetaRead { remote } },
            },
        }
    }
}

impl StatusLocalMetaRead {
    /// The clocks can be compared.
    pub open spec fn admits(self, reply: Result<SyncMeta, AnkiError>) -> bool {
        reply matches Ok(local) ==> self.remote.clocks_comparable(local)
    }

    /// What follows on the collection's word.
    pub open spec fn leads_to(self, reply: Result<SyncMeta, AnkiError>, call: StatusCall) -> bool {
        match reply {
            Err(e) => call == StatusCall::Finished(Err(e)),
            Ok(local) => if self.remote.clocks_off(local) {
                call matches StatusCall::Finished(result) && result matches Err(e)
                    && state::state_found(self.remote, local, Err(e))
            } else {
                call == StatusCall::Finished(
                    Ok(SyncOutput::of(state::sync_state(self.remote, local))),
                )
            },
        }
    }

    pub fn resume(self, reply: Result<SyncMeta, AnkiError>) -> (call: StatusCall)
        requires
            self.admits(reply),
        ensures
            self.leads_to(reply, call),
    {
        match reply {
            Err(e) => StatusCall::Finished(Err(e)),
            Ok(local) => match get_sync_state(self.remote, local) {
                Err(e) => StatusCall::Finished(Err(e)),
                Ok(state) => StatusCall::Finished(Ok(SyncOutput::from(state))),
            },
        }
    }
}

/// A call that is made to replace the server's collection by the local one.
#[derive(Debug)]
#[allow(inconsistent_fields)]
pub enum UploadCall {
    /// Prepare the collection for the upload.
    BeforeUpload { then: UploadPrepared },
    /// Close the collection, bringing it into the form of earlier versions if so asked.
    Close { downgrade: bool, then: UploadClosed },
    /// Send the collection's file.
    Upload { remote: SyncEndpoint, then: Uploaded },
    /// The upload is over.
    Finished(Result<(), AnkiError>),
}

/// Waits until the collection is prepared.
#[derive(Debug)]
pub struct UploadPrepared {
    pub auth: SyncAuth,
}

/// Waits until the collection is closed.
#[derive(Debug)]
pub struct UploadClosed {
    pub auth: SyncAuth,
}

/// Waits until the file is sent.
#[derive(Debug)]
pub struct Uploaded {}

impl UploadPrepared {
    pub open spec fn leads_to(self, reply: Result<(), AnkiError>, call: UploadCall) -> bool {
        match reply {
            Err(e) => call == UploadCall::Finished(Err(e)),
            Ok(_) => call == (UploadCall::Close {
                downgrade: true,
                then: UploadClosed { auth: self.auth },
            }),
        }
    }

    pub fn resume(self, reply: Result<(), AnkiError>) -> (call: UploadCall)
        ensures
            self.leads_to(reply, call),
    {
        match reply {
            Err(e) => UploadCall::Finished(Err(e)),
            Ok(_) => UploadCall::Close { downgrade: true, then: UploadClosed { auth: self.auth } },
        }
    }
}

impl UploadClosed {
    pub open spec fn leads_to(self, reply: Result<(), AnkiError>, call: UploadCall) -> bool {
        match reply {
            Err(e) => call == UploadCall::Finished(Err(e)),
            Ok(_) => call == (UploadCall::Upload {
                remote: SyncEndpoint {
                    hkey: Some(self.auth.hkey),
                    host_number: self.auth.host_number,
                },
                then: Uploaded {  },
            }),
        }
    }

    pub fn resume(self, reply: Result<(), AnkiError>) -> (call: UploadCall)
        ensures
            self.leads_to(reply, call),
    {
        match reply {
            Err(e) => UploadCall::Finished(Err(e)),
            Ok(_) => UploadCall::Upload {
                remote: SyncEndpoint::new(Some(self.auth.hkey), self.auth.host_number),
                then: Uploaded {  },
            },
        }
    }
}

impl Uploaded {
    pub open spec fn leads_to(self, reply: Result<(), AnkiError>, call: UploadCall) -> bool {
        call == UploadCall::Finished(reply)
    }

    pub fn resume(self, reply: Result<(), AnkiError>) -> (call: UploadCall)
        ensures
            self.leads_to(reply, call),
    {
        UploadCall::Finished(reply)
    }
}

/// A call that is made to replace the local collection by the server's.
#[derive(Debug)]
#[allow(inconsistent_fields)]
pub enum DownloadCall {
    /// Close the collection, bringing it into the form of earlier versions if so asked.
    Close { downgrade: bool, then: DownloadClosed },
    /// Fetch the server's collection into a file beside the local one.
    Download { remote: SyncEndpoint, then: Downloaded },
    /// Have the database in that file check itself; its answer is a text.
    CheckIntegrity { then: IntegrityChecked },
    /// Put the file in the place of the local collection.
    Save { then: Saved },
    /// The download is over.
    Finished(Result<(), AnkiError>),
}

/// Waits until the collection is closed.
#[derive(Debug)]
pub struct DownloadClosed {
    pub auth: SyncAuth,
}

/// Waits until the server's collection is fetched.
#[derive(Debug)]
pub struct Downloaded {}

/// Waits for what the database says of itself.
#[derive(Debug)]
pub struct IntegrityChecked {}

/// Waits until the file is in its place.
#[derive(Debug)]
pub struct Saved {}

impl DownloadClosed {
    pub open spec fn leads_to(self, reply: Result<(), AnkiError>, call: DownloadCall) -> bool {
        match reply {
            Err(e) => call == DownloadCall::Finished(Err(e)),
            Ok(_) => call == (DownloadCall::Download {
                remote: SyncEndpoint {
                    hkey: Some(self.auth.hkey),
                    host_number: self.auth.host_number,
                },
                then: Downloaded {  },
            }),
        }
    }

    pub fn resume(self, reply: Result<(), AnkiError>) -> (call: DownloadCall)
        ensures
            self.leads_to(reply, call),
    {
        match reply {
            Err(e) => DownloadCall::Finished(Err(e)),
            Ok(_) => DownloadCall::Download {
                remote: SyncEndpoint::new(Some(self.auth.hkey), self.auth.host_number),
                then: Downloaded {  },
            },
        }
    }
}

impl Downloaded {
    pub open spec fn leads_to(self, reply: Result<(), AnkiError>, call: DownloadCall) -> bool {
        match reply {
            Err(e) => call == DownloadCall::Finished(Err(e)),
            Ok(_) => call == (DownloadCall::CheckIntegrity { then: IntegrityChecked {  } }),
        }
    }

    pub fn resume(self, reply: Result<(), AnkiError>) -> (call: DownloadCall)
        ensures
            self.leads_to(reply, call),
    {
        match reply {
            Err(e) => DownloadCall::Finished(Err(e)),
            Ok(_) => DownloadCall::CheckIntegrity { then: IntegrityChecked {  } },
        }
    }
}

impl IntegrityChecked {
    /// What follows on what the database says of itself. Anything but "ok" means that the
    /// file is of no use, and the local collection stays in its place.
    pub open spec fn leads_to(self, reply: Result<String, AnkiError>, call: DownloadCall) -> bool {
        match reply {
            Err(e) => call == DownloadCall::Finished(Err(e)),
            Ok(check_result) => if check_result@ == "ok"@ {
                call == (DownloadCall::Save { then: Saved {  } })
            } else {
                call matches DownloadCall::Finished(result) && result matches Err(e)
                    && e.is_sync_error(SyncErrorKind::Other, "download corrupt"@)
            },
        }
    }

    pub fn resume(self, reply: Result<String, AnkiError>) -> (call: DownloadCall)
        ensures
            self.leads_to(reply, call),
    {
        match reply {
            Err(e) => DownloadCall::Finished(Err(e)),
            Ok(check_result) => if check_result == "ok".to_string() {
                DownloadCall::Save { then: Saved {  } }
            } else {
                DownloadCall::Finished(
                    Err(AnkiError::sync_error("download corrupt", SyncErrorKind::Other)),
                )
            },
        }
    }
}

impl Saved {
    /// What follows on the attempt to put the file in its place, which may fail with a text.
    pub open spec fn leads_to(self, reply: Result<(), String>, call: DownloadCall) -> bool {
        match reply {
            Err(text) => call matches DownloadCall::Finished(result) && result matches Err(
                AnkiError::IOError { info },
            ) && info@ == "download save failed: "@ + text@,
            Ok(_) => call == DownloadCall::Finished(Ok(())),
        }
    }

    pub fn resume(self, reply: Result<(), String>) -> (call: DownloadCall)
        ensures
            self.leads_to(reply, call),
    {
        match reply {
            Err(text) => {
                let mut info = "download save failed: ".to_string();
                info.append(text.as_str());
                DownloadCall::Finished(Err(AnkiError::IOError { info }))
            },
            Ok(_) => DownloadCall::Finished(Ok(())),
        }
    }
}

impl Collection {
    /// Starts to find out where the two sides stand. Nothing is reported.
    pub fn get_sync_status(self, auth: SyncAuth) -> (call: StatusCall)
        ensures
            call == (StatusCall::Meta {
                then: StatusMetaReplied {
                    syncer: NormalSyncer {
                        col: self,
                        remote: SyncEndpoint {
                            hkey: Some(auth.hkey),
                            host_number: auth.host_number,
                        },
                        progress: progress::no_progress(),
                    },
                },
            }),
    {
        StatusCall::Meta { then: StatusMetaReplied { syncer: NormalSyncer::new(self, auth) } }
    }

    /// Starts a normal sync.
    pub fn normal_sync(self, auth: SyncAuth) -> (turn: Turn)
        ensures
            turn.reports@ == seq![
                ProgressReport { progress: progress::no_progress(), throttle: false },
            ],
            turn.call == (Call::Meta {
                then: MetaReplied {
                    syncer: NormalSyncer {
                        col: self,
                        remote: SyncEndpoint {
                            hkey: Some(auth.hkey),
                            host_number: auth.host_number,
                        },
                        progress: progress::no_progress(),
                    },
                },
            }),
    {
        NormalSyncer::new(self, auth).sync()
    }

    /// Upload collection to AnkiWeb. Caller must re-open afterwards.
    pub fn full_upload(self, auth: SyncAuth) -> (call: UploadCall)
        ensures
            call == (UploadCall::BeforeUpload { then: UploadPrepared { auth } }),
    {
        UploadCall::BeforeUpload { then: UploadPrepared { auth } }
    }

    /// Download collection from AnkiWeb. Caller must re-open afterwards.
    pub fn full_download(self, auth: SyncAuth) -> (call: DownloadCall)
        ensures
            call == (DownloadCall::Close { downgrade: false, then: DownloadClosed { auth } }),
    {
        DownloadCall::Close { downgrade: false, then: DownloadClosed { auth } }
    }
}

/// The server's collection is put in the place of the local one exactly when its database
/// says of itself that it is in order.
pub proof fn law_only_a_sound_download_is_saved(
    checked: IntegrityChecked,
    reply: Result<String, AnkiError>,
    call: DownloadCall,
)
    requires
        checked.leads_to(reply, call),
    ensures
        call is Save <==> (reply matches Ok(check_result) && check_result@ == "ok"@),
        !(call is Save) ==> (call matches DownloadCall::Finished(result) && result is Err),
{
}

/// What is found out about where the two sides stand is what a sync goes by: it is carried
/// out if that is what is required, and ends at once with the same outcome otherwise.
pub proof fn law_status_foretells_the_sync(
    syncer: NormalSyncer,
    remote: SyncMeta,
    local: SyncMeta,
    output: SyncOutput,
    turn: Turn,
)
    requires
        (StatusLocalMetaRead { remote }).leads_to(Ok(local), StatusCall::Finished(Ok(output))),
        (LocalMetaRead { syncer, remote }).leads_to(Ok(local), turn),
    ensures
        turn.call is BeginTrx <==> output.required == SyncActionRequired::NormalSyncRequired,
        !(turn.call is BeginTrx) ==> turn.ends_with(Ok(output)),
{
}

} // verus!
