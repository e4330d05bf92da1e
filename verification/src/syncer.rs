//! The course of a normal sync.
//!
//! A sync is a string of calls to the server and to the storage, and decisions between them.
//! The decisions are made here. Each of them results in a `Turn`: the progress to report, and
//! the call to make next. A call holds what waits for its reply; resuming that with the reply
//! gives the next turn, until the call is `Finished`.

use crate::changes::{GatherCall, UnchunkedChanges};
use crate::chunk::{Chunk, ChunkRead, ChunkableIDs};
use crate::collection::Collection;
use crate::error::AnkiError;
use crate::graves::{GraveOp, Graves};
use crate::ids::{TimestampMillis, Usn};
use crate::merge::Merging;
use crate::objects::{Card, Note, ReviewLogEntry};
use crate::progress;
use crate::progress::{NormalSyncProgress, ProgressReport};
use crate::sanity::SanityCheckCounts;
use crate::state;
use crate::state::{
    check_admission, get_sync_state, SyncActionRequired, SyncAuth, SyncMeta, SyncOutput, SyncState,
};
use crate::steps::Steps;
use vstd::prelude::*;

verus! {

/// What a connection to the server is made with.
#[derive(Debug)]
pub struct SyncEndpoint {
    /// The key of a client that has logged in.
    pub hkey: Option<String>,
    pub host_number: u32,
}

/// A client that is about to sync.
#[derive(Debug)]
pub struct NormalSyncer {
    pub col: Collection,
    pub remote: SyncEndpoint,
    pub progress: NormalSyncProgress,
}

/// A normal sync under way: a transaction is open, and where the two sides stood at its
/// beginning is known.
#[derive(Debug)]
pub struct Session {
    pub syncer: NormalSyncer,
    pub state: SyncState,
}

/// What to do next: make the reports in order, and then the call.
#[derive(Debug)]
pub struct Turn {
    pub reports: Vec<ProgressReport>,
    pub call: Call,
}

/// A call to the server or the storage, and what waits for the reply.
#[derive(Debug)]
#[allow(inconsistent_fields)]
pub enum Call {
    /// Ask the server what it says of itself.
    Meta { then: MetaReplied },
    /// Read what the collection says of itself.
    LocalMeta { then: LocalMetaRead },
    /// Begin a transaction.
    BeginTrx { then: TrxBegun },
    /// Read how many minutes west of UTC the client is.
    LocalMinsWest { then: MinsWestRead },
    /// Start a sync on the server, which answers with what has been removed there.
    Start { usn: Usn, mins_west: i32, local_is_newer: bool, then: Started },
    /// Read what has been removed here.
    PendingGraves { usn: Usn, then: PendingGravesRead },
    /// Give the removals that wait to be synced the new number.
    UpdatePendingGraveUsns { usn: Usn, then: GraveUsnsUpdated },
    /// Have the server remove objects.
    SendGraves { chunk: Graves, then: GravesSent },
    /// Carry out the steps.
    ApplyGraves { ops: Steps<GraveOp>, then: GravesApplied },
    /// Gather the local changes.
    GatherChanges { gather: GatherCall, then: ChangesGathered },
    /// Send changes to the server, which answers with its own.
    SendChanges { changes: UnchunkedChanges, then: ChangesSent },
    /// Merge the server's changes.
    ApplyChanges { merging: Merging, then: ChangesApplied },
    /// Fetch a chunk of objects from the server.
    FetchChunk { then: ChunkReceived },
    /// Merge the objects of a chunk.
    ApplyChunk { merging: Merging, then: ChunkApplied },
    /// Find the objects that wait to be synced.
    ChunkableIDs { usn: Usn, then: ChunkIDsRead },
    /// Carry out the updates in `then.read`, and then read the objects named there. The first
    /// error is the reply.
    ReadChunk { then: ChunkObjectsRead },
    /// Send a chunk of objects to the server.
    SendChunk { chunk: Chunk, then: ChunkSent },
    /// Count what the collection holds.
    SanityCheckInfo { then: SanityInfoRead },
    /// Count the due cards of the current deck, if there is one.
    DeckTree { then: DeckTreeRead },
    /// Have the server compare the counts with its own.
    SanityCheck { counts: SanityCheckCounts, then: SanityChecked },
    /// Finish the sync on the server, which answers with the time of its last change.
    Finish { then: FinishReplied },
    /// Carry out the steps.
    FinalizeSync { ops: Steps<FinalizeOp>, then: Finalized },
    /// Commit the transaction.
    CommitTrx { then: Committed },
    /// Roll the transaction back.
    RollbackTrx { then: RolledBack },
    /// Have the server abort the sync.
    Abort { then: Aborted },
    /// The sync is over.
    Finished(Result<SyncOutput, AnkiError>),
}

/// One step of noting down that a sync is done.
#[derive(Debug, Clone, Copy, PartialEq, Eq, Structural)]
pub enum FinalizeOp {
    SetLastSync(TimestampMillis),
    SetUsn(Usn),
    SetModifiedTime(TimestampMillis),
}

/// The objects of a chunk, as they are found under its ids.
#[derive(Debug)]
pub struct ChunkObjects {
    pub revlog: Vec<Option<ReviewLogEntry>>,
    pub cards: Vec<Option<Card>>,
    pub notes: Vec<Option<Note>>,
}

/// Waits for what the server says of itself.
#[derive(Debug)]
pub struct MetaReplied {
    pub syncer: NormalSyncer,
}

/// Waits for what the collection says of itself.
#[derive(Debug)]
pub struct LocalMetaRead {
    pub syncer: NormalSyncer,
    pub remote: SyncMeta,
}

/// Waits until a transaction is begun.
#[derive(Debug)]
pub struct TrxBegun {
    pub session: Session,
}

/// Waits for the client's distance from UTC.
#[derive(Debug)]
pub struct MinsWestRead {
    pub session: Session,
}

/// Waits for what has been removed on the server.
#[derive(Debug)]
pub struct Started {
    pub session: Session,
}

/// Waits for what has been removed here.
#[derive(Debug)]
pub struct PendingGravesRead {
    pub session: Session,
    pub remote: Graves,
}

/// Waits until the removals have their new number.
#[derive(Debug)]
pub struct GraveUsnsUpdated {
    pub session: Session,
    pub remote: Graves,
    pub local: Graves,
}

/// Waits until the server has removed objects. Those in `local` are still to be sent.
#[derive(Debug)]
pub struct GravesSent {
    pub session: Session,
    pub remote: Graves,
    pub local: Graves,
}

/// Waits until the server's removals are carried out.
#[derive(Debug)]
pub struct GravesApplied {
    pub session: Session,
}

/// Waits for the local changes.
#[derive(Debug)]
pub struct ChangesGathered {
    pub session: Session,
}

/// Waits for the server's changes.
#[derive(Debug)]
pub struct ChangesSent {
    pub session: Session,
}

/// Waits until the server's changes are merged.
#[derive(Debug)]
pub struct ChangesApplied {
    pub session: Session,
}

/// Waits for a chunk of the server.
#[derive(Debug)]
pub struct ChunkReceived {
    pub session: Session,
}

/// Waits until a chunk of the server is merged.
#[derive(Debug)]
pub struct ChunkApplied {
    pub session: Session,
    pub done: bool,
}

/// Waits for the ids of the objects that wait to be synced.
#[derive(Debug)]
pub struct ChunkIDsRead {
    pub session: Session,
}

/// Waits for the objects of a chunk. Those in `ids` are still to be sent after it.
#[derive(Debug)]
pub struct ChunkObjectsRead {
    pub session: Session,
    pub ids: ChunkableIDs,
    pub read: ChunkRead,
}

/// Waits until a chunk is sent. The objects in `ids` are still to be sent.
#[derive(Debug)]
pub struct ChunkSent {
    pub session: Session,
    pub ids: ChunkableIDs,
    pub done: bool,
}

/// Waits for the counts of what the collection holds.
#[derive(Debug)]
pub struct SanityInfoRead {
    pub session: Session,
}

/// Waits for the due cards of the current deck.
#[derive(Debug)]
pub struct DeckTreeRead {
    pub session: Session,
    pub counts: SanityCheckCounts,
}

/// Waits for the server's comparison of the counts.
#[derive(Debug)]
pub struct SanityChecked {
    pub session: Session,
}

/// Waits until the server has finished.
#[derive(Debug)]
pub struct FinishReplied {
    pub session: Session,
}

/// Waits until it is noted down that the sync is done.
#[derive(Debug)]
pub struct Finalized {
    pub session: Session,
}

/// Waits for the commit.
#[derive(Debug)]
pub struct Committed {
    pub output: SyncOutput,
}

/// Waits for the rollback.
#[derive(Debug)]
pub struct RolledBack {
    pub error: AnkiError,
}

/// Waits until the server has been told to abort.
#[derive(Debug)]
pub struct Aborted {
    pub error: AnkiError,
}

impl Turn {
    /// Nothing is reported before the call.
    pub open spec fn is_silent(self) -> bool {
        self.reports@.len() == 0
    }

    /// The transaction is rolled back on account of the error.
    pub open spec fn rolls_back(self, error: AnkiError) -> bool {
        self.is_silent() && self.call == (Call::RollbackTrx { then: RolledBack { error } })
    }

    /// The sync is over.
    pub open spec fn ends_with(self, result: Result<SyncOutput, AnkiError>) -> bool {
        self.is_silent() && self.call == Call::Finished(result)
    }

    pub(crate) fn silent(call: Call) -> (turn: Turn)
        ensures
            turn.is_silent(),
            turn.call == call,
    {
        Turn { reports: Vec::new(), call }
    }

    pub(crate) fn roll_back(error: AnkiError) -> (turn: Turn)
        ensures
            turn.rolls_back(error),
    {
        Turn::silent(Call::RollbackTrx { then: RolledBack { error } })
    }

    pub(crate) fn end(result: Result<SyncOutput, AnkiError>) -> (turn: Turn)
        ensures
            turn.ends_with(result),
    {
        Turn::silent(Call::Finished(result))
    }
}

impl Clone for SyncEndpoint {
    fn clone(&self) -> (endpoint: Self)
        ensures
            endpoint == *self,
    {
        let hkey = match &self.hkey {
            Some(hkey) => Some(hkey.clone()),
            None => None,
        };
        SyncEndpoint { hkey, host_number: self.host_number }
    }
}

impl SyncEndpoint {
    pub fn new(hkey: Option<String>, host_number: u32) -> (endpoint: SyncEndpoint)
        ensures
            endpoint == (SyncEndpoint { hkey, host_number }),
    {
        SyncEndpoint { hkey, host_number }
    }
}

impl NormalSyncer {
    /// Create a new syncing instance. If host_number is unavailable, use 0.
    pub fn new(col: Collection, auth: SyncAuth) -> (syncer: NormalSyncer)
        ensures
            syncer == (NormalSyncer {
                col,
                remote: SyncEndpoint { hkey: Some(auth.hkey), host_number: auth.host_number },
                progress: progress::no_progress(),
            }),
    {
        NormalSyncer {
            col,
            remote: SyncEndpoint::new(Some(auth.hkey), auth.host_number),
            progress: NormalSyncProgress::default(),
        }
    }

    /// The report of the progress made so far.
    pub fn fire_progress_cb(&self, throttle: bool) -> (report: ProgressReport)
        ensures
            report == (ProgressReport { progress: self.progress, throttle }),
    {
        ProgressReport { progress: self.progress, throttle }
    }

    /// Starts a sync.
    pub fn sync(self) -> (turn: Turn)
        ensures
            turn.reports@ == seq![ProgressReport { progress: self.progress, throttle: false }],
            turn.call == (Call::Meta { then: MetaReplied { syncer: self } }),
    {
        let mut reports: Vec<ProgressReport> = Vec::new();
        reports.push(self.fire_progress_cb(false));
        Turn { reports, call: Call::Meta { then: MetaReplied { syncer: self } } }
    }
}

impl MetaReplied {
    /// What follows on the server's word.
    pub open spec fn leads_to(self, reply: Result<SyncMeta, AnkiError>, turn: Turn) -> bool {
        match reply {
            Err(e) => turn.ends_with(Err(e)),
            Ok(remote) => match state::admitted(remote) {
                Err(e) => turn.ends_with(Err(e)),
                Ok(remote) => turn.is_silent() && turn.call == (Call::LocalMeta {
                    then: LocalMetaRead { syncer: self.syncer, remote },
                }),
            },
        }
    }

    pub fn resume(self, reply: Result<SyncMeta, AnkiError>) -> (turn: Turn)
        ensures
            self.leads_to(reply, turn),
    {
        match reply {
            Err(e) => Turn::end(Err(e)),
            Ok(remote) => match check_admission(remote) {
                Err(e) => Turn::end(Err(e)),
                Ok(remote) => Turn::silent(
                    Call::LocalMeta { then: LocalMetaRead { syncer: self.syncer, remote } },
                ),
            },
        }
    }
}

impl LocalMetaRead {
    /// The clocks can be compared.
    pub open spec fn admits(self, reply: Result<SyncMeta, AnkiError>) -> bool {
        reply matches Ok(local) ==> self.remote.clocks_comparable(local)
    }

    /// What follows on the collection's word. Only a normal sync is carried out here.
    pub open spec fn leads_to(self, reply: Result<SyncMeta, AnkiError>, turn: Turn) -> bool {
        match reply {
            Err(e) => turn.ends_with(Err(e)),
            Ok(local) => if self.remote.clocks_off(local) {
                turn.is_silent() && (turn.call matches Call::Finished(result)
                    && result matches Err(e) && state::state_found(self.remote, local, Err(e)))
            } else {
                let found = state::sync_state(self.remote, local);
                match found.required {
                    SyncActionRequired::NormalSyncRequired => turn.is_silent() && turn.call
                        == (Call::BeginTrx {
                        then: TrxBegun {
                            session: Session { syncer: self.syncer, state: found },
                        },
                    }),
                    _ => turn.ends_with(Ok(SyncOutput::of(found))),
                }
            },
        }
    }

    pub fn resume(self, reply: Result<SyncMeta, AnkiError>) -> (turn: Turn)
        requires
            self.admits(reply),
        ensures
            self.leads_to(reply, turn),
    {
        match reply {
            Err(e) => Turn::end(Err(e)),
            Ok(local) => match get_sync_state(self.remote, local) {
                Err(e) => Turn::end(Err(e)),
                Ok(state) => match state.required {
                    SyncActionRequired::NoChanges => Turn::end(Ok(SyncOutput::from(state))),
                    SyncActionRequired::FullSyncRequired { .. } => Turn::end(
                        Ok(SyncOutput::from(state)),
                    ),
                    SyncActionRequired::NormalSyncRequired => Turn::silent(
                        Call::BeginTrx {
                            then: TrxBegun { session: Session { syncer: self.syncer, state } },
                        },
                    ),
                },
            },
        }
    }
}

} // verus!
