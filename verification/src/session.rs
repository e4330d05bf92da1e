//! The steps of a normal sync inside its transaction. Whatever fails there, the transaction
//! is rolled back and the server told to abort.

use crate::changes;
use crate::changes::{GatherCall, UnchunkedChanges};
use crate::chunk;
use crate::chunk::{Chunk, ChunkableIDs};
use crate::collection::Collection;
use crate::error::AnkiError;
use crate::graves;
use crate::graves::Graves;
use crate::ids::{CardID, NoteID, RevlogID, TimestampMillis, Usn};
use crate::merge;
use crate::objects::{Card, Note, ReviewLogEntry};
use crate::progress::{NormalSyncProgress, ProgressReport, SyncStage};
use crate::sanity;
use crate::sanity::{
    check_counts, DeckTreeNode, SanityCheckCounts, SanityCheckDueCounts, SanityCheckOut,
};
use crate::state;
use crate::state::{SyncActionRequired, SyncMeta, SyncOutput, SyncState};
use crate::steps::Steps;
use crate::syncer::{
    Aborted, Call, ChangesApplied, ChangesGathered, ChangesSent, ChunkApplied, ChunkIDsRead,
    ChunkObjects, ChunkObjectsRead, ChunkReceived, ChunkSent, Committed, DeckTreeRead, FinalizeOp,
    Finalized, FinishReplied, GraveUsnsUpdated, GravesApplied, GravesSent, MinsWestRead,
    PendingGravesRead, RolledBack, SanityChecked, SanityInfoRead, Session, Started, TrxBegun, Turn,
};
use vstd::prelude::*;

verus! {

impl Session {
    pub open spec fn progress(self) -> NormalSyncProgress {
        self.syncer.progress
    }

    /// The session with other progress.
    pub open spec fn with_progress(self, progress: NormalSyncProgress) -> Session {
        Session { syncer: crate::syncer::NormalSyncer { progress, ..self.syncer }, ..self }
    }

    /// The session in another stage.
    pub open spec fn in_stage(self, stage: SyncStage) -> Session {
        self.with_progress(NormalSyncProgress { stage, ..self.progress() })
    }

    /// The session with so many more removals sent.
    pub open spec fn with_removals_sent(self, n: nat) -> Session {
        self.with_progress(
            NormalSyncProgress {
                local_remove: (self.progress().local_remove + n) as usize,
                ..self.progress()
            },
        )
    }

    /// The session with so many removals received.
    pub open spec fn with_removals_received(self, n: nat) -> Session {
        self.with_progress(
            NormalSyncProgress { remote_remove: n as usize, ..self.progress() },
        )
    }

    /// The session with so many more objects sent.
    pub open spec fn with_updates_sent(self, n: nat) -> Session {
        self.with_progress(
            NormalSyncProgress {
                local_update: (self.progress().local_update + n) as usize,
                ..self.progress()
            },
        )
    }

    /// The session with so many more objects received.
    pub open spec fn with_updates_received(self, n: nat) -> Session {
        self.with_progress(
            NormalSyncProgress {
                remote_update: (self.progress().remote_update + n) as usize,
                ..self.progress()
            },
        )
    }

    /// The report of the session's progress.
    pub open spec fn report(self, throttle: bool) -> ProgressReport {
        ProgressReport { progress: self.progress(), throttle }
    }

    /// The removals that are handed over next can be counted.
    pub open spec fn can_count_graves(
        self,
        remote: graves::GravesView,
        local: graves::GravesView,
    ) -> bool {
        if local.total() > 0 {
            self.progress().local_remove + local.chunk().total() <= usize::MAX
        } else {
            remote.total() <= usize::MAX
        }
    }

    /// So many more objects that are sent can be counted.
    pub open spec fn can_count_sent(self, n: nat) -> bool {
        self.progress().local_update + n <= usize::MAX
    }

    /// So many more objects that are received can be counted.
    pub open spec fn can_count_received(self, n: nat) -> bool {
        self.progress().remote_update + n <= usize::MAX
    }

    /// Sync. Begins with the removals.
    pub open spec fn starts_syncing(self, turn: Turn) -> bool {
        let session = self.in_stage(SyncStage::Syncing);
        &&& turn.reports@ == seq![session.report(false)]
        &&& turn.call == (Call::LocalMinsWest { then: MinsWestRead { session } })
    }

    /// The next removals are sent, or, when there are none left, those that the server sent
    /// are carried out.
    pub open spec fn hands_over_graves(
        self,
        remote: Graves,
        local: graves::GravesView,
        call: Call,
    ) -> bool {
        if local.total() > 0 {
            call matches Call::SendGraves { chunk, then } && {
                &&& chunk@ == local.chunk()
                &&& then.session == self.with_removals_sent(local.chunk().total())
                &&& then.remote == remote
                &&& then.local@ == local.left()
            }
        } else {
            call matches Call::ApplyGraves { ops, then } && {
                &&& ops@ == graves::burials(remote@, self.state.latest_usn)
                &&& then.session == self.with_removals_received(remote@.total())
            }
        }
    }

    /// The local changes that are sent in one piece are gathered.
    pub open spec fn gathers_changes(self, call: Call) -> bool {
        call == (Call::GatherChanges {
            gather: GatherCall::PendingNotetypes {
                usn: self.state.pending_usn,
                then: changes::NotetypeIDs {
                    gather: changes::Gather {
                        pending_usn: self.state.pending_usn,
                        new_usn: self.state.new_usn,
                        local_is_newer: self.state.local_is_newer,
                    },
                },
            },
            then: ChangesGathered { session: self },
        })
    }

    /// The next of the local objects that wait to be synced are read.
    pub open spec fn reads_chunk(self, ids: chunk::IDLists, call: Call) -> bool {
        call matches Call::ReadChunk { then } && {
            &&& then.session == self
            &&& then.ids@ == ids.left()
            &&& then.read.reads(self.syncer.col.server, ids, self.state.new_usn)
        }
    }

    /// Syncing is done, and the comparison of the two sides begins.
    pub open spec fn starts_finalizing(self, before: Seq<ProgressReport>, turn: Turn) -> bool {
        let session = self.in_stage(SyncStage::Finalizing);
        &&& turn.reports@ == before.push(session.report(false))
        &&& turn.call == (Call::SanityCheckInfo { then: SanityInfoRead { session } })
    }
}

fn one_report(report: ProgressReport) -> (reports: Vec<ProgressReport>)
    ensures
        reports@ == seq![report],
{
    let mut reports: Vec<ProgressReport> = Vec::new();
    reports.push(report);
    reports
}

impl Session {
    /// Sync. The transaction is open.
    fn normal_sync_inner(self) -> (turn: Turn)
        ensures
            self.starts_syncing(turn),
    {
        let mut session = self;
        session.syncer.progress.stage = SyncStage::Syncing;
        let reports = one_report(session.syncer.fire_progress_cb(false));
        Turn { reports, call: Call::LocalMinsWest { then: MinsWestRead { session } } }
    }

    /// Sends the next removals, or carries out those that the server sent.
    fn start_and_process_deletions(self, remote: Graves, local: Graves) -> (call: Call)
        requires
            self.can_count_graves(remote@, local@),
        ensures
            self.hands_over_graves(remote, local@, call),
    {
        let mut session = self;
        let mut local = local;
        match local.take_chunk() {
            Some(chunk) => {
                session.syncer.progress.local_remove += chunk.count();
                Call::SendGraves { chunk, then: GravesSent { session, remote, local } }
            },
            None => {
                session.syncer.progress.remote_remove = remote.count();
                let ops = session.syncer.col.apply_graves(&remote, session.state.latest_usn);
                Call::ApplyGraves { ops: Steps::new(ops), then: GravesApplied { session } }
            },
        }
    }

    /// Gathers the local changes that are sent in one piece.
    fn process_unchunked_changes(self) -> (call: Call)
        ensures
            self.gathers_changes(call),
    {
        let gather = self.syncer.col.local_unchunked_changes(
            self.state.pending_usn,
            self.state.new_usn,
            self.state.local_is_newer,
        );
        Call::GatherChanges { gather, then: ChangesGathered { session: self } }
    }

    /// Fetches the next of the server's chunks.
    fn process_chunks_from_server(self) -> (call: Call)
        ensures
            call == (Call::FetchChunk { then: ChunkReceived { session: self } }),
    {
        Call::FetchChunk { then: ChunkReceived { session: self } }
    }

    /// Finds the local objects that wait to be synced.
    fn send_chunks_to_server(self) -> (call: Call)
        ensures
            call == (Call::ChunkableIDs {
                usn: self.state.pending_usn,
                then: ChunkIDsRead { session: self },
            }),
    {
        Call::ChunkableIDs { usn: self.state.pending_usn, then: ChunkIDsRead { session: self } }
    }

    /// Reads the next chunk of local objects.
    fn read_chunk(self, ids: ChunkableIDs) -> (call: Call)
        ensures
            self.reads_chunk(ids@, call),
    {
        let mut ids = ids;
        let read = self.syncer.col.get_chunk(&mut ids, self.state.new_usn);
        Call::ReadChunk { then: ChunkObjectsRead { session: self, ids, read } }
    }

    /// Begins the comparison of the two sides.
    fn sanity_check(self, reports: Vec<ProgressReport>) -> (turn: Turn)
        ensures
            self.starts_finalizing(reports@, turn),
    {
        let mut session = self;
        let mut reports = reports;
        session.syncer.progress.stage = SyncStage::Finalizing;
        reports.push(session.syncer.fire_progress_cb(false));
        Turn { reports, call: Call::SanityCheckInfo { then: SanityInfoRead { session } } }
    }
}

impl TrxBegun {
    /// What follows once a transaction is begun. Where that fails there is none to roll back.
    pub open spec fn leads_to(self, reply: Result<(), AnkiError>, turn: Turn) -> bool {
        match reply {
            Err(e) => turn.ends_with(Err(e)),
            Ok(_) => self.session.starts_syncing(turn),
        }
    }

    pub fn resume(self, reply: Result<(), AnkiError>) -> (turn: Turn)
        ensures
            self.leads_to(reply, turn),
    {
        match reply {
            Err(e) => Turn::end(Err(e)),
            Ok(_) => self.session.normal_sync_inner(),
        }
    }
}

impl MinsWestRead {
    pub open spec fn leads_to(self, mins_west: i32, turn: Turn) -> bool {
        turn.is_silent() && turn.call == (Call::Start {
            usn: self.session.state.usn_at_last_sync,
            mins_west,
            local_is_newer: self.session.state.local_is_newer,
            then: Started { session: self.session },
        })
    }

    pub fn resume(self, mins_west: i32) -> (turn: Turn)
        ensures
            self.leads_to(mins_west, turn),
    {
        Turn::silent(
            Call::Start {
                usn: self.session.state.usn_at_last_sync,
                mins_west,
                local_is_newer: self.session.state.local_is_newer,
                then: Started { session: self.session },
            },
        )
    }
}

impl Started {
    /// What follows on what the server has removed.
    pub open spec fn leads_to(self, reply: Result<Graves, AnkiError>, turn: Turn) -> bool {
        match reply {
            Err(e) => turn.rolls_back(e),
            Ok(remote) => turn.is_silent() && turn.call == (Call::PendingGraves {
                usn: self.session.state.pending_usn,
                then: PendingGravesRead { session: self.session, remote },
            }),
        }
    }

    pub fn resume(self, reply: Result<Graves, AnkiError>) -> (turn: Turn)
        ensures
            self.leads_to(reply, turn),
    {
        match reply {
            Err(e) => Turn::roll_back(e),
            Ok(remote) => Turn::silent(
                Call::PendingGraves {
                    usn: self.session.state.pending_usn,
                    then: PendingGravesRead { session: self.session, remote },
                },
            ),
        }
    }
}

impl PendingGravesRead {
    /// The removals can be counted, if there is need for it.
    pub open spec fn admits(self, reply: Result<Graves, AnkiError>) -> bool {
        reply matches Ok(local) ==> self.session.state.new_usn is Some
            || self.session.can_count_graves(self.remote@, local@)
    }

    /// What follows on what has been removed here.
    pub open spec fn leads_to(self, reply: Result<Graves, AnkiError>, turn: Turn) -> bool {
        match reply {
            Err(e) => turn.rolls_back(e),
            Ok(local) => turn.is_silent() && match self.session.state.new_usn {
                Some(usn) => turn.call == (Call::UpdatePendingGraveUsns {
                    usn,
                    then: GraveUsnsUpdated { session: self.session, remote: self.remote, local },
                }),
                None => self.session.hands_over_graves(self.remote, local@, turn.call),
            },
        }
    }

    /// The removals that are handed over next can be counted.
    pub fn can_count(&self, local: &Graves) -> (b: bool)
        ensures
            b == self.session.can_count_graves(self.remote@, local@),
    {
        can_count_graves(&self.session, &self.remote, local)
    }

    pub fn resume(self, reply: Result<Graves, AnkiError>) -> (turn: Turn)
        requires
            self.admits(reply),
        ensures
            self.leads_to(reply, turn),
    {
        match reply {
            Err(e) => Turn::roll_back(e),
            Ok(local) => match self.session.state.new_usn {
                Some(usn) => Turn::silent(
                    Call::UpdatePendingGraveUsns {
                        usn,
                        then: GraveUsnsUpdated {
                            session: self.session,
                            remote: self.remote,
                            local,
                        },
                    },
                ),
                None => Turn::silent(
                    self.session.start_and_process_deletions(self.remote, local),
                ),
            },
        }
    }
}

fn sums_up(start: usize, a: usize, b: usize, c: usize, d: usize) -> (ok: bool)
    ensures
        ok == (start + a + b + c + d <= usize::MAX),
{
    match start.checked_add(a) {
        None => false,
        Some(n) => match n.checked_add(b) {
            None => false,
            Some(n) => match n.checked_add(c) {
                None => false,
                Some(n) => n.checked_add(d).is_some(),
            },
        },
    }
}

fn can_count_graves(session: &Session, remote: &Graves, local: &Graves) -> (ok: bool)
    ensures
        ok == session.can_count_graves(remote@, local@),
{
    let next = local.chunk_count();
    if next > 0 {
        sums_up(session.syncer.progress.local_remove, next, 0, 0, 0)
    } else {
        sums_up(0, remote.cards.len(), remote.notes.len(), remote.decks.len(), 0)
    }
}

impl GraveUsnsUpdated {
    /// The removals can be counted, if there is need for it.
    pub open spec fn admits(self, reply: Result<(), AnkiError>) -> bool {
        reply is Ok ==> self.session.can_count_graves(self.remote@, self.local@)
    }

    /// What follows once the removals have their new number.
    pub open spec fn leads_to(self, reply: Result<(), AnkiError>, turn: Turn) -> bool {
        match reply {
            Err(e) => turn.rolls_back(e),
            Ok(_) => turn.is_silent() && self.session.hands_over_graves(
                self.remote,
                self.local@,
                turn.call,
            ),
        }
    }

    /// The removals that are handed over next can be counted.
    pub fn can_count(&self) -> (b: bool)
        ensures
            b == self.session.can_count_graves(self.remote@, self.local@),
    {
        can_count_graves(&self.session, &self.remote, &self.local)
    }

    pub fn resume(self, reply: Result<(), AnkiError>) -> (turn: Turn)
        requires
            self.admits(reply),
        ensures
            self.leads_to(reply, turn),
    {
        match reply {
            Err(e) => Turn::roll_back(e),
            Ok(_) => Turn::silent(
                self.session.start_and_process_deletions(self.remote, self.local),
            ),
        }
    }
}

impl GravesSent {
    /// The removals can be counted, if there is need for it.
    pub open spec fn admits(self, reply: Result<(), AnkiError>) -> bool {
        reply is Ok ==> self.session.can_count_graves(self.remote@, self.local@)
    }

    /// What follows once the server has removed objects.
    pub open spec fn leads_to(self, reply: Result<(), AnkiError>, turn: Turn) -> bool {
        match reply {
            Err(e) => turn.rolls_back(e),
            Ok(_) => turn.reports@ == seq![self.session.report(true)]
                && self.session.hands_over_graves(self.remote, self.local@, turn.call),
        }
    }

    /// The removals that are handed over next can be counted.
    pub fn can_count(&self) -> (b: bool)
        ensures
            b == self.session.can_count_graves(self.remote@, self.local@),
    {
        can_count_graves(&self.session, &self.remote, &self.local)
    }

    pub fn resume(self, reply: Result<(), AnkiError>) -> (turn: Turn)
        requires
            self.admits(reply),
        ensures
            self.leads_to(reply, turn),
    {
        match reply {
            Err(e) => Turn::roll_back(e),
            Ok(_) => {
                let reports = one_report(self.session.syncer.fire_progress_cb(true));
                let call = self.session.start_and_process_deletions(self.remote, self.local);
                Turn { reports, call }
            },
        }
    }
}

impl GravesApplied {
    /// What follows once the server's removals are carried out.
    pub open spec fn leads_to(self, reply: Result<(), AnkiError>, turn: Turn) -> bool {
        match reply {
            Err(e) => turn.rolls_back(e),
            Ok(_) => turn.reports@ == seq![self.session.report(true)]
                && self.session.gathers_changes(turn.call),
        }
    }

    pub fn resume(self, reply: Result<(), AnkiError>) -> (turn: Turn)
        ensures
            self.leads_to(reply, turn),
    {
        match reply {
            Err(e) => Turn::roll_back(e),
            Ok(_) => {
                let reports = one_report(self.session.syncer.fire_progress_cb(true));
                Turn { reports, call: self.session.process_unchunked_changes() }
            },
        }
    }
}

impl ChangesGathered {
    /// The reply is one that can be counted.
    pub open spec fn admits(self, reply: Result<UnchunkedChanges, AnkiError>) -> bool {
        reply matches Ok(local) ==> self.session.can_count_sent(local.total())
    }

    /// What follows on the local changes: they are sent.
    pub open spec fn leads_to(
        self,
        reply: Result<UnchunkedChanges, AnkiError>,
        turn: Turn,
    ) -> bool {
        match reply {
            Err(e) => turn.rolls_back(e),
            Ok(local) => turn.is_silent() && turn.call == (Call::SendChanges {
                changes: local,
                then: ChangesSent { session: self.session.with_updates_sent(local.total()) },
            }),
        }
    }

    /// The changes can be counted.
    pub fn can_count(&self, local: &UnchunkedChanges) -> (b: bool)
        ensures
            b == self.session.can_count_sent(local.total()),
    {
        sums_up(
            self.session.syncer.progress.local_update,
            local.notetypes.len(),
            local.decks_and_config.decks.len(),
            local.decks_and_config.config.len(),
            local.tags.len(),
        )
    }

    pub fn resume(self, reply: Result<UnchunkedChanges, AnkiError>) -> (turn: Turn)
        requires
            self.admits(reply),
        ensures
            self.leads_to(reply, turn),
    {
        match reply {
            Err(e) => Turn::roll_back(e),
            Ok(local) => {
                let mut session = self.session;
                session.syncer.progress.local_update += local.count();
                Turn::silent(Call::SendChanges { changes: local, then: ChangesSent { session } })
            },
        }
    }
}

impl ChangesSent {
    /// The reply is one that can be counted.
    pub open spec fn admits(self, reply: Result<UnchunkedChanges, AnkiError>) -> bool {
        reply matches Ok(remote) ==> self.session.can_count_received(remote.total())
    }

    /// What follows on the server's changes: they are merged.
    pub open spec fn leads_to(
        self,
        reply: Result<UnchunkedChanges, AnkiError>,
        turn: Turn,
    ) -> bool {
        match reply {
            Err(e) => turn.rolls_back(e),
            Ok(remote) => turn.reports@ == seq![self.session.report(true)] && (
            turn.call matches Call::ApplyChanges { merging, then } && {
                &&& merging@ == merge::changes_to_merge(remote, self.session.state.latest_usn)
                &&& then.session == self.session.with_updates_received(remote.total())
            }),
        }
    }

    /// The changes can be counted.
    pub fn can_count(&self, remote: &UnchunkedChanges) -> (b: bool)
        ensures
            b == self.session.can_count_received(remote.total()),
    {
        sums_up(
            self.session.syncer.progress.remote_update,
            remote.notetypes.len(),
            remote.decks_and_config.decks.len(),
            remote.decks_and_config.config.len(),
            remote.tags.len(),
        )
    }

    pub fn resume(self, reply: Result<UnchunkedChanges, AnkiError>) -> (turn: Turn)
        requires
            self.admits(reply),
        ensures
            self.leads_to(reply, turn),
    {
        match reply {
            Err(e) => Turn::roll_back(e),
            Ok(remote) => {
                let mut session = self.session;
                let reports = one_report(session.syncer.fire_progress_cb(true));
                session.syncer.progress.remote_update += remote.count();
                let merging = session.syncer.col.apply_changes(remote, session.state.latest_usn);
                Turn { reports, call: Call::ApplyChanges { merging, then: ChangesApplied { session } } }
            },
        }
    }
}

impl ChangesApplied {
    /// What follows once the server's changes are merged: its chunks are fetched.
    pub open spec fn leads_to(self, reply: Result<(), AnkiError>, turn: Turn) -> bool {
        match reply {
            Err(e) => turn.rolls_back(e),
            Ok(_) => turn.reports@ == seq![self.session.report(true)] && turn.call
                == (Call::FetchChunk { then: ChunkReceived { session: self.session } }),
        }
    }

    pub fn resume(self, reply: Result<(), AnkiError>) -> (turn: Turn)
        ensures
            self.leads_to(reply, turn),
    {
        match reply {
            Err(e) => Turn::roll_back(e),
            Ok(_) => {
                let reports = one_report(self.session.syncer.fire_progress_cb(true));
                Turn { reports, call: self.session.process_chunks_from_server() }
            },
        }
    }
}

impl ChunkReceived {
    /// The reply is one that can be counted.
    pub open spec fn admits(self, reply: Result<Chunk, AnkiError>) -> bool {
        reply matches Ok(chunk) ==> self.session.can_count_received(chunk.total())
    }

    /// What follows on a chunk of the server: it is merged.
    pub open spec fn leads_to(self, reply: Result<Chunk, AnkiError>, turn: Turn) -> bool {
        match reply {
            Err(e) => turn.rolls_back(e),
            Ok(chunk) => turn.is_silent() && (turn.call matches Call::ApplyChunk { merging, then }
                && {
                &&& merging@ == merge::chunk_to_merge(chunk)
                &&& then.session == self.session.with_updates_received(chunk.total())
                &&& then.done == chunk.done
            }),
        }
    }

    /// The objects of the chunk can be counted.
    pub fn can_count(&self, chunk: &Chunk) -> (b: bool)
        ensures
            b == self.session.can_count_received(chunk.total()),
    {
        sums_up(
            self.session.syncer.progress.remote_update,
            chunk.cards.len(),
            chunk.notes.len(),
            chunk.revlog.len(),
            0,
        )
    }

    pub fn resume(self, reply: Result<Chunk, AnkiError>) -> (turn: Turn)
        requires
            self.admits(reply),
        ensures
            self.leads_to(reply, turn),
    {
        match reply {
            Err(e) => Turn::roll_back(e),
            Ok(chunk) => {
                let mut session = self.session;
                session.syncer.progress.remote_update += chunk.count();
                let done = chunk.done;
                let merging = session.syncer.col.apply_chunk(chunk);
                Turn::silent(Call::ApplyChunk { merging, then: ChunkApplied { session, done } })
            },
        }
    }
}

impl ChunkApplied {
    /// What follows once a chunk of the server is merged: the next one, or, after the last,
    /// the local objects.
    pub open spec fn leads_to(self, reply: Result<(), AnkiError>, turn: Turn) -> bool {
        match reply {
            Err(e) => turn.rolls_back(e),
            Ok(_) => turn.reports@ == seq![self.session.report(true)] && turn.call == if self.done {
                Call::ChunkableIDs {
                    usn: self.session.state.pending_usn,
                    then: ChunkIDsRead { session: self.session },
                }
            } else {
                Call::FetchChunk { then: ChunkReceived { session: self.session } }
            },
        }
    }

    pub fn resume(self, reply: Result<(), AnkiError>) -> (turn: Turn)
        ensures
            self.leads_to(reply, turn),
    {
        match reply {
            Err(e) => Turn::roll_back(e),
            Ok(_) => {
                let reports = one_report(self.session.syncer.fire_progress_cb(true));
                if self.done {
                    Turn { reports, call: self.session.send_chunks_to_server() }
                } else {
                    Turn { reports, call: self.session.process_chunks_from_server() }
                }
            },
        }
    }
}

impl Collection {
    /// The ids of the objects that wait to be synced, put together.
    pub fn get_chunkable_ids(
        &self,
        revlog: Vec<RevlogID>,
        cards: Vec<CardID>,
        notes: Vec<NoteID>,
    ) -> (ids: ChunkableIDs)
        ensures
            ids == (ChunkableIDs { revlog, cards, notes }),
    {
        ChunkableIDs { revlog, cards, notes }
    }
}

impl ChunkIDsRead {
    /// What follows on the ids of the objects that wait to be synced: a first chunk is read.
    pub open spec fn leads_to(self, reply: Result<ChunkableIDs, AnkiError>, turn: Turn) -> bool {
        match reply {
            Err(e) => turn.rolls_back(e),
            Ok(ids) => turn.is_silent() && self.session.reads_chunk(ids@, turn.call),
        }
    }

    pub fn resume(self, reply: Result<ChunkableIDs, AnkiError>) -> (turn: Turn)
        ensures
            self.leads_to(reply, turn),
    {
        match reply {
            Err(e) => Turn::roll_back(e),
            Ok(ids) => Turn::silent(self.session.read_chunk(ids)),
        }
    }
}

impl ChunkObjects {
    /// Every object was found.
    pub open spec fn all_found(self) -> bool {
        &&& chunk::all_found(self.revlog@)
        &&& chunk::all_found(self.cards@)
        &&& chunk::all_found(self.notes@)
    }

    /// How many objects there are.
    pub open spec fn total(self) -> nat {
        self.cards@.len() + self.notes@.len() + self.revlog@.len()
    }

    /// These are the objects that go by the ids, in their order.
    pub open spec fn go_by(self, ids: chunk::IDLists) -> bool {
        &&& self.revlog@.map_values(|e: Option<ReviewLogEntry>| RevlogID(e->0.id.0)) == ids.revlog
        &&& self.cards@.map_values(|c: Option<Card>| c->0.id) == ids.cards
        &&& self.notes@.map_values(|n: Option<Note>| n->0.id) == ids.notes
    }
}

impl ChunkObjectsRead {
    /// Every object was found, and they can be counted.
    pub open spec fn admits(self, reply: Result<ChunkObjects, AnkiError>) -> bool {
        reply matches Ok(objects) ==> objects.all_found() && self.session.can_count_sent(
            objects.total(),
        )
    }

    /// What follows on the objects of a chunk: they are sent.
    pub open spec fn leads_to(self, reply: Result<ChunkObjects, AnkiError>, turn: Turn) -> bool {
        match reply {
            Err(e) => turn.rolls_back(e),
            Ok(objects) => turn.is_silent() && (turn.call matches Call::SendChunk { chunk, then } && {
                &&& self.read.packs(objects.revlog@, objects.cards@, objects.notes@, chunk)
                &&& then.session == self.session.with_updates_sent(objects.total())
                &&& then.ids == self.ids
                &&& then.done == self.read.done
            }),
        }
    }

    /// The objects can be counted.
    pub fn can_count(&self, objects: &ChunkObjects) -> (b: bool)
        ensures
            b == self.session.can_count_sent(objects.total()),
    {
        sums_up(
            self.session.syncer.progress.local_update,
            objects.cards.len(),
            objects.notes.len(),
            objects.revlog.len(),
            0,
        )
    }

    pub fn resume(self, reply: Result<ChunkObjects, AnkiError>) -> (turn: Turn)
        requires
            self.admits(reply),
        ensures
            self.leads_to(reply, turn),
    {
        match reply {
            Err(e) => Turn::roll_back(e),
            Ok(objects) => {
                let mut session = self.session;
                let chunk = self.read.into_chunk(objects.revlog, objects.cards, objects.notes);
                let done = chunk.done;
                session.syncer.progress.local_update += chunk.count();
                Turn::silent(
                    Call::SendChunk { chunk, then: ChunkSent { session, ids: self.ids, done } },
                )
            },
        }
    }
}

impl ChunkSent {
    /// What follows once a chunk is sent: the next one, or, after the last, the comparison of
    /// the two sides.
    pub open spec fn leads_to(self, reply: Result<(), AnkiError>, turn: Turn) -> bool {
        match reply {
            Err(e) => turn.rolls_back(e),
            Ok(_) => if self.done {
                self.session.starts_finalizing(seq![self.session.report(true)], turn)
            } else {
                turn.reports@ == seq![self.session.report(true)] && self.session.reads_chunk(
                    self.ids@,
                    turn.call,
                )
            },
        }
    }

    pub fn resume(self, reply: Result<(), AnkiError>) -> (turn: Turn)
        ensures
            self.leads_to(reply, turn),
    {
        match reply {
            Err(e) => Turn::roll_back(e),
            Ok(_) => {
                let reports = one_report(self.session.syncer.fire_progress_cb(true));
                if self.done {
                    self.session.sanity_check(reports)
                } else {
                    Turn { reports, call: self.session.read_chunk(self.ids) }
                }
            },
        }
    }
}

impl SanityInfoRead {
    /// What follows on the counts of what the collection holds.
    pub open spec fn leads_to(
        self,
        reply: Result<SanityCheckCounts, AnkiError>,
        turn: Turn,
    ) -> bool {
        match reply {
            Err(e) => turn.rolls_back(e),
            Ok(counts) => turn.is_silent() && turn.call == (Call::DeckTree {
                then: DeckTreeRead { session: self.session, counts },
            }),
        }
    }

    pub fn resume(self, reply: Result<SanityCheckCounts, AnkiError>) -> (turn: Turn)
        ensures
            self.leads_to(reply, turn),
    {
        match reply {
            Err(e) => Turn::roll_back(e),
            Ok(counts) => Turn::silent(
                Call::DeckTree { then: DeckTreeRead { session: self.session, counts } },
            ),
        }
    }
}

impl DeckTreeRead {
    /// The counts that are sent: with the due cards of the current deck, if there is one.
    pub open spec fn counts_sent(self, tree: Option<DeckTreeNode>) -> SanityCheckCounts {
        match tree {
            Some(tree) => SanityCheckCounts {
                counts: SanityCheckDueCounts {
                    new: tree.new_count,
                    learn: tree.learn_count,
                    review: tree.review_count,
                },
                ..self.counts
            },
            None => self.counts,
        }
    }

    /// What follows on the due cards: the server compares the counts with its own.
    pub open spec fn leads_to(
        self,
        reply: Result<Option<DeckTreeNode>, AnkiError>,
        turn: Turn,
    ) -> bool {
        match reply {
            Err(e) => turn.rolls_back(e),
            Ok(tree) => turn.is_silent() && turn.call == (Call::SanityCheck {
                counts: self.counts_sent(tree),
                then: SanityChecked { session: self.session },
            }),
        }
    }

    pub fn resume(self, reply: Result<Option<DeckTreeNode>, AnkiError>) -> (turn: Turn)
        ensures
            self.leads_to(reply, turn),
    {
        match reply {
            Err(e) => Turn::roll_back(e),
            Ok(tree) => {
                let mut local_counts = self.counts;
                self.session.syncer.col.add_due_counts(&mut local_counts.counts, tree);
                Turn::silent(
                    Call::SanityCheck {
                        counts: local_counts,
                        then: SanityChecked { session: self.session },
                    },
                )
            },
        }
    }
}

impl SanityChecked {
    /// What follows on the server's comparison. Where the counts do not match, the sync has
    /// failed.
    pub open spec fn leads_to(self, reply: Result<SanityCheckOut, AnkiError>, turn: Turn) -> bool {
        match reply {
            Err(e) => turn.rolls_back(e),
            Ok(out) => if out.status == sanity::SanityCheckStatus::Good {
                turn.is_silent() && turn.call == (Call::Finish {
                    then: FinishReplied { session: self.session },
                })
            } else {
                turn.is_silent() && (turn.call matches Call::RollbackTrx { then } && sanity::passes(
                    out,
                    Err(then.error),
                ))
            },
        }
    }

    pub fn resume(self, reply: Result<SanityCheckOut, AnkiError>) -> (turn: Turn)
        ensures
            self.leads_to(reply, turn),
    {
        match reply {
            Err(e) => Turn::roll_back(e),
            Ok(out) => match check_counts(out) {
                Err(e) => Turn::roll_back(e),
                Ok(_) => Turn::silent(
                    Call::Finish { then: FinishReplied { session: self.session } },
                ),
            },
        }
    }
}

/// The steps of noting down that a sync is done: when the server was last changed, and from
/// which number on changes count as later than this sync.
pub open spec fn final_steps(
    latest_usn: Usn,
    new_server_mtime: TimestampMillis,
) -> Seq<FinalizeOp> {
    seq![
        FinalizeOp::SetLastSync(new_server_mtime),
        FinalizeOp::SetUsn(Usn((latest_usn.0 + 1) as i32)),
        FinalizeOp::SetModifiedTime(new_server_mtime),
    ]
}

impl Collection {
    /// The steps of noting down that the sync is done, in order.
    pub fn finalize_sync(&self, state: &SyncState, new_server_mtime: TimestampMillis) -> (ops: Vec<
        FinalizeOp,
    >)
        requires
            state.latest_usn.0 < i32::MAX,
        ensures
            ops@ == final_steps(state.latest_usn, new_server_mtime),
    {
        let mut ops: Vec<FinalizeOp> = Vec::new();
        ops.push(FinalizeOp::SetLastSync(new_server_mtime));
        let mut usn = state.latest_usn;
        usn.0 += 1;
        ops.push(FinalizeOp::SetUsn(usn));
        ops.push(FinalizeOp::SetModifiedTime(new_server_mtime));
        assert(ops@ =~= final_steps(state.latest_usn, new_server_mtime));
        ops
    }
}

/// What a collection has on record of its last sync.
pub struct SyncRecord {
    pub last_sync: TimestampMillis,
    pub usn: Usn,
    pub modified: TimestampMillis,
}

impl SyncRecord {
    /// The record after one step.
    pub open spec fn after(self, op: FinalizeOp) -> SyncRecord {
        match op {
            FinalizeOp::SetLastSync(last_sync) => SyncRecord { last_sync, ..self },
            FinalizeOp::SetUsn(usn) => SyncRecord { usn, ..self },
            FinalizeOp::SetModifiedTime(modified) => SyncRecord { modified, ..self },
        }
    }

    /// The record after all the steps.
    pub open spec fn after_all(self, ops: Seq<FinalizeOp>) -> SyncRecord
        decreases ops.len(),
    {
        if ops.len() == 0 {
            self
        } else {
            self.after_all(ops.drop_last()).after(ops.last())
        }
    }
}

/// After a sync the collection counts as changed when the server was, so that as long as
/// neither side is changed again the next sync finds nothing to do. What is changed later gets
/// a number above that of anything in this sync.
pub proof fn law_next_sync_finds_no_changes(
    record: SyncRecord,
    latest_usn: Usn,
    new_server_mtime: TimestampMillis,
    remote: SyncMeta,
    local: SyncMeta,
)
    requires
        latest_usn.0 < i32::MAX,
        remote.modified == new_server_mtime,
        local.modified == record.after_all(final_steps(latest_usn, new_server_mtime)).modified,
    ensures
        record.after_all(final_steps(latest_usn, new_server_mtime)) == (SyncRecord {
            last_sync: new_server_mtime,
            usn: Usn((latest_usn.0 + 1) as i32),
            modified: new_server_mtime,
        }),
        state::action_required(remote, local) == SyncActionRequired::NoChanges,
{
    let ops = final_steps(latest_usn, new_server_mtime);
    let first = ops.drop_last().drop_last();
    assert(first.drop_last() =~= seq![]);
    assert(record.after_all(first.drop_last()) == record);
    assert(record.after_all(first) == record.after(ops[0]));
    assert(record.after_all(ops.drop_last()) == record.after(ops[0]).after(ops[1]));
}

impl FinishReplied {
    /// There is a number after the latest.
    pub open spec fn admits(self, reply: Result<TimestampMillis, AnkiError>) -> bool {
        reply is Ok ==> self.session.state.latest_usn.0 < i32::MAX
    }

    /// What follows once the server has finished.
    pub open spec fn leads_to(self, reply: Result<TimestampMillis, AnkiError>, turn: Turn) -> bool {
        match reply {
            Err(e) => turn.rolls_back(e),
            Ok(mtime) => turn.is_silent() && (turn.call matches Call::FinalizeSync { ops, then } && {
                &&& ops@ == final_steps(self.session.state.latest_usn, mtime)
                &&& then.session == self.session
            }),
        }
    }

    pub fn resume(self, reply: Result<TimestampMillis, AnkiError>) -> (turn: Turn)
        requires
            self.admits(reply),
        ensures
            self.leads_to(reply, turn),
    {
        match reply {
            Err(e) => Turn::roll_back(e),
            Ok(mtime) => {
                let ops = self.session.syncer.col.finalize_sync(&self.session.state, mtime);
                Turn::silent(
                    Call::FinalizeSync {
                        ops: Steps::new(ops),
                        then: Finalized { session: self.session },
                    },
                )
            },
        }
    }
}

impl Finalized {
    /// The outcome of a sync that was carried out.
    pub open spec fn output(self) -> SyncOutput {
        SyncOutput::of(
            SyncState { required: SyncActionRequired::NoChanges, ..self.session.state },
        )
    }

    /// What follows once it is noted down that the sync is done: the commit.
    pub open spec fn leads_to(self, reply: Result<(), AnkiError>, turn: Turn) -> bool {
        match reply {
            Err(e) => turn.rolls_back(e),
            Ok(_) => turn.is_silent() && turn.call == (Call::CommitTrx {
                then: Committed { output: self.output() },
            }),
        }
    }

    pub fn resume(self, reply: Result<(), AnkiError>) -> (turn: Turn)
        ensures
            self.leads_to(reply, turn),
    {
        match reply {
            Err(e) => Turn::roll_back(e),
            Ok(_) => {
                let mut state = self.session.state;
                state.required = SyncActionRequired::NoChanges;
                let output = SyncOutput::from(state);
                Turn::silent(Call::CommitTrx { then: Committed { output } })
            },
        }
    }
}

impl Committed {
    /// What follows on the commit. Where it fails, nothing further is done.
    pub open spec fn leads_to(self, reply: Result<(), AnkiError>, turn: Turn) -> bool {
        match reply {
            Err(e) => turn.ends_with(Err(e)),
            Ok(_) => turn.ends_with(Ok(self.output)),
        }
    }

    pub fn resume(self, reply: Result<(), AnkiError>) -> (turn: Turn)
        ensures
            self.leads_to(reply, turn),
    {
        match reply {
            Err(e) => Turn::end(Err(e)),
            Ok(_) => Turn::end(Ok(self.output)),
        }
    }
}

impl RolledBack {
    /// What follows on the rollback. Where it fails, its own error is what the sync ends with.
    pub open spec fn leads_to(self, reply: Result<(), AnkiError>, turn: Turn) -> bool {
        match reply {
            Err(e) => turn.ends_with(Err(e)),
            Ok(_) => turn.is_silent() && turn.call == (Call::Abort {
                then: Aborted { error: self.error },
            }),
        }
    }

    pub fn resume(self, reply: Result<(), AnkiError>) -> (turn: Turn)
        ensures
            self.leads_to(reply, turn),
    {
        match reply {
            Err(e) => Turn::end(Err(e)),
            Ok(_) => Turn::silent(Call::Abort { then: Aborted { error: self.error } }),
        }
    }
}

impl Aborted {
    /// What follows once the server was told: whatever came of that, the sync ends with the
    /// error that it failed on.
    pub open spec fn leads_to(self, turn: Turn) -> bool {
        turn.ends_with(Err(self.error))
    }

    pub fn resume(self, reply: Result<(), AnkiError>) -> (turn: Turn)
        ensures
            self.leads_to(turn),
    {
        Turn::end(Err(self.error))
    }
}

} // verus!
