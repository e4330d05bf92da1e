//! On the turns of a normal sync: what follows on each reply.

use crate::changes::{GatherCall, UnchunkedChanges};
use crate::chunk;
use crate::chunk::{Chunk, ChunkableIDs};
use crate::collection::Collection;
use crate::error::{AnkiError, SyncErrorKind};
use crate::graves::Graves;
use crate::ids::{TimestampMillis, Usn};
use crate::laws::merge;
use crate::laws::objects;
use crate::laws::portions;
use crate::objects::{Card, CardEntry, Note, NoteEntry, ReviewLogEntry};
use crate::progress::{NormalSyncProgress, ProgressReport, SyncStage};
use crate::run;
use crate::sanity::{DeckTreeNode, SanityCheckCounts, SanityCheckOut, SanityCheckStatus};
use crate::state::{SyncActionRequired, SyncAuth, SyncMeta, SyncState};
use crate::syncer::{
    Aborted, Call, ChangesApplied, ChangesGathered, ChangesSent, ChunkApplied, ChunkIDsRead,
    ChunkObjects, ChunkObjectsRead, ChunkReceived, ChunkSent, Committed, DeckTreeRead, FinalizeOp,
    Finalized, FinishReplied, GraveUsnsUpdated, GravesApplied, GravesSent, LocalMetaRead,
    MetaReplied, MinsWestRead, NormalSyncer, PendingGravesRead, RolledBack, SanityChecked,
    SanityInfoRead, Session, Started, SyncEndpoint, TrxBegun, Turn,
};
use crate::text::{join_fields, join_tags};
use vstd::prelude::*;

verus! {

/// Nothing is reported, and the transaction is rolled back on account of the error.
pub open spec fn gives_up(turn: Turn, error: AnkiError) -> bool {
    turn.reports@.len() == 0 && (turn.call matches Call::RollbackTrx { then } && then.error == error)
}

/// Nothing is reported, and the sync is over with the error.
pub open spec fn fails(turn: Turn, error: AnkiError) -> bool {
    turn.reports@.len() == 0 && (turn.call matches Call::Finished(Err(e)) && e == error)
}

/// The progress is reported once before the call, and may be left out if it is throttled.
pub open spec fn reports_once(turn: Turn, progress: NormalSyncProgress, throttle: bool) -> bool {
    turn.reports@.len() == 1 && turn.reports@[0].progress == progress && turn.reports@[0].throttle
        == throttle
}

/// The two sessions differ in nothing but the progress.
pub open spec fn goes_on_in(before: Session, after: Session) -> bool {
    after.state == before.state && after.syncer.col == before.syncer.col && after.syncer.remote
        == before.syncer.remote
}

/// The progress is the same but for the stage.
pub open spec fn in_stage(
    before: NormalSyncProgress,
    after: NormalSyncProgress,
    stage: SyncStage,
) -> bool {
    after.stage == stage && after.local_update == before.local_update && after.local_remove
        == before.local_remove && after.remote_update == before.remote_update && after.remote_remove
        == before.remote_remove
}

/// So many more objects and removals were sent, and so many more objects received.
pub open spec fn counts_more(
    before: NormalSyncProgress,
    after: NormalSyncProgress,
    sent: nat,
    removed: nat,
    received: nat,
) -> bool {
    after.stage == before.stage && after.local_update == before.local_update + sent
        && after.local_remove == before.local_remove + removed && after.remote_update
        == before.remote_update + received && after.remote_remove == before.remote_remove
}

/// A client talks to the host that it was told, with the key that it was given.
pub proof fn law_client_talks_to_its_host(
    col: Collection,
    auth: SyncAuth,
    syncer: NormalSyncer,
    hkey: Option<String>,
    host_number: u32,
    endpoint: SyncEndpoint,
)
    requires
        call_ensures(NormalSyncer::new, (col, auth), syncer),
        call_ensures(SyncEndpoint::new, (hkey, host_number), endpoint),
    ensures
        syncer.col == col,
        syncer.remote.hkey == Some(auth.hkey),
        syncer.remote.host_number == auth.host_number,
        syncer.progress.stage == SyncStage::Connecting,
        syncer.progress.local_update == 0,
        syncer.progress.local_remove == 0,
        syncer.progress.remote_update == 0,
        syncer.progress.remote_remove == 0,
        endpoint.hkey == hkey,
        endpoint.host_number == host_number,
{
}

/// A sync starts by asking the server, and a report is the progress made.
pub proof fn law_sync_starts_with_the_server(
    syncer: NormalSyncer,
    turn: Turn,
    throttle: bool,
    report: ProgressReport,
)
    requires
        call_ensures(NormalSyncer::sync, (syncer,), turn),
        call_ensures(NormalSyncer::fire_progress_cb, (&syncer, throttle), report),
    ensures
        reports_once(turn, syncer.progress, false),
        turn.call matches Call::Meta { then } && then.syncer == syncer,
        report.progress == syncer.progress,
        report.throttle == throttle,
{
}

/// If the server does not let the sync go on, it is over with the server's message. If it does,
/// the collection is asked.
pub proof fn law_server_may_stop_the_sync(
    asked: MetaReplied,
    reply: Result<SyncMeta, AnkiError>,
    turn: Turn,
)
    requires
        call_ensures(MetaReplied::resume, (asked, reply), turn),
    ensures
        reply matches Err(e) ==> fails(turn, e),
        turn.reports@.len() == 0,
        reply matches Ok(remote) ==> {
            &&& remote.should_continue ==> (turn.call matches Call::LocalMeta { then } && then.remote
                == remote && then.syncer == asked.syncer)
            &&& !remote.should_continue ==> (turn.call matches Call::Finished(
                Err(AnkiError::SyncError { info, kind }),
            ) && info == remote.server_message && kind == SyncErrorKind::ServerMessage)
        },
{
}

/// A normal sync is begun exactly if the clocks are within five minutes, the two sides were
/// changed at different times, and they have the same schema. Otherwise the sync is over, and
/// says what is required.
pub proof fn law_sync_begins_only_if_it_is_a_normal_one(
    asked: LocalMetaRead,
    reply: Result<SyncMeta, AnkiError>,
    turn: Turn,
)
    requires
        call_ensures(LocalMetaRead::resume, (asked, reply), turn),
    ensures
        turn.reports@.len() == 0,
        reply matches Err(e) ==> fails(turn, e),
        reply matches Ok(local) ==> {
            let remote = asked.remote;
            let apart = remote.current_time.0 - local.current_time.0;
            let near = -300 <= apart <= 300;
            let changed = remote.modified.0 != local.modified.0;
            let same_schema = remote.schema.0 == local.schema.0;
            &&& !near ==> (turn.call matches Call::Finished(Err(AnkiError::SyncError { info, kind }))
                && info@.len() == 0 && kind == SyncErrorKind::ClockIncorrect)
            &&& near && changed && same_schema ==> (turn.call matches Call::BeginTrx { then } && {
                &&& then.session.syncer == asked.syncer
                &&& then.session.state.required == SyncActionRequired::NormalSyncRequired
                &&& then.session.state.local_is_newer <==> local.modified.0 > remote.modified.0
                &&& then.session.state.usn_at_last_sync == local.usn
                &&& then.session.state.latest_usn == remote.usn
                &&& then.session.state.pending_usn.0 == -1
                &&& then.session.state.new_usn == Some(remote.usn)
                &&& then.session.state.server_message == remote.server_message
                &&& then.session.state.host_number == remote.host_number
            })
            &&& near && !(changed && same_schema) ==> (turn.call matches Call::Finished(Ok(output))
                && {
                &&& output.required == SyncActionRequired::NoChanges <==> !changed
                &&& output.required matches SyncActionRequired::FullSyncRequired {
                    upload_ok,
                    download_ok,
                } ==> upload_ok == (!local.empty || remote.empty) && download_ok == (!remote.empty
                    || local.empty)
                &&& changed ==> output.required is FullSyncRequired
                &&& output.server_message == remote.server_message
                &&& output.host_number == remote.host_number
            })
        },
{
}

/// Syncing starts once the transaction is open, and is reported at once.
pub proof fn law_syncing_starts_in_the_transaction(
    asked: TrxBegun,
    reply: Result<(), AnkiError>,
    turn: Turn,
)
    requires
        call_ensures(TrxBegun::resume, (asked, reply), turn),
    ensures
        reply matches Err(e) ==> fails(turn, e),
        reply is Ok ==> (turn.call matches Call::LocalMinsWest { then } && {
            &&& goes_on_in(asked.session, then.session)
            &&& in_stage(
                asked.session.syncer.progress,
                then.session.syncer.progress,
                SyncStage::Syncing,
            )
            &&& reports_once(turn, then.session.syncer.progress, false)
        }),
{
}

/// The server is told the client's number from the last sync, its distance from UTC, and whether
/// it is the newer side.
pub proof fn law_server_is_told_where_the_client_stands(
    asked: MinsWestRead,
    mins: i32,
    turn: Turn,
)
    requires
        call_ensures(MinsWestRead::resume, (asked, mins), turn),
    ensures
        turn.reports@.len() == 0,
        turn.call matches Call::Start { usn, mins_west, local_is_newer, then } && {
            &&& usn == asked.session.state.usn_at_last_sync
            &&& mins_west == mins
            &&& local_is_newer == asked.session.state.local_is_newer
            &&& then.session == asked.session
        },
{
}

/// Once the server has said what was removed there, what was removed here is looked up, by the
/// number that waiting objects have.
pub proof fn law_local_removals_are_looked_up(
    asked: Started,
    reply: Result<Graves, AnkiError>,
    turn: Turn,
)
    requires
        call_ensures(Started::resume, (asked, reply), turn),
    ensures
        reply matches Err(e) ==> gives_up(turn, e),
        reply matches Ok(graves) ==> turn.reports@.len() == 0 && (turn.call
            matches Call::PendingGraves { usn, then } && usn == asked.session.state.pending_usn
            && then.remote == graves && then.session == asked.session),
{
}

/// The next local removals are sent, and counted, or, when there are none left, all of the
/// server's are counted and carried out under the latest number.
pub open spec fn exchanges_removals(
    session: Session,
    remote: Graves,
    local: Graves,
    call: Call,
) -> bool {
    let before = session.syncer.progress;
    &&& portions::removed(local) > 0 ==> (call matches Call::SendGraves { chunk, then } && {
        &&& portions::chunk_of_graves(local, chunk, then.local)
        &&& then.remote == remote
        &&& goes_on_in(session, then.session)
        &&& counts_more(
            before,
            then.session.syncer.progress,
            0,
            portions::removed(chunk) as nat,
            0,
        )
    })
    &&& portions::removed(local) == 0 ==> (call matches Call::ApplyGraves { ops, then } && {
        &&& portions::buried(remote, session.state.latest_usn, ops.queue@)
        &&& goes_on_in(session, then.session)
        &&& then.session.syncer.progress.stage == before.stage
        &&& then.session.syncer.progress.local_update == before.local_update
        &&& then.session.syncer.progress.local_remove == before.local_remove
        &&& then.session.syncer.progress.remote_update == before.remote_update
        &&& then.session.syncer.progress.remote_remove == portions::removed(remote)
    })
}

proof fn lemma_exchanges_removals(session: Session, remote: Graves, local: Graves, call: Call)
    requires
        session.can_count_graves(remote@, local@),
        session.hands_over_graves(remote, local@, call),
    ensures
        exchanges_removals(session, remote, local, call),
{
    portions::lemma_burials(remote, session.state.latest_usn);
}

/// Local removals get the new number before they are sent, where there is one.
pub proof fn law_local_removals_get_the_new_number(
    asked: PendingGravesRead,
    reply: Result<Graves, AnkiError>,
    turn: Turn,
)
    requires
        asked.admits(reply),
        call_ensures(PendingGravesRead::resume, (asked, reply), turn),
    ensures
        reply matches Err(e) ==> gives_up(turn, e),
        reply matches Ok(local) ==> {
            &&& turn.reports@.len() == 0
            &&& asked.session.state.new_usn is Some ==> (turn.call
                matches Call::UpdatePendingGraveUsns { usn, then } && usn
                == asked.session.state.new_usn->0 && then.session == asked.session && then.remote
                == asked.remote && then.local == local)
            &&& asked.session.state.new_usn is None ==> exchanges_removals(
                asked.session,
                asked.remote,
                local,
                turn.call,
            )
        },
{
    if reply is Ok && asked.session.state.new_usn is None {
        lemma_exchanges_removals(asked.session, asked.remote, reply->Ok_0, turn.call);
    }
}

/// Once the local removals have their number, they are exchanged with the server's.
pub proof fn law_removals_are_exchanged(
    asked: GraveUsnsUpdated,
    reply: Result<(), AnkiError>,
    turn: Turn,
)
    requires
        asked.admits(reply),
        call_ensures(GraveUsnsUpdated::resume, (asked, reply), turn),
    ensures
        reply matches Err(e) ==> gives_up(turn, e),
        reply is Ok ==> turn.reports@.len() == 0 && exchanges_removals(
            asked.session,
            asked.remote,
            asked.local,
            turn.call,
        ),
{
    if reply is Ok {
        lemma_exchanges_removals(asked.session, asked.remote, asked.local, turn.call);
    }
}

/// After each chunk of removals that was sent, the progress is reported, and the exchange goes on
/// with what is left.
pub proof fn law_removals_are_exchanged_to_the_end(
    asked: GravesSent,
    reply: Result<(), AnkiError>,
    turn: Turn,
)
    requires
        asked.admits(reply),
        call_ensures(GravesSent::resume, (asked, reply), turn),
    ensures
        reply matches Err(e) ==> gives_up(turn, e),
        reply is Ok ==> reports_once(turn, asked.session.syncer.progress, true)
            && exchanges_removals(asked.session, asked.remote, asked.local, turn.call),
{
    if reply is Ok {
        lemma_exchanges_removals(asked.session, asked.remote, asked.local, turn.call);
    }
}

/// Once the server's removals are carried out, the local changes are gathered.
pub proof fn law_changes_are_gathered_after_the_removals(
    asked: GravesApplied,
    reply: Result<(), AnkiError>,
    turn: Turn,
)
    requires
        call_ensures(GravesApplied::resume, (asked, reply), turn),
    ensures
        reply matches Err(e) ==> gives_up(turn, e),
        reply is Ok ==> reports_once(turn, asked.session.syncer.progress, true) && (turn.call
            matches Call::GatherChanges { gather, then } && then.session == asked.session && (gather
            matches GatherCall::PendingNotetypes { usn, then: asking } && {
            &&& usn == asked.session.state.pending_usn
            &&& asking.gather.pending_usn == asked.session.state.pending_usn
            &&& asking.gather.new_usn == asked.session.state.new_usn
            &&& asking.gather.local_is_newer == asked.session.state.local_is_newer
        })),
{
}

/// How many objects the changes hold.
pub open spec fn changed(changes: UnchunkedChanges) -> nat {
    changes.notetypes@.len() + changes.decks_and_config.decks@.len()
        + changes.decks_and_config.config@.len() + changes.tags@.len()
}

/// The local changes are counted and sent as they are.
pub proof fn law_local_changes_are_sent(
    asked: ChangesGathered,
    reply: Result<UnchunkedChanges, AnkiError>,
    turn: Turn,
)
    requires
        asked.admits(reply),
        call_ensures(ChangesGathered::resume, (asked, reply), turn),
    ensures
        reply matches Err(e) ==> gives_up(turn, e),
        reply matches Ok(local) ==> turn.reports@.len() == 0 && (turn.call
            matches Call::SendChanges { changes, then } && {
            &&& changes == local
            &&& goes_on_in(asked.session, then.session)
            &&& counts_more(
                asked.session.syncer.progress,
                then.session.syncer.progress,
                changed(local),
                0,
                0,
            )
        }),
{
}

/// All of the server's changes are counted and merged. What was sent is reported first.
pub proof fn law_server_changes_are_merged(
    asked: ChangesSent,
    reply: Result<UnchunkedChanges, AnkiError>,
    turn: Turn,
)
    requires
        asked.admits(reply),
        call_ensures(ChangesSent::resume, (asked, reply), turn),
    ensures
        reply matches Err(e) ==> gives_up(turn, e),
        reply matches Ok(remote) ==> reports_once(turn, asked.session.syncer.progress, true) && (
        turn.call matches Call::ApplyChanges { merging, then } && {
            &&& merge::lists_the_changes(
                remote,
                asked.session.state.latest_usn,
                merging.queue@,
            )
            &&& goes_on_in(asked.session, then.session)
            &&& counts_more(
                asked.session.syncer.progress,
                then.session.syncer.progress,
                0,
                0,
                changed(remote),
            )
        }),
{
}

/// Once the server's changes are merged, its chunks are fetched.
pub proof fn law_chunks_are_fetched_after_the_changes(
    asked: ChangesApplied,
    reply: Result<(), AnkiError>,
    turn: Turn,
)
    requires
        call_ensures(ChangesApplied::resume, (asked, reply), turn),
    ensures
        reply matches Err(e) ==> gives_up(turn, e),
        reply is Ok ==> reports_once(turn, asked.session.syncer.progress, true) && (turn.call
            matches Call::FetchChunk { then } && then.session == asked.session),
{
}

/// Every object of a chunk that the server sends is counted and merged.
pub proof fn law_server_chunk_is_merged(
    asked: ChunkReceived,
    reply: Result<Chunk, AnkiError>,
    turn: Turn,
)
    requires
        asked.admits(reply),
        call_ensures(ChunkReceived::resume, (asked, reply), turn),
    ensures
        reply matches Err(e) ==> gives_up(turn, e),
        reply matches Ok(chunk) ==> turn.reports@.len() == 0 && (turn.call
            matches Call::ApplyChunk { merging, then } && {
            &&& merge::lists_the_chunk(chunk, merging.queue@)
            &&& then.done == chunk.done
            &&& goes_on_in(asked.session, then.session)
            &&& counts_more(
                asked.session.syncer.progress,
                then.session.syncer.progress,
                0,
                0,
                chunk.revlog@.len() + chunk.cards@.len() + chunk.notes@.len(),
            )
        }),
{
}

/// After a chunk of the server comes the next one, and after the last the ids of what waits here.
pub proof fn law_server_chunks_end_with_the_last(
    asked: ChunkApplied,
    reply: Result<(), AnkiError>,
    turn: Turn,
)
    requires
        call_ensures(ChunkApplied::resume, (asked, reply), turn),
    ensures
        reply matches Err(e) ==> gives_up(turn, e),
        reply is Ok ==> reports_once(turn, asked.session.syncer.progress, true),
        reply is Ok && !asked.done ==> (turn.call matches Call::FetchChunk { then } && then.session
            == asked.session),
        reply is Ok && asked.done ==> (turn.call matches Call::ChunkableIDs { usn, then } && usn
            == asked.session.state.pending_usn && then.session == asked.session),
{
}

/// The next chunk is dealt out of the ids, its wait is ended under the new number, and its objects
/// are read.
pub open spec fn reads_the_next(session: Session, ids: ChunkableIDs, call: Call) -> bool {
    call matches Call::ReadChunk { then } && {
        &&& then.session == session
        &&& portions::dealt(ids, then.read.ids, then.ids, then.read.done)
        &&& portions::ends_the_wait(then.read, session.syncer.col.server, session.state.new_usn)
    }
}

proof fn lemma_reads_the_next(session: Session, ids: ChunkableIDs, call: Call)
    requires
        session.reads_chunk(ids@, call),
    ensures
        reads_the_next(session, ids, call),
{
    let then = call->ReadChunk_then;
    portions::lemma_reads(
        session.syncer.col.server,
        ids,
        session.state.new_usn,
        then.ids,
        then.read,
    );
}

/// The objects that wait are read chunk by chunk.
pub proof fn law_first_chunk_is_read(
    asked: ChunkIDsRead,
    reply: Result<ChunkableIDs, AnkiError>,
    turn: Turn,
)
    requires
        call_ensures(ChunkIDsRead::resume, (asked, reply), turn),
    ensures
        reply matches Err(e) ==> gives_up(turn, e),
        reply matches Ok(ids) ==> turn.reports@.len() == 0 && reads_the_next(
            asked.session,
            ids,
            turn.call,
        ),
{
    if reply is Ok {
        lemma_reads_the_next(asked.session, reply->Ok_0, turn.call);
    }
}

/// The objects that were read are counted, and sent as they are stored, each with its new number.
pub proof fn law_read_chunk_is_sent(
    asked: ChunkObjectsRead,
    reply: Result<ChunkObjects, AnkiError>,
    turn: Turn,
)
    requires
        asked.admits(reply),
        call_ensures(ChunkObjectsRead::resume, (asked, reply), turn),
    ensures
        reply matches Err(e) ==> gives_up(turn, e),
        reply matches Ok(objects) ==> turn.reports@.len() == 0 && (turn.call
            matches Call::SendChunk { chunk, then } && {
            &&& chunk.done == asked.read.done
            &&& chunk.revlog@.len() == objects.revlog@.len()
            &&& forall|i: int|
                0 <= i < objects.revlog@.len() ==> review_sent(
                    objects.revlog@[i]->0,
                    #[trigger] chunk.revlog@[i],
                    asked.read.new_usn,
                )
            &&& chunk.cards@.len() == objects.cards@.len()
            &&& forall|i: int|
                0 <= i < objects.cards@.len() ==> card_sent(
                    objects.cards@[i]->0,
                    #[trigger] chunk.cards@[i],
                    asked.read.new_usn,
                )
            &&& chunk.notes@.len() == objects.notes@.len()
            &&& forall|i: int|
                0 <= i < objects.notes@.len() ==> note_sent(
                    objects.notes@[i]->0,
                    #[trigger] chunk.notes@[i],
                    asked.read.new_usn,
                )
            &&& then.done == asked.read.done
            &&& then.ids == asked.ids
            &&& goes_on_in(asked.session, then.session)
            &&& counts_more(
                asked.session.syncer.progress,
                then.session.syncer.progress,
                objects.revlog@.len() + objects.cards@.len() + objects.notes@.len(),
                0,
                0,
            )
        }),
{
    if let Ok(objects) = reply {
        let chunk = turn.call->SendChunk_chunk;
        assert forall|i: int| 0 <= i < objects.notes@.len() implies note_sent(
            objects.notes@[i]->0,
            #[trigger] chunk.notes@[i],
            asked.read.new_usn,
        ) by {
            assert(chunk::is_sent_note(
                chunk.notes@[i],
                objects.notes@[i]->0,
                asked.read.new_usn,
            ));
        }
    }
}

/// A review as it is stored, but for the number.
pub open spec fn review_sent(own: ReviewLogEntry, sent: ReviewLogEntry, new_usn: Option<Usn>) -> bool {
    &&& sent.id == own.id
    &&& sent.cid == own.cid
    &&& sent.ease == own.ease
    &&& sent.interval == own.interval
    &&& sent.last_interval == own.last_interval
    &&& sent.factor == own.factor
    &&& sent.time == own.time
    &&& sent.kind == own.kind
    &&& portions::number_sent(sent.usn, own.usn, new_usn)
}

/// A card as it is stored, but for the number.
pub open spec fn card_sent(own: Card, sent: CardEntry, new_usn: Option<Usn>) -> bool {
    objects::same_card(own, sent) && portions::number_sent(sent.usn, own.usn, new_usn)
}

/// A note as it is stored, with its tags and fields joined, but for the number.
pub open spec fn note_sent(own: Note, sent: NoteEntry, new_usn: Option<Usn>) -> bool {
    &&& sent.id == own.id
    &&& sent.guid == own.guid
    &&& sent.ntid == own.ntid
    &&& sent.mtime == own.mtime
    &&& portions::number_sent(sent.usn, own.usn, new_usn)
    &&& forall|tags: String| #[trigger]
        call_ensures(join_tags, (&own.tags,), tags) ==> sent.tags@ == tags@
    &&& forall|fields: String| #[trigger]
        call_ensures(join_fields, (&own.fields,), fields) ==> sent.fields@ == fields@
    &&& sent.sfld@.len() == 0
    &&& sent.csum@.len() == 0
    &&& sent.flags == 0
    &&& sent.data@.len() == 0
}

/// After a chunk that was sent comes the next one. After the last, the two sides are compared,
/// and that is reported at once.
pub proof fn law_local_chunks_end_with_the_last(
    asked: ChunkSent,
    reply: Result<(), AnkiError>,
    turn: Turn,
)
    requires
        call_ensures(ChunkSent::resume, (asked, reply), turn),
    ensures
        reply matches Err(e) ==> gives_up(turn, e),
        reply is Ok && !asked.done ==> reports_once(turn, asked.session.syncer.progress, true)
            && reads_the_next(asked.session, asked.ids, turn.call),
        reply is Ok && asked.done ==> (turn.call matches Call::SanityCheckInfo { then } && {
            &&& goes_on_in(asked.session, then.session)
            &&& in_stage(
                asked.session.syncer.progress,
                then.session.syncer.progress,
                SyncStage::Finalizing,
            )
            &&& turn.reports@.len() == 2
            &&& turn.reports@[0].progress == asked.session.syncer.progress
            &&& turn.reports@[0].throttle
            &&& turn.reports@[1].progress == then.session.syncer.progress
            &&& !turn.reports@[1].throttle
        }),
{
    if reply is Ok && !asked.done {
        lemma_reads_the_next(asked.session, asked.ids, turn.call);
    }
}

/// The counts that the server compares are those of the collection, with the due cards of the
/// current deck where there is one.
pub proof fn law_server_compares_the_local_counts(
    asked: SanityInfoRead,
    reply: Result<SanityCheckCounts, AnkiError>,
    turn: Turn,
    asked_tree: DeckTreeRead,
    tree: Result<Option<DeckTreeNode>, AnkiError>,
    next: Turn,
)
    requires
        call_ensures(SanityInfoRead::resume, (asked, reply), turn),
        call_ensures(DeckTreeRead::resume, (asked_tree, tree), next),
    ensures
        reply matches Err(e) ==> gives_up(turn, e),
        reply matches Ok(found) ==> turn.reports@.len() == 0 && (turn.call matches Call::DeckTree {
            then,
        } && then.session == asked.session && then.counts == found),
        tree matches Err(e) ==> gives_up(next, e),
        tree matches Ok(node) ==> next.reports@.len() == 0 && (next.call
            matches Call::SanityCheck { counts, then } && {
            &&& then.session == asked_tree.session
            &&& counts.cards == asked_tree.counts.cards
            &&& counts.notes == asked_tree.counts.notes
            &&& counts.revlog == asked_tree.counts.revlog
            &&& counts.graves == asked_tree.counts.graves
            &&& counts.notetypes == asked_tree.counts.notetypes
            &&& counts.decks == asked_tree.counts.decks
            &&& counts.deck_config == asked_tree.counts.deck_config
            &&& node is None ==> counts.counts == asked_tree.counts.counts
            &&& node is Some ==> counts.counts.new == node->0.new_count && counts.counts.learn
                == node->0.learn_count && counts.counts.review == node->0.review_count
        }),
{
}

/// The sync is finished only if the server finds that the counts match. Otherwise, whatever counts
/// it sends along, the transaction is rolled back, and the database is to be checked.
pub proof fn law_mismatch_is_never_finished(
    asked: SanityChecked,
    reply: Result<SanityCheckOut, AnkiError>,
    turn: Turn,
)
    requires
        call_ensures(SanityChecked::resume, (asked, reply), turn),
    ensures
        turn.reports@.len() == 0,
        turn.call is Finish <==> (reply matches Ok(out) && out.status == SanityCheckStatus::Good),
        turn.call matches Call::Finish { then } ==> then.session == asked.session,
        reply matches Err(e) ==> gives_up(turn, e),
        reply matches Ok(out) ==> (out.status != SanityCheckStatus::Good ==> (turn.call
            matches Call::RollbackTrx { then } && (then.error matches AnkiError::SyncError {
            kind,
            ..
        } && kind == SyncErrorKind::DatabaseCheckRequired))),
{
}

/// In every sync, the call to finish comes directly after the call to compare the counts, and the
/// server's reply to that was that they match.
pub proof fn law_finish_comes_of_matching_counts(call: Call, turn: Turn)
    requires
        run::step(call, turn),
        turn.call is Finish,
    ensures
        call matches Call::SanityCheck { then, .. } && (exists|out: SanityCheckOut| #[trigger]
            then.leads_to(Ok(out), turn) && out.status == SanityCheckStatus::Good) && (forall|
            reply: Result<SanityCheckOut, AnkiError>,
        | #[trigger]
            then.leads_to(reply, turn) ==> (reply matches Ok(out) && out.status
                == SanityCheckStatus::Good)),
{
    let then = call->SanityCheck_then;
    let reply = choose|r: Result<SanityCheckOut, AnkiError>| then.leads_to(r, turn);
    assert(then.leads_to(Ok(reply->Ok_0), turn));
}

/// When the server has finished, three things are noted down: that this was the last sync, the
/// number that follows on the latest, and that the collection was changed when the server was.
pub proof fn law_end_of_the_sync_is_noted_down(
    asked: FinishReplied,
    reply: Result<TimestampMillis, AnkiError>,
    turn: Turn,
)
    requires
        asked.admits(reply),
        call_ensures(FinishReplied::resume, (asked, reply), turn),
    ensures
        reply matches Err(e) ==> gives_up(turn, e),
        reply matches Ok(mtime) ==> turn.reports@.len() == 0 && (turn.call
            matches Call::FinalizeSync { ops, then } && then.session == asked.session
            && notes_down_the_end(asked.session.state.latest_usn, mtime, ops.queue@)),
{
}

/// The steps set the last sync, the next number and the time of the last change, in that order.
pub open spec fn notes_down_the_end(
    latest_usn: Usn,
    mtime: TimestampMillis,
    ops: Seq<FinalizeOp>,
) -> bool {
    &&& ops.len() == 3
    &&& ops[0] == FinalizeOp::SetLastSync(mtime)
    &&& ops[1] matches FinalizeOp::SetUsn(usn) && usn.0 == latest_usn.0 + 1
    &&& ops[2] == FinalizeOp::SetModifiedTime(mtime)
}

/// The steps at the end of a sync are those that `notes_down_the_end` says.
pub proof fn law_final_steps_note_down_the_end(
    col: Collection,
    state: SyncState,
    new_server_mtime: TimestampMillis,
    ops: Vec<FinalizeOp>,
)
    requires
        state.latest_usn.0 < i32::MAX,
        call_ensures(Collection::finalize_sync, (&col, &state, new_server_mtime), ops),
    ensures
        notes_down_the_end(state.latest_usn, new_server_mtime, ops@),
{
}

/// The transaction is committed once all is noted down, and the outcome is that nothing is left to
/// be done. It is the outcome only if the commit succeeds.
pub proof fn law_outcome_waits_for_the_commit(
    asked: Finalized,
    reply: Result<(), AnkiError>,
    turn: Turn,
    committed: Committed,
    committing: Result<(), AnkiError>,
    last: Turn,
)
    requires
        call_ensures(Finalized::resume, (asked, reply), turn),
        call_ensures(Committed::resume, (committed, committing), last),
    ensures
        reply matches Err(e) ==> gives_up(turn, e),
        reply is Ok ==> turn.reports@.len() == 0 && (turn.call matches Call::CommitTrx { then } && {
            &&& then.output.required == SyncActionRequired::NoChanges
            &&& then.output.server_message == asked.session.state.server_message
            &&& then.output.host_number == asked.session.state.host_number
        }),
        committing matches Err(e) ==> fails(last, e),
        committing is Ok ==> last.reports@.len() == 0 && last.call == Call::Finished(
            Ok(committed.output),
        ),
{
}

/// After the rollback the server is told to abort, and whatever it says, the sync is over with the
/// error on account of which it was rolled back. If the rollback fails, it is over with that.
pub proof fn law_rollback_ends_with_its_error(
    asked: RolledBack,
    reply: Result<(), AnkiError>,
    turn: Turn,
    aborted: Aborted,
    aborting: Result<(), AnkiError>,
    last: Turn,
)
    requires
        call_ensures(RolledBack::resume, (asked, reply), turn),
        call_ensures(Aborted::resume, (aborted, aborting), last),
    ensures
        reply matches Err(e) ==> fails(turn, e),
        reply is Ok ==> turn.reports@.len() == 0 && (turn.call matches Call::Abort { then }
            && then.error == asked.error),
        fails(last, aborted.error),
{
}

/// The local side may say anything of itself as long as the difference of the clocks, and its
/// size, is a number of 64 bits.
pub proof fn law_local_word_is_heard(asked: LocalMetaRead, reply: Result<SyncMeta, AnkiError>)
    requires
        reply matches Ok(local) ==> -0x7fff_ffff_ffff_ffff <= asked.remote.current_time.0
            - local.current_time.0 <= 0x7fff_ffff_ffff_ffff,
    ensures
        call_requires(LocalMetaRead::resume, (asked, reply)),
{
}

/// Removals may be any as long as they can be counted.
pub open spec fn removals_can_be_counted(session: Session, remote: Graves, local: Graves) -> bool {
    &&& session.syncer.progress.local_remove + portions::removed(local) <= usize::MAX
    &&& portions::removed(remote) <= usize::MAX
}

/// Whatever was removed on the two sides is exchanged, as long as it can be counted.
pub proof fn law_countable_removals_are_exchanged(
    asked: PendingGravesRead,
    reply: Result<Graves, AnkiError>,
    updated: GraveUsnsUpdated,
    sent: GravesSent,
    done: Result<(), AnkiError>,
)
    requires
        reply matches Ok(local) ==> removals_can_be_counted(asked.session, asked.remote, local),
        done is Ok ==> removals_can_be_counted(updated.session, updated.remote, updated.local),
        done is Ok ==> removals_can_be_counted(sent.session, sent.remote, sent.local),
    ensures
        call_requires(PendingGravesRead::resume, (asked, reply)),
        call_requires(GraveUsnsUpdated::resume, (updated, done)),
        call_requires(GravesSent::resume, (sent, done)),
{
}

/// Removals that can be counted are found to be so.
pub proof fn law_countable_removals_are_recognized(
    asked: PendingGravesRead,
    local: Graves,
    updated: GraveUsnsUpdated,
    sent: GravesSent,
    res: (bool, bool, bool),
)
    requires
        call_ensures(PendingGravesRead::can_count, (&asked, &local), res.0),
        call_ensures(GraveUsnsUpdated::can_count, (&updated,), res.1),
        call_ensures(GravesSent::can_count, (&sent,), res.2),
    ensures
        removals_can_be_counted(asked.session, asked.remote, local) ==> res.0,
        removals_can_be_counted(updated.session, updated.remote, updated.local) ==> res.1,
        removals_can_be_counted(sent.session, sent.remote, sent.local) ==> res.2,
{
}

/// Changes and chunks may hold anything as long as it can be counted, and that is found out
/// exactly.
pub proof fn law_countable_objects_are_exchanged(
    gathered: ChangesGathered,
    local: UnchunkedChanges,
    sent: ChangesSent,
    remote: UnchunkedChanges,
    received: ChunkReceived,
    chunk: Chunk,
    res: (bool, bool, bool),
)
    requires
        call_ensures(ChangesGathered::can_count, (&gathered, &local), res.0),
        call_ensures(ChangesSent::can_count, (&sent, &remote), res.1),
        call_ensures(ChunkReceived::can_count, (&received, &chunk), res.2),
    ensures
        res.0 <==> gathered.session.syncer.progress.local_update + changed(local) <= usize::MAX,
        res.0 ==> call_requires(
            ChangesGathered::resume,
            (gathered, Ok::<UnchunkedChanges, AnkiError>(local)),
        ),
        res.1 <==> sent.session.syncer.progress.remote_update + changed(remote) <= usize::MAX,
        res.1 ==> call_requires(
            ChangesSent::resume,
            (sent, Ok::<UnchunkedChanges, AnkiError>(remote)),
        ),
        res.2 <==> received.session.syncer.progress.remote_update + chunk.revlog@.len()
            + chunk.cards@.len() + chunk.notes@.len() <= usize::MAX,
        res.2 ==> call_requires(ChunkReceived::resume, (received, Ok::<Chunk, AnkiError>(chunk))),
{
}

/// The objects of a chunk may be any as long as none is missing and they can be counted.
pub proof fn law_countable_chunk_is_sent(
    asked: ChunkObjectsRead,
    objects: ChunkObjects,
    res: bool,
)
    requires
        call_ensures(ChunkObjectsRead::can_count, (&asked, &objects), res),
        forall|i: int| 0 <= i < objects.revlog@.len() ==> (#[trigger] objects.revlog@[i]) is Some,
        forall|i: int| 0 <= i < objects.cards@.len() ==> (#[trigger] objects.cards@[i]) is Some,
        forall|i: int| 0 <= i < objects.notes@.len() ==> (#[trigger] objects.notes@[i]) is Some,
    ensures
        res <==> asked.session.syncer.progress.local_update + objects.revlog@.len()
            + objects.cards@.len() + objects.notes@.len() <= usize::MAX,
        res ==> call_requires(
            ChunkObjectsRead::resume,
            (asked, Ok::<ChunkObjects, AnkiError>(objects)),
        ),
{
}

/// An error is always heard, and the end of a sync is noted down as long as there is a number
/// after the latest.
pub proof fn law_errors_are_always_heard(
    error: AnkiError,
    meta: LocalMetaRead,
    gathered: ChangesGathered,
    sent: ChangesSent,
    received: ChunkReceived,
    read: ChunkObjectsRead,
    finished: FinishReplied,
    mtime: TimestampMillis,
)
    ensures
        call_requires(LocalMetaRead::resume, (meta, Err::<SyncMeta, AnkiError>(error))),
        call_requires(ChangesGathered::resume, (gathered, Err::<UnchunkedChanges, AnkiError>(error))),
        call_requires(ChangesSent::resume, (sent, Err::<UnchunkedChanges, AnkiError>(error))),
        call_requires(ChunkReceived::resume, (received, Err::<Chunk, AnkiError>(error))),
        call_requires(ChunkObjectsRead::resume, (read, Err::<ChunkObjects, AnkiError>(error))),
        call_requires(FinishReplied::resume, (finished, Err::<TimestampMillis, AnkiError>(error))),
        finished.session.state.latest_usn.0 < 0x7fff_ffff ==> call_requires(
            FinishReplied::resume,
            (finished, Ok::<TimestampMillis, AnkiError>(mtime)),
        ),
{
}

/// A copy of what a connection is made with is the same.
pub proof fn law_copied_endpoint_is_the_same(endpoint: SyncEndpoint, copy: SyncEndpoint)
    requires
        call_ensures(<SyncEndpoint as Clone>::clone, (&endpoint,), copy),
    ensures
        copy.hkey == endpoint.hkey,
        copy.host_number == endpoint.host_number,
{
}

} // verus!
