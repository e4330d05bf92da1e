//! What holds of every sync from its start to its end.

use crate::changes::UnchunkedChanges;
use crate::chunk;
use crate::chunk::{Chunk, ChunkRead, ChunkableIDs};
use crate::error::AnkiError;
use crate::graves;
use crate::graves::Graves;
use crate::ids::{RevlogID, TimestampMillis, Usn};
use crate::merge;
use crate::merge::MergeItem;
use crate::objects::{Card, CardEntry, Note, NoteEntry, ReviewLogEntry};
use crate::pending;
use crate::pending::ChunkNumbers;
use crate::progress;
use crate::progress::{NormalSyncProgress, SyncStage};
use crate::sanity::{DeckTreeNode, SanityCheckCounts, SanityCheckOut};
use crate::state;
use crate::state::SyncMeta;
use crate::syncer::{Aborted, Call, ChunkObjects, ChunkReceived, RolledBack, Session, Turn};
use vstd::prelude::*;

verus! {

/// Some reply to the call leads to the turn.
pub open spec fn step(call: Call, turn: Turn) -> bool {
    match call {
        Call::Meta { then } => exists|r: Result<SyncMeta, AnkiError>| then.leads_to(r, turn),
        Call::LocalMeta { then } => exists|r: Result<SyncMeta, AnkiError>|
            then.admits(r) && then.leads_to(r, turn),
        Call::BeginTrx { then } => exists|r: Result<(), AnkiError>| then.leads_to(r, turn),
        Call::LocalMinsWest { then } => exists|mins_west: i32| then.leads_to(mins_west, turn),
        Call::Start { then, .. } => exists|r: Result<Graves, AnkiError>| then.leads_to(r, turn),
        Call::PendingGraves { then, .. } => exists|r: Result<Graves, AnkiError>|
            then.admits(r) && then.leads_to(r, turn),
        Call::UpdatePendingGraveUsns { then, .. } => exists|r: Result<(), AnkiError>|
            then.admits(r) && then.leads_to(r, turn),
        Call::SendGraves { then, .. } => exists|r: Result<(), AnkiError>|
            then.admits(r) && then.leads_to(r, turn),
        Call::ApplyGraves { then, .. } => exists|r: Result<(), AnkiError>| then.leads_to(r, turn),
        Call::GatherChanges { then, .. } => exists|r: Result<UnchunkedChanges, AnkiError>|
            then.admits(r) && then.leads_to(r, turn),
        Call::SendChanges { then, .. } => exists|r: Result<UnchunkedChanges, AnkiError>|
            then.admits(r) && then.leads_to(r, turn),
        Call::ApplyChanges { then, .. } => exists|r: Result<(), AnkiError>|
            then.leads_to(r, turn),
        Call::FetchChunk { then } => exists|r: Result<Chunk, AnkiError>|
            then.admits(r) && then.leads_to(r, turn),
        Call::ApplyChunk { then, .. } => exists|r: Result<(), AnkiError>| then.leads_to(r, turn),
        Call::ChunkableIDs { then, .. } => exists|r: Result<ChunkableIDs, AnkiError>|
            then.leads_to(r, turn),
        Call::ReadChunk { then } => exists|r: Result<ChunkObjects, AnkiError>|
            then.admits(r) && then.leads_to(r, turn),
        Call::SendChunk { then, .. } => exists|r: Result<(), AnkiError>| then.leads_to(r, turn),
        Call::SanityCheckInfo { then } => exists|r: Result<SanityCheckCounts, AnkiError>|
            then.leads_to(r, turn),
        Call::DeckTree { then } => exists|r: Result<Option<DeckTreeNode>, AnkiError>|
            then.leads_to(r, turn),
        Call::SanityCheck { then, .. } => exists|r: Result<SanityCheckOut, AnkiError>|
            then.leads_to(r, turn),
        Call::Finish { then } => exists|r: Result<TimestampMillis, AnkiError>|
            then.admits(r) && then.leads_to(r, turn),
        Call::FinalizeSync { then, .. } => exists|r: Result<(), AnkiError>|
            then.leads_to(r, turn),
        Call::CommitTrx { then } => exists|r: Result<(), AnkiError>| then.leads_to(r, turn),
        Call::RollbackTrx { then } => exists|r: Result<(), AnkiError>| then.leads_to(r, turn),
        Call::Abort { then } => then.leads_to(turn),
        Call::Finished(_) => false,
    }
}

/// The turn after the one at `i` comes of a reply to its call.
pub open spec fn follows(turns: Seq<Turn>, i: int) -> bool {
    step(turns[i].call, turns[i + 1])
}

/// A stretch of a sync: each turn comes of a reply to the call of the one before.
pub open spec fn stretch(turns: Seq<Turn>) -> bool {
    turns.len() > 0 && forall|i: int| 0 <= i < turns.len() - 1 ==> #[trigger] follows(turns, i)
}

/// A sync from its start on, as far as it has come.
pub open spec fn run(turns: Seq<Turn>) -> bool {
    &&& stretch(turns)
    &&& turns[0].call matches Call::Meta { then } && then.syncer.progress == progress::no_progress()
}

/// A transaction is open when the call is made.
pub open spec fn in_transaction(call: Call) -> bool {
    match call {
        Call::Meta { .. } => false,
        Call::LocalMeta { .. } => false,
        Call::BeginTrx { .. } => false,
        Call::Abort { .. } => false,
        Call::Finished(_) => false,
        _ => true,
    }
}

/// The place of the call in the order of a sync.
pub open spec fn place(call: Call) -> int {
    match call {
        Call::Meta { .. } => 0,
        Call::LocalMeta { .. } => 1,
        Call::BeginTrx { .. } => 2,
        Call::LocalMinsWest { .. } => 3,
        Call::Start { .. } => 4,
        Call::PendingGraves { .. } => 5,
        Call::UpdatePendingGraveUsns { .. } => 6,
        Call::SendGraves { .. } => 7,
        Call::ApplyGraves { .. } => 8,
        Call::GatherChanges { .. } => 9,
        Call::SendChanges { .. } => 10,
        Call::ApplyChanges { .. } => 11,
        Call::FetchChunk { .. } => 12,
        Call::ApplyChunk { .. } => 12,
        Call::ChunkableIDs { .. } => 13,
        Call::ReadChunk { .. } => 14,
        Call::SendChunk { .. } => 14,
        Call::SanityCheckInfo { .. } => 15,
        Call::DeckTree { .. } => 16,
        Call::SanityCheck { .. } => 17,
        Call::Finish { .. } => 18,
        Call::FinalizeSync { .. } => 19,
        Call::CommitTrx { .. } => 20,
        Call::RollbackTrx { .. } => 21,
        Call::Abort { .. } => 22,
        Call::Finished(_) => 23,
    }
}

/// A place on the way to the commit, the commit among them.
pub open spec fn on_the_way(place: int) -> bool {
    0 <= place <= 20
}

/// A place that is left out where no removals wait here, or where they get no new number.
pub open spec fn may_be_left_out(place: int) -> bool {
    place == 6 || place == 7
}

/// A call of that place was made.
pub open spec fn reached(turns: Seq<Turn>, p: int) -> bool {
    exists|i: int| 0 <= i < turns.len() && place((#[trigger] turns[i]).call) == p
}

/// The transaction is opened by beginning it and by nothing else. It is left by a commit or
/// a rollback and by nothing else, and committed only after all is noted down.
pub proof fn law_transaction_is_opened_and_closed(call: Call, turn: Turn)
    requires
        step(call, turn),
    ensures
        in_transaction(turn.call) && !in_transaction(call) ==> call is BeginTrx,
        in_transaction(call) && !in_transaction(turn.call) ==> call is CommitTrx
            || call is RollbackTrx,
        turn.call is CommitTrx ==> call is FinalizeSync,
        turn.call is Abort ==> call is RollbackTrx,
{
}

/// The session that a call is made in, inside the transaction and up to its end.
pub open spec fn session_of(call: Call) -> Option<Session> {
    match call {
        Call::BeginTrx { then } => Some(then.session),
        Call::LocalMinsWest { then } => Some(then.session),
        Call::Start { then, .. } => Some(then.session),
        Call::PendingGraves { then, .. } => Some(then.session),
        Call::UpdatePendingGraveUsns { then, .. } => Some(then.session),
        Call::SendGraves { then, .. } => Some(then.session),
        Call::ApplyGraves { then, .. } => Some(then.session),
        Call::GatherChanges { then, .. } => Some(then.session),
        Call::SendChanges { then, .. } => Some(then.session),
        Call::ApplyChanges { then, .. } => Some(then.session),
        Call::FetchChunk { then } => Some(then.session),
        Call::ApplyChunk { then, .. } => Some(then.session),
        Call::ChunkableIDs { then, .. } => Some(then.session),
        Call::ReadChunk { then } => Some(then.session),
        Call::SendChunk { then, .. } => Some(then.session),
        Call::SanityCheckInfo { then } => Some(then.session),
        Call::DeckTree { then } => Some(then.session),
        Call::SanityCheck { then, .. } => Some(then.session),
        Call::Finish { then } => Some(then.session),
        Call::FinalizeSync { then, .. } => Some(then.session),
        _ => None,
    }
}

/// The two sessions differ at most in the progress made.
pub open spec fn same_session(a: Session, b: Session) -> bool {
    b == a.with_progress(b.progress())
}

/// Where the two sides stood, and whom the client talks to, does not change in the course of
/// a sync: whatever goes out in it carries the same number.
pub proof fn law_session_keeps_its_state(call: Call, turn: Turn)
    requires
        step(call, turn),
        session_of(call) is Some,
        session_of(turn.call) is Some,
    ensures
        same_session(session_of(call)->0, session_of(turn.call)->0),
{
    let before = session_of(call)->0;
    match call {
        Call::BeginTrx { .. } => assert(same_session(before, session_of(turn.call)->0)),
        Call::LocalMinsWest { .. } => assert(same_session(before, session_of(turn.call)->0)),
        Call::Start { .. } => assert(same_session(before, session_of(turn.call)->0)),
        Call::PendingGraves { .. } => assert(same_session(before, session_of(turn.call)->0)),
        Call::UpdatePendingGraveUsns { .. } => {
            assert(same_session(before, session_of(turn.call)->0));
        },
        Call::SendGraves { .. } => assert(same_session(before, session_of(turn.call)->0)),
        Call::ApplyGraves { .. } => assert(same_session(before, session_of(turn.call)->0)),
        Call::GatherChanges { .. } => assert(same_session(before, session_of(turn.call)->0)),
        Call::SendChanges { .. } => assert(same_session(before, session_of(turn.call)->0)),
        Call::ApplyChanges { .. } => assert(same_session(before, session_of(turn.call)->0)),
        Call::FetchChunk { .. } => assert(same_session(before, session_of(turn.call)->0)),
        Call::ApplyChunk { .. } => assert(same_session(before, session_of(turn.call)->0)),
        Call::ChunkableIDs { .. } => assert(same_session(before, session_of(turn.call)->0)),
        Call::ReadChunk { .. } => assert(same_session(before, session_of(turn.call)->0)),
        Call::SendChunk { .. } => assert(same_session(before, session_of(turn.call)->0)),
        Call::SanityCheckInfo { .. } => assert(same_session(before, session_of(turn.call)->0)),
        Call::DeckTree { .. } => assert(same_session(before, session_of(turn.call)->0)),
        Call::SanityCheck { .. } => assert(same_session(before, session_of(turn.call)->0)),
        Call::Finish { .. } => assert(same_session(before, session_of(turn.call)->0)),
        Call::FinalizeSync { .. } => assert(same_session(before, session_of(turn.call)->0)),
        _ => {},
    }
}

/// A sync never goes back, and while nothing fails it leaves no place out, but for the
/// removals where there are none to send or no number to give them.
pub proof fn law_calls_come_in_order(call: Call, turn: Turn)
    requires
        step(call, turn),
    ensures
        place(call) <= place(turn.call),
        on_the_way(place(turn.call)) ==> forall|p: int|
            place(call) < p < place(turn.call) ==> may_be_left_out(p),
        turn.call is RollbackTrx ==> in_transaction(call),
{
}

proof fn lemma_places_rise(turns: Seq<Turn>, i: int, j: int)
    requires
        stretch(turns),
        0 <= i <= j < turns.len(),
    ensures
        place(turns[i].call) <= place(turns[j].call),
    decreases j - i,
{
    if i < j {
        assert(follows(turns, i));
        law_calls_come_in_order(turns[i].call, turns[i + 1]);
        lemma_places_rise(turns, i + 1, j);
    }
}

proof fn lemma_place_was_passed(turns: Seq<Turn>, end: int, p: int)
    requires
        run(turns),
        0 <= end < turns.len(),
        0 <= p <= place(turns[end].call),
        on_the_way(place(turns[end].call)),
        !may_be_left_out(p),
    ensures
        reached(turns, p),
    decreases end,
{
    if place(turns[end].call) != p {
        assert(follows(turns, end - 1));
        law_calls_come_in_order(turns[end - 1].call, turns[end]);
        lemma_place_was_passed(turns, end - 1, p);
    }
}

/// A sync that was carried out and has succeeded was committed, and before that every step
/// was taken. The removals that wait here may have been none.
pub proof fn law_success_has_done_everything(turns: Seq<Turn>, begun: int)
    requires
        run(turns),
        turns.last().call matches Call::Finished(result) && result is Ok,
        0 <= begun < turns.len(),
        turns[begun].call is BeginTrx,
    ensures
        turns.len() >= 2,
        turns[turns.len() - 2].call matches Call::CommitTrx { then } && turns.last().call
            == Call::Finished(Ok(then.output)),
        forall|p: int| on_the_way(p) && !may_be_left_out(p) ==> #[trigger] reached(turns, p),
{
    let end = turns.len() - 2;
    assert(follows(turns, end));
    lemma_places_rise(turns, begun, end);
    assert forall|p: int| on_the_way(p) && !may_be_left_out(p) implies #[trigger] reached(
        turns,
        p,
    ) by {
        lemma_place_was_passed(turns, end, p);
    }
}

/// The turn is what follows where the call is answered with the error.
pub open spec fn refused(call: Call, error: AnkiError, turn: Turn) -> bool {
    match call {
        Call::Meta { then } => then.leads_to(Err(error), turn),
        Call::LocalMeta { then } => then.leads_to(Err(error), turn),
        Call::BeginTrx { then } => then.leads_to(Err(error), turn),
        Call::LocalMinsWest { .. } => false,
        Call::Start { then, .. } => then.leads_to(Err(error), turn),
        Call::PendingGraves { then, .. } => then.leads_to(Err(error), turn),
        Call::UpdatePendingGraveUsns { then, .. } => then.leads_to(Err(error), turn),
        Call::SendGraves { then, .. } => then.leads_to(Err(error), turn),
        Call::ApplyGraves { then, .. } => then.leads_to(Err(error), turn),
        Call::GatherChanges { then, .. } => then.leads_to(Err(error), turn),
        Call::SendChanges { then, .. } => then.leads_to(Err(error), turn),
        Call::ApplyChanges { then, .. } => then.leads_to(Err(error), turn),
        Call::FetchChunk { then } => then.leads_to(Err(error), turn),
        Call::ApplyChunk { then, .. } => then.leads_to(Err(error), turn),
        Call::ChunkableIDs { then, .. } => then.leads_to(Err(error), turn),
        Call::ReadChunk { then } => then.leads_to(Err(error), turn),
        Call::SendChunk { then, .. } => then.leads_to(Err(error), turn),
        Call::SanityCheckInfo { then } => then.leads_to(Err(error), turn),
        Call::DeckTree { then } => then.leads_to(Err(error), turn),
        Call::SanityCheck { then, .. } => then.leads_to(Err(error), turn),
        Call::Finish { then } => then.leads_to(Err(error), turn),
        Call::FinalizeSync { then, .. } => then.leads_to(Err(error), turn),
        Call::CommitTrx { then } => then.leads_to(Err(error), turn),
        Call::RollbackTrx { then } => then.leads_to(Err(error), turn),
        Call::Abort { then } => then.leads_to(turn),
        Call::Finished(_) => false,
    }
}

/// Whatever is refused between the begin of the transaction and its commit, the transaction
/// is rolled back on account of it. What is refused at other times ends the sync with that
/// very error, but for the request to abort: the sync has failed on another error by then.
pub proof fn law_refusal_is_rolled_back(call: Call, error: AnkiError, turn: Turn)
    requires
        refused(call, error, turn),
    ensures
        in_transaction(call) && !(call is CommitTrx) && !(call is RollbackTrx)
            ==> turn.rolls_back(error),
        !in_transaction(call) && !(call is Abort) ==> turn.ends_with(Err(error)),
        call is CommitTrx || call is RollbackTrx ==> turn.ends_with(Err(error)),
        call matches Call::Abort { then } ==> turn.ends_with(Err(then.error)),
{
}

/// A sync that fails once its transaction is open does not leave it open: the last that is
/// asked of the storage is to roll it back or to commit it. Where it was rolled back, the
/// server is told to abort, and the sync ends with the error on account of which it was.
pub proof fn law_failure_closes_the_transaction(turns: Seq<Turn>, open: int, error: AnkiError)
    requires
        run(turns),
        turns.last().call == Call::Finished(Err(error)),
        0 <= open < turns.len(),
        in_transaction(turns[open].call),
    ensures
        turns.len() >= 3,
        ({
            let last = turns[turns.len() - 2].call;
            ||| last is CommitTrx
            ||| last is RollbackTrx
            ||| last == (Call::Abort { then: Aborted { error } }) && turns[turns.len() - 3].call
                == (Call::RollbackTrx { then: RolledBack { error } })
        }),
{
    let end = turns.len() - 2;
    assert(follows(turns, end));
    lemma_places_rise(turns, open, end);
    if turns[end].call is Abort {
        assert(follows(turns, end - 1));
    }
}

/// The progress made when the call is made, up to the commit.
pub open spec fn progress_of(call: Call) -> Option<NormalSyncProgress> {
    match call {
        Call::Meta { then } => Some(then.syncer.progress),
        Call::LocalMeta { then } => Some(then.syncer.progress),
        _ => match session_of(call) {
            Some(session) => Some(session.progress()),
            None => None,
        },
    }
}

/// The stage that a call of that place belongs to.
pub open spec fn stage_at(place: int) -> SyncStage {
    if place <= 2 {
        SyncStage::Connecting
    } else if place <= 14 {
        SyncStage::Syncing
    } else {
        SyncStage::Finalizing
    }
}

/// No count is lower.
pub open spec fn no_less(a: NormalSyncProgress, b: NormalSyncProgress) -> bool {
    &&& a.local_update <= b.local_update
    &&& a.local_remove <= b.local_remove
    &&& a.remote_update <= b.remote_update
    &&& a.remote_remove <= b.remote_remove
}

/// What holds of the progress throughout: the stage goes by the place, and no removals of the
/// server's are counted before they are carried out.
spec fn progress_fits(call: Call) -> bool {
    progress_of(call) matches Some(p) ==> {
        &&& p.stage == stage_at(place(call))
        &&& place(call) < 8 ==> p.remote_remove == 0
    }
}

proof fn lemma_progress_fits_on(call: Call, turn: Turn)
    requires
        step(call, turn),
        progress_fits(call),
    ensures
        progress_fits(turn.call),
        progress_of(turn.call) is Some ==> progress_of(call) is Some && no_less(
            progress_of(call)->0,
            progress_of(turn.call)->0,
        ),
{
}

proof fn lemma_progress_fits(turns: Seq<Turn>, i: int)
    requires
        run(turns),
        0 <= i < turns.len(),
    ensures
        progress_fits(turns[i].call),
    decreases i,
{
    if i > 0 {
        lemma_progress_fits(turns, i - 1);
        assert(follows(turns, i - 1));
        lemma_progress_fits_on(turns[i - 1].call, turns[i]);
    }
}

/// In the course of a sync no count of the progress ever falls, and the stage goes by how far
/// the sync has come.
pub proof fn law_progress_never_falls(turns: Seq<Turn>, i: int, j: int)
    requires
        run(turns),
        0 <= i <= j < turns.len(),
        progress_of(turns[j].call) is Some,
    ensures
        progress_of(turns[i].call) is Some,
        no_less(progress_of(turns[i].call)->0, progress_of(turns[j].call)->0),
        progress_of(turns[j].call)->0.stage == stage_at(place(turns[j].call)),
    decreases j,
{
    lemma_progress_fits(turns, j);
    if i < j {
        lemma_progress_fits(turns, j - 1);
        assert(follows(turns, j - 1));
        lemma_progress_fits_on(turns[j - 1].call, turns[j]);
        law_progress_never_falls(turns, i, j - 1);
    }
}

/// The removals that are sent in the course of the turns, chunk by chunk.
pub open spec fn graves_sent(turns: Seq<Turn>) -> Seq<graves::GravesView>
    decreases turns.len(),
{
    if turns.len() == 0 {
        seq![]
    } else {
        match turns[0].call {
            Call::SendGraves { chunk, .. } => seq![chunk@] + graves_sent(turns.drop_first()),
            _ => graves_sent(turns.drop_first()),
        }
    }
}

proof fn lemma_rest_of_stretch(turns: Seq<Turn>)
    requires
        stretch(turns),
        turns.len() > 1,
    ensures
        stretch(turns.drop_first()),
        turns.drop_first().last() == turns.last(),
        step(turns[0].call, turns[1]),
        place(turns[1].call) <= place(turns.last().call),
{
    let rest = turns.drop_first();
    assert(follows(turns, 0));
    lemma_places_rise(turns, 1, turns.len() - 1);
    assert forall|i: int| 0 <= i < rest.len() - 1 implies #[trigger] follows(rest, i) by {
        assert(follows(turns, i + 1));
    }
}

/// From when the removals are known to when those of the server are carried out, every local
/// removal is sent, in the chunks that they come in, and all of them are counted.
pub proof fn law_every_removal_is_sent(
    session: Session,
    remote: Graves,
    local: graves::GravesView,
    turns: Seq<Turn>,
)
    requires
        stretch(turns),
        session.can_count_graves(remote@, local),
        session.hands_over_graves(remote, local, turns[0].call),
        turns.last().call is ApplyGraves,
    ensures
        graves_sent(turns) == local.chunks(),
        turns.last().call matches Call::ApplyGraves { ops, then } && {
            &&& ops@ == graves::burials(remote@, session.state.latest_usn)
            &&& then.session.progress().local_remove == session.progress().local_remove
                + local.total()
            &&& then.session.progress().remote_remove == remote@.total()
        },
    decreases turns.len(),
{
    if local.total() > 0 {
        let rest = turns.drop_first();
        lemma_rest_of_stretch(turns);
        let then = turns[0].call->SendGraves_then;
        law_every_removal_is_sent(then.session, remote, local.left(), rest);
    } else if turns.len() > 1 {
        lemma_rest_of_stretch(turns);
        assert(false);
    } else {
        assert(graves_sent(turns.drop_first()).len() == 0);
    }
}

/// The ids of the local objects that are read in the course of the turns, chunk by chunk.
pub open spec fn chunks_read(turns: Seq<Turn>) -> Seq<chunk::IDLists>
    decreases turns.len(),
{
    if turns.len() == 0 {
        seq![]
    } else {
        match turns[0].call {
            Call::ReadChunk { then } => seq![then.read.ids@] + chunks_read(turns.drop_first()),
            _ => chunks_read(turns.drop_first()),
        }
    }
}

/// How the local objects are read in the course of the turns, chunk by chunk.
pub open spec fn reads_made(turns: Seq<Turn>) -> Seq<ChunkRead>
    decreases turns.len(),
{
    if turns.len() == 0 {
        seq![]
    } else {
        match turns[0].call {
            Call::ReadChunk { then } => seq![then.read] + reads_made(turns.drop_first()),
            _ => reads_made(turns.drop_first()),
        }
    }
}

/// The chunks that are sent in the course of the turns.
pub open spec fn chunks_sent(turns: Seq<Turn>) -> Seq<Chunk>
    decreases turns.len(),
{
    if turns.len() == 0 {
        seq![]
    } else {
        match turns[0].call {
            Call::SendChunk { chunk, .. } => seq![chunk] + chunks_sent(turns.drop_first()),
            _ => chunks_sent(turns.drop_first()),
        }
    }
}

/// The objects that the storage answers with in the course of the turns, one answer for each
/// chunk that is read: they are those that were asked for.
pub open spec fn read_truly(turns: Seq<Turn>, replies: Seq<ChunkObjects>) -> bool
    decreases turns.len(),
{
    if turns.len() <= 1 {
        replies.len() == 0
    } else {
        match turns[0].call {
            Call::ReadChunk { then } => {
                &&& replies.len() > 0
                &&& replies[0].go_by(then.read.ids@)
                &&& then.admits(Ok(replies[0]))
                &&& then.leads_to(Ok(replies[0]), turns[1])
                &&& read_truly(turns.drop_first(), replies.drop_first())
            },
            _ => read_truly(turns.drop_first(), replies),
        }
    }
}

/// The chunk carries the objects that go by the ids, in their order.
pub open spec fn carries(chunk: Chunk, ids: chunk::IDLists) -> bool {
    &&& chunk.revlog@.map_values(|e: ReviewLogEntry| RevlogID(e.id.0)) == ids.revlog
    &&& chunk.cards@.map_values(|c: CardEntry| c.id) == ids.cards
    &&& chunk.notes@.map_values(|n: NoteEntry| n.id) == ids.notes
}

proof fn lemma_packed_carries(
    objects: ChunkObjects,
    ids: chunk::IDLists,
    new_usn: Option<Usn>,
    sent: Chunk,
)
    requires
        objects.go_by(ids),
        chunk::packed(objects.revlog@, objects.cards@, objects.notes@, new_usn, sent),
    ensures
        carries(sent, ids),
        objects.total() == ids.total(),
{
    let revlog = objects.revlog@.map_values(
        |e: Option<ReviewLogEntry>| RevlogID(e->0.id.0),
    );
    let cards = objects.cards@.map_values(|c: Option<Card>| c->0.id);
    let notes = objects.notes@.map_values(|n: Option<Note>| n->0.id);
    assert(sent.revlog@.map_values(|e: ReviewLogEntry| RevlogID(e.id.0)) =~= revlog);
    assert(sent.cards@.map_values(|c: CardEntry| c.id) =~= cards);
    assert(sent.notes@.map_values(|n: NoteEntry| n.id) =~= notes);
}

/// From when it is known which objects wait to be synced to when the two sides are compared,
/// all of them are read, in the chunks that they come in. For each of these a chunk is sent
/// that carries the objects asked for, as the storage answered with them and with their new
/// number. It is the last that is said to be done, and every object is counted.
pub proof fn law_every_waiting_object_is_sent(
    session: Session,
    ids: chunk::IDLists,
    turns: Seq<Turn>,
    replies: Seq<ChunkObjects>,
)
    requires
        stretch(turns),
        session.reads_chunk(ids, turns[0].call),
        turns.last().call is SanityCheckInfo,
        read_truly(turns, replies),
    ensures
        chunks_read(turns) == ids.chunks(),
        chunk::read_in_turn(
            session.syncer.col.server,
            ids,
            reads_made(turns),
            session.state.new_usn,
        ),
        chunks_sent(turns).len() == ids.chunks().len(),
        replies.len() == ids.chunks().len(),
        forall|i: int|
            0 <= i < ids.chunks().len() ==> {
                let sent = #[trigger] chunks_sent(turns)[i];
                &&& carries(sent, ids.chunks()[i])
                &&& chunk::packed(
                    replies[i].revlog@,
                    replies[i].cards@,
                    replies[i].notes@,
                    session.state.new_usn,
                    sent,
                )
                &&& sent.done <==> i == ids.chunks().len() - 1
            },
        session_of(turns.last().call)->0.progress().local_update
            == session.progress().local_update + ids.total(),
    decreases turns.len(),
{
    chunk::law_last_chunk_leaves_nothing(ids);
    let second = turns.drop_first();
    let third = second.drop_first();
    lemma_rest_of_stretch(turns);
    let read = turns[0].call->ReadChunk_then.read;
    let sent = turns[1].call->SendChunk_chunk;
    let then = turns[1].call->SendChunk_then;
    assert(second.len() > 1);
    lemma_rest_of_stretch(second);
    assert(read_truly(second, replies.drop_first()));
    assert(read_truly(third, replies.drop_first()));
    lemma_packed_carries(replies[0], ids.picked(), read.new_usn, sent);
    assert(chunks_read(second) == chunks_read(third));
    assert(reads_made(second) == reads_made(third));
    assert(reads_made(turns) == seq![read] + reads_made(third));
    assert(reads_made(turns).drop_first() =~= reads_made(third));
    assert(chunks_sent(turns) == chunks_sent(second));
    assert(chunks_sent(second) == seq![sent] + chunks_sent(third));
    if ids.last() {
        assert(third[0].call is SanityCheckInfo);
        if third.len() > 1 {
            lemma_rest_of_stretch(third);
            assert(false);
        }
        assert(chunks_read(third.drop_first()).len() == 0);
        assert(reads_made(third.drop_first()).len() == 0);
        assert(chunks_sent(third.drop_first()).len() == 0);
    } else {
        let left = ids.left();
        law_every_waiting_object_is_sent(then.session, left, third, replies.drop_first());
        assert(ids.chunks() == seq![ids.picked()] + left.chunks());
        assert forall|i: int| 0 <= i < ids.chunks().len() implies {
            let sent = #[trigger] chunks_sent(turns)[i];
            &&& carries(sent, ids.chunks()[i])
            &&& chunk::packed(
                replies[i].revlog@,
                replies[i].cards@,
                replies[i].notes@,
                session.state.new_usn,
                sent,
            )
            &&& sent.done <==> i == ids.chunks().len() - 1
        } by {
            if i > 0 {
                assert(chunks_sent(turns)[i] == chunks_sent(third)[i - 1]);
                assert(replies[i] == replies.drop_first()[i - 1]);
            }
        }
    }
}

/// When a client has sent the objects that wait to be synced, none of them waits any more.
pub proof fn law_nothing_waits_once_all_is_sent(
    session: Session,
    ids: chunk::IDLists,
    turns: Seq<Turn>,
    replies: Seq<ChunkObjects>,
    numbers: ChunkNumbers,
    usn: Usn,
)
    requires
        stretch(turns),
        session.reads_chunk(ids, turns[0].call),
        turns.last().call is SanityCheckInfo,
        read_truly(turns, replies),
        !session.syncer.col.server,
        session.state.new_usn == Some(usn),
        usn.0 != state::PENDING_USN,
        numbers.waiting_among(ids),
    ensures
        numbers.after_all(reads_made(turns)).none_waiting(),
{
    law_every_waiting_object_is_sent(session, ids, turns, replies);
    pending::law_sent_objects_wait_no_more(numbers, ids, reads_made(turns), usn);
}

/// What is merged of each of the server's chunks in the course of the turns.
pub open spec fn chunks_merged(turns: Seq<Turn>) -> Seq<Seq<MergeItem>>
    decreases turns.len(),
{
    if turns.len() == 0 {
        seq![]
    } else {
        match turns[0].call {
            Call::ApplyChunk { merging, .. } => seq![merging@] + chunks_merged(turns.drop_first()),
            _ => chunks_merged(turns.drop_first()),
        }
    }
}

/// The chunks that the server answers with in the course of the turns, one for each that is
/// fetched.
pub open spec fn fetched(turns: Seq<Turn>, replies: Seq<Chunk>) -> bool
    decreases turns.len(),
{
    if turns.len() <= 1 {
        replies.len() == 0
    } else {
        match turns[0].call {
            Call::FetchChunk { then } => {
                &&& replies.len() > 0
                &&& then.admits(Ok(replies[0]))
                &&& then.leads_to(Ok(replies[0]), turns[1])
                &&& fetched(turns.drop_first(), replies.drop_first())
            },
            _ => fetched(turns.drop_first(), replies),
        }
    }
}

/// How many objects the chunks hold together.
pub open spec fn sum_of_totals(chunks: Seq<Chunk>) -> nat
    decreases chunks.len(),
{
    if chunks.len() == 0 {
        0
    } else {
        chunks[0].total() + sum_of_totals(chunks.drop_first())
    }
}

/// Where the server's chunks have all been merged, the server answered with a chunk whenever
/// one was fetched.
pub proof fn law_merged_chunks_were_fetched(turns: Seq<Turn>)
    requires
        stretch(turns),
        turns.last().call is ChunkableIDs,
    ensures
        exists|replies: Seq<Chunk>| fetched(turns, replies),
    decreases turns.len(),
{
    if turns.len() <= 1 {
        assert(fetched(turns, seq![]));
    } else {
        let rest = turns.drop_first();
        lemma_rest_of_stretch(turns);
        law_merged_chunks_were_fetched(rest);
        let replies = choose|replies: Seq<Chunk>| fetched(rest, replies);
        match turns[0].call {
            Call::FetchChunk { then } => {
                let reply = choose|r: Result<Chunk, AnkiError>|
                    then.admits(r) && then.leads_to(r, turns[1]);
                let all = seq![reply->Ok_0] + replies;
                assert(all.drop_first() =~= replies);
                assert(fetched(turns, all));
            },
            _ => assert(fetched(turns, replies)),
        }
    }
}

/// The server's chunks are fetched up to the first that is said to be done, and no further.
/// Each of them is merged as a whole, in the order in which they come, and all their objects
/// are counted.
pub proof fn law_server_chunks_are_merged_until_done(
    session: Session,
    turns: Seq<Turn>,
    replies: Seq<Chunk>,
)
    requires
        stretch(turns),
        turns[0].call == (Call::FetchChunk { then: ChunkReceived { session } }),
        turns.last().call is ChunkableIDs,
        fetched(turns, replies),
    ensures
        replies.len() > 0,
        forall|i: int|
            0 <= i < replies.len() ==> ((#[trigger] replies[i]).done <==> i == replies.len() - 1),
        chunks_merged(turns) == replies.map_values(|chunk: Chunk| merge::chunk_to_merge(chunk)),
        session_of(turns.last().call)->0.progress().remote_update
            == session.progress().remote_update + sum_of_totals(replies),
    decreases turns.len(),
{
    let second = turns.drop_first();
    let third = second.drop_first();
    let rest = replies.drop_first();
    lemma_rest_of_stretch(turns);
    assert(second.len() > 1);
    lemma_rest_of_stretch(second);
    let merging = turns[1].call->ApplyChunk_merging;
    let then = turns[1].call->ApplyChunk_then;
    assert(fetched(second, rest));
    assert(fetched(third, rest));
    assert(chunks_merged(turns) == chunks_merged(second));
    assert(chunks_merged(second) == seq![merging@] + chunks_merged(third));
    if then.done {
        if third.len() > 1 {
            lemma_rest_of_stretch(third);
            assert(false);
        }
        assert(chunks_merged(third.drop_first()).len() == 0);
        assert(sum_of_totals(rest) == 0);
    } else {
        law_server_chunks_are_merged_until_done(then.session, third, rest);
        assert forall|i: int| 0 <= i < replies.len() implies ((#[trigger] replies[i]).done <==> i
            == replies.len() - 1) by {
            if i > 0 {
                assert(replies[i] == rest[i - 1]);
            }
        }
    }
    assert(chunks_merged(turns) =~= replies.map_values(
        |chunk: Chunk| merge::chunk_to_merge(chunk),
    ));
}

} // verus!
