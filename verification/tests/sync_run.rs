use anki_sync::changes::{DecksAndConfig, GatherCall, UnchunkedChanges};
use anki_sync::chunk::{Chunk, ChunkableIDs};
use anki_sync::collection::Collection;
use anki_sync::error::{AnkiError, SyncErrorKind};
use anki_sync::graves::Graves;
use anki_sync::ids::{
    CardID, DeckID, NoteID, NoteTypeID, RevlogID, TimestampMillis, TimestampSecs, Usn,
};
use anki_sync::objects::{
    Card, CardEntry, CardQueue, CardType, DeckSchema11, Note, NoteEntry, ReviewLogEntry,
};
use anki_sync::progress::{NormalSyncProgress, ProgressReport, SyncStage};
use anki_sync::sanity::{
    DeckTreeNode, SanityCheckCounts, SanityCheckDueCounts, SanityCheckOut, SanityCheckStatus,
};
use anki_sync::state::{SyncActionRequired, SyncAuth, SyncMeta, SyncOutput, SyncState};
use anki_sync::syncer::{
    Call, ChunkObjects, FinalizeOp, NormalSyncer, PendingGravesRead, Session, SyncEndpoint,
    TrxBegun,
};
use std::collections::HashMap;

fn meta(modified: i64, usn: i32, message: &str) -> SyncMeta {
    SyncMeta {
        modified: TimestampMillis(modified),
        schema: TimestampMillis(1),
        usn: Usn(usn),
        current_time: TimestampSecs(1000),
        server_message: message.to_string(),
        should_continue: true,
        host_number: 5,
        empty: false,
    }
}

fn card(id: i64) -> Card {
    Card {
        id: CardID(id),
        nid: NoteID(2),
        did: DeckID(3),
        ord: 0,
        mtime: TimestampSecs(5),
        usn: Usn(-1),
        ctype: CardType(0),
        queue: CardQueue(0),
        due: 0,
        ivl: 0,
        factor: 0,
        reps: 0,
        lapses: 0,
        left: 0,
        odue: 0,
        odid: DeckID(0),
        flags: 0,
        data: String::new(),
    }
}

fn note(id: i64) -> Note {
    Note {
        id: NoteID(id),
        guid: "guid".to_string(),
        ntid: NoteTypeID(1),
        mtime: TimestampSecs(5),
        usn: Usn(-1),
        tags: vec![],
        fields: vec!["a".to_string()],
        sort_field: None,
        checksum: None,
    }
}

fn review(id: i64) -> ReviewLogEntry {
    ReviewLogEntry {
        id: TimestampMillis(id),
        cid: CardID(1),
        usn: Usn(-1),
        ease: 3,
        interval: 4,
        last_interval: 5,
        factor: 6,
        time: 7,
        kind: 2,
    }
}

fn deck(id: i64) -> DeckSchema11 {
    DeckSchema11 {
        id: DeckID(id),
        mtime: TimestampSecs(10),
        usn: Usn(-1),
        other: HashMap::new(),
    }
}

fn counts() -> SanityCheckCounts {
    SanityCheckCounts {
        counts: SanityCheckDueCounts::default(),
        cards: 1,
        notes: 2,
        revlog: 3,
        graves: 4,
        notetypes: 5,
        decks: 6,
        deck_config: 7,
    }
}

/// A client and a server. The client has 260 removed cards and 300 new ones; the server has a
/// removed note, a changed deck and two chunks of objects.
struct World {
    local_modified: i64,
    /// The call that is answered with an error.
    fails_at: &'static str,
    rollback_fails: bool,
    sane: bool,
    log: Vec<String>,
    reports: Vec<ProgressReport>,
    server_chunks: usize,
    /// The cards that are asked for, and those that are sent.
    cards_read: Vec<CardID>,
    cards_sent: Vec<CardID>,
}

fn world() -> World {
    World {
        local_modified: 20,
        fails_at: "",
        rollback_fails: false,
        sane: true,
        log: vec![],
        reports: vec![],
        server_chunks: 2,
        cards_read: vec![],
        cards_sent: vec![],
    }
}

impl World {
    fn answer<T>(&mut self, call: &str, value: T) -> Result<T, AnkiError> {
        self.log.push(call.to_string());
        if call.starts_with(self.fails_at) && !self.fails_at.is_empty() {
            Err(AnkiError::NetworkError { info: call.to_string() })
        } else {
            Ok(value)
        }
    }

    fn gather(&mut self, gather: GatherCall) -> Result<UnchunkedChanges, AnkiError> {
        match gather {
            GatherCall::PendingNotetypes { usn, then } => {
                assert_eq!(usn, Usn(-1));
                assert_eq!(then.gather.new_usn, Some(Usn(30)));
                let changes = UnchunkedChanges {
                    notetypes: vec![],
                    decks_and_config: DecksAndConfig {
                        decks: vec![deck(1), deck(2)],
                        config: vec![],
                    },
                    tags: vec!["t".to_string()],
                    config: None,
                    creation_stamp: None,
                };
                let newer = then.gather.local_is_newer;
                self.answer(&format!("gather {}", newer), changes)
            }
            other => panic!("{:?}", other),
        }
    }

    fn sync(&mut self) -> Result<SyncOutput, AnkiError> {
        let auth = SyncAuth { hkey: "key".to_string(), host_number: 5 };
        let mut turn = Collection { server: false }.normal_sync(auth);
        loop {
            self.reports.extend(turn.reports);
            turn = match turn.call {
                Call::Meta { then } => then.resume(self.answer("meta", meta(10, 30, "motd"))),
                Call::LocalMeta { then } => {
                    let local = meta(self.local_modified, 12, "");
                    let reply = self.answer("local meta", local);
                    if let Ok(local) = &reply {
                        assert!(then.remote.has_clock_comparable_to(local));
                    }
                    then.resume(reply)
                }
                Call::BeginTrx { then } => then.resume(self.answer("begin", ())),
                Call::LocalMinsWest { then } => {
                    self.log.push("mins west".to_string());
                    then.resume(-60)
                }
                Call::Start { usn, mins_west, local_is_newer, then } => {
                    let call = format!("start {} {} {}", usn.0, mins_west, local_is_newer);
                    let mut graves = Graves::default();
                    graves.notes.push(NoteID(50));
                    then.resume(self.answer(&call, graves))
                }
                Call::PendingGraves { usn, then } => {
                    let mut graves = Graves::default();
                    graves.cards = (0..260).map(CardID).collect();
                    assert!(then.can_count(&graves));
                    let call = format!("pending graves {}", usn.0);
                    then.resume(self.answer(&call, graves))
                }
                Call::UpdatePendingGraveUsns { usn, then } => {
                    assert!(then.can_count());
                    let call = format!("update graves {}", usn.0);
                    then.resume(self.answer(&call, ()))
                }
                Call::SendGraves { chunk, then } => {
                    assert!(then.can_count());
                    let call = format!("send graves {}", chunk.count());
                    then.resume(self.answer(&call, ()))
                }
                Call::ApplyGraves { ops, then } => {
                    let call = format!("apply graves {:?}", ops.queue);
                    then.resume(self.answer(&call, ()))
                }
                Call::GatherChanges { gather, then } => {
                    let reply = self.gather(gather);
                    if let Ok(local) = &reply {
                        assert!(then.can_count(local));
                    }
                    then.resume(reply)
                }
                Call::SendChanges { changes, then } => {
                    let call = format!("send changes {}", changes.count());
                    let mut remote = UnchunkedChanges::default();
                    remote.decks_and_config.decks.push(deck(9));
                    assert!(then.can_count(&remote));
                    then.resume(self.answer(&call, remote))
                }
                Call::ApplyChanges { merging, then } => {
                    let call = format!("merge changes {}", merging.queue.len());
                    then.resume(self.answer(&call, ()))
                }
                Call::FetchChunk { then } => {
                    self.server_chunks -= 1;
                    let mut chunk = Chunk::default();
                    chunk.done = self.server_chunks == 0;
                    chunk.cards = vec![CardEntry::from(card(1)), CardEntry::from(card(2))];
                    chunk.notes = vec![NoteEntry::from(note(1))];
                    assert!(then.can_count(&chunk));
                    then.resume(self.answer("fetch chunk", chunk))
                }
                Call::ApplyChunk { merging, then } => {
                    let call = format!("merge chunk {} {}", merging.queue.len(), then.done);
                    then.resume(self.answer(&call, ()))
                }
                Call::ChunkableIDs { usn, then } => {
                    let col = then.session.syncer.col;
                    let ids: ChunkableIDs = col.get_chunkable_ids(
                        vec![RevlogID(1)],
                        (0..300).map(CardID).collect(),
                        vec![NoteID(7)],
                    );
                    let call = format!("chunkable ids {}", usn.0);
                    then.resume(self.answer(&call, ids))
                }
                Call::ReadChunk { then } => {
                    let ids = &then.read.ids;
                    let objects = ChunkObjects {
                        revlog: ids.revlog.iter().map(|id| Some(review(id.0))).collect(),
                        cards: ids.cards.iter().map(|id| Some(card(id.0))).collect(),
                        notes: ids.notes.iter().map(|id| Some(note(id.0))).collect(),
                    };
                    self.cards_read.extend(ids.cards.iter());
                    assert_eq!(then.read.updates.len(), 3);
                    assert!(then.can_count(&objects));
                    then.resume(self.answer("read chunk", objects))
                }
                Call::SendChunk { chunk, then } => {
                    assert_eq!(chunk.cards[0].usn, Usn(30));
                    self.cards_sent.extend(chunk.cards.iter().map(|c| c.id));
                    let call = format!("send chunk {} {}", chunk.count(), chunk.done);
                    then.resume(self.answer(&call, ()))
                }
                Call::SanityCheckInfo { then } => then.resume(self.answer("counts", counts())),
                Call::DeckTree { then } => {
                    let tree = DeckTreeNode { new_count: 1, review_count: 2, learn_count: 3 };
                    then.resume(self.answer("deck tree", Some(tree)))
                }
                Call::SanityCheck { counts: sent, then } => {
                    let due = SanityCheckDueCounts { new: 1, learn: 3, review: 2 };
                    assert_eq!(sent, SanityCheckCounts { counts: due, ..counts() });
                    let status = if self.sane {
                        SanityCheckStatus::Good
                    } else {
                        SanityCheckStatus::Bad
                    };
                    let out = SanityCheckOut { status, client: Some(sent), server: None };
                    then.resume(self.answer("sanity check", out))
                }
                Call::Finish { then } => then.resume(self.answer("finish", TimestampMillis(99))),
                Call::FinalizeSync { ops, then } => {
                    assert_eq!(
                        ops.queue,
                        vec![
                            FinalizeOp::SetLastSync(TimestampMillis(99)),
                            FinalizeOp::SetUsn(Usn(31)),
                            FinalizeOp::SetModifiedTime(TimestampMillis(99)),
                        ]
                    );
                    then.resume(self.answer("finalize", ()))
                }
                Call::CommitTrx { then } => then.resume(self.answer("commit", ())),
                Call::RollbackTrx { then } => {
                    self.log.push("rollback".to_string());
                    if self.rollback_fails {
                        then.resume(Err(AnkiError::DBError { info: "locked".to_string() }))
                    } else {
                        then.resume(Ok(()))
                    }
                }
                Call::Abort { then } => {
                    self.log.push("abort".to_string());
                    then.resume(Err(AnkiError::NetworkError { info: "abort".to_string() }))
                }
                Call::Finished(result) => return result,
            };
        }
    }
}

#[test]
fn sync_takes_every_step_in_order() {
    let mut w = world();
    let output = w.sync().unwrap();
    assert_eq!(output.required, SyncActionRequired::NoChanges);
    assert_eq!(output.server_message, "motd");
    assert_eq!(output.host_number, 5);
    assert_eq!(
        w.log,
        vec![
            "meta",
            "local meta",
            "begin",
            "mins west",
            "start 12 -60 true",
            "pending graves -1",
            "update graves 30",
            "send graves 250",
            "send graves 10",
            "apply graves [RemoveNote(NoteID(50)), AddNoteGrave(NoteID(50), Usn(30))]",
            "gather true",
            "send changes 3",
            "merge changes 1",
            "fetch chunk",
            "merge chunk 3 false",
            "fetch chunk",
            "merge chunk 3 true",
            "chunkable ids -1",
            "read chunk",
            "send chunk 250 false",
            "read chunk",
            "send chunk 52 true",
            "counts",
            "deck tree",
            "sanity check",
            "finish",
            "finalize",
            "commit",
        ]
    );
}

#[test]
fn progress_is_reported_and_never_falls() {
    let mut w = world();
    w.sync().unwrap();
    let seen: Vec<(SyncStage, usize, usize, usize, usize, bool)> = w
        .reports
        .iter()
        .map(|r| {
            let p = r.progress;
            (p.stage, p.local_update, p.local_remove, p.remote_update, p.remote_remove, r.throttle)
        })
        .collect();
    assert_eq!(
        seen,
        vec![
            (SyncStage::Connecting, 0, 0, 0, 0, false),
            (SyncStage::Syncing, 0, 0, 0, 0, false),
            (SyncStage::Syncing, 0, 250, 0, 0, true),
            (SyncStage::Syncing, 0, 260, 0, 0, true),
            (SyncStage::Syncing, 0, 260, 0, 1, true),
            (SyncStage::Syncing, 3, 260, 0, 1, true),
            (SyncStage::Syncing, 3, 260, 1, 1, true),
            (SyncStage::Syncing, 3, 260, 4, 1, true),
            (SyncStage::Syncing, 3, 260, 7, 1, true),
            (SyncStage::Syncing, 253, 260, 7, 1, true),
            (SyncStage::Syncing, 305, 260, 7, 1, true),
            (SyncStage::Finalizing, 305, 260, 7, 1, false),
        ]
    );
}

#[test]
fn every_waiting_card_is_read_and_sent() {
    let mut w = world();
    w.sync().unwrap();
    let waiting: Vec<CardID> = (0..300).rev().map(CardID).collect();
    assert_eq!(w.cards_read, waiting);
    assert_eq!(w.cards_sent, waiting);
}

#[test]
fn nothing_is_done_where_nothing_has_changed() {
    let mut w = world();
    w.local_modified = 10;
    let output = w.sync().unwrap();
    assert_eq!(output.required, SyncActionRequired::NoChanges);
    assert_eq!(w.log, vec!["meta", "local meta"]);
    assert_eq!(w.reports.len(), 1);
}

#[test]
fn older_client_says_so() {
    let mut w = world();
    w.local_modified = 5;
    w.sync().unwrap();
    assert_eq!(w.log[4], "start 12 -60 false");
    assert_eq!(w.log[10], "gather false");
}

#[test]
fn failure_inside_the_transaction_is_rolled_back() {
    for call in vec![
        "start",
        "pending graves",
        "update graves",
        "send graves",
        "apply graves",
        "gather",
        "send changes",
        "merge changes",
        "fetch chunk",
        "merge chunk",
        "chunkable ids",
        "read chunk",
        "send chunk",
        "counts",
        "deck tree",
        "sanity check",
        "finish",
        "finalize",
    ] {
        let mut w = world();
        w.fails_at = call;
        match w.sync() {
            Err(AnkiError::NetworkError { info }) => assert!(info.starts_with(call)),
            other => panic!("{:?}", other),
        }
        let n = w.log.len();
        assert!(w.log[n - 3].starts_with(call));
        assert_eq!(w.log[n - 2], "rollback");
        assert_eq!(w.log[n - 1], "abort");
    }
}

#[test]
fn failure_outside_the_transaction_ends_the_sync() {
    for call in vec!["meta", "local meta", "begin", "commit"] {
        let mut w = world();
        w.fails_at = call;
        match w.sync() {
            Err(AnkiError::NetworkError { info }) => assert_eq!(info, call),
            other => panic!("{:?}", other),
        }
        assert_eq!(w.log[w.log.len() - 1], call);
    }
}

#[test]
fn failed_rollback_is_what_the_sync_ends_with() {
    let mut w = world();
    w.fails_at = "gather";
    w.rollback_fails = true;
    assert!(matches!(w.sync(), Err(AnkiError::DBError { .. })));
    assert_eq!(w.log[w.log.len() - 1], "rollback");
}

#[test]
fn counts_that_do_not_match_fail_the_sync() {
    let mut w = world();
    w.sane = false;
    match w.sync() {
        Err(AnkiError::SyncError { info, kind }) => {
            assert_eq!(kind, SyncErrorKind::DatabaseCheckRequired);
            assert!(info.starts_with("local Some(SanityCheckCounts {"));
            assert!(info.ends_with("\nremote None"));
        }
        other => panic!("{:?}", other),
    }
    assert_eq!(w.log[w.log.len() - 2], "rollback");
    assert_eq!(w.log[w.log.len() - 1], "abort");
}

#[test]
fn full_sync_is_left_to_the_caller() {
    let auth = SyncAuth { hkey: "key".to_string(), host_number: 5 };
    let then = match (Collection { server: false }).normal_sync(auth).call {
        Call::Meta { then } => then,
        other => panic!("{:?}", other),
    };
    let then = match then.resume(Ok(meta(10, 30, ""))).call {
        Call::LocalMeta { then } => then,
        other => panic!("{:?}", other),
    };
    let mut local = meta(20, 12, "");
    local.schema = TimestampMillis(2);
    local.empty = true;
    match then.resume(Ok(local)).call {
        Call::Finished(Ok(output)) => assert_eq!(
            output.required,
            SyncActionRequired::FullSyncRequired { upload_ok: false, download_ok: true }
        ),
        other => panic!("{:?}", other),
    }
}

#[test]
fn server_that_says_stop_is_obeyed() {
    let auth = SyncAuth { hkey: "key".to_string(), host_number: 5 };
    let then = match (Collection { server: false }).normal_sync(auth).call {
        Call::Meta { then } => then,
        other => panic!("{:?}", other),
    };
    let mut remote = meta(10, 30, "maintenance");
    remote.should_continue = false;
    match then.resume(Ok(remote)).call {
        Call::Finished(Err(AnkiError::SyncError { info, kind })) => {
            assert_eq!(info, "maintenance");
            assert_eq!(kind, SyncErrorKind::ServerMessage);
        }
        other => panic!("{:?}", other),
    }
}

#[test]
fn wrong_clock_ends_the_sync() {
    let auth = SyncAuth { hkey: "key".to_string(), host_number: 5 };
    let then = match (Collection { server: false }).normal_sync(auth).call {
        Call::Meta { then } => then,
        other => panic!("{:?}", other),
    };
    let then = match then.resume(Ok(meta(10, 30, ""))).call {
        Call::LocalMeta { then } => then,
        other => panic!("{:?}", other),
    };
    let mut local = meta(20, 12, "");
    local.current_time = TimestampSecs(1301);
    match then.resume(Ok(local)).call {
        Call::Finished(Err(AnkiError::SyncError { kind, .. })) => {
            assert_eq!(kind, SyncErrorKind::ClockIncorrect)
        }
        other => panic!("{:?}", other),
    }
}

fn session(progress: NormalSyncProgress, new_usn: Option<Usn>) -> Session {
    Session {
        syncer: NormalSyncer {
            col: Collection { server: false },
            remote: SyncEndpoint::new(Some("key".to_string()), 0),
            progress,
        },
        state: SyncState {
            required: SyncActionRequired::NormalSyncRequired,
            local_is_newer: false,
            usn_at_last_sync: Usn(1),
            latest_usn: Usn(2),
            pending_usn: Usn(-1),
            new_usn,
            server_message: String::new(),
            host_number: 0,
        },
    }
}

#[test]
fn removals_that_get_no_new_number_are_sent_at_once() {
    let then = PendingGravesRead {
        session: session(NormalSyncProgress::default(), None),
        remote: Graves::default(),
    };
    let mut local = Graves::default();
    local.decks.push(DeckID(1));
    let turn = then.resume(Ok(local));
    assert_eq!(turn.reports.len(), 0);
    match turn.call {
        Call::SendGraves { chunk, then } => {
            assert_eq!(chunk.decks, vec![DeckID(1)]);
            assert_eq!(then.session.syncer.progress.local_remove, 1);
        }
        other => panic!("{:?}", other),
    }
}

#[test]
fn counts_that_would_overflow_are_found_out() {
    let mut progress = NormalSyncProgress::default();
    progress.local_remove = usize::MAX;
    let then = PendingGravesRead {
        session: session(progress, None),
        remote: Graves::default(),
    };
    let mut local = Graves::default();
    assert!(then.can_count(&local));
    local.notes.push(NoteID(1));
    assert!(!then.can_count(&local));
}

#[test]
fn sync_stage_changes_when_the_transaction_is_open() {
    let turn = TrxBegun { session: session(NormalSyncProgress::default(), None) }.resume(Ok(()));
    assert_eq!(turn.reports.len(), 1);
    assert_eq!(turn.reports[0].progress.stage, SyncStage::Syncing);
    assert!(!turn.reports[0].throttle);
}

#[test]
fn synced_collection_counts_as_changed_when_the_server_was() {
    let s = session(NormalSyncProgress::default(), None);
    let ops = s.syncer.col.finalize_sync(&s.state, TimestampMillis(4));
    assert_eq!(
        ops,
        vec![
            FinalizeOp::SetLastSync(TimestampMillis(4)),
            FinalizeOp::SetUsn(Usn(3)),
            FinalizeOp::SetModifiedTime(TimestampMillis(4)),
        ]
    );
}
