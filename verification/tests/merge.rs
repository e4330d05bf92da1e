use anki_sync::changes::{DecksAndConfig, UnchunkedChanges};
use anki_sync::chunk::Chunk;
use anki_sync::collection::Collection;
use anki_sync::error::{AnkiError, SyncErrorKind};
use anki_sync::ids::{
    CardID, DeckConfID, DeckID, NoteID, NoteTypeID, TimestampMillis, TimestampSecs, Usn,
};
use anki_sync::merge::{MergeCall, Merging};
use anki_sync::objects::{
    Card, CardEntry, CardQueue, CardType, DeckConfSchema11, DeckSchema11, Note, NoteEntry,
    NoteTypeSchema11, ReviewLogEntry,
};
use serde_json::Value;
use std::collections::{BTreeMap, HashMap};

const COL: Collection = Collection { server: false };

fn notetype(id: i64, mtime: i64, fields: usize, templates: usize) -> NoteTypeSchema11 {
    NoteTypeSchema11 {
        id: NoteTypeID(id),
        mtime: TimestampSecs(mtime),
        usn: Usn(1),
        fields: vec![Value::Null; fields],
        templates: vec![Value::Null; templates],
        other: HashMap::new(),
    }
}

fn deck(id: i64, mtime: i64) -> DeckSchema11 {
    DeckSchema11 {
        id: DeckID(id),
        mtime: TimestampSecs(mtime),
        usn: Usn(1),
        other: HashMap::new(),
    }
}

fn conf(id: i64, mtime: i64) -> DeckConfSchema11 {
    DeckConfSchema11 {
        id: DeckConfID(id),
        mtime: TimestampSecs(mtime),
        usn: Usn(1),
        other: HashMap::new(),
    }
}

fn card(id: i64, mtime: i64, due: i32) -> CardEntry {
    CardEntry {
        id: CardID(id),
        nid: NoteID(2),
        did: DeckID(3),
        ord: 0,
        mtime: TimestampSecs(mtime),
        usn: Usn(1),
        ctype: CardType(0),
        queue: CardQueue(0),
        due,
        ivl: 0,
        factor: 0,
        reps: 0,
        lapses: 0,
        left: 0,
        odue: 0,
        odid: DeckID(0),
        flags: 0,
        data: String::new(),
    }
}

fn note(id: i64, ntid: i64, mtime: i64, fields: &str) -> NoteEntry {
    NoteEntry {
        id: NoteID(id),
        guid: "guid".to_string(),
        ntid: NoteTypeID(ntid),
        mtime: TimestampSecs(mtime),
        usn: Usn(1),
        tags: " a b ".to_string(),
        fields: fields.to_string(),
        sfld: String::new(),
        csum: String::new(),
        flags: 0,
        data: String::new(),
    }
}

fn review(id: i64) -> ReviewLogEntry {
    ReviewLogEntry {
        id: TimestampMillis(id),
        cid: CardID(1),
        usn: Usn(1),
        ease: 3,
        interval: 4,
        last_interval: 5,
        factor: 6,
        time: 7,
        kind: 2,
    }
}

/// A storage that keeps of each object what the tests ask for.
#[derive(Default)]
struct Store {
    /// Modification time, fields and templates.
    notetypes: BTreeMap<i64, (i64, usize, usize)>,
    decks: BTreeMap<i64, i64>,
    config: BTreeMap<i64, i64>,
    /// Modification time and due number.
    cards: BTreeMap<i64, (i64, i32)>,
    /// Modification time and fields.
    notes: BTreeMap<i64, (i64, Vec<String>)>,
    log: Vec<String>,
}

impl Store {
    fn stored_note(&self, id: i64) -> Option<Note> {
        let (mtime, fields) = self.notes.get(&id)?;
        let mut note = Note::from(note(id, 1, *mtime, ""));
        note.fields = fields.to_vec();
        Some(note)
    }

    fn stored_notetype(&self, id: i64) -> Option<NoteTypeSchema11> {
        let (mtime, fields, templates) = self.notetypes.get(&id)?;
        Some(notetype(id, *mtime, *fields, *templates))
    }

    fn merge(&mut self, merging: Merging) -> Result<(), AnkiError> {
        let mut call = merging.go_on();
        loop {
            call = match call {
                MergeCall::FindNotetype { id, then } => then.resume(Ok(self.stored_notetype(id.0))),
                MergeCall::SaveNotetype { notetype: nt, then } => {
                    self.log.push(format!("notetype {}", nt.id.0));
                    self.notetypes
                        .insert(nt.id.0, (nt.mtime.0, nt.fields.len(), nt.templates.len()));
                    then.resume(Ok(()))
                }
                MergeCall::ForgetNotetype { id, then } => {
                    self.log.push(format!("forget notetype {}", id.0));
                    then.go_on()
                }
                MergeCall::FindDeck { id, then } => {
                    then.resume(Ok(self.decks.get(&id.0).map(|mtime| deck(id.0, *mtime))))
                }
                MergeCall::SaveDeck { deck, then } => {
                    self.log.push(format!("deck {}", deck.id.0));
                    self.decks.insert(deck.id.0, deck.mtime.0);
                    then.resume(Ok(()))
                }
                MergeCall::ForgetDeck { id, then } => {
                    self.log.push(format!("forget deck {}", id.0));
                    then.go_on()
                }
                MergeCall::FindDeckConfig { id, then } => {
                    then.resume(Ok(self.config.get(&id.0).map(|mtime| conf(id.0, *mtime))))
                }
                MergeCall::SaveDeckConfig { conf, then } => {
                    self.log.push(format!("config {}", conf.id.0));
                    self.config.insert(conf.id.0, conf.mtime.0);
                    then.resume(Ok(()))
                }
                MergeCall::RegisterTag { tag, usn, then } => {
                    self.log.push(format!("tag {} {}", tag, usn.0));
                    then.resume(Ok(()))
                }
                MergeCall::SetCreationStamp { stamp, then } => {
                    self.log.push(format!("stamp {}", stamp.0));
                    then.resume(Ok(()))
                }
                MergeCall::SetAllConfig { config, usn, then } => {
                    self.log.push(format!("settings {} {}", config.len(), usn.0));
                    then.resume(Ok(()))
                }
                MergeCall::AddRevlogEntry { entry, then } => {
                    self.log.push(format!("review {}", entry.id.0));
                    then.resume(Ok(()))
                }
                MergeCall::FindCard { id, then } => then.resume(Ok(
                    self.cards.get(&id.0).map(|(mtime, due)| Card::from(card(id.0, *mtime, *due)))
                )),
                MergeCall::SaveCard { card, then } => {
                    self.log.push(format!("card {}", card.id.0));
                    self.cards.insert(card.id.0, (card.mtime.0, card.due));
                    then.resume(Ok(()))
                }
                MergeCall::FindNote { id, then } => then.resume(Ok(self.stored_note(id.0))),
                MergeCall::FindNotetypeOfNote { id, then } => {
                    then.resume(Ok(self.stored_notetype(id.0)))
                }
                MergeCall::PrepareNote { note, notetype, normalize, then } => {
                    self.log.push(format!("prepare {} {} {}", note.id.0, notetype.id.0, normalize));
                    then.resume(Ok(note))
                }
                MergeCall::SaveNote { note, then } => {
                    self.log.push(format!("note {}", note.id.0));
                    self.notes.insert(note.id.0, (note.mtime.0, note.fields));
                    then.resume(Ok(()))
                }
                MergeCall::Finished => return Ok(()),
                MergeCall::Failed(e) => return Err(e),
            };
        }
    }
}

fn changes() -> UnchunkedChanges {
    let mut config: HashMap<String, Value> = HashMap::new();
    config.insert("k".to_string(), Value::Bool(false));
    UnchunkedChanges {
        notetypes: vec![notetype(1, 10, 2, 1)],
        decks_and_config: DecksAndConfig { decks: vec![deck(2, 10)], config: vec![conf(3, 10)] },
        tags: vec!["x".to_string(), "y".to_string()],
        config: Some(config),
        creation_stamp: Some(TimestampSecs(99)),
    }
}

fn chunk() -> Chunk {
    Chunk {
        done: true,
        revlog: vec![review(8)],
        cards: vec![card(4, 10, 1)],
        notes: vec![note(5, 1, 10, "f\x1fb")],
    }
}

#[test]
fn changes_are_merged_in_order() {
    let mut store = Store::default();
    store.merge(COL.apply_changes(changes(), Usn(6))).unwrap();
    assert_eq!(
        store.log,
        vec![
            "notetype 1",
            "forget notetype 1",
            "deck 2",
            "forget deck 2",
            "config 3",
            "tag x 6",
            "tag y 6",
            "stamp 99",
            "settings 1 6",
        ]
    );
}

#[test]
fn chunk_is_merged_in_order() {
    let mut store = Store::default();
    store.notetypes.insert(1, (10, 2, 1));
    store.merge(COL.apply_chunk(chunk())).unwrap();
    assert_eq!(store.log, vec!["review 8", "card 4", "prepare 5 1 false", "note 5"]);
    assert_eq!(store.notes[&5].1, vec!["f".to_string(), "b".to_string()]);
}

#[test]
fn settings_that_did_not_come_are_not_touched() {
    let mut store = Store::default();
    let mut remote = changes();
    remote.config = None;
    remote.creation_stamp = None;
    store.merge(COL.apply_changes(remote, Usn(6))).unwrap();
    assert_eq!(store.log.len(), 7);
}

#[test]
fn objects_that_are_as_new_stay() {
    for mtime in vec![10, 11] {
        let mut store = Store::default();
        store.notetypes.insert(1, (mtime, 2, 1));
        store.decks.insert(2, mtime);
        store.config.insert(3, mtime);
        store.cards.insert(4, (mtime, 77));
        store.notes.insert(5, (mtime, vec!["own".to_string()]));
        let mut remote = changes();
        remote.tags = vec![];
        remote.config = None;
        remote.creation_stamp = None;
        store.merge(COL.apply_changes(remote, Usn(6))).unwrap();
        let mut incoming = chunk();
        incoming.revlog = vec![];
        store.merge(COL.apply_chunk(incoming)).unwrap();
        assert_eq!(store.log.len(), 0);
        assert_eq!(store.cards[&4], (mtime, 77));
        assert_eq!(store.notes[&5].1, vec!["own".to_string()]);
    }
}

#[test]
fn older_objects_are_replaced() {
    let mut store = Store::default();
    store.notetypes.insert(1, (9, 2, 1));
    store.decks.insert(2, 9);
    store.config.insert(3, 9);
    store.cards.insert(4, (9, 77));
    store.notes.insert(5, (9, vec!["own".to_string()]));
    store.merge(COL.apply_changes(changes(), Usn(6))).unwrap();
    store.merge(COL.apply_chunk(chunk())).unwrap();
    assert_eq!(store.notetypes[&1].0, 10);
    assert_eq!(store.decks[&2], 10);
    assert_eq!(store.config[&3], 10);
    assert_eq!(store.cards[&4], (10, 1));
    assert_eq!(store.notes[&5].0, 10);
}

#[test]
fn changed_notetype_schema_takes_a_full_sync() {
    for (fields, templates) in vec![(3, 1), (2, 2), (1, 0)] {
        let mut store = Store::default();
        store.notetypes.insert(1, (9, fields, templates));
        match store.merge(COL.apply_changes(changes(), Usn(6))) {
            Err(AnkiError::SyncError { info, kind }) => {
                assert_eq!(info, "notetype schema changed");
                assert_eq!(kind, SyncErrorKind::ResyncRequired);
            }
            other => panic!("{:?}", other),
        }
        assert_eq!(store.log.len(), 0);
    }
}

#[test]
fn changed_schema_of_an_older_notetype_does_not_matter() {
    let mut store = Store::default();
    store.notetypes.insert(1, (10, 5, 5));
    assert!(store.merge(COL.apply_changes(changes(), Usn(6))).is_ok());
    assert_eq!(store.notetypes[&1], (10, 5, 5));
}

#[test]
fn note_without_its_notetype_is_an_error() {
    let mut store = Store::default();
    match store.merge(COL.apply_chunk(chunk())) {
        Err(AnkiError::InvalidInput { info }) => assert_eq!(info, "note missing notetype"),
        other => panic!("{:?}", other),
    }
}

#[test]
fn stale_note_is_skipped_without_its_notetype() {
    let mut store = Store::default();
    store.notes.insert(5, (10, vec![]));
    assert!(store.merge(COL.apply_chunk(chunk())).is_ok());
}

#[test]
fn merging_again_changes_nothing() {
    let mut store = Store::default();
    store.merge(COL.apply_changes(changes(), Usn(6))).unwrap();
    store.merge(COL.apply_chunk(chunk())).unwrap();
    let before = format!("{:?} {:?} {:?}", store.notetypes, store.cards, store.notes);
    store.log.clear();
    store.merge(COL.apply_changes(changes(), Usn(6))).unwrap();
    store.merge(COL.apply_chunk(chunk())).unwrap();
    assert_eq!(
        before,
        format!("{:?} {:?} {:?}", store.notetypes, store.cards, store.notes)
    );
    assert_eq!(store.log, vec!["tag x 6", "tag y 6", "stamp 99", "settings 1 6", "review 8"]);
}

#[test]
fn merge_order_does_not_matter() {
    let newest = |mtimes: Vec<i64>| {
        let mut store = Store::default();
        for mtime in mtimes {
            let incoming = Chunk {
                done: true,
                revlog: vec![],
                cards: vec![card(4, mtime, mtime as i32 * 10)],
                notes: vec![],
            };
            store.merge(COL.apply_chunk(incoming)).unwrap();
        }
        store.cards[&4]
    };
    assert_eq!(newest(vec![1, 2, 3]), (3, 30));
    assert_eq!(newest(vec![3, 1, 2]), (3, 30));
    assert_eq!(newest(vec![2, 3, 1]), (3, 30));
}

#[test]
fn card_is_taken_over_only_if_newer() {
    let existing = Card::from(card(4, 10, 1));
    assert!(Collection::add_or_update_card_if_newer(Some(existing), card(4, 10, 2)).is_none());
    let existing = Card::from(card(4, 10, 1));
    let taken = Collection::add_or_update_card_if_newer(Some(existing), card(4, 11, 2)).unwrap();
    assert_eq!(taken.due, 2);
    assert!(Collection::add_or_update_card_if_newer(None, card(4, 0, 2)).is_some());
}

#[test]
fn note_is_taken_over_only_if_newer() {
    let existing = Note::from(note(5, 1, 10, "old"));
    assert!(
        Collection::add_or_update_note_if_newer(Some(existing), note(5, 1, 9, "new")).is_none()
    );
    let taken = Collection::add_or_update_note_if_newer(None, note(5, 1, 0, "new")).unwrap();
    assert_eq!(taken.fields, vec!["new".to_string()]);
    assert_eq!(taken.tags, vec!["a".to_string(), "b".to_string()]);
}

#[test]
fn nothing_to_merge_is_finished() {
    assert!(matches!(Merging::new().go_on(), MergeCall::Finished));
}

fn locked() -> AnkiError {
    AnkiError::DBError { info: "locked".to_string() }
}

fn failed(call: MergeCall) -> bool {
    match call {
        MergeCall::Failed(AnkiError::DBError { info }) => info == "locked",
        _ => false,
    }
}

#[test]
fn storage_error_ends_the_merge() {
    let mut remote = changes();
    match COL.apply_changes(remote, Usn(6)).go_on() {
        MergeCall::FindNotetype { then, .. } => assert!(failed(then.resume(Err(locked())))),
        other => panic!("{:?}", other),
    }
    match COL.apply_changes(changes(), Usn(6)).go_on() {
        MergeCall::FindNotetype { then, .. } => match then.resume(Ok(None)) {
            MergeCall::SaveNotetype { then, .. } => assert!(failed(then.resume(Err(locked())))),
            other => panic!("{:?}", other),
        },
        other => panic!("{:?}", other),
    }
    remote = UnchunkedChanges::default();
    remote.tags.push("x".to_string());
    match COL.apply_changes(remote, Usn(6)).go_on() {
        MergeCall::RegisterTag { then, .. } => assert!(failed(then.resume(Err(locked())))),
        other => panic!("{:?}", other),
    }
}

#[test]
fn storage_error_ends_the_merge_of_a_note() {
    let find = || {
        let mut incoming = chunk();
        incoming.revlog = vec![];
        incoming.cards = vec![];
        match COL.apply_chunk(incoming).go_on() {
            MergeCall::FindNote { then, .. } => then,
            other => panic!("{:?}", other),
        }
    };
    assert!(failed(find().resume(Err(locked()))));
    let find_type = || match find().resume(Ok(None)) {
        MergeCall::FindNotetypeOfNote { then, .. } => then,
        other => panic!("{:?}", other),
    };
    assert!(failed(find_type().resume(Err(locked()))));
    match find_type().resume(Ok(Some(notetype(1, 10, 2, 1)))) {
        MergeCall::PrepareNote { then, .. } => assert!(failed(then.resume(Err(locked())))),
        other => panic!("{:?}", other),
    }
}
