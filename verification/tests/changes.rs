use anki_sync::changes::{GatherCall, UnchunkedChanges};
use anki_sync::chunk::Table;
use anki_sync::collection::Collection;
use anki_sync::error::AnkiError;
use anki_sync::ids::{DeckConfID, DeckID, NoteTypeID, TimestampSecs, Usn};
use anki_sync::objects::{DeckConfSchema11, DeckSchema11, NoteTypeSchema11};
use serde_json::Value;
use std::collections::HashMap;

fn notetype(id: i64) -> NoteTypeSchema11 {
    NoteTypeSchema11 {
        id: NoteTypeID(id),
        mtime: TimestampSecs(10),
        usn: Usn(-1),
        fields: vec![Value::Null],
        templates: vec![],
        other: HashMap::new(),
    }
}

fn deck(id: i64) -> DeckSchema11 {
    DeckSchema11 {
        id: DeckID(id),
        mtime: TimestampSecs(10),
        usn: Usn(-1),
        other: HashMap::new(),
    }
}

fn conf(id: i64) -> DeckConfSchema11 {
    DeckConfSchema11 {
        id: DeckConfID(id),
        mtime: TimestampSecs(10),
        usn: Usn(-1),
        other: HashMap::new(),
    }
}

/// Gathers from a storage that holds two note types, one deck, one option group and a tag.
/// Answers with what was gathered and with what was asked of the storage.
fn gather(new_usn: Option<Usn>, local_is_newer: bool) -> (UnchunkedChanges, Vec<String>) {
    let col = Collection { server: false };
    let mut asked: Vec<String> = vec![];
    let mut call = col.local_unchunked_changes(Usn(-1), new_usn, local_is_newer);
    loop {
        call = match call {
            GatherCall::PendingNotetypes { usn, then } => {
                asked.push(format!("notetypes {}", usn.0));
                then.resume(Ok(vec![NoteTypeID(1), NoteTypeID(2)]))
            }
            GatherCall::ReadNotetypes { update, then } => {
                assert_eq!(update.table, Table::Notetypes);
                asked.push(format!("update {:?} {:?}", update.ids, update.new_usn));
                then.resume(&col, Ok(update.ids.into_iter().map(|id| Some(notetype(id))).collect()))
            }
            GatherCall::PendingDecks { usn, then } => {
                asked.push(format!("decks {}", usn.0));
                then.resume(Ok(vec![DeckID(3)]))
            }
            GatherCall::ReadDecks { update, then } => {
                assert_eq!(update.table, Table::Decks);
                asked.push(format!("update {:?} {:?}", update.ids, update.new_usn));
                then.resume(&col, Ok(update.ids.into_iter().map(|id| Some(deck(id))).collect()))
            }
            GatherCall::PendingDeckConfig { usn, then } => {
                asked.push(format!("config {}", usn.0));
                then.resume(Ok(vec![DeckConfID(4)]))
            }
            GatherCall::ReadDeckConfig { update, then } => {
                assert_eq!(update.table, Table::DeckConfig);
                asked.push(format!("update {:?} {:?}", update.ids, update.new_usn));
                then.resume(&col, Ok(update.ids.into_iter().map(|id| Some(conf(id))).collect()))
            }
            GatherCall::PendingTags { usn, then } => {
                asked.push(format!("tags {}", usn.0));
                then.resume(Ok(vec!["tag".to_string()]))
            }
            GatherCall::UpdateTagUsns { usn, then } => {
                asked.push(format!("update {:?} {}", then.tags, usn.0));
                then.resume(Ok(()))
            }
            GatherCall::AllConfig { then } => {
                asked.push("settings".to_string());
                let mut config: HashMap<String, Value> = HashMap::new();
                config.insert("key".to_string(), Value::Bool(true));
                then.resume(Ok(config))
            }
            GatherCall::ClearConfigUsns { then } => {
                asked.push("clear".to_string());
                then.resume(Ok(()))
            }
            GatherCall::CreationStamp { then } => {
                asked.push("stamp".to_string());
                then.resume(Ok(TimestampSecs(77)))
            }
            GatherCall::Finished(changes) => return (changes, asked),
            GatherCall::Failed(e) => panic!("{:?}", e),
        };
    }
}

#[test]
fn newer_side_gathers_settings_as_well() {
    let (changes, asked) = gather(Some(Usn(5)), true);
    assert_eq!(
        asked,
        vec![
            "notetypes -1",
            "update [1, 2] Some(Usn(5))",
            "decks -1",
            "update [3] Some(Usn(5))",
            "config -1",
            "update [4] Some(Usn(5))",
            "tags -1",
            "update [\"tag\"] 5",
            "settings",
            "clear",
            "stamp",
        ]
    );
    assert_eq!(changes.count(), 5);
    assert_eq!(changes.tags, vec!["tag".to_string()]);
    assert_eq!(changes.config.unwrap()["key"], Value::Bool(true));
    assert_eq!(changes.creation_stamp, Some(TimestampSecs(77)));
}

#[test]
fn older_side_gathers_no_settings() {
    let (changes, asked) = gather(Some(Usn(5)), false);
    assert_eq!(asked.len(), 8);
    assert!(changes.config.is_none());
    assert!(changes.creation_stamp.is_none());
}

#[test]
fn gathered_changes_are_stamped() {
    let (changes, _) = gather(Some(Usn(5)), false);
    assert_eq!(changes.notetypes[0].id, NoteTypeID(1));
    assert_eq!(changes.notetypes[1].id, NoteTypeID(2));
    assert_eq!(changes.notetypes[0].usn, Usn(5));
    assert_eq!(changes.notetypes[1].usn, Usn(5));
    assert_eq!(changes.notetypes[1].mtime, TimestampSecs(10));
    assert_eq!(changes.decks_and_config.decks[0].id, DeckID(3));
    assert_eq!(changes.decks_and_config.decks[0].usn, Usn(5));
    assert_eq!(changes.decks_and_config.config[0].id, DeckConfID(4));
    assert_eq!(changes.decks_and_config.config[0].usn, Usn(5));
}

#[test]
fn without_a_new_number_tags_are_left_alone() {
    let (changes, asked) = gather(None, false);
    assert_eq!(asked[6], "tags -1");
    assert_eq!(asked.len(), 7);
    assert_eq!(changes.notetypes[0].usn, Usn(-1));
    assert_eq!(changes.decks_and_config.decks[0].usn, Usn(-1));
    assert_eq!(changes.decks_and_config.config[0].usn, Usn(-1));
}

#[test]
fn default_changes_are_empty() {
    let changes = UnchunkedChanges::default();
    assert_eq!(changes.count(), 0);
    assert!(changes.config.is_none());
    assert!(changes.creation_stamp.is_none());
}

#[test]
fn storage_error_ends_the_gathering() {
    let locked = || AnkiError::DBError { info: "locked".to_string() };
    let failed = |call: GatherCall| match call {
        GatherCall::Failed(AnkiError::DBError { info }) => info == "locked",
        _ => false,
    };
    let col = Collection { server: false };
    let first = || match col.local_unchunked_changes(Usn(-1), Some(Usn(5)), true) {
        GatherCall::PendingNotetypes { then, .. } => then,
        other => panic!("{:?}", other),
    };
    assert!(failed(first().resume(Err(locked()))));
    match first().resume(Ok(vec![])) {
        GatherCall::ReadNotetypes { then, .. } => {
            assert!(failed(then.resume(&col, Err(locked()))))
        }
        other => panic!("{:?}", other),
    }
}

/// What is in a table: ids and numbers.
struct DeckTable(Vec<(i64, Usn)>);

impl DeckTable {
    fn waiting(&self) -> Vec<DeckID> {
        self.0.iter().filter(|(_, usn)| *usn == Usn(-1)).map(|(id, _)| DeckID(*id)).collect()
    }

    fn update(&mut self, ids: &[i64], new_usn: Option<Usn>) {
        for (id, usn) in self.0.iter_mut() {
            if let (true, Some(new_usn)) = (ids.contains(id), new_usn) {
                *usn = new_usn;
            }
        }
    }
}

#[test]
fn deck_that_is_handed_out_waits_no_more() {
    let col = Collection { server: false };
    let mut table = DeckTable(vec![(1, Usn(-1)), (2, Usn(3)), (3, Usn(-1))]);
    let asked = || {
        let first = match col.local_unchunked_changes(Usn(-1), Some(Usn(5)), false) {
            GatherCall::PendingNotetypes { then, .. } => then,
            other => panic!("{:?}", other),
        };
        let second = match first.resume(Ok(vec![])) {
            GatherCall::ReadNotetypes { then, .. } => then,
            other => panic!("{:?}", other),
        };
        match second.resume(&col, Ok(vec![])) {
            GatherCall::PendingDecks { then, .. } => then,
            other => panic!("{:?}", other),
        }
    };
    match asked().resume(Ok(table.waiting())) {
        GatherCall::ReadDecks { update, then } => {
            table.update(&update.ids, update.new_usn);
            let found = update.ids.iter().map(|id| Some(deck(*id))).collect();
            match then.resume(&col, Ok(found)) {
                GatherCall::PendingDeckConfig { then, .. } => {
                    assert_eq!(then.decks.len(), 2);
                    assert!(then.decks.iter().all(|d| d.usn == Usn(5)));
                }
                other => panic!("{:?}", other),
            }
        }
        other => panic!("{:?}", other),
    }
    assert_eq!(table.0, vec![(1, Usn(5)), (2, Usn(3)), (3, Usn(5))]);
    match asked().resume(Ok(table.waiting())) {
        GatherCall::ReadDecks { update, .. } => assert_eq!(update.ids.len(), 0),
        other => panic!("{:?}", other),
    }
}
