use anki_sync::chunk::{Chunk, ChunkableIDs, Table};
use anki_sync::collection::Collection;
use anki_sync::ids::{
    CardID, DeckID, NoteID, NoteTypeID, RevlogID, TimestampMillis, TimestampSecs, Usn,
};
use anki_sync::objects::{Card, CardQueue, CardType, Note, ReviewLogEntry};

fn ids(revlog: i64, cards: i64, notes: i64) -> ChunkableIDs {
    ChunkableIDs {
        revlog: (0..revlog).map(RevlogID).collect(),
        cards: (0..cards).map(CardID).collect(),
        notes: (0..notes).map(NoteID).collect(),
    }
}

fn sizes(ids: &ChunkableIDs) -> (usize, usize, usize) {
    (ids.revlog.len(), ids.cards.len(), ids.notes.len())
}

fn review(id: i64) -> ReviewLogEntry {
    ReviewLogEntry {
        id: TimestampMillis(id),
        cid: CardID(1),
        usn: Usn(-1),
        ease: 3,
        interval: 4,
        last_interval: -5,
        factor: 6,
        time: 7,
        kind: 2,
    }
}

fn card(id: i64) -> Card {
    Card {
        id: CardID(id),
        nid: NoteID(2),
        did: DeckID(3),
        ord: 0,
        mtime: TimestampSecs(5),
        usn: Usn(-1),
        ctype: CardType(0),
        queue: CardQueue(0),
        due: 0,
        ivl: 0,
        factor: 0,
        reps: 0,
        lapses: 0,
        left: 0,
        odue: 0,
        odid: DeckID(0),
        flags: 0,
        data: String::new(),
    }
}

fn note(id: i64) -> Note {
    Note {
        id: NoteID(id),
        guid: "guid".to_string(),
        ntid: NoteTypeID(1),
        mtime: TimestampSecs(5),
        usn: Usn(-1),
        tags: vec!["t".to_string()],
        fields: vec!["a".to_string(), "b".to_string()],
        sort_field: None,
        checksum: None,
    }
}

#[test]
fn nothing_to_send_is_one_empty_last_chunk() {
    let mut all = ids(0, 0, 0);
    let (picked, done) = all.take_chunk();
    assert_eq!(sizes(&picked), (0, 0, 0));
    assert!(done);
}

#[test]
fn few_objects_fit_in_the_last_chunk() {
    let mut all = ids(1, 3, 2);
    let (picked, done) = all.take_chunk();
    assert_eq!(picked.revlog, vec![RevlogID(0)]);
    assert_eq!(picked.cards, vec![CardID(2), CardID(1), CardID(0)]);
    assert_eq!(picked.notes, vec![NoteID(1), NoteID(0)]);
    assert!(done);
    assert_eq!(sizes(&all), (0, 0, 0));
}

#[test]
fn exactly_full_chunk_is_followed_by_an_empty_one() {
    let mut all = ids(250, 0, 0);
    let (picked, done) = all.take_chunk();
    assert_eq!(sizes(&picked), (250, 0, 0));
    assert!(!done);
    let (picked, done) = all.take_chunk();
    assert_eq!(sizes(&picked), (0, 0, 0));
    assert!(done);
}

#[test]
fn chunk_may_be_two_over_the_limit() {
    let mut all = ids(100, 100, 100);
    let (picked, done) = all.take_chunk();
    assert_eq!(sizes(&picked), (84, 84, 84));
    assert!(!done);
    assert_eq!(picked.cards[0], CardID(99));
    assert_eq!(sizes(&all), (16, 16, 16));
    let (picked, done) = all.take_chunk();
    assert_eq!(sizes(&picked), (16, 16, 16));
    assert!(done);
}

#[test]
fn shorter_list_runs_out_first() {
    let mut all = ids(10, 300, 0);
    let (picked, done) = all.take_chunk();
    assert_eq!(sizes(&picked), (10, 240, 0));
    assert!(!done);
    let (picked, done) = all.take_chunk();
    assert_eq!(sizes(&picked), (0, 60, 0));
    assert!(done);
}

#[test]
fn chunks_carry_everything_once() {
    let mut all = ids(400, 30, 700);
    let mut seen = ids(0, 0, 0);
    let mut totals: Vec<usize> = vec![];
    loop {
        let (picked, done) = all.take_chunk();
        totals.push(picked.revlog.len() + picked.cards.len() + picked.notes.len());
        seen.revlog.extend(picked.revlog);
        seen.cards.extend(picked.cards);
        seen.notes.extend(picked.notes);
        if done {
            break;
        }
    }
    let mut expected = ids(400, 30, 700);
    expected.revlog.reverse();
    expected.cards.reverse();
    expected.notes.reverse();
    assert_eq!(seen.revlog, expected.revlog);
    assert_eq!(seen.cards, expected.cards);
    assert_eq!(seen.notes, expected.notes);
    assert_eq!(totals, vec![250, 250, 250, 250, 130]);
}

#[test]
fn client_ends_the_wait_of_what_it_sends() {
    let col = Collection { server: false };
    let mut all = ids(2, 1, 0);
    let read = col.get_chunk(&mut all, Some(Usn(9)));
    assert_eq!(read.updates.len(), 3);
    assert_eq!(read.updates[0].table, Table::Revlog);
    assert_eq!(read.updates[0].ids, vec![1, 0]);
    assert_eq!(read.updates[0].new_usn, Some(Usn(9)));
    assert_eq!(read.updates[1].table, Table::Cards);
    assert_eq!(read.updates[1].ids, vec![0]);
    assert_eq!(read.updates[2].table, Table::Notes);
    assert_eq!(read.updates[2].ids.len(), 0);
    assert!(read.done);
    assert_eq!(read.new_usn, Some(Usn(9)));
}

#[test]
fn server_leaves_the_numbers_alone() {
    let col = Collection { server: true };
    let mut all = ids(2, 1, 0);
    let read = col.get_chunk(&mut all, None);
    assert_eq!(read.updates.len(), 0);
    assert_eq!(sizes(&read.ids), (2, 1, 0));
}

#[test]
fn sent_chunk_carries_the_new_number() {
    let col = Collection { server: false };
    let mut all = ids(1, 1, 1);
    let read = col.get_chunk(&mut all, Some(Usn(9)));
    let chunk = read.into_chunk(
        vec![Some(review(11))],
        vec![Some(card(12)), Some(card(14))],
        vec![Some(note(13))],
    );
    assert!(chunk.done);
    assert_eq!(chunk.count(), 4);
    assert_eq!(chunk.revlog[0].id, TimestampMillis(11));
    assert_eq!(chunk.revlog[0].usn, Usn(9));
    assert_eq!(chunk.revlog[0].last_interval, -5);
    assert_eq!(chunk.cards[1].id, CardID(14));
    assert_eq!(chunk.cards[1].usn, Usn(9));
    assert_eq!(chunk.notes[0].id, NoteID(13));
    assert_eq!(chunk.notes[0].usn, Usn(9));
    assert_eq!(chunk.notes[0].tags, " t ");
    assert_eq!(chunk.notes[0].fields, "a\x1fb");
}

#[test]
fn without_a_new_number_objects_keep_their_own() {
    let col = Collection { server: true };
    let mut all = ids(250, 1, 1);
    let read = col.get_chunk(&mut all, None);
    let chunk = read.into_chunk(vec![Some(review(11))], vec![Some(card(12))], vec![Some(note(13))]);
    assert!(!chunk.done);
    assert_eq!(chunk.revlog[0].usn, Usn(-1));
    assert_eq!(chunk.cards[0].usn, Usn(-1));
    assert_eq!(chunk.notes[0].usn, Usn(-1));
}

#[test]
fn default_chunk_is_empty() {
    let chunk = Chunk::default();
    assert!(!chunk.done);
    assert_eq!(chunk.count(), 0);
}

#[test]
fn tables_have_their_names_in_the_database() {
    assert_eq!(Table::Notetypes.name(), "notetypes");
    assert_eq!(Table::Decks.name(), "decks");
    assert_eq!(Table::DeckConfig.name(), "deck_config");
    assert_eq!(Table::Revlog.name(), "revlog");
    assert_eq!(Table::Cards.name(), "cards");
    assert_eq!(Table::Notes.name(), "notes");
}
