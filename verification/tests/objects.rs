use anki_sync::ids::{CardID, DeckID, NoteID, NoteTypeID, TimestampSecs, Usn};
use anki_sync::objects::{Card, CardEntry, CardQueue, CardType, Note, NoteEntry};

fn card() -> Card {
    Card {
        id: CardID(1),
        nid: NoteID(2),
        did: DeckID(3),
        ord: 4,
        mtime: TimestampSecs(5),
        usn: Usn(6),
        ctype: CardType(2),
        queue: CardQueue(-1),
        due: -9,
        ivl: 10,
        factor: 2500,
        reps: 12,
        lapses: 13,
        left: 14,
        odue: 15,
        odid: DeckID(16),
        flags: 17,
        data: "d".to_string(),
    }
}

fn note(tags: Vec<&str>, fields: Vec<&str>) -> Note {
    Note {
        id: NoteID(1),
        guid: "g".to_string(),
        ntid: NoteTypeID(2),
        mtime: TimestampSecs(3),
        usn: Usn(4),
        tags: tags.into_iter().map(|s| s.to_string()).collect(),
        fields: fields.into_iter().map(|s| s.to_string()).collect(),
        sort_field: Some("s".to_string()),
        checksum: Some(5),
    }
}

#[test]
fn card_entry_has_every_part_of_the_card() {
    let e = CardEntry::from(card());
    assert_eq!(e.id, CardID(1));
    assert_eq!(e.nid, NoteID(2));
    assert_eq!(e.did, DeckID(3));
    assert_eq!(e.ord, 4);
    assert_eq!(e.mtime, TimestampSecs(5));
    assert_eq!(e.usn, Usn(6));
    assert_eq!(e.ctype, CardType(2));
    assert_eq!(e.queue, CardQueue(-1));
    assert_eq!(e.due, -9);
    assert_eq!(e.ivl, 10);
    assert_eq!(e.factor, 2500);
    assert_eq!(e.reps, 12);
    assert_eq!(e.lapses, 13);
    assert_eq!(e.left, 14);
    assert_eq!(e.odue, 15);
    assert_eq!(e.odid, DeckID(16));
    assert_eq!(e.flags, 17);
    assert_eq!(e.data, "d");
}

#[test]
fn card_arrives_as_it_was() {
    let arrived = Card::from(CardEntry::from(card()));
    assert_eq!(format!("{:?}", arrived), format!("{:?}", card()));
}

#[test]
fn note_entry_holds_joined_texts() {
    let e = NoteEntry::from(note(vec!["one", "two"], vec!["front", "back"]));
    assert_eq!(e.id, NoteID(1));
    assert_eq!(e.guid, "g");
    assert_eq!(e.ntid, NoteTypeID(2));
    assert_eq!(e.mtime, TimestampSecs(3));
    assert_eq!(e.usn, Usn(4));
    assert_eq!(e.tags, " one two ");
    assert_eq!(e.fields, "front\x1fback");
    assert_eq!(e.sfld, "");
    assert_eq!(e.csum, "");
    assert_eq!(e.flags, 0);
    assert_eq!(e.data, "");
}

#[test]
fn note_arrives_as_it_was() {
    let arrived = Note::from(NoteEntry::from(note(vec!["one", "two"], vec!["front", ""])));
    assert_eq!(arrived.id, NoteID(1));
    assert_eq!(arrived.guid, "g");
    assert_eq!(arrived.ntid, NoteTypeID(2));
    assert_eq!(arrived.mtime, TimestampSecs(3));
    assert_eq!(arrived.usn, Usn(4));
    assert_eq!(arrived.tags, vec!["one".to_string(), "two".to_string()]);
    assert_eq!(arrived.fields, vec!["front".to_string(), "".to_string()]);
    assert_eq!(arrived.sort_field, None);
    assert_eq!(arrived.checksum, None);
}

#[test]
fn note_without_fields_arrives_with_an_empty_one() {
    let arrived = Note::from(NoteEntry::from(note(vec![], vec![])));
    assert_eq!(arrived.fields, vec!["".to_string()]);
    assert_eq!(arrived.tags.len(), 0);
}

#[test]
fn entry_goes_on_as_it_came() {
    let mut entry = NoteEntry::from(note(vec![], vec!["a", "b"]));
    entry.tags = "x  y".to_string();
    entry.fields = "\x1fq\x1f".to_string();
    let sent = NoteEntry::from(Note::from(entry));
    assert_eq!(sent.fields, "\x1fq\x1f");
    assert_eq!(sent.tags, " x y ");
}
