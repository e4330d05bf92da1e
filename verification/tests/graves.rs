use anki_sync::collection::Collection;
use anki_sync::graves::{GraveOp, Graves, CHUNK_SIZE};
use anki_sync::ids::{CardID, DeckID, NoteID, Usn};

fn graves(cards: i64, notes: i64, decks: i64) -> Graves {
    Graves {
        cards: (0..cards).map(CardID).collect(),
        notes: (0..notes).map(NoteID).collect(),
        decks: (0..decks).map(DeckID).collect(),
    }
}

#[test]
fn no_graves_give_no_chunk() {
    let mut g = Graves::default();
    assert_eq!(g.chunk_count(), 0);
    assert!(g.take_chunk().is_none());
    assert_eq!(g.count(), 0);
}

#[test]
fn few_graves_fit_in_one_chunk() {
    let mut g = graves(2, 1, 3);
    assert_eq!(g.count(), 6);
    assert_eq!(g.chunk_count(), 6);
    let chunk = g.take_chunk().unwrap();
    assert_eq!(chunk.cards, vec![CardID(1), CardID(0)]);
    assert_eq!(chunk.notes, vec![NoteID(0)]);
    assert_eq!(chunk.decks, vec![DeckID(2), DeckID(1), DeckID(0)]);
    assert!(g.take_chunk().is_none());
}

#[test]
fn cards_come_first_then_notes_then_decks() {
    let mut g = graves(200, 100, 10);
    let chunk = g.take_chunk().unwrap();
    assert_eq!(chunk.cards.len(), 200);
    assert_eq!(chunk.notes.len(), 50);
    assert_eq!(chunk.decks.len(), 0);
    assert_eq!(chunk.notes[0], NoteID(99));
    let chunk = g.take_chunk().unwrap();
    assert_eq!(chunk.cards.len(), 0);
    assert_eq!(chunk.notes.len(), 50);
    assert_eq!(chunk.decks.len(), 10);
    assert_eq!(chunk.notes[0], NoteID(49));
    assert!(g.take_chunk().is_none());
}

#[test]
fn full_chunk_leaves_none_behind() {
    let mut g = graves(CHUNK_SIZE as i64, 0, 0);
    assert_eq!(g.chunk_count(), 250);
    assert_eq!(g.take_chunk().unwrap().cards.len(), 250);
    assert!(g.take_chunk().is_none());
}

#[test]
fn chunks_hand_over_everything_once() {
    let mut g = graves(301, 299, 7);
    let mut all = Graves::default();
    let mut sizes: Vec<usize> = vec![];
    while let Some(chunk) = g.take_chunk() {
        sizes.push(chunk.count());
        all.cards.extend(chunk.cards);
        all.notes.extend(chunk.notes);
        all.decks.extend(chunk.decks);
    }
    assert_eq!(sizes, vec![250, 250, 107]);
    let mut expected = graves(301, 299, 7);
    expected.cards.reverse();
    expected.notes.reverse();
    expected.decks.reverse();
    assert_eq!(all.cards, expected.cards);
    assert_eq!(all.notes, expected.notes);
    assert_eq!(all.decks, expected.decks);
}

#[test]
fn graves_are_applied_notes_first() {
    let col = Collection { server: false };
    let g = Graves {
        cards: vec![CardID(5)],
        notes: vec![NoteID(1), NoteID(2)],
        decks: vec![DeckID(9)],
    };
    assert_eq!(
        col.apply_graves(&g, Usn(4)),
        vec![
            GraveOp::RemoveNote(NoteID(1)),
            GraveOp::AddNoteGrave(NoteID(1), Usn(4)),
            GraveOp::RemoveNote(NoteID(2)),
            GraveOp::AddNoteGrave(NoteID(2), Usn(4)),
            GraveOp::RemoveCard(CardID(5)),
            GraveOp::AddCardGrave(CardID(5), Usn(4)),
            GraveOp::RemoveDeck(DeckID(9)),
            GraveOp::AddDeckGrave(DeckID(9), Usn(4)),
        ]
    );
    assert_eq!(col.apply_graves(&Graves::default(), Usn(4)), vec![]);
}
