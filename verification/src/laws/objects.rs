//! On the forms in which objects are stored and travel.

use crate::ids::{CardID, DeckID, NoteID, ObjectID, RevlogID};
use crate::objects::{Card, CardEntry, Note, NoteEntry};
use crate::text::{join_fields, join_tags, split_fields, split_tags};
use vstd::prelude::*;

verus! {

/// The two forms of a card agree in every field but, maybe, the number.
pub open spec fn same_card(card: Card, entry: CardEntry) -> bool {
    &&& entry.id == card.id
    &&& entry.nid == card.nid
    &&& entry.did == card.did
    &&& entry.ord == card.ord
    &&& entry.mtime == card.mtime
    &&& entry.ctype == card.ctype
    &&& entry.queue == card.queue
    &&& entry.due == card.due
    &&& entry.ivl == card.ivl
    &&& entry.factor == card.factor
    &&& entry.reps == card.reps
    &&& entry.lapses == card.lapses
    &&& entry.left == card.left
    &&& entry.odue == card.odue
    &&& entry.odid == card.odid
    &&& entry.flags == card.flags
    &&& entry.data == card.data
}

/// A card has the same fields when it travels.
pub proof fn law_card_travels_with_its_fields(card: Card, entry: CardEntry)
    requires
        call_ensures(<CardEntry as From<Card>>::from, (card,), entry),
    ensures
        same_card(card, entry),
        entry.usn == card.usn,
{
}

/// A card has the same fields when it arrives.
pub proof fn law_card_arrives_with_its_fields(entry: CardEntry, card: Card)
    requires
        call_ensures(<Card as From<CardEntry>>::from, (entry,), card),
    ensures
        same_card(card, entry),
        card.usn == entry.usn,
{
}

/// A note has the same ids, time and number when it travels. Its tags and fields are joined,
/// and the rest is empty.
pub proof fn law_note_travels_with_its_fields(note: Note, entry: NoteEntry, tags: String, fields: String)
    requires
        call_ensures(<NoteEntry as From<Note>>::from, (note,), entry),
        call_ensures(join_tags, (&note.tags,), tags),
        call_ensures(join_fields, (&note.fields,), fields),
    ensures
        entry.id == note.id,
        entry.guid == note.guid,
        entry.ntid == note.ntid,
        entry.mtime == note.mtime,
        entry.usn == note.usn,
        entry.tags@ == tags@,
        entry.fields@ == fields@,
        entry.sfld@.len() == 0,
        entry.csum@.len() == 0,
        entry.flags == 0,
        entry.data@.len() == 0,
{
}

/// A note has the same ids, time and number when it arrives. Its tags and fields are split, and
/// what is worked out when it is stored is not there yet.
pub proof fn law_note_arrives_with_its_fields(
    entry: NoteEntry,
    note: Note,
    tags: Vec<String>,
    fields: Vec<String>,
    tags_text: &str,
    fields_text: &str,
)
    requires
        call_ensures(<Note as From<NoteEntry>>::from, (entry,), note),
        tags_text@ == entry.tags@,
        fields_text@ == entry.fields@,
        call_ensures(split_tags, (tags_text,), tags),
        call_ensures(split_fields, (fields_text,), fields),
    ensures
        note.id == entry.id,
        note.guid == entry.guid,
        note.ntid == entry.ntid,
        note.mtime == entry.mtime,
        note.usn == entry.usn,
        note.tags@.len() == tags@.len(),
        forall|i: int| 0 <= i < tags@.len() ==> (#[trigger] note.tags@[i])@ == tags@[i]@,
        note.fields@.len() == fields@.len(),
        forall|i: int| 0 <= i < fields@.len() ==> (#[trigger] note.fields@[i])@ == fields@[i]@,
        note.sort_field is None,
        note.checksum is None,
{
    let all = crate::text::texts(note.tags@);
    assert(all == crate::text::texts(tags@));
    assert forall|i: int| 0 <= i < tags@.len() implies (#[trigger] note.tags@[i])@ == tags@[i]@ by {
        assert(all[i] == note.tags@[i]@);
    }
    let parts = crate::text::texts(note.fields@);
    assert(parts == crate::text::texts(fields@));
    assert(all.len() == tags@.len());
    assert(parts.len() == fields@.len());
    assert forall|i: int| 0 <= i < fields@.len() implies (#[trigger] note.fields@[i])@
        == fields@[i]@ by {
        assert(parts[i] == note.fields@[i]@);
    }
}

/// An id is known to the database by the number that it holds.
pub proof fn law_ids_are_their_numbers(
    card: CardID,
    note: NoteID,
    deck: DeckID,
    review: RevlogID,
    numbers: (i64, i64, i64, i64),
)
    requires
        call_ensures(<CardID as ObjectID>::to_number, (&card,), numbers.0),
        call_ensures(<NoteID as ObjectID>::to_number, (&note,), numbers.1),
        call_ensures(<DeckID as ObjectID>::to_number, (&deck,), numbers.2),
        call_ensures(<RevlogID as ObjectID>::to_number, (&review,), numbers.3),
    ensures
        numbers == (card.0, note.0, deck.0, review.0),
{
}

} // verus!
