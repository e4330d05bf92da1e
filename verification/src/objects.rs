//! The objects of a collection, as they are stored and as they travel.

use crate::ids::{
    CardID, DeckConfID, DeckID, NoteID, NoteTypeID, TimestampMillis, TimestampSecs, Usn,
};
use crate::text;
use crate::text::{join_fields, join_tags, split_fields, split_tags};
use std::collections::HashMap;
use vstd::prelude::*;
use vstd::std_specs::convert::FromSpecImpl;

verus! {

/// `serde_json::Value`, a piece of JSON that is carried along and never looked into.
#[verifier::external_type_specification]
#[verifier::external_body]
pub struct ExValue(serde_json::Value);

/// A note type. What no decision rests on is carried along in `other`.
#[derive(Debug)]
pub struct NoteTypeSchema11 {
    pub id: NoteTypeID,
    pub mtime: TimestampSecs,
    pub usn: Usn,
    pub fields: Vec<serde_json::Value>,
    pub templates: Vec<serde_json::Value>,
    pub other: HashMap<String, serde_json::Value>,
}

/// A deck. What no decision rests on is carried along in `other`.
#[derive(Debug)]
pub struct DeckSchema11 {
    pub id: DeckID,
    pub mtime: TimestampSecs,
    pub usn: Usn,
    pub other: HashMap<String, serde_json::Value>,
}

/// A deck's option group. What no decision rests on is carried along in `other`.
#[derive(Debug)]
pub struct DeckConfSchema11 {
    pub id: DeckConfID,
    pub mtime: TimestampSecs,
    pub usn: Usn,
    pub other: HashMap<String, serde_json::Value>,
}

/// The type of a card, by its number in the database.
#[derive(Debug, Clone, Copy, PartialEq, Eq, Structural)]
pub struct CardType(pub u8);

/// The queue that a card is in, by its number in the database.
#[derive(Debug, Clone, Copy, PartialEq, Eq, Structural)]
pub struct CardQueue(pub i8);

/// A card, as the collection stores it.
#[derive(Debug)]
pub struct Card {
    pub id: CardID,
    pub nid: NoteID,
    pub did: DeckID,
    pub ord: u16,
    pub mtime: TimestampSecs,
    pub usn: Usn,
    pub ctype: CardType,
    pub queue: CardQueue,
    pub due: i32,
    pub ivl: u32,
    pub factor: u16,
    pub reps: u32,
    pub lapses: u32,
    pub left: u32,
    pub odue: i32,
    pub odid: DeckID,
    pub flags: u8,
    pub data: String,
}

/// A card, as it travels.
#[derive(Debug)]
pub struct CardEntry {
    pub id: CardID,
    pub nid: NoteID,
    pub did: DeckID,
    pub ord: u16,
    pub mtime: TimestampSecs,
    pub usn: Usn,
    pub ctype: CardType,
    pub queue: CardQueue,
    pub due: i32,
    pub ivl: u32,
    pub factor: u16,
    pub reps: u32,
    pub lapses: u32,
    pub left: u32,
    pub odue: i32,
    pub odid: DeckID,
    pub flags: u8,
    pub data: String,
}

/// A note, as the collection stores it.
#[derive(Debug)]
pub struct Note {
    pub id: NoteID,
    pub guid: String,
    pub ntid: NoteTypeID,
    pub mtime: TimestampSecs,
    pub usn: Usn,
    pub tags: Vec<String>,
    pub fields: Vec<String>,
    pub sort_field: Option<String>,
    pub checksum: Option<u32>,
}

/// A note, as it travels.
#[derive(Debug)]
pub struct NoteEntry {
    pub id: NoteID,
    pub guid: String,
    pub ntid: NoteTypeID,
    pub mtime: TimestampSecs,
    pub usn: Usn,
    pub tags: String,
    pub fields: String,
    pub sfld: String,  // always empty
    pub csum: String,  // always empty
    pub flags: u32,
    pub data: String,
}

/// A review, stored and travelling in the same form.
#[derive(Debug)]
pub struct ReviewLogEntry {
    pub id: TimestampMillis,
    pub cid: CardID,
    pub usn: Usn,
    pub ease: u8,
    pub interval: i32,
    pub last_interval: i32,
    pub factor: u32,
    pub time: u32,
    pub kind: u8,
}

impl Card {
    /// The card that the entry stands for.
    pub open spec fn of(e: CardEntry) -> Card {
        Card {
            id: e.id,
            nid: e.nid,
            did: e.did,
            ord: e.ord,
            mtime: e.mtime,
            usn: e.usn,
            ctype: e.ctype,
            queue: e.queue,
            due: e.due,
            ivl: e.ivl,
            factor: e.factor,
            reps: e.reps,
            lapses: e.lapses,
            left: e.left,
            odue: e.odue,
            odid: e.odid,
            flags: e.flags,
            data: e.data,
        }
    }
}

impl From<CardEntry> for Card {
    fn from(e: CardEntry) -> (card: Self) {
        Card {
            id: e.id,
            nid: e.nid,
            did: e.did,
            ord: e.ord,
            mtime: e.mtime,
            usn: e.usn,
            ctype: e.ctype,
            queue: e.queue,
            due: e.due,
            ivl: e.ivl,
            factor: e.factor,
            reps: e.reps,
            lapses: e.lapses,
            left: e.left,
            odue: e.odue,
            odid: e.odid,
            flags: e.flags,
            data: e.data,
        }
    }
}

impl FromSpecImpl<CardEntry> for Card {
    open spec fn obeys_from_spec() -> bool {
        true
    }

    open spec fn from_spec(e: CardEntry) -> Card {
        Card::of(e)
    }
}

impl CardEntry {
    /// The entry that stands for the card.
    pub open spec fn of(e: Card) -> CardEntry {
        CardEntry {
            id: e.id,
            nid: e.nid,
            did: e.did,
            ord: e.ord,
            mtime: e.mtime,
            usn: e.usn,
            ctype: e.ctype,
            queue: e.queue,
            due: e.due,
            ivl: e.ivl,
            factor: e.factor,
            reps: e.reps,
            lapses: e.lapses,
            left: e.left,
            odue: e.odue,
            odid: e.odid,
            flags: e.flags,
            data: e.data,
        }
    }
}

impl From<Card> for CardEntry {
    fn from(e: Card) -> (entry: Self) {
        CardEntry {
            id: e.id,
            nid: e.nid,
            did: e.did,
            ord: e.ord,
            mtime: e.mtime,
            usn: e.usn,
            ctype: e.ctype,
            queue: e.queue,
            due: e.due,
            ivl: e.ivl,
            factor: e.factor,
            reps: e.reps,
            lapses: e.lapses,
            left: e.left,
            odue: e.odue,
            odid: e.odid,
            flags: e.flags,
            data: e.data,
        }
    }
}

impl FromSpecImpl<Card> for CardEntry {
    open spec fn obeys_from_spec() -> bool {
        true
    }

    open spec fn from_spec(e: Card) -> CardEntry {
        CardEntry::of(e)
    }
}

impl Note {
    /// This is the note that the entry stands for, not yet prepared for storing.
    pub open spec fn is_from(self, e: NoteEntry) -> bool {
        &&& self.id == e.id
        &&& self.guid == e.guid
        &&& self.ntid == e.ntid
        &&& self.mtime == e.mtime
        &&& self.usn == e.usn
        &&& text::texts(self.tags@) == text::tags_in(e.tags@)
        &&& text::texts(self.fields@) == text::pieces(e.fields@, text::field_separator())
        &&& self.sort_field is None
        &&& self.checksum is None
    }
}

impl From<NoteEntry> for Note {
    fn from(e: NoteEntry) -> (note: Self)
        ensures
            note.is_from(e),
    {
        Note {
            id: e.id,
            guid: e.guid,
            ntid: e.ntid,
            mtime: e.mtime,
            usn: e.usn,
            tags: split_tags(e.tags.as_str()),
            fields: split_fields(e.fields.as_str()),
            sort_field: None,
            checksum: None,
        }
    }
}

impl FromSpecImpl<NoteEntry> for Note {
    open spec fn obeys_from_spec() -> bool {
        false
    }

    open spec fn from_spec(e: NoteEntry) -> Note {
        arbitrary()
    }
}

impl NoteEntry {
    /// This is the entry that stands for the note.
    pub open spec fn is_from(self, e: Note) -> bool {
        &&& self.id == e.id
        &&& self.guid == e.guid
        &&& self.ntid == e.ntid
        &&& self.mtime == e.mtime
        &&& self.usn == e.usn
        &&& self.tags@ == text::tags_text(text::texts(e.tags@))
        &&& self.fields@ == text::joined(text::texts(e.fields@), seq!['\x1f'])
        &&& self.sfld@ == Seq::<char>::empty()
        &&& self.csum@ == Seq::<char>::empty()
        &&& self.flags == 0
        &&& self.data@ == Seq::<char>::empty()
    }
}

impl From<Note> for NoteEntry {
    fn from(e: Note) -> (entry: Self)
        ensures
            entry.is_from(e),
    {
        NoteEntry {
            id: e.id,
            guid: e.guid,
            ntid: e.ntid,
            mtime: e.mtime,
            usn: e.usn,
            tags: join_tags(&e.tags),
            fields: join_fields(&e.fields),
            sfld: String::new(),
            csum: String::new(),
            flags: 0,
            data: String::new(),
        }
    }
}

impl FromSpecImpl<Note> for NoteEntry {
    open spec fn obeys_from_spec() -> bool {
        false
    }

    open spec fn from_spec(e: Note) -> NoteEntry {
        arbitrary()
    }
}

/// A card that travels arrives as it was.
pub proof fn law_card_arrives_as_it_was(card: Card, entry: CardEntry)
    ensures
        Card::of(CardEntry::of(card)) == card,
        CardEntry::of(Card::of(entry)) == entry,
{
}

/// A note that travels arrives as it was, but for what is worked out anew when it is stored.
/// It has at least one field; no field holds the separator of fields, and no tag is empty or
/// holds a space.
pub proof fn law_note_arrives_as_it_was(note: Note, entry: NoteEntry, arrived: Note)
    requires
        entry.is_from(note),
        arrived.is_from(entry),
        note.fields@.len() > 0,
        text::free_of(text::texts(note.fields@), text::field_separator()),
        text::free_of(text::texts(note.tags@), text::tag_separator()),
        forall|i: int| 0 <= i < note.tags@.len() ==> (#[trigger] note.tags@[i])@.len() > 0,
    ensures
        arrived.id == note.id,
        arrived.guid == note.guid,
        arrived.ntid == note.ntid,
        arrived.mtime == note.mtime,
        arrived.usn == note.usn,
        text::texts(arrived.tags@) == text::texts(note.tags@),
        text::texts(arrived.fields@) == text::texts(note.fields@),
{
    text::law_joined_fields_split_back(text::texts(note.fields@));
    text::law_joined_tags_split_back(text::texts(note.tags@));
}

/// An entry that is stored and sent on has the same text of fields, and the same tags, as the
/// one that came.
pub proof fn law_entry_goes_on_as_it_came(entry: NoteEntry, note: Note, sent: NoteEntry)
    requires
        note.is_from(entry),
        sent.is_from(note),
    ensures
        sent.id == entry.id,
        sent.guid == entry.guid,
        sent.ntid == entry.ntid,
        sent.mtime == entry.mtime,
        sent.usn == entry.usn,
        text::tags_in(sent.tags@) == text::tags_in(entry.tags@),
        sent.fields@ == entry.fields@,
{
    text::law_split_fields_join_back(entry.fields@);
    text::law_split_tags_stay_the_same(entry.tags@);
}

} // verus!
