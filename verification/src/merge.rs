//! Merging objects that come from the server into the collection.

use crate::changes::UnchunkedChanges;
use crate::chunk::Chunk;
use crate::collection::Collection;
use crate::error::{AnkiError, SyncErrorKind};
use crate::ids::{CardID, DeckConfID, DeckID, NoteID, NoteTypeID, TimestampSecs, Usn};
use crate::objects::{
    Card, CardEntry, DeckConfSchema11, DeckSchema11, Note, NoteEntry, NoteTypeSchema11,
    ReviewLogEntry,
};
use std::collections::{HashMap, VecDeque};
use vstd::prelude::*;

verus! {

/// One thing to be merged.
#[derive(Debug)]
pub enum MergeItem {
    Notetype(NoteTypeSchema11),
    Deck(DeckSchema11),
    DeckConfig(DeckConfSchema11),
    Tag(String, Usn),
    CreationStamp(TimestampSecs),
    Config(HashMap<String, serde_json::Value>, Usn),
    Revlog(ReviewLogEntry),
    Card(CardEntry),
    Note(NoteEntry),
}

/// What is still to be merged, in order.
#[derive(Debug)]
pub struct Merging {
    pub queue: VecDeque<MergeItem>,
}

impl View for Merging {
    type V = Seq<MergeItem>;

    open spec fn view(&self) -> Seq<MergeItem> {
        self.queue@
    }
}

/// What the storage is to do next in a merge. The first error of the storage is what the merge
/// fails with.
#[derive(Debug)]
#[allow(inconsistent_fields)]
pub enum MergeCall {
    /// Read a note type, if it is there.
    FindNotetype { id: NoteTypeID, then: NotetypeFound },
    /// Add or update a note type.
    SaveNotetype { notetype: NoteTypeSchema11, then: NotetypeSaved },
    /// Drop a note type from the cache.
    ForgetNotetype { id: NoteTypeID, then: Merging },
    /// Read a deck, if it is there.
    FindDeck { id: DeckID, then: DeckFound },
    /// Add or update a deck.
    SaveDeck { deck: DeckSchema11, then: DeckSaved },
    /// Drop a deck from the cache.
    ForgetDeck { id: DeckID, then: Merging },
    /// Read an option group, if it is there.
    FindDeckConfig { id: DeckConfID, then: DeckConfigFound },
    /// Add or update an option group.
    SaveDeckConfig { conf: DeckConfSchema11, then: Merging },
    /// Make sure that a tag is known.
    RegisterTag { tag: String, usn: Usn, then: Merging },
    /// Set the time at which the collection was created.
    SetCreationStamp { stamp: TimestampSecs, then: Merging },
    /// Replace all settings, as of now.
    SetAllConfig { config: HashMap<String, serde_json::Value>, usn: Usn, then: Merging },
    /// Add a review.
    AddRevlogEntry { entry: ReviewLogEntry, then: Merging },
    /// Read a card, if it is there.
    FindCard { id: CardID, then: CardFound },
    /// Add or update a card.
    SaveCard { card: Card, then: Merging },
    /// Read a note, if it is there.
    FindNote { id: NoteID, then: NoteFound },
    /// Read the note type of a note, if it is there, through the cache.
    FindNotetypeOfNote { id: NoteTypeID, then: NotetypeOfNote },
    /// Bring a note into the form in which it is stored.
    PrepareNote { note: Note, notetype: NoteTypeSchema11, normalize: bool, then: NotePrepared },
    /// Add or update a note.
    SaveNote { note: Note, then: Merging },
    /// All is merged.
    Finished,
    /// The merge cannot go on.
    Failed(AnkiError),
}

/// Waits for the note type that is in the collection.
#[derive(Debug)]
pub struct NotetypeFound {
    pub notetype: NoteTypeSchema11,
    pub rest: Merging,
}

/// Waits until the note type is saved.
#[derive(Debug)]
pub struct NotetypeSaved {
    pub id: NoteTypeID,
    pub rest: Merging,
}

/// Waits for the deck that is in the collection.
#[derive(Debug)]
pub struct DeckFound {
    pub deck: DeckSchema11,
    pub rest: Merging,
}

/// Waits until the deck is saved.
#[derive(Debug)]
pub struct DeckSaved {
    pub id: DeckID,
    pub rest: Merging,
}

/// Waits for the option group that is in the collection.
#[derive(Debug)]
pub struct DeckConfigFound {
    pub conf: DeckConfSchema11,
    pub rest: Merging,
}

/// Waits for the card that is in the collection.
#[derive(Debug)]
pub struct CardFound {
    pub entry: CardEntry,
    pub rest: Merging,
}

/// Waits for the note that is in the collection.
#[derive(Debug)]
pub struct NoteFound {
    pub entry: NoteEntry,
    pub rest: Merging,
}

/// Waits for the type of the note.
#[derive(Debug)]
pub struct NotetypeOfNote {
    pub note: Note,
    pub rest: Merging,
}

/// Waits until the note is in the form in which it is stored.
#[derive(Debug)]
pub struct NotePrepared {
    pub rest: Merging,
}

/// An object that comes in takes effect: there is none in the collection, or an older one.
pub open spec fn newer(existing: Option<TimestampSecs>, incoming: TimestampSecs) -> bool {
    match existing {
        None => true,
        Some(mtime) => mtime.0 < incoming.0,
    }
}

/// The call with which the merge of `items` goes on.
pub open spec fn goes_on(items: Seq<MergeItem>, call: MergeCall) -> bool {
    if items.len() == 0 {
        call is Finished
    } else {
        let rest = items.drop_first();
        match items[0] {
            MergeItem::Notetype(nt) => call matches MergeCall::FindNotetype { id, then } && id
                == nt.id && then.notetype == nt && then.rest@ == rest,
            MergeItem::Deck(deck) => call matches MergeCall::FindDeck { id, then } && id == deck.id
                && then.deck == deck && then.rest@ == rest,
            MergeItem::DeckConfig(conf) => call matches MergeCall::FindDeckConfig { id, then } && id
                == conf.id && then.conf == conf && then.rest@ == rest,
            MergeItem::Tag(t, u) => call matches MergeCall::RegisterTag { tag, usn, then } && tag
                == t && usn == u && then@ == rest,
            MergeItem::CreationStamp(crt) => call matches MergeCall::SetCreationStamp { stamp, then }
                && stamp == crt && then@ == rest,
            MergeItem::Config(conf, u) => call matches MergeCall::SetAllConfig { config, usn, then }
                && config == conf && usn == u && then@ == rest,
            MergeItem::Revlog(e) => call matches MergeCall::AddRevlogEntry { entry, then } && entry
                == e && then@ == rest,
            MergeItem::Card(e) => call matches MergeCall::FindCard { id, then } && id == e.id
                && then.entry == e && then.rest@ == rest,
            MergeItem::Note(e) => call matches MergeCall::FindNote { id, then } && id == e.id
                && then.entry == e && then.rest@ == rest,
        }
    }
}

impl Merging {
    pub fn new() -> (merging: Merging)
        ensures
            merging@ == Seq::<MergeItem>::empty(),
    {
        Merging { queue: VecDeque::new() }
    }

    /// What follows once the storage has done its part: what is next in the queue.
    pub open spec fn leads_to(self, reply: Result<(), AnkiError>, call: MergeCall) -> bool {
        match reply {
            Err(e) => call == MergeCall::Failed(e),
            Ok(_) => goes_on(self@, call),
        }
    }

    pub fn resume(self, reply: Result<(), AnkiError>) -> (call: MergeCall)
        ensures
            self.leads_to(reply, call),
    {
        match reply {
            Err(e) => MergeCall::Failed(e),
            Ok(_) => self.go_on(),
        }
    }

    /// Goes on with what is next in the queue.
    pub fn go_on(self) -> (call: MergeCall)
        ensures
            goes_on(self@, call),
    {
        let mut rest = self;
        match rest.queue.pop_front() {
            None => MergeCall::Finished,
            Some(item) => {
                assert(rest@ =~= self@.drop_first());
                match item {
                    MergeItem::Notetype(notetype) => MergeCall::FindNotetype {
                        id: notetype.id,
                        then: NotetypeFound { notetype, rest },
                    },
                    MergeItem::Deck(deck) => MergeCall::FindDeck {
                        id: deck.id,
                        then: DeckFound { deck, rest },
                    },
                    MergeItem::DeckConfig(conf) => MergeCall::FindDeckConfig {
                        id: conf.id,
                        then: DeckConfigFound { conf, rest },
                    },
                    MergeItem::Tag(tag, usn) => MergeCall::RegisterTag { tag, usn, then: rest },
                    MergeItem::CreationStamp(stamp) => MergeCall::SetCreationStamp {
                        stamp,
                        then: rest,
                    },
                    MergeItem::Config(config, usn) => MergeCall::SetAllConfig {
                        config,
                        usn,
                        then: rest,
                    },
                    MergeItem::Revlog(entry) => MergeCall::AddRevlogEntry { entry, then: rest },
                    MergeItem::Card(entry) => MergeCall::FindCard {
                        id: entry.id,
                        then: CardFound { entry, rest },
                    },
                    MergeItem::Note(entry) => MergeCall::FindNote {
                        id: entry.id,
                        then: NoteFound { entry, rest },
                    },
                }
            },
        }
    }
}

/// When the object that is in the collection was last changed, if there is one.
pub open spec fn mtime_of_notetype(existing: Option<NoteTypeSchema11>) -> Option<TimestampSecs> {
    match existing {
        None => None,
        Some(object) => Some(object.mtime),
    }
}

/// When the object that is in the collection was last changed, if there is one.
pub open spec fn mtime_of_deck(existing: Option<DeckSchema11>) -> Option<TimestampSecs> {
    match existing {
        None => None,
        Some(object) => Some(object.mtime),
    }
}

/// When the object that is in the collection was last changed, if there is one.
pub open spec fn mtime_of_deck_config(existing: Option<DeckConfSchema11>) -> Option<TimestampSecs> {
    match existing {
        None => None,
        Some(object) => Some(object.mtime),
    }
}

/// When the object that is in the collection was last changed, if there is one.
pub open spec fn mtime_of_card(existing: Option<Card>) -> Option<TimestampSecs> {
    match existing {
        None => None,
        Some(object) => Some(object.mtime),
    }
}

/// When the object that is in the collection was last changed, if there is one.
pub open spec fn mtime_of_note(existing: Option<Note>) -> Option<TimestampSecs> {
    match existing {
        None => None,
        Some(object) => Some(object.mtime),
    }
}

/// The note types differ in their numbers of fields or of templates.
pub open spec fn schema_differs(a: NoteTypeSchema11, b: NoteTypeSchema11) -> bool {
    a.fields@.len() != b.fields@.len() || a.templates@.len() != b.templates@.len()
}

impl NotetypeFound {
    /// What follows on the note type that is in the collection. An older one is replaced,
    /// unless fields or templates have come or gone, which takes a full sync.
    pub open spec fn leads_to(
        self,
        reply: Result<Option<NoteTypeSchema11>, AnkiError>,
        call: MergeCall,
    ) -> bool {
        match reply {
            Err(e) => call == MergeCall::Failed(e),
            Ok(existing) => {
                if !newer(mtime_of_notetype(existing), self.notetype.mtime) {
                    goes_on(self.rest@, call)
                } else if existing is Some && schema_differs(existing->0, self.notetype) {
                    call matches MergeCall::Failed(e) && e.is_sync_error(
                        SyncErrorKind::ResyncRequired,
                        "notetype schema changed"@,
                    )
                } else {
                    call == (MergeCall::SaveNotetype {
                        notetype: self.notetype,
                        then: NotetypeSaved { id: self.notetype.id, rest: self.rest },
                    })
                }
            },
        }
    }

    pub fn resume(self, reply: Result<Option<NoteTypeSchema11>, AnkiError>) -> (call: MergeCall)
        ensures
            self.leads_to(reply, call),
    {
        let existing = match reply {
            Err(e) => return MergeCall::Failed(e),
            Ok(existing) => existing,
        };
        let nt = self.notetype;
        if let Some(existing_nt) = existing {
            if existing_nt.mtime.0 < nt.mtime.0 {
                if (existing_nt.fields.len() != nt.fields.len()) || (existing_nt.templates.len()
                    != nt.templates.len()) {
                    return MergeCall::Failed(
                        AnkiError::sync_error(
                            "notetype schema changed",
                            SyncErrorKind::ResyncRequired,
                        ),
                    );
                }
            } else {
                return self.rest.go_on();
            }
        }
        let id = nt.id;
        MergeCall::SaveNotetype { notetype: nt, then: NotetypeSaved { id, rest: self.rest } }
    }
}

impl NotetypeSaved {
    /// What follows once the note type is saved.
    pub open spec fn leads_to(self, reply: Result<(), AnkiError>, call: MergeCall) -> bool {
        match reply {
            Err(e) => call == MergeCall::Failed(e),
            Ok(_) => call == (MergeCall::ForgetNotetype { id: self.id, then: self.rest }),
        }
    }

    pub fn resume(self, reply: Result<(), AnkiError>) -> (call: MergeCall)
        ensures
            self.leads_to(reply, call),
    {
        match reply {
            Err(e) => MergeCall::Failed(e),
            Ok(_) => MergeCall::ForgetNotetype { id: self.id, then: self.rest },
        }
    }
}

impl DeckFound {
    /// What follows on the deck that is in the collection: an older one is replaced.
    pub open spec fn leads_to(
        self,
        reply: Result<Option<DeckSchema11>, AnkiError>,
        call: MergeCall,
    ) -> bool {
        match reply {
            Err(e) => call == MergeCall::Failed(e),
            Ok(existing) => {
                if newer(mtime_of_deck(existing), self.deck.mtime) {
                    call == (MergeCall::SaveDeck {
                        deck: self.deck,
                        then: DeckSaved { id: self.deck.id, rest: self.rest },
                    })
                } else {
                    goes_on(self.rest@, call)
                }
            },
        }
    }

    pub fn resume(self, reply: Result<Option<DeckSchema11>, AnkiError>) -> (call: MergeCall)
        ensures
            self.leads_to(reply, call),
    {
        let existing = match reply {
            Err(e) => return MergeCall::Failed(e),
            Ok(existing) => existing,
        };
        let deck = self.deck;
        let proceed = if let Some(existing_deck) = existing {
            existing_deck.mtime.0 < deck.mtime.0
        } else {
            true
        };
        if proceed {
            let id = deck.id;
            MergeCall::SaveDeck { deck, then: DeckSaved { id, rest: self.rest } }
        } else {
            self.rest.go_on()
        }
    }
}

impl DeckSaved {
    /// What follows once the deck is saved.
    pub open spec fn leads_to(self, reply: Result<(), AnkiError>, call: MergeCall) -> bool {
        match reply {
            Err(e) => call == MergeCall::Failed(e),
            Ok(_) => call == (MergeCall::ForgetDeck { id: self.id, then: self.rest }),
        }
    }

    pub fn resume(self, reply: Result<(), AnkiError>) -> (call: MergeCall)
        ensures
            self.leads_to(reply, call),
    {
        match reply {
            Err(e) => MergeCall::Failed(e),
            Ok(_) => MergeCall::ForgetDeck { id: self.id, then: self.rest },
        }
    }
}

impl DeckConfigFound {
    /// What follows on the option group that is in the collection: an older one is replaced.
    pub open spec fn leads_to(
        self,
        reply: Result<Option<DeckConfSchema11>, AnkiError>,
        call: MergeCall,
    ) -> bool {
        match reply {
            Err(e) => call == MergeCall::Failed(e),
            Ok(existing) => {
                if newer(mtime_of_deck_config(existing), self.conf.mtime) {
                    call == (MergeCall::SaveDeckConfig { conf: self.conf, then: self.rest })
                } else {
                    goes_on(self.rest@, call)
                }
            },
        }
    }

    pub fn resume(self, reply: Result<Option<DeckConfSchema11>, AnkiError>) -> (call: MergeCall)
        ensures
            self.leads_to(reply, call),
    {
        let existing = match reply {
            Err(e) => return MergeCall::Failed(e),
            Ok(existing) => existing,
        };
        let conf = self.conf;
        let proceed = if let Some(existing_conf) = existing {
            existing_conf.mtime.0 < conf.mtime.0
        } else {
            true
        };
        if proceed {
            MergeCall::SaveDeckConfig { conf, then: self.rest }
        } else {
            self.rest.go_on()
        }
    }
}

impl CardFound {
    /// What follows on the card that is in the collection: an older one is replaced.
    pub open spec fn leads_to(
        self,
        reply: Result<Option<Card>, AnkiError>,
        call: MergeCall,
    ) -> bool {
        match reply {
            Err(e) => call == MergeCall::Failed(e),
            Ok(existing) => {
                if newer(mtime_of_card(existing), self.entry.mtime) {
                    call == (MergeCall::SaveCard { card: Card::of(self.entry), then: self.rest })
                } else {
                    goes_on(self.rest@, call)
                }
            },
        }
    }

    pub fn resume(self, reply: Result<Option<Card>, AnkiError>) -> (call: MergeCall)
        ensures
            self.leads_to(reply, call),
    {
        let existing = match reply {
            Err(e) => return MergeCall::Failed(e),
            Ok(existing) => existing,
        };
        match Collection::add_or_update_card_if_newer(existing, self.entry) {
            Some(card) => MergeCall::SaveCard { card, then: self.rest },
            None => self.rest.go_on(),
        }
    }
}

impl NoteFound {
    /// What follows on the note that is in the collection: an older one is to be replaced,
    /// for which the type of the new one is needed.
    pub open spec fn leads_to(
        self,
        reply: Result<Option<Note>, AnkiError>,
        call: MergeCall,
    ) -> bool {
        match reply {
            Err(e) => call == MergeCall::Failed(e),
            Ok(existing) => {
                if newer(mtime_of_note(existing), self.entry.mtime) {
                    call matches MergeCall::FindNotetypeOfNote { id, then } && {
                        &&& id == self.entry.ntid
                        &&& then.note.is_from(self.entry)
                        &&& then.rest == self.rest
                    }
                } else {
                    goes_on(self.rest@, call)
                }
            },
        }
    }

    pub fn resume(self, reply: Result<Option<Note>, AnkiError>) -> (call: MergeCall)
        ensures
            self.leads_to(reply, call),
    {
        let existing = match reply {
            Err(e) => return MergeCall::Failed(e),
            Ok(existing) => existing,
        };
        match Collection::add_or_update_note_if_newer(existing, self.entry) {
            Some(note) => MergeCall::FindNotetypeOfNote {
                id: note.ntid,
                then: NotetypeOfNote { note, rest: self.rest },
            },
            None => self.rest.go_on(),
        }
    }
}

impl NotetypeOfNote {
    /// What follows on the type of the note. Without it the note cannot be stored.
    pub open spec fn leads_to(
        self,
        reply: Result<Option<NoteTypeSchema11>, AnkiError>,
        call: MergeCall,
    ) -> bool {
        match reply {
            Err(e) => call == MergeCall::Failed(e),
            Ok(notetype) => {
                match notetype {
                    Some(notetype) => call == (MergeCall::PrepareNote {
                        note: self.note,
                        notetype,
                        normalize: false,
                        then: NotePrepared { rest: self.rest },
                    }),
                    None => call matches MergeCall::Failed(e) && e.is_invalid_input(
                        "note missing notetype"@,
                    ),
                }
            },
        }
    }

    pub fn resume(self, reply: Result<Option<NoteTypeSchema11>, AnkiError>) -> (call: MergeCall)
        ensures
            self.leads_to(reply, call),
    {
        let notetype = match reply {
            Err(e) => return MergeCall::Failed(e),
            Ok(notetype) => notetype,
        };
        match notetype {
            Some(notetype) => MergeCall::PrepareNote {
                note: self.note,
                notetype,
                normalize: false,
                then: NotePrepared { rest: self.rest },
            },
            None => MergeCall::Failed(AnkiError::invalid_input("note missing notetype")),
        }
    }
}

impl NotePrepared {
    /// What follows on the note in the form in which it is stored.
    pub open spec fn leads_to(self, reply: Result<Note, AnkiError>, call: MergeCall) -> bool {
        match reply {
            Err(e) => call == MergeCall::Failed(e),
            Ok(note) => call == (MergeCall::SaveNote { note, then: self.rest }),
        }
    }

    pub fn resume(self, reply: Result<Note, AnkiError>) -> (call: MergeCall)
        ensures
            self.leads_to(reply, call),
    {
        match reply {
            Err(e) => MergeCall::Failed(e),
            Ok(note) => MergeCall::SaveNote { note, then: self.rest },
        }
    }
}

impl Collection {
    /// The card to be stored for the entry, unless the collection has one that is as new.
    pub fn add_or_update_card_if_newer(existing: Option<Card>, entry: CardEntry) -> (card: Option<
        Card,
    >)
        ensures
            card == if newer(mtime_of_card(existing), entry.mtime) {
                Some(Card::of(entry))
            } else {
                None
            },
    {
        let proceed = if let Some(existing_card) = existing {
            existing_card.mtime.0 < entry.mtime.0
        } else {
            true
        };
        if proceed {
            Some(Card::from(entry))
        } else {
            None
        }
    }

    /// The note to be prepared and stored for the entry, unless the collection has one that is
    /// as new.
    pub fn add_or_update_note_if_newer(existing: Option<Note>, entry: NoteEntry) -> (note: Option<
        Note,
    >)
        ensures
            note is Some <==> newer(mtime_of_note(existing), entry.mtime),
            note matches Some(n) ==> n.is_from(entry),
    {
        let proceed = if let Some(existing_note) = existing {
            existing_note.mtime.0 < entry.mtime.0
        } else {
            true
        };
        if proceed {
            Some(Note::from(entry))
        } else {
            None
        }
    }

    /// Puts note types on the list of what is to be merged.
    pub fn merge_notetypes(&self, notetypes: Vec<NoteTypeSchema11>, merging: &mut Merging)
        ensures
            final(merging)@ == old(merging)@ + notetypes@.map_values(
                |nt: NoteTypeSchema11| MergeItem::Notetype(nt),
            ),
    {
        let ghost before = merging@;
        for nt in it: notetypes
            invariant
                it.seq() == notetypes@,
                merging@ =~= before + notetypes@.take(it.index() as int).map_values(
                    |nt: NoteTypeSchema11| MergeItem::Notetype(nt),
                ),
        {
            merging.queue.push_back(MergeItem::Notetype(nt));
        }
        assert(notetypes@.take(notetypes@.len() as int) =~= notetypes@);
    }

    /// Puts decks on the list of what is to be merged.
    pub fn merge_decks(&self, decks: Vec<DeckSchema11>, merging: &mut Merging)
        ensures
            final(merging)@ == old(merging)@ + decks@.map_values(
                |deck: DeckSchema11| MergeItem::Deck(deck),
            ),
    {
        let ghost before = merging@;
        for deck in it: decks
            invariant
                it.seq() == decks@,
                merging@ =~= before + decks@.take(it.index() as int).map_values(
                    |deck: DeckSchema11| MergeItem::Deck(deck),
                ),
        {
            merging.queue.push_back(MergeItem::Deck(deck));
        }
        assert(decks@.take(decks@.len() as int) =~= decks@);
    }

    /// Puts option groups on the list of what is to be merged.
    pub fn merge_deck_config(&self, dconf: Vec<DeckConfSchema11>, merging: &mut Merging)
        ensures
            final(merging)@ == old(merging)@ + dconf@.map_values(
                |conf: DeckConfSchema11| MergeItem::DeckConfig(conf),
            ),
    {
        let ghost before = merging@;
        for conf in it: dconf
            invariant
                it.seq() == dconf@,
                merging@ =~= before + dconf@.take(it.index() as int).map_values(
                    |conf: DeckConfSchema11| MergeItem::DeckConfig(conf),
                ),
        {
            merging.queue.push_back(MergeItem::DeckConfig(conf));
        }
        assert(dconf@.take(dconf@.len() as int) =~= dconf@);
    }

    /// Puts tags on the list of what is to be merged.
    pub fn merge_tags(&self, tags: Vec<String>, latest_usn: Usn, merging: &mut Merging)
        ensures
            final(merging)@ == old(merging)@ + tags@.map_values(
                |tag: String| MergeItem::Tag(tag, latest_usn),
            ),
    {
        let ghost before = merging@;
        for tag in it: tags
            invariant
                it.seq() == tags@,
                merging@ =~= before + tags@.take(it.index() as int).map_values(
                    |tag: String| MergeItem::Tag(tag, latest_usn),
                ),
        {
            merging.queue.push_back(MergeItem::Tag(tag, latest_usn));
        }
        assert(tags@.take(tags@.len() as int) =~= tags@);
    }

    /// Puts reviews on the list of what is to be merged.
    pub fn merge_revlog(&self, entries: Vec<ReviewLogEntry>, merging: &mut Merging)
        ensures
            final(merging)@ == old(merging)@ + entries@.map_values(
                |e: ReviewLogEntry| MergeItem::Revlog(e),
            ),
    {
        let ghost before = merging@;
        for e in it: entries
            invariant
                it.seq() == entries@,
                merging@ =~= before + entries@.take(it.index() as int).map_values(
                    |e: ReviewLogEntry| MergeItem::Revlog(e),
                ),
        {
            merging.queue.push_back(MergeItem::Revlog(e));
        }
        assert(entries@.take(entries@.len() as int) =~= entries@);
    }

    /// Puts cards on the list of what is to be merged.
    pub fn merge_cards(&self, entries: Vec<CardEntry>, merging: &mut Merging)
        ensures
            final(merging)@ == old(merging)@ + entries@.map_values(
                |e: CardEntry| MergeItem::Card(e),
            ),
    {
        let ghost before = merging@;
        for e in it: entries
            invariant
                it.seq() == entries@,
                merging@ =~= before + entries@.take(it.index() as int).map_values(
                    |e: CardEntry| MergeItem::Card(e),
                ),
        {
            merging.queue.push_back(MergeItem::Card(e));
        }
        assert(entries@.take(entries@.len() as int) =~= entries@);
    }

    /// Puts notes on the list of what is to be merged.
    pub fn merge_notes(&self, entries: Vec<NoteEntry>, merging: &mut Merging)
        ensures
            final(merging)@ == old(merging)@ + entries@.map_values(
                |e: NoteEntry| MergeItem::Note(e),
            ),
    {
        let ghost before = merging@;
        for e in it: entries
            invariant
                it.seq() == entries@,
                merging@ =~= before + entries@.take(it.index() as int).map_values(
                    |e: NoteEntry| MergeItem::Note(e),
                ),
        {
            merging.queue.push_back(MergeItem::Note(e));
        }
        assert(entries@.take(entries@.len() as int) =~= entries@);
    }

    /// The merge of the server's changes: note types, decks, option groups and tags, and then
    /// the settings that came along.
    pub fn apply_changes(&self, remote: UnchunkedChanges, latest_usn: Usn) -> (merging: Merging)
        ensures
            merging@ == changes_to_merge(remote, latest_usn),
    {
        let mut merging = Merging::new();
        self.merge_notetypes(remote.notetypes, &mut merging);
        self.merge_decks(remote.decks_and_config.decks, &mut merging);
        self.merge_deck_config(remote.decks_and_config.config, &mut merging);
        self.merge_tags(remote.tags, latest_usn, &mut merging);
        if let Some(crt) = remote.creation_stamp {
            merging.queue.push_back(MergeItem::CreationStamp(crt));
        }
        if let Some(config) = remote.config {
            merging.queue.push_back(MergeItem::Config(config, latest_usn));
        }
        assert(merging@ =~= changes_to_merge(remote, latest_usn));
        merging
    }

    /// The merge of a chunk: reviews, cards and notes.
    pub fn apply_chunk(&self, chunk: Chunk) -> (merging: Merging)
        ensures
            merging@ == chunk_to_merge(chunk),
    {
        let mut merging = Merging::new();
        self.merge_revlog(chunk.revlog, &mut merging);
        self.merge_cards(chunk.cards, &mut merging);
        self.merge_notes(chunk.notes, &mut merging);
        assert(merging@ =~= chunk_to_merge(chunk));
        merging
    }
}

/// What is to be merged of the server's changes, in order.
pub open spec fn changes_to_merge(remote: UnchunkedChanges, latest_usn: Usn) -> Seq<MergeItem> {
    remote.notetypes@.map_values(|nt: NoteTypeSchema11| MergeItem::Notetype(nt))
        + remote.decks_and_config.decks@.map_values(|deck: DeckSchema11| MergeItem::Deck(deck))
        + remote.decks_and_config.config@.map_values(
        |conf: DeckConfSchema11| MergeItem::DeckConfig(conf),
    ) + remote.tags@.map_values(|tag: String| MergeItem::Tag(tag, latest_usn)) + (
    match remote.creation_stamp {
        Some(crt) => seq![MergeItem::CreationStamp(crt)],
        None => seq![],
    }) + (match remote.config {
        Some(config) => seq![MergeItem::Config(config, latest_usn)],
        None => seq![],
    })
}

/// What is to be merged of a chunk, in order.
pub open spec fn chunk_to_merge(chunk: Chunk) -> Seq<MergeItem> {
    chunk.revlog@.map_values(|e: ReviewLogEntry| MergeItem::Revlog(e)) + chunk.cards@.map_values(
        |e: CardEntry| MergeItem::Card(e),
    ) + chunk.notes@.map_values(|e: NoteEntry| MergeItem::Note(e))
}

/// The merge goes on with `next` where the storage answers the call with the error. Dropping an
/// object from a cache cannot fail.
pub open spec fn refused(call: MergeCall, error: AnkiError, next: MergeCall) -> bool {
    match call {
        MergeCall::FindNotetype { then, .. } => then.leads_to(Err(error), next),
        MergeCall::SaveNotetype { then, .. } => then.leads_to(Err(error), next),
        MergeCall::ForgetNotetype { .. } => false,
        MergeCall::FindDeck { then, .. } => then.leads_to(Err(error), next),
        MergeCall::SaveDeck { then, .. } => then.leads_to(Err(error), next),
        MergeCall::ForgetDeck { .. } => false,
        MergeCall::FindDeckConfig { then, .. } => then.leads_to(Err(error), next),
        MergeCall::SaveDeckConfig { then, .. } => then.leads_to(Err(error), next),
        MergeCall::RegisterTag { then, .. } => then.leads_to(Err(error), next),
        MergeCall::SetCreationStamp { then, .. } => then.leads_to(Err(error), next),
        MergeCall::SetAllConfig { then, .. } => then.leads_to(Err(error), next),
        MergeCall::AddRevlogEntry { then, .. } => then.leads_to(Err(error), next),
        MergeCall::FindCard { then, .. } => then.leads_to(Err(error), next),
        MergeCall::SaveCard { then, .. } => then.leads_to(Err(error), next),
        MergeCall::FindNote { then, .. } => then.leads_to(Err(error), next),
        MergeCall::FindNotetypeOfNote { then, .. } => then.leads_to(Err(error), next),
        MergeCall::PrepareNote { then, .. } => then.leads_to(Err(error), next),
        MergeCall::SaveNote { then, .. } => then.leads_to(Err(error), next),
        MergeCall::Finished => false,
        MergeCall::Failed(_) => false,
    }
}

/// The first error of the storage ends a merge, and is what it fails with.
pub proof fn law_storage_error_ends_the_merge(call: MergeCall, error: AnkiError, next: MergeCall)
    requires
        refused(call, error, next),
    ensures
        next == MergeCall::Failed(error),
{
}

} // verus!
