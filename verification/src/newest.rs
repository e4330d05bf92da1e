//! What a merge does to the collection: of two versions of an object, the newer stays.

use crate::ids::{CardID, DeckConfID, DeckID, NoteID, NoteTypeID, TimestampSecs, Usn};
use crate::merge;
use crate::merge::{MergeCall, MergeItem, NoteFound};
use crate::objects::{
    Card, DeckConfSchema11, DeckSchema11, Note, NoteTypeSchema11, ReviewLogEntry,
};
use std::collections::HashMap;
use vstd::prelude::*;

verus! {

/// The objects that a collection holds, by id. Of a note, which is worked over before it is
/// stored, there is only the time at which it was last changed; reviews and tags just come in.
#[verifier::ext_equal]
pub struct Shelves {
    pub notetypes: Map<NoteTypeID, NoteTypeSchema11>,
    pub decks: Map<DeckID, DeckSchema11>,
    pub deck_config: Map<DeckConfID, DeckConfSchema11>,
    pub cards: Map<CardID, Card>,
    pub notes: Map<NoteID, TimestampSecs>,
    pub reviews: Set<ReviewLogEntry>,
    pub tags: Set<(String, Usn)>,
    pub creation_stamp: Option<TimestampSecs>,
    /// The settings and their number, once they have come in as a whole.
    pub config: Option<(HashMap<String, serde_json::Value>, Usn)>,
}

/// What is kept under an id, if anything.
pub open spec fn found<K, V>(shelf: Map<K, V>, id: K) -> Option<V> {
    if shelf.contains_key(id) {
        Some(shelf[id])
    } else {
        None
    }
}

impl Shelves {
    /// A note is put in that was last changed at that time.
    pub open spec fn with_note(self, id: NoteID, mtime: TimestampSecs) -> Shelves {
        Shelves { notes: self.notes.insert(id, mtime), ..self }
    }

    /// Taking in one item: the object is put in unless there is one that is as new. Settings
    /// take the place of what was there.
    pub open spec fn take_in(self, item: MergeItem) -> Shelves {
        match item {
            MergeItem::Notetype(nt) => if merge::newer(
                merge::mtime_of_notetype(found(self.notetypes, nt.id)),
                nt.mtime,
            ) {
                Shelves { notetypes: self.notetypes.insert(nt.id, nt), ..self }
            } else {
                self
            },
            MergeItem::Deck(deck) => if merge::newer(
                merge::mtime_of_deck(found(self.decks, deck.id)),
                deck.mtime,
            ) {
                Shelves { decks: self.decks.insert(deck.id, deck), ..self }
            } else {
                self
            },
            MergeItem::DeckConfig(conf) => if merge::newer(
                merge::mtime_of_deck_config(found(self.deck_config, conf.id)),
                conf.mtime,
            ) {
                Shelves { deck_config: self.deck_config.insert(conf.id, conf), ..self }
            } else {
                self
            },
            MergeItem::Card(e) => if merge::newer(
                merge::mtime_of_card(found(self.cards, e.id)),
                e.mtime,
            ) {
                Shelves { cards: self.cards.insert(e.id, Card::of(e)), ..self }
            } else {
                self
            },
            MergeItem::Note(e) => if merge::newer(found(self.notes, e.id), e.mtime) {
                self.with_note(e.id, e.mtime)
            } else {
                self
            },
            MergeItem::Revlog(e) => Shelves { reviews: self.reviews.insert(e), ..self },
            MergeItem::Tag(tag, usn) => Shelves { tags: self.tags.insert((tag, usn)), ..self },
            MergeItem::CreationStamp(crt) => Shelves { creation_stamp: Some(crt), ..self },
            MergeItem::Config(config, usn) => Shelves { config: Some((config, usn)), ..self },
        }
    }

    /// Taking in all the items, in order.
    pub open spec fn take_in_all(self, items: Seq<MergeItem>) -> Shelves
        decreases items.len(),
    {
        if items.len() == 0 {
            self
        } else {
            self.take_in(items[0]).take_in_all(items.drop_first())
        }
    }

    /// The storage carries out `call` without an error, truthfully where it reads, and the
    /// merge goes on with `next`. Working over a note leaves alone what it is found by and when
    /// it was changed.
    pub open spec fn step(self, call: MergeCall, after: Shelves, next: MergeCall) -> bool {
        match call {
            MergeCall::FindNotetype { id, then } => after == self && then.leads_to(
                Ok(found(self.notetypes, id)),
                next,
            ),
            MergeCall::SaveNotetype { notetype, then } => after == (Shelves {
                notetypes: self.notetypes.insert(notetype.id, notetype),
                ..self
            }) && then.leads_to(Ok(()), next),
            MergeCall::ForgetNotetype { then, .. } => after == self && merge::goes_on(then@, next),
            MergeCall::FindDeck { id, then } => after == self && then.leads_to(
                Ok(found(self.decks, id)),
                next,
            ),
            MergeCall::SaveDeck { deck, then } => after == (Shelves {
                decks: self.decks.insert(deck.id, deck),
                ..self
            }) && then.leads_to(Ok(()), next),
            MergeCall::ForgetDeck { then, .. } => after == self && merge::goes_on(then@, next),
            MergeCall::FindDeckConfig { id, then } => after == self && then.leads_to(
                Ok(found(self.deck_config, id)),
                next,
            ),
            MergeCall::SaveDeckConfig { conf, then } => after == (Shelves {
                deck_config: self.deck_config.insert(conf.id, conf),
                ..self
            }) && then.leads_to(Ok(()), next),
            MergeCall::RegisterTag { tag, usn, then } => after == (Shelves {
                tags: self.tags.insert((tag, usn)),
                ..self
            }) && then.leads_to(Ok(()), next),
            MergeCall::SetCreationStamp { stamp, then } => after == (Shelves {
                creation_stamp: Some(stamp),
                ..self
            }) && then.leads_to(Ok(()), next),
            MergeCall::SetAllConfig { config, usn, then } => after == (Shelves {
                config: Some((config, usn)),
                ..self
            }) && then.leads_to(Ok(()), next),
            MergeCall::AddRevlogEntry { entry, then } => after == (Shelves {
                reviews: self.reviews.insert(entry),
                ..self
            }) && then.leads_to(Ok(()), next),
            MergeCall::FindCard { id, then } => after == self && then.leads_to(
                Ok(found(self.cards, id)),
                next,
            ),
            MergeCall::SaveCard { card, then } => after == (Shelves {
                cards: self.cards.insert(card.id, card),
                ..self
            }) && then.leads_to(Ok(()), next),
            MergeCall::FindNote { id, then } => after == self && exists|note: Option<Note>|
                merge::mtime_of_note(note) == found(self.notes, id) && then.leads_to(
                    Ok(note),
                    next,
                ),
            MergeCall::FindNotetypeOfNote { id, then } => after == self && then.leads_to(
                Ok(found(self.notetypes, id)),
                next,
            ),
            MergeCall::PrepareNote { note, then, .. } => after == self && exists|prepared: Note|
                prepared.id == note.id && prepared.mtime == note.mtime && then.leads_to(
                    Ok(prepared),
                    next,
                ),
            MergeCall::SaveNote { note, then } => after == self.with_note(note.id, note.mtime)
                && then.leads_to(Ok(()), next),
            MergeCall::Finished => false,
            MergeCall::Failed(_) => false,
        }
    }

    /// What the collection will hold if the merge goes on from `call` to its end.
    pub open spec fn outlook(self, call: MergeCall) -> Shelves {
        match call {
            MergeCall::FindNotetype { then, .. } => self.take_in(
                MergeItem::Notetype(then.notetype),
            ).take_in_all(then.rest@),
            MergeCall::SaveNotetype { notetype, then } => (Shelves {
                notetypes: self.notetypes.insert(notetype.id, notetype),
                ..self
            }).take_in_all(then.rest@),
            MergeCall::ForgetNotetype { then, .. } => self.take_in_all(then@),
            MergeCall::FindDeck { then, .. } => self.take_in(
                MergeItem::Deck(then.deck),
            ).take_in_all(then.rest@),
            MergeCall::SaveDeck { deck, then } => (Shelves {
                decks: self.decks.insert(deck.id, deck),
                ..self
            }).take_in_all(then.rest@),
            MergeCall::ForgetDeck { then, .. } => self.take_in_all(then@),
            MergeCall::FindDeckConfig { then, .. } => self.take_in(
                MergeItem::DeckConfig(then.conf),
            ).take_in_all(then.rest@),
            MergeCall::SaveDeckConfig { conf, then } => (Shelves {
                deck_config: self.deck_config.insert(conf.id, conf),
                ..self
            }).take_in_all(then@),
            MergeCall::RegisterTag { tag, usn, then } => self.take_in(
                MergeItem::Tag(tag, usn),
            ).take_in_all(then@),
            MergeCall::SetCreationStamp { stamp, then } => self.take_in(
                MergeItem::CreationStamp(stamp),
            ).take_in_all(then@),
            MergeCall::SetAllConfig { config, usn, then } => self.take_in(
                MergeItem::Config(config, usn),
            ).take_in_all(then@),
            MergeCall::AddRevlogEntry { entry, then } => self.take_in(
                MergeItem::Revlog(entry),
            ).take_in_all(then@),
            MergeCall::FindCard { then, .. } => self.take_in(
                MergeItem::Card(then.entry),
            ).take_in_all(then.rest@),
            MergeCall::SaveCard { card, then } => (Shelves {
                cards: self.cards.insert(card.id, card),
                ..self
            }).take_in_all(then@),
            MergeCall::FindNote { then, .. } => self.take_in(
                MergeItem::Note(then.entry),
            ).take_in_all(then.rest@),
            MergeCall::FindNotetypeOfNote { then, .. } => self.with_note(
                then.note.id,
                then.note.mtime,
            ).take_in_all(then.rest@),
            MergeCall::PrepareNote { note, then, .. } => self.with_note(
                note.id,
                note.mtime,
            ).take_in_all(then.rest@),
            MergeCall::SaveNote { note, then } => self.with_note(
                note.id,
                note.mtime,
            ).take_in_all(then@),
            MergeCall::Finished => self,
            MergeCall::Failed(_) => self,
        }
    }
}

/// The lookup is for the object that is to be merged.
pub open spec fn asks_for_its_own(call: MergeCall) -> bool {
    match call {
        MergeCall::FindNotetype { id, then } => id == then.notetype.id,
        MergeCall::FindDeck { id, then } => id == then.deck.id,
        MergeCall::FindDeckConfig { id, then } => id == then.conf.id,
        MergeCall::FindCard { id, then } => id == then.entry.id,
        MergeCall::FindNote { id, then } => id == then.entry.id,
        _ => true,
    }
}

proof fn lemma_goes_on(shelves: Shelves, items: Seq<MergeItem>, call: MergeCall)
    requires
        merge::goes_on(items, call),
    ensures
        asks_for_its_own(call),
        !(call is Failed),
        shelves.outlook(call) == shelves.take_in_all(items),
{
}

proof fn lemma_step_keeps_outlook(s: Shelves, call: MergeCall, after: Shelves, next: MergeCall)
    requires
        asks_for_its_own(call),
        s.step(call, after, next),
        !(next is Failed),
    ensures
        asks_for_its_own(next),
        after.outlook(next) == s.outlook(call),
{
    match call {
        MergeCall::FindNotetype { id, then } => {
            if !merge::newer(
                merge::mtime_of_notetype(found(s.notetypes, id)),
                then.notetype.mtime,
            ) {
                lemma_goes_on(after, then.rest@, next);
            }
        },
        MergeCall::ForgetNotetype { then, .. } => {
            lemma_goes_on(after, then@, next);
        },
        MergeCall::FindDeck { id, then } => {
            if !merge::newer(merge::mtime_of_deck(found(s.decks, id)), then.deck.mtime) {
                lemma_goes_on(after, then.rest@, next);
            }
        },
        MergeCall::ForgetDeck { then, .. } => {
            lemma_goes_on(after, then@, next);
        },
        MergeCall::FindDeckConfig { id, then } => {
            if !merge::newer(
                merge::mtime_of_deck_config(found(s.deck_config, id)),
                then.conf.mtime,
            ) {
                lemma_goes_on(after, then.rest@, next);
            }
        },
        MergeCall::SaveDeckConfig { then, .. } => {
            lemma_goes_on(after, then@, next);
        },
        MergeCall::RegisterTag { then, .. } => {
            lemma_goes_on(after, then@, next);
        },
        MergeCall::SetCreationStamp { then, .. } => {
            lemma_goes_on(after, then@, next);
        },
        MergeCall::SetAllConfig { then, .. } => {
            lemma_goes_on(after, then@, next);
        },
        MergeCall::AddRevlogEntry { then, .. } => {
            lemma_goes_on(after, then@, next);
        },
        MergeCall::FindCard { id, then } => {
            if !merge::newer(merge::mtime_of_card(found(s.cards, id)), then.entry.mtime) {
                lemma_goes_on(after, then.rest@, next);
            }
        },
        MergeCall::SaveCard { then, .. } => {
            lemma_goes_on(after, then@, next);
        },
        MergeCall::FindNote { id, then } => {
            let note = choose|note: Option<Note>|
                merge::mtime_of_note(note) == found(s.notes, id) && then.leads_to(Ok(note), next);
            if !merge::newer(merge::mtime_of_note(note), then.entry.mtime) {
                lemma_goes_on(after, then.rest@, next);
            }
        },
        MergeCall::SaveNote { then, .. } => {
            lemma_goes_on(after, then@, next);
        },
        _ => {},
    }
}

/// A merge in progress: the calls made one after the other, and what the collection holds
/// when each is made.
pub open spec fn merge_run(
    calls: Seq<MergeCall>,
    shelves: Seq<Shelves>,
    items: Seq<MergeItem>,
) -> bool {
    &&& calls.len() > 0
    &&& calls.len() == shelves.len()
    &&& merge::goes_on(items, calls[0])
    &&& forall|i: int|
        0 <= i < calls.len() - 1 ==> (#[trigger] shelves[i]).step(
            calls[i],
            shelves[i + 1],
            calls[i + 1],
        )
}

proof fn lemma_run_keeps_outlook(
    calls: Seq<MergeCall>,
    shelves: Seq<Shelves>,
    items: Seq<MergeItem>,
    n: int,
)
    requires
        merge_run(calls, shelves, items),
        0 <= n < calls.len(),
        !(calls[n] is Failed),
    ensures
        asks_for_its_own(calls[n]),
        shelves[n].outlook(calls[n]) == shelves[0].take_in_all(items),
    decreases n,
{
    if n == 0 {
        lemma_goes_on(shelves[0], items, calls[0]);
    } else {
        assert(shelves[n - 1].step(calls[n - 1], shelves[n], calls[n]));
        lemma_run_keeps_outlook(calls, shelves, items, n - 1);
        lemma_step_keeps_outlook(shelves[n - 1], calls[n - 1], shelves[n], calls[n]);
    }
}

/// When a merge has finished, the collection has taken in every item in order: each object is
/// there unless the collection had one that is as new.
pub proof fn law_finished_merge_has_taken_in_everything(
    calls: Seq<MergeCall>,
    shelves: Seq<Shelves>,
    items: Seq<MergeItem>,
)
    requires
        merge_run(calls, shelves, items),
        calls.last() is Finished,
    ensures
        shelves.last() == shelves[0].take_in_all(items),
{
    lemma_run_keeps_outlook(calls, shelves, items, calls.len() - 1);
}

/// The item brings no new object: it is there, or an object under its id that is as new.
pub open spec fn no_news(s: Shelves, item: MergeItem) -> bool {
    match item {
        MergeItem::Notetype(nt) => !merge::newer(
            merge::mtime_of_notetype(found(s.notetypes, nt.id)),
            nt.mtime,
        ),
        MergeItem::Deck(deck) => !merge::newer(
            merge::mtime_of_deck(found(s.decks, deck.id)),
            deck.mtime,
        ),
        MergeItem::DeckConfig(conf) => !merge::newer(
            merge::mtime_of_deck_config(found(s.deck_config, conf.id)),
            conf.mtime,
        ),
        MergeItem::Card(e) => !merge::newer(merge::mtime_of_card(found(s.cards, e.id)), e.mtime),
        MergeItem::Note(e) => !merge::newer(found(s.notes, e.id), e.mtime),
        MergeItem::Revlog(e) => s.reviews.contains(e),
        MergeItem::Tag(tag, usn) => s.tags.contains((tag, usn)),
        _ => true,
    }
}

proof fn lemma_no_news_stays(s: Shelves, item: MergeItem, items: Seq<MergeItem>)
    requires
        no_news(s, item),
    ensures
        no_news(s.take_in_all(items), item),
    decreases items.len(),
{
    if items.len() > 0 {
        lemma_no_news_stays(s.take_in(items[0]), item, items.drop_first());
    }
}

/// The two hold the same objects, whatever their settings.
spec fn same_objects(a: Shelves, b: Shelves) -> bool {
    a == Shelves { creation_stamp: a.creation_stamp, config: a.config, ..b }
}

proof fn lemma_no_news_changes_no_object(s: Shelves, items: Seq<MergeItem>)
    requires
        forall|i: int| 0 <= i < items.len() ==> no_news(s, #[trigger] items[i]),
    ensures
        same_objects(s.take_in_all(items), s),
    decreases items.len(),
{
    if items.len() > 0 {
        let rest = items.drop_first();
        let first = s.take_in(items[0]);
        assert(no_news(s, items[0]));
        assert(first =~= Shelves {
            creation_stamp: first.creation_stamp,
            config: first.config,
            ..s
        });
        assert forall|i: int| 0 <= i < rest.len() implies no_news(first, #[trigger] rest[i]) by {
            assert(rest[i] == items[i + 1]);
        }
        lemma_no_news_changes_no_object(first, rest);
    }
}

proof fn lemma_settings_take_the_place(s: Shelves, t: Shelves, items: Seq<MergeItem>)
    ensures
        ({
            let a = s.take_in_all(items);
            let b = t.take_in_all(items);
            &&& a.creation_stamp == b.creation_stamp || a.creation_stamp == s.creation_stamp
                && b.creation_stamp == t.creation_stamp
            &&& a.config == b.config || a.config == s.config && b.config == t.config
        }),
    decreases items.len(),
{
    if items.len() > 0 {
        lemma_settings_take_the_place(
            s.take_in(items[0]),
            t.take_in(items[0]),
            items.drop_first(),
        );
    }
}

/// Once items are taken in, each of them is there, or something as new under its id.
pub proof fn law_items_taken_in_are_no_news(s: Shelves, items: Seq<MergeItem>)
    ensures
        forall|i: int| 0 <= i < items.len() ==> no_news(s.take_in_all(items), #[trigger] items[i]),
    decreases items.len(),
{
    if items.len() > 0 {
        let rest = items.drop_first();
        law_items_taken_in_are_no_news(s.take_in(items[0]), rest);
        lemma_no_news_stays(s.take_in(items[0]), items[0], rest);
        assert forall|i: int| 0 <= i < items.len() implies no_news(
            s.take_in_all(items),
            #[trigger] items[i],
        ) by {
            if i > 0 {
                assert(items[i] == rest[i - 1]);
            }
        }
    }
}

/// Merging the same items again changes nothing.
pub proof fn law_merging_again_changes_nothing(s: Shelves, items: Seq<MergeItem>)
    ensures
        s.take_in_all(items).take_in_all(items) == s.take_in_all(items),
{
    law_items_taken_in_are_no_news(s, items);
    let after = s.take_in_all(items);
    lemma_no_news_changes_no_object(after, items);
    lemma_settings_take_the_place(s, after, items);
}

/// No object is lost or replaced by one that is not newer.
pub open spec fn none_older(s: Shelves, after: Shelves) -> bool {
    &&& forall|id: NoteTypeID| #[trigger]
        s.notetypes.contains_key(id) ==> after.notetypes.contains_key(id) && (
        after.notetypes[id] == s.notetypes[id] || s.notetypes[id].mtime.0
            < after.notetypes[id].mtime.0)
    &&& forall|id: DeckID| #[trigger]
        s.decks.contains_key(id) ==> after.decks.contains_key(id) && (after.decks[id]
            == s.decks[id] || s.decks[id].mtime.0 < after.decks[id].mtime.0)
    &&& forall|id: DeckConfID| #[trigger]
        s.deck_config.contains_key(id) ==> after.deck_config.contains_key(id) && (
        after.deck_config[id] == s.deck_config[id] || s.deck_config[id].mtime.0
            < after.deck_config[id].mtime.0)
    &&& forall|id: CardID| #[trigger]
        s.cards.contains_key(id) ==> after.cards.contains_key(id) && (after.cards[id]
            == s.cards[id] || s.cards[id].mtime.0 < after.cards[id].mtime.0)
    &&& forall|id: NoteID| #[trigger]
        s.notes.contains_key(id) ==> after.notes.contains_key(id) && s.notes[id].0
            <= after.notes[id].0
    &&& s.reviews.subset_of(after.reviews)
    &&& s.tags.subset_of(after.tags)
}

/// A merge never loses an object, nor replaces one by another that is not newer.
pub proof fn law_merge_never_goes_back(s: Shelves, items: Seq<MergeItem>)
    ensures
        none_older(s, s.take_in_all(items)),
    decreases items.len(),
{
    if items.len() > 0 {
        law_merge_never_goes_back(s.take_in(items[0]), items.drop_first());
        assert(none_older(s, s.take_in(items[0])));
    }
}

/// Every object and setting comes from before or out of the items, and an object stands
/// under its own id if it does the latter.
pub open spec fn none_made_up(s: Shelves, items: Seq<MergeItem>, after: Shelves) -> bool {
    &&& forall|id: NoteTypeID| #[trigger]
        after.notetypes.contains_key(id) ==> found(s.notetypes, id) == Some(after.notetypes[id])
            || after.notetypes[id].id == id && items.contains(
            MergeItem::Notetype(after.notetypes[id]),
        )
    &&& forall|id: DeckID| #[trigger]
        after.decks.contains_key(id) ==> found(s.decks, id) == Some(after.decks[id])
            || after.decks[id].id == id && items.contains(MergeItem::Deck(after.decks[id]))
    &&& forall|id: DeckConfID| #[trigger]
        after.deck_config.contains_key(id) ==> found(s.deck_config, id) == Some(
            after.deck_config[id],
        ) || after.deck_config[id].id == id && items.contains(
            MergeItem::DeckConfig(after.deck_config[id]),
        )
    &&& forall|id: CardID| #[trigger]
        after.cards.contains_key(id) ==> found(s.cards, id) == Some(after.cards[id]) || exists|
            i: int,
        |
            0 <= i < items.len() && (#[trigger] items[i] matches MergeItem::Card(e) && e.id == id
                && Card::of(e) == after.cards[id])
    &&& forall|id: NoteID| #[trigger]
        after.notes.contains_key(id) ==> found(s.notes, id) == Some(after.notes[id]) || exists|
            i: int,
        |
            0 <= i < items.len() && (#[trigger] items[i] matches MergeItem::Note(e) && e.id == id
                && e.mtime == after.notes[id])
    &&& forall|e: ReviewLogEntry| #[trigger]
        after.reviews.contains(e) ==> s.reviews.contains(e) || items.contains(MergeItem::Revlog(e))
    &&& forall|tag: String, usn: Usn| #[trigger]
        after.tags.contains((tag, usn)) ==> s.tags.contains((tag, usn)) || items.contains(
            MergeItem::Tag(tag, usn),
        )
    &&& after.creation_stamp == s.creation_stamp || (after.creation_stamp matches Some(crt)
        && items.contains(MergeItem::CreationStamp(crt)))
    &&& after.config == s.config || (after.config matches Some((config, usn)) && items.contains(
        MergeItem::Config(config, usn),
    ))
}

/// A merge puts nothing into the collection but what was sent.
pub proof fn law_merge_makes_nothing_up(s: Shelves, items: Seq<MergeItem>)
    ensures
        none_made_up(s, items, s.take_in_all(items)),
    decreases items.len(),
{
    let after = s.take_in_all(items);
    if items.len() > 0 {
        let rest = items.drop_first();
        let first = s.take_in(items[0]);
        law_merge_makes_nothing_up(first, rest);
        assert(items.contains(items[0]));
        assert forall|item: MergeItem| rest.contains(item) implies items.contains(item) by {
            let i = choose|i: int| 0 <= i < rest.len() && rest[i] == item;
            assert(items[i + 1] == item);
        }
        assert forall|id: CardID| #[trigger] after.cards.contains_key(id) implies found(
            s.cards,
            id,
        ) == Some(after.cards[id]) || exists|i: int|
            0 <= i < items.len() && (#[trigger] items[i] matches MergeItem::Card(e) && e.id == id
                && Card::of(e) == after.cards[id]) by {
            if found(first.cards, id) != Some(after.cards[id]) {
                let i = choose|i: int|
                    0 <= i < rest.len() && (#[trigger] rest[i] matches MergeItem::Card(e) && e.id
                        == id && Card::of(e) == after.cards[id]);
                assert(items[i + 1] == rest[i]);
            } else if found(s.cards, id) != Some(after.cards[id]) {
                assert(items[0] matches MergeItem::Card(e) && e.id == id && Card::of(e)
                    == after.cards[id]);
            }
        }
        assert forall|id: NoteID| #[trigger] after.notes.contains_key(id) implies found(
            s.notes,
            id,
        ) == Some(after.notes[id]) || exists|i: int|
            0 <= i < items.len() && (#[trigger] items[i] matches MergeItem::Note(e) && e.id == id
                && e.mtime == after.notes[id]) by {
            if found(first.notes, id) != Some(after.notes[id]) {
                let i = choose|i: int|
                    0 <= i < rest.len() && (#[trigger] rest[i] matches MergeItem::Note(e) && e.id
                        == id && e.mtime == after.notes[id]);
                assert(items[i + 1] == rest[i]);
            } else if found(s.notes, id) != Some(after.notes[id]) {
                assert(items[0] matches MergeItem::Note(e) && e.id == id && e.mtime
                    == after.notes[id]);
            }
        }
    }
}

/// The two items are versions of one object, changed at the same time, or settings of the same
/// kind.
pub open spec fn clash(a: MergeItem, b: MergeItem) -> bool {
    match (a, b) {
        (MergeItem::Notetype(x), MergeItem::Notetype(y)) => x.id == y.id && x.mtime == y.mtime,
        (MergeItem::Deck(x), MergeItem::Deck(y)) => x.id == y.id && x.mtime == y.mtime,
        (MergeItem::DeckConfig(x), MergeItem::DeckConfig(y)) => x.id == y.id && x.mtime == y.mtime,
        (MergeItem::Card(x), MergeItem::Card(y)) => x.id == y.id && x.mtime == y.mtime,
        (MergeItem::CreationStamp(_), MergeItem::CreationStamp(_)) => true,
        (MergeItem::Config(_, _), MergeItem::Config(_, _)) => true,
        _ => false,
    }
}

/// The order in which two items are merged does not matter, unless they are versions of one
/// object that were changed at the same time, or settings of the same kind.
pub proof fn law_merge_order_does_not_matter(s: Shelves, a: MergeItem, b: MergeItem)
    requires
        !clash(a, b),
    ensures
        s.take_in(a).take_in(b) == s.take_in(b).take_in(a),
{
    assert(s.take_in(a).take_in(b) =~= s.take_in(b).take_in(a));
}

proof fn lemma_item_may_come_last(s: Shelves, item: MergeItem, items: Seq<MergeItem>)
    requires
        forall|i: int| 0 <= i < items.len() ==> !clash(item, #[trigger] items[i]),
    ensures
        s.take_in(item).take_in_all(items) == s.take_in_all(items).take_in(item),
    decreases items.len(),
{
    if items.len() > 0 {
        let rest = items.drop_first();
        assert(!clash(item, items[0]));
        law_merge_order_does_not_matter(s, item, items[0]);
        assert forall|i: int| 0 <= i < rest.len() implies !clash(item, #[trigger] rest[i]) by {
            assert(rest[i] == items[i + 1]);
        }
        lemma_item_may_come_last(s.take_in(items[0]), item, rest);
    }
}

/// Two lots of items may be merged in either order, as long as they do not hold versions of
/// one object that were changed at the same time, or settings of the same kind.
pub proof fn law_lots_may_be_merged_in_either_order(
    s: Shelves,
    a: Seq<MergeItem>,
    b: Seq<MergeItem>,
)
    requires
        forall|i: int, j: int|
            0 <= i < a.len() && 0 <= j < b.len() ==> !clash(#[trigger] a[i], #[trigger] b[j]),
    ensures
        s.take_in_all(a).take_in_all(b) == s.take_in_all(b).take_in_all(a),
    decreases a.len(),
{
    if a.len() > 0 {
        let rest = a.drop_first();
        assert forall|j: int| 0 <= j < b.len() implies !clash(a[0], #[trigger] b[j]) by {}
        lemma_item_may_come_last(s, a[0], b);
        assert forall|i: int, j: int|
            0 <= i < rest.len() && 0 <= j < b.len() implies !clash(
            #[trigger] rest[i],
            #[trigger] b[j],
        ) by {
            assert(rest[i] == a[i + 1]);
        }
        law_lots_may_be_merged_in_either_order(s.take_in(a[0]), rest, b);
    }
}

/// The note stands for one of the notes among the items.
pub open spec fn note_of(items: Seq<MergeItem>, note: Note) -> bool {
    exists|i: int|
        0 <= i < items.len() && (#[trigger] items[i] matches MergeItem::Note(e) && note.is_from(e))
}

/// What is still to be merged is the end of the items.
spec fn ends(items: Seq<MergeItem>, rest: Seq<MergeItem>) -> bool {
    rest.len() <= items.len() && rest == items.skip(items.len() - rest.len())
}

/// What a call goes on with is the end of the items, and the note that it is about is one of
/// them.
spec fn of_the_items(items: Seq<MergeItem>, call: MergeCall) -> bool {
    match call {
        MergeCall::FindNotetype { then, .. } => ends(items, then.rest@),
        MergeCall::SaveNotetype { then, .. } => ends(items, then.rest@),
        MergeCall::ForgetNotetype { then, .. } => ends(items, then@),
        MergeCall::FindDeck { then, .. } => ends(items, then.rest@),
        MergeCall::SaveDeck { then, .. } => ends(items, then.rest@),
        MergeCall::ForgetDeck { then, .. } => ends(items, then@),
        MergeCall::FindDeckConfig { then, .. } => ends(items, then.rest@),
        MergeCall::SaveDeckConfig { then, .. } => ends(items, then@),
        MergeCall::RegisterTag { then, .. } => ends(items, then@),
        MergeCall::SetCreationStamp { then, .. } => ends(items, then@),
        MergeCall::SetAllConfig { then, .. } => ends(items, then@),
        MergeCall::AddRevlogEntry { then, .. } => ends(items, then@),
        MergeCall::FindCard { then, .. } => ends(items, then.rest@),
        MergeCall::SaveCard { then, .. } => ends(items, then@),
        MergeCall::FindNote { then, .. } => ends(items, then.rest@) && items.contains(
            MergeItem::Note(then.entry),
        ),
        MergeCall::FindNotetypeOfNote { id, then } => {
            &&& ends(items, then.rest@)
            &&& note_of(items, then.note)
            &&& id == then.note.ntid
        },
        MergeCall::PrepareNote { note, normalize, then, .. } => {
            &&& ends(items, then.rest@)
            &&& note_of(items, note)
            &&& !normalize
        },
        MergeCall::SaveNote { then, .. } => ends(items, then@),
        MergeCall::Finished => true,
        MergeCall::Failed(_) => true,
    }
}

proof fn lemma_goes_on_with_the_items(
    items: Seq<MergeItem>,
    rest: Seq<MergeItem>,
    call: MergeCall,
)
    requires
        ends(items, rest),
        merge::goes_on(rest, call),
    ensures
        of_the_items(items, call),
        !(call is SaveNote),
        !(call is PrepareNote),
{
    if rest.len() > 0 {
        assert(rest.drop_first() =~= items.skip(items.len() - (rest.len() - 1)));
        assert(items[items.len() - rest.len()] == rest[0]);
    }
}

proof fn lemma_step_stays_with_the_items(
    items: Seq<MergeItem>,
    s: Shelves,
    call: MergeCall,
    after: Shelves,
    next: MergeCall,
)
    requires
        of_the_items(items, call),
        s.step(call, after, next),
    ensures
        of_the_items(items, next),
        next is SaveNote ==> call is PrepareNote,
        next matches MergeCall::PrepareNote { note, notetype, .. } ==> found(
            s.notetypes,
            note.ntid,
        ) == Some(notetype),
{
    match call {
        MergeCall::FindNotetype { then, .. } => {
            if merge::goes_on(then.rest@, next) {
                lemma_goes_on_with_the_items(items, then.rest@, next);
            }
        },
        MergeCall::ForgetNotetype { then, .. } => {
            lemma_goes_on_with_the_items(items, then@, next);
        },
        MergeCall::FindDeck { then, .. } => {
            if merge::goes_on(then.rest@, next) {
                lemma_goes_on_with_the_items(items, then.rest@, next);
            }
        },
        MergeCall::ForgetDeck { then, .. } => {
            lemma_goes_on_with_the_items(items, then@, next);
        },
        MergeCall::FindDeckConfig { then, .. } => {
            if merge::goes_on(then.rest@, next) {
                lemma_goes_on_with_the_items(items, then.rest@, next);
            }
        },
        MergeCall::SaveDeckConfig { then, .. } => {
            lemma_goes_on_with_the_items(items, then@, next);
        },
        MergeCall::RegisterTag { then, .. } => {
            lemma_goes_on_with_the_items(items, then@, next);
        },
        MergeCall::SetCreationStamp { then, .. } => {
            lemma_goes_on_with_the_items(items, then@, next);
        },
        MergeCall::SetAllConfig { then, .. } => {
            lemma_goes_on_with_the_items(items, then@, next);
        },
        MergeCall::AddRevlogEntry { then, .. } => {
            lemma_goes_on_with_the_items(items, then@, next);
        },
        MergeCall::FindCard { then, .. } => {
            if merge::goes_on(then.rest@, next) {
                lemma_goes_on_with_the_items(items, then.rest@, next);
            }
        },
        MergeCall::SaveCard { then, .. } => {
            lemma_goes_on_with_the_items(items, then@, next);
        },
        MergeCall::FindNote { id, then } => {
            let note = choose|note: Option<Note>|
                merge::mtime_of_note(note) == found(s.notes, id) && then.leads_to(Ok(note), next);
            if !merge::newer(merge::mtime_of_note(note), then.entry.mtime) {
                lemma_goes_on_with_the_items(items, then.rest@, next);
            } else {
                let i = choose|i: int|
                    0 <= i < items.len() && items[i] == MergeItem::Note(then.entry);
                assert(items[i] is Note);
            }
        },
        MergeCall::SaveNote { then, .. } => {
            lemma_goes_on_with_the_items(items, then@, next);
        },
        _ => {},
    }
}

proof fn lemma_run_stays_with_the_items(
    calls: Seq<MergeCall>,
    shelves: Seq<Shelves>,
    items: Seq<MergeItem>,
    n: int,
)
    requires
        merge_run(calls, shelves, items),
        0 <= n < calls.len(),
    ensures
        of_the_items(items, calls[n]),
        n == 0 ==> !(calls[n] is SaveNote) && !(calls[n] is PrepareNote),
    decreases n,
{
    if n == 0 {
        assert(items.skip(0) =~= items);
        lemma_goes_on_with_the_items(items, items, calls[0]);
    } else {
        assert(shelves[n - 1].step(calls[n - 1], shelves[n], calls[n]));
        lemma_run_stays_with_the_items(calls, shelves, items, n - 1);
        lemma_step_stays_with_the_items(
            items,
            shelves[n - 1],
            calls[n - 1],
            shelves[n],
            calls[n],
        );
    }
}

/// A note is stored only right after it was brought into the form for that, and what was
/// brought into that form is the note that one of the items stands for, by the note type that
/// the collection holds under the note's own number, without normalizing the text.
pub proof fn law_stored_note_comes_of_an_item(
    calls: Seq<MergeCall>,
    shelves: Seq<Shelves>,
    items: Seq<MergeItem>,
    n: int,
)
    requires
        merge_run(calls, shelves, items),
        0 <= n < calls.len(),
        calls[n] is SaveNote,
    ensures
        n > 1,
        calls[n - 1] matches MergeCall::PrepareNote { note, notetype, normalize, .. } && {
            &&& note_of(items, note)
            &&& found(shelves[n - 2].notetypes, note.ntid) == Some(notetype)
            &&& !normalize
            &&& calls[n]->SaveNote_note.id == note.id
            &&& calls[n]->SaveNote_note.mtime == note.mtime
        },
{
    lemma_run_stays_with_the_items(calls, shelves, items, n);
    lemma_run_stays_with_the_items(calls, shelves, items, n - 1);
    assert(shelves[n - 1].step(calls[n - 1], shelves[n], calls[n]));
    lemma_step_stays_with_the_items(items, shelves[n - 1], calls[n - 1], shelves[n], calls[n]);
    lemma_run_stays_with_the_items(calls, shelves, items, n - 2);
    assert(shelves[n - 2].step(calls[n - 2], shelves[n - 1], calls[n - 1]));
    lemma_step_stays_with_the_items(
        items,
        shelves[n - 2],
        calls[n - 2],
        shelves[n - 1],
        calls[n - 1],
    );
}

/// A note is not touched while the collection has one that is as new: the merge goes on with
/// the next item.
pub proof fn law_stale_note_is_skipped(
    note: NoteFound,
    existing: Note,
    call: MergeCall,
)
    requires
        note.leads_to(Ok(Some(existing)), call),
        note.entry.mtime.0 <= existing.mtime.0,
    ensures
        merge::goes_on(note.rest@, call),
{
}

} // verus!
