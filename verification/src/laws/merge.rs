//! On merging what comes from the server.

use crate::changes::UnchunkedChanges;
use crate::chunk::Chunk;
use crate::collection::Collection;
use crate::error::{AnkiError, SyncErrorKind};
use crate::ids::{CardID, DeckConfID, DeckID, NoteID, NoteTypeID, Usn};
use crate::laws::objects;
use crate::merge::{
    CardFound, DeckConfigFound, DeckFound, DeckSaved, MergeCall, MergeItem, Merging, NoteFound,
    NotePrepared, NotetypeFound, NotetypeOfNote, NotetypeSaved,
};
use crate::newest;
use crate::newest::Shelves;
use crate::objects::{
    Card, CardEntry, DeckConfSchema11, DeckSchema11, Note, NoteEntry, NoteTypeSchema11,
    ReviewLogEntry,
};
use crate::text;
use crate::text::{split_fields, split_tags};
use vstd::prelude::*;

verus! {

/// The items are the chunk's reviews, then its cards, then its notes, each in order and none left
/// out.
pub open spec fn lists_the_chunk(chunk: Chunk, items: Seq<MergeItem>) -> bool {
    let reviews = chunk.revlog@.len() as int;
    let cards = chunk.cards@.len() as int;
    &&& items.len() == chunk.revlog@.len() + chunk.cards@.len() + chunk.notes@.len()
    &&& forall|i: int|
        0 <= i < chunk.revlog@.len() ==> items[i] == MergeItem::Revlog(#[trigger] chunk.revlog@[i])
    &&& forall|i: int|
        0 <= i < chunk.cards@.len() ==> items[reviews + i] == MergeItem::Card(
            #[trigger] chunk.cards@[i],
        )
    &&& forall|i: int|
        0 <= i < chunk.notes@.len() ==> items[reviews + cards + i] == MergeItem::Note(
            #[trigger] chunk.notes@[i],
        )
}

/// Of every chunk, the last or not, all reviews, cards and notes are merged, in that order.
pub proof fn law_chunk_is_merged_as_a_whole(col: Collection, chunk: Chunk, merging: Merging)
    requires
        call_ensures(Collection::apply_chunk, (&col, chunk), merging),
    ensures
        lists_the_chunk(chunk, merging.queue@),
        forall|i: int|
            0 <= i < chunk.revlog@.len() ==> merging.queue@.contains(
                MergeItem::Revlog(#[trigger] chunk.revlog@[i]),
            ),
        forall|i: int|
            0 <= i < chunk.cards@.len() ==> merging.queue@.contains(
                MergeItem::Card(#[trigger] chunk.cards@[i]),
            ),
        forall|i: int|
            0 <= i < chunk.notes@.len() ==> merging.queue@.contains(
                MergeItem::Note(#[trigger] chunk.notes@[i]),
            ),
{
    let items = merging.queue@;
    let reviews = chunk.revlog@.len() as int;
    let cards = chunk.cards@.len() as int;
    assert(lists_the_chunk(chunk, items));
    assert forall|i: int| 0 <= i < chunk.revlog@.len() implies items.contains(
        MergeItem::Revlog(#[trigger] chunk.revlog@[i]),
    ) by {
        assert(items[i] == MergeItem::Revlog(chunk.revlog@[i]));
    }
    assert forall|i: int| 0 <= i < chunk.cards@.len() implies items.contains(
        MergeItem::Card(#[trigger] chunk.cards@[i]),
    ) by {
        assert(items[reviews + i] == MergeItem::Card(chunk.cards@[i]));
    }
    assert forall|i: int| 0 <= i < chunk.notes@.len() implies items.contains(
        MergeItem::Note(#[trigger] chunk.notes@[i]),
    ) by {
        assert(items[reviews + cards + i] == MergeItem::Note(chunk.notes@[i]));
    }
}

/// The items are the note types, the decks, the option groups and the tags of the changes, each
/// in order and none left out, and at the end the settings that came along.
pub open spec fn lists_the_changes(
    remote: UnchunkedChanges,
    latest_usn: Usn,
    items: Seq<MergeItem>,
) -> bool {
    let notetypes = remote.notetypes@;
    let decks = remote.decks_and_config.decks@;
    let config = remote.decks_and_config.config@;
    let tags = remote.tags@;
    let objects = (notetypes.len() + decks.len() + config.len() + tags.len()) as int;
    &&& forall|i: int|
        0 <= i < notetypes.len() ==> items[i] == MergeItem::Notetype(#[trigger] notetypes[i])
    &&& forall|i: int|
        0 <= i < decks.len() ==> items[notetypes.len() + i] == MergeItem::Deck(#[trigger] decks[i])
    &&& forall|i: int|
        0 <= i < config.len() ==> items[notetypes.len() + decks.len() + i] == MergeItem::DeckConfig(
            #[trigger] config[i],
        )
    &&& forall|i: int|
        0 <= i < tags.len() ==> items[notetypes.len() + decks.len() + config.len() + i]
            == MergeItem::Tag(#[trigger] tags[i], latest_usn)
    &&& match (remote.creation_stamp, remote.config) {
        (None, None) => items.len() == objects,
        (Some(crt), None) => items.len() == objects + 1 && items[objects]
            == MergeItem::CreationStamp(crt),
        (None, Some(settings)) => items.len() == objects + 1 && items[objects]
            == MergeItem::Config(settings, latest_usn),
        (Some(crt), Some(settings)) => items.len() == objects + 2 && items[objects]
            == MergeItem::CreationStamp(crt) && items[objects + 1] == MergeItem::Config(
            settings,
            latest_usn,
        ),
    }
}

/// All of the server's changes are merged, tags and settings under the latest number.
pub proof fn law_changes_are_merged_as_a_whole(
    col: Collection,
    remote: UnchunkedChanges,
    latest_usn: Usn,
    merging: Merging,
)
    requires
        call_ensures(Collection::apply_changes, (&col, remote, latest_usn), merging),
    ensures
        lists_the_changes(remote, latest_usn, merging.queue@),
{
}

/// The rest of the items is still to be merged.
pub open spec fn rest_of(items: Seq<MergeItem>, rest: Merging) -> bool {
    &&& rest.queue@.len() + 1 == items.len()
    &&& forall|i: int| 0 <= i < rest.queue@.len() ==> #[trigger] rest.queue@[i] == items[i + 1]
}

/// The call looks the first item up, or hands it to the storage, and the rest is to follow. It is
/// the end only if there is no item.
pub open spec fn takes_up_the_first(items: Seq<MergeItem>, call: MergeCall) -> bool {
    if items.len() == 0 {
        call is Finished
    } else {
        match items[0] {
            MergeItem::Notetype(nt) => call matches MergeCall::FindNotetype { id, then } && id
                == nt.id && then.notetype == nt && rest_of(items, then.rest),
            MergeItem::Deck(deck) => call matches MergeCall::FindDeck { id, then } && id == deck.id
                && then.deck == deck && rest_of(items, then.rest),
            MergeItem::DeckConfig(conf) => call matches MergeCall::FindDeckConfig { id, then } && id
                == conf.id && then.conf == conf && rest_of(items, then.rest),
            MergeItem::Tag(tag, usn) => call matches MergeCall::RegisterTag { tag: t, usn: u, then }
                && t == tag && u == usn && rest_of(items, then),
            MergeItem::CreationStamp(crt) => call matches MergeCall::SetCreationStamp { stamp, then }
                && stamp == crt && rest_of(items, then),
            MergeItem::Config(settings, usn) => call matches MergeCall::SetAllConfig {
                config,
                usn: u,
                then,
            } && config == settings && u == usn && rest_of(items, then),
            MergeItem::Revlog(e) => call matches MergeCall::AddRevlogEntry { entry, then } && entry
                == e && rest_of(items, then),
            MergeItem::Card(e) => call matches MergeCall::FindCard { id, then } && id == e.id
                && then.entry == e && rest_of(items, then.rest),
            MergeItem::Note(e) => call matches MergeCall::FindNote { id, then } && id == e.id
                && then.entry == e && rest_of(items, then.rest),
        }
    }
}

/// A merge goes on with the next item, up to the end. An error of the storage is its end, too.
pub proof fn law_merge_takes_up_one_item_after_the_other(
    merging: Merging,
    first: MergeCall,
    reply: Result<(), AnkiError>,
    call: MergeCall,
)
    requires
        call_ensures(Merging::go_on, (merging,), first),
        call_ensures(Merging::resume, (merging, reply), call),
    ensures
        takes_up_the_first(merging.queue@, first),
        reply matches Err(e) ==> call == MergeCall::Failed(e),
        reply is Ok ==> takes_up_the_first(merging.queue@, call),
{
}

/// A deck that comes in is saved as it is if the collection has none under its id, or one that
/// was changed earlier. If the one it has is as new or newer, the merge goes on without it.
pub proof fn law_deck_is_saved_if_newer(
    asked: DeckFound,
    reply: Result<Option<DeckSchema11>, AnkiError>,
    call: MergeCall,
)
    requires
        call_ensures(DeckFound::resume, (asked, reply), call),
    ensures
        reply matches Err(e) ==> call == MergeCall::Failed(e),
        reply matches Ok(existing) ==> {
            let replaces = existing is None || existing->0.mtime.0 < asked.deck.mtime.0;
            &&& replaces ==> (call matches MergeCall::SaveDeck { deck, then } && deck == asked.deck && then.id
                == asked.deck.id && then.rest == asked.rest)
            &&& !replaces ==> takes_up_the_first(asked.rest.queue@, call)
        },
{
}

/// An option group that comes in is saved as it is if the collection has none under its id, or one that
/// was changed earlier. If the one it has is as new or newer, the merge goes on without it.
pub proof fn law_deck_config_is_saved_if_newer(
    asked: DeckConfigFound,
    reply: Result<Option<DeckConfSchema11>, AnkiError>,
    call: MergeCall,
)
    requires
        call_ensures(DeckConfigFound::resume, (asked, reply), call),
    ensures
        reply matches Err(e) ==> call == MergeCall::Failed(e),
        reply matches Ok(existing) ==> {
            let replaces = existing is None || existing->0.mtime.0 < asked.conf.mtime.0;
            &&& replaces ==> (call matches MergeCall::SaveDeckConfig { conf, then } && conf == asked.conf && then
                == asked.rest)
            &&& !replaces ==> takes_up_the_first(asked.rest.queue@, call)
        },
{
}

/// A note type that comes in is saved as it is if the collection has none under its id, or one
/// that was changed earlier and has as many fields and templates. One that was changed earlier
/// but has other numbers of these takes a full sync. If the one it has is as new or newer, the
/// merge goes on without the other.
pub proof fn law_notetype_is_saved_if_newer(
    asked: NotetypeFound,
    reply: Result<Option<NoteTypeSchema11>, AnkiError>,
    call: MergeCall,
)
    requires
        call_ensures(NotetypeFound::resume, (asked, reply), call),
    ensures
        reply matches Err(e) ==> call == MergeCall::Failed(e),
        reply matches Ok(existing) ==> {
            let replaces = existing is None || existing->0.mtime.0 < asked.notetype.mtime.0;
            let fits = existing is None || existing->0.fields@.len() == asked.notetype.fields@.len()
                && existing->0.templates@.len() == asked.notetype.templates@.len();
            &&& replaces && fits ==> (call matches MergeCall::SaveNotetype { notetype, then }
                && notetype == asked.notetype && then.id == asked.notetype.id && then.rest
                == asked.rest)
            &&& replaces && !fits ==> (call matches MergeCall::Failed(
                AnkiError::SyncError { info, kind },
            ) && info@ == "notetype schema changed"@ && kind == SyncErrorKind::ResyncRequired)
            &&& !replaces ==> takes_up_the_first(asked.rest.queue@, call)
        },
{
}

/// A card that comes in is saved with all its fields if the collection has none under its id, or
/// one that was changed earlier. If the one it has is as new or newer, the merge goes on without
/// it.
pub proof fn law_card_is_saved_if_newer(
    asked: CardFound,
    reply: Result<Option<Card>, AnkiError>,
    call: MergeCall,
)
    requires
        call_ensures(CardFound::resume, (asked, reply), call),
    ensures
        reply matches Err(e) ==> call == MergeCall::Failed(e),
        reply matches Ok(existing) ==> {
            let replaces = existing is None || existing->0.mtime.0 < asked.entry.mtime.0;
            &&& replaces ==> (call matches MergeCall::SaveCard { card, then } && objects::same_card(
                card,
                asked.entry,
            ) && card.usn == asked.entry.usn && then == asked.rest)
            &&& !replaces ==> takes_up_the_first(asked.rest.queue@, call)
        },
{
}

/// The card to be stored is the one that came in if there is none yet, or an older one, and there
/// is none to be stored otherwise.
pub proof fn law_newer_card_is_to_be_stored(
    existing: Option<Card>,
    entry: CardEntry,
    res: Option<Card>,
)
    requires
        call_ensures(Collection::add_or_update_card_if_newer, (existing, entry), res),
    ensures
        res is Some <==> existing is None || existing->0.mtime.0 < entry.mtime.0,
        res matches Some(card) ==> objects::same_card(card, entry) && card.usn == entry.usn,
{
}

/// The note is the one that the entry stands for, with its tags and fields split.
pub open spec fn note_of_entry(note: Note, entry: NoteEntry) -> bool {
    &&& note.id == entry.id
    &&& note.guid == entry.guid
    &&& note.ntid == entry.ntid
    &&& note.mtime == entry.mtime
    &&& note.usn == entry.usn
    &&& note.sort_field is None
    &&& note.checksum is None
    &&& forall|s: &str, tags: Vec<String>|
        s@ == entry.tags@ && #[trigger] call_ensures(split_tags, (s,), tags) ==> same_texts(
            note.tags@,
            tags@,
        )
    &&& forall|s: &str, fields: Vec<String>|
        s@ == entry.fields@ && #[trigger] call_ensures(split_fields, (s,), fields)
            ==> same_texts(note.fields@, fields@)
}

/// The strings read the same.
pub open spec fn same_texts(a: Seq<String>, b: Seq<String>) -> bool {
    &&& a.len() == b.len()
    &&& forall|i: int| 0 <= i < a.len() ==> (#[trigger] a[i])@ == b[i]@
}

proof fn lemma_same_texts(a: Seq<String>, b: Seq<String>)
    requires
        text::texts(a) == text::texts(b),
    ensures
        same_texts(a, b),
{
    assert(text::texts(a).len() == a.len());
    assert(text::texts(b).len() == b.len());
    assert forall|i: int| 0 <= i < a.len() implies (#[trigger] a[i])@ == b[i]@ by {
        assert(text::texts(a)[i] == a[i]@);
        assert(text::texts(b)[i] == b[i]@);
    }
}

proof fn lemma_note_of_entry(note: Note, entry: NoteEntry)
    requires
        note.is_from(entry),
    ensures
        note_of_entry(note, entry),
{
    assert forall|s: &str, tags: Vec<String>|
        s@ == entry.tags@ && #[trigger] call_ensures(split_tags, (s,), tags) implies same_texts(
        note.tags@,
        tags@,
    ) by {
        lemma_same_texts(note.tags@, tags@);
    }
    assert forall|s: &str, fields: Vec<String>|
        s@ == entry.fields@ && #[trigger] call_ensures(
            split_fields,
            (s,),
            fields,
        ) implies same_texts(note.fields@, fields@) by {
        lemma_same_texts(note.fields@, fields@);
    }
}

/// The note to be stored is the one that came in if there is none yet, or an older one, and there
/// is none to be stored otherwise.
pub proof fn law_newer_note_is_to_be_stored(
    existing: Option<Note>,
    entry: NoteEntry,
    res: Option<Note>,
)
    requires
        call_ensures(Collection::add_or_update_note_if_newer, (existing, entry), res),
    ensures
        res is Some <==> existing is None || existing->0.mtime.0 < entry.mtime.0,
        res matches Some(note) ==> note_of_entry(note, entry),
{
    if res is Some {
        lemma_note_of_entry(res->0, entry);
    }
}

/// A note that comes in is taken up if the collection has none under its id, or one that was
/// changed earlier, and its note type is looked up. If the one it has is as new or newer, the
/// merge goes on without it.
pub proof fn law_note_is_taken_up_if_newer(
    asked: NoteFound,
    reply: Result<Option<Note>, AnkiError>,
    call: MergeCall,
)
    requires
        call_ensures(NoteFound::resume, (asked, reply), call),
    ensures
        reply matches Err(e) ==> call == MergeCall::Failed(e),
        reply matches Ok(existing) ==> {
            let replaces = existing is None || existing->0.mtime.0 < asked.entry.mtime.0;
            &&& replaces ==> (call matches MergeCall::FindNotetypeOfNote { id, then } && id
                == asked.entry.ntid && note_of_entry(then.note, asked.entry) && then.rest
                == asked.rest)
            &&& !replaces ==> takes_up_the_first(asked.rest.queue@, call)
        },
{
    if call is FindNotetypeOfNote {
        let note = call->FindNotetypeOfNote_then.note;
        if note.is_from(asked.entry) {
            lemma_note_of_entry(note, asked.entry);
        }
    }
}

/// A note is brought into the form for storing by its type, without normalizing it, and then
/// stored in that form. Without its type it cannot be stored.
pub proof fn law_note_is_stored_by_its_type(
    asked: NotetypeOfNote,
    reply: Result<Option<NoteTypeSchema11>, AnkiError>,
    call: MergeCall,
    waiting: NotePrepared,
    prepared: Result<Note, AnkiError>,
    next: MergeCall,
)
    requires
        call_ensures(NotetypeOfNote::resume, (asked, reply), call),
        call_ensures(NotePrepared::resume, (waiting, prepared), next),
    ensures
        reply matches Err(e) ==> call == MergeCall::Failed(e),
        reply matches Ok(Some(nt)) ==> (call matches MergeCall::PrepareNote {
            note,
            notetype,
            normalize,
            then,
        } && note == asked.note && notetype == nt && !normalize && then.rest == asked.rest),
        reply matches Ok(None) ==> (call matches MergeCall::Failed(AnkiError::InvalidInput { info })
            && info@ == "note missing notetype"@),
        prepared matches Err(e) ==> next == MergeCall::Failed(e),
        prepared matches Ok(n) ==> (next matches MergeCall::SaveNote { note, then } && note == n
            && then == waiting.rest),
{
}

/// Once a note type or a deck is saved, it is dropped from the cache.
pub proof fn law_saved_objects_leave_the_cache(
    notetype: NotetypeSaved,
    deck: DeckSaved,
    reply: Result<(), AnkiError>,
    calls: (MergeCall, MergeCall),
)
    requires
        call_ensures(NotetypeSaved::resume, (notetype, reply), calls.0),
        call_ensures(DeckSaved::resume, (deck, reply), calls.1),
    ensures
        reply matches Err(e) ==> calls.0 == MergeCall::Failed(e) && calls.1 == MergeCall::Failed(e),
        reply is Ok ==> (calls.0 matches MergeCall::ForgetNotetype { id, then } && id == notetype.id
            && then == notetype.rest),
        reply is Ok ==> (calls.1 matches MergeCall::ForgetDeck { id, then } && id == deck.id && then
            == deck.rest),
{
}

/// After a finished merge the collection has, for each note type among the items, one under its id
/// that is as new or newer. What it had before is still there, unless one that was changed later
/// has taken its place, and whatever is new there came in under its own id.
pub proof fn law_merged_notetypes_are_the_newest(
    calls: Seq<MergeCall>,
    shelves: Seq<Shelves>,
    items: Seq<MergeItem>,
)
    requires
        newest::merge_run(calls, shelves, items),
        calls.last() is Finished,
    ensures
        forall|i: int|
            0 <= i < items.len() ==> (#[trigger] items[i] matches MergeItem::Notetype(x)
                ==> shelves.last().notetypes.contains_key(x.id) && x.mtime.0
                <= shelves.last().notetypes[x.id].mtime.0),
        forall|id: NoteTypeID| #[trigger]
            shelves[0].notetypes.contains_key(id) ==> shelves.last().notetypes.contains_key(id) && (
            shelves.last().notetypes[id] == shelves[0].notetypes[id] || shelves[0].notetypes[id].mtime.0
                < shelves.last().notetypes[id].mtime.0),
        forall|id: NoteTypeID| #[trigger]
            shelves.last().notetypes.contains_key(id) ==> shelves[0].notetypes.contains_key(id)
                && shelves.last().notetypes[id] == shelves[0].notetypes[id] || exists|i: int|
                0 <= i < items.len() && (#[trigger] items[i] matches MergeItem::Notetype(x) && x.id == id
                    && x == shelves.last().notetypes[id]),
{
    newest::law_finished_merge_has_taken_in_everything(calls, shelves, items);
    newest::law_items_taken_in_are_no_news(shelves[0], items);
    newest::law_merge_never_goes_back(shelves[0], items);
    newest::law_merge_makes_nothing_up(shelves[0], items);
    let after = shelves.last();
    assert forall|i: int| 0 <= i < items.len() implies (#[trigger] items[i] matches MergeItem::Notetype(x)
        ==> after.notetypes.contains_key(x.id) && x.mtime.0 <= after.notetypes[x.id].mtime.0) by {
        assert(newest::no_news(after, items[i]));
    }
    assert forall|id: NoteTypeID| #[trigger] after.notetypes.contains_key(id) implies shelves[0].notetypes.contains_key(
        id,
    ) && after.notetypes[id] == shelves[0].notetypes[id] || exists|i: int|
        0 <= i < items.len() && (#[trigger] items[i] matches MergeItem::Notetype(x) && x.id == id && x == after.notetypes[id]) by {
        if newest::found(shelves[0].notetypes, id) != Some(after.notetypes[id]) {
            let i = choose|i: int|
                0 <= i < items.len() && items[i] == MergeItem::Notetype(after.notetypes[id]);
            assert(items[i] is Notetype);
        }
    }
}

/// After a finished merge the collection has, for each deck among the items, one under its id
/// that is as new or newer. What it had before is still there, unless one that was changed later
/// has taken its place, and whatever is new there came in under its own id.
pub proof fn law_merged_decks_are_the_newest(
    calls: Seq<MergeCall>,
    shelves: Seq<Shelves>,
    items: Seq<MergeItem>,
)
    requires
        newest::merge_run(calls, shelves, items),
        calls.last() is Finished,
    ensures
        forall|i: int|
            0 <= i < items.len() ==> (#[trigger] items[i] matches MergeItem::Deck(x)
                ==> shelves.last().decks.contains_key(x.id) && x.mtime.0
                <= shelves.last().decks[x.id].mtime.0),
        forall|id: DeckID| #[trigger]
            shelves[0].decks.contains_key(id) ==> shelves.last().decks.contains_key(id) && (
            shelves.last().decks[id] == shelves[0].decks[id] || shelves[0].decks[id].mtime.0
                < shelves.last().decks[id].mtime.0),
        forall|id: DeckID| #[trigger]
            shelves.last().decks.contains_key(id) ==> shelves[0].decks.contains_key(id)
                && shelves.last().decks[id] == shelves[0].decks[id] || exists|i: int|
                0 <= i < items.len() && (#[trigger] items[i] matches MergeItem::Deck(x) && x.id == id
                    && x == shelves.last().decks[id]),
{
    newest::law_finished_merge_has_taken_in_everything(calls, shelves, items);
    newest::law_items_taken_in_are_no_news(shelves[0], items);
    newest::law_merge_never_goes_back(shelves[0], items);
    newest::law_merge_makes_nothing_up(shelves[0], items);
    let after = shelves.last();
    assert forall|i: int| 0 <= i < items.len() implies (#[trigger] items[i] matches MergeItem::Deck(x)
        ==> after.decks.contains_key(x.id) && x.mtime.0 <= after.decks[x.id].mtime.0) by {
        assert(newest::no_news(after, items[i]));
    }
    assert forall|id: DeckID| #[trigger] after.decks.contains_key(id) implies shelves[0].decks.contains_key(
        id,
    ) && after.decks[id] == shelves[0].decks[id] || exists|i: int|
        0 <= i < items.len() && (#[trigger] items[i] matches MergeItem::Deck(x) && x.id == id && x == after.decks[id]) by {
        if newest::found(shelves[0].decks, id) != Some(after.decks[id]) {
            let i = choose|i: int|
                0 <= i < items.len() && items[i] == MergeItem::Deck(after.decks[id]);
            assert(items[i] is Deck);
        }
    }
}

/// After a finished merge the collection has, for each option group among the items, one under its id
/// that is as new or newer. What it had before is still there, unless one that was changed later
/// has taken its place, and whatever is new there came in under its own id.
pub proof fn law_merged_deck_config_are_the_newest(
    calls: Seq<MergeCall>,
    shelves: Seq<Shelves>,
    items: Seq<MergeItem>,
)
    requires
        newest::merge_run(calls, shelves, items),
        calls.last() is Finished,
    ensures
        forall|i: int|
            0 <= i < items.len() ==> (#[trigger] items[i] matches MergeItem::DeckConfig(x)
                ==> shelves.last().deck_config.contains_key(x.id) && x.mtime.0
                <= shelves.last().deck_config[x.id].mtime.0),
        forall|id: DeckConfID| #[trigger]
            shelves[0].deck_config.contains_key(id) ==> shelves.last().deck_config.contains_key(id) && (
            shelves.last().deck_config[id] == shelves[0].deck_config[id] || shelves[0].deck_config[id].mtime.0
                < shelves.last().deck_config[id].mtime.0),
        forall|id: DeckConfID| #[trigger]
            shelves.last().deck_config.contains_key(id) ==> shelves[0].deck_config.contains_key(id)
                && shelves.last().deck_config[id] == shelves[0].deck_config[id] || exists|i: int|
                0 <= i < items.len() && (#[trigger] items[i] matches MergeItem::DeckConfig(x) && x.id == id
                    && x == shelves.last().deck_config[id]),
{
    newest::law_finished_merge_has_taken_in_everything(calls, shelves, items);
    newest::law_items_taken_in_are_no_news(shelves[0], items);
    newest::law_merge_never_goes_back(shelves[0], items);
    newest::law_merge_makes_nothing_up(shelves[0], items);
    let after = shelves.last();
    assert forall|i: int| 0 <= i < items.len() implies (#[trigger] items[i] matches MergeItem::DeckConfig(x)
        ==> after.deck_config.contains_key(x.id) && x.mtime.0 <= after.deck_config[x.id].mtime.0) by {
        assert(newest::no_news(after, items[i]));
    }
    assert forall|id: DeckConfID| #[trigger] after.deck_config.contains_key(id) implies shelves[0].deck_config.contains_key(
        id,
    ) && after.deck_config[id] == shelves[0].deck_config[id] || exists|i: int|
        0 <= i < items.len() && (#[trigger] items[i] matches MergeItem::DeckConfig(x) && x.id == id && x == after.deck_config[id]) by {
        if newest::found(shelves[0].deck_config, id) != Some(after.deck_config[id]) {
            let i = choose|i: int|
                0 <= i < items.len() && items[i] == MergeItem::DeckConfig(after.deck_config[id]);
            assert(items[i] is DeckConfig);
        }
    }
}

/// After a finished merge the collection has, for each card among the items, one under its id
/// that is as new or newer. What it had before is still there, unless one that was changed later
/// has taken its place, and whatever is new there came in under its own id.
pub proof fn law_merged_cards_are_the_newest(
    calls: Seq<MergeCall>,
    shelves: Seq<Shelves>,
    items: Seq<MergeItem>,
)
    requires
        newest::merge_run(calls, shelves, items),
        calls.last() is Finished,
    ensures
        forall|i: int|
            0 <= i < items.len() ==> (#[trigger] items[i] matches MergeItem::Card(x)
                ==> shelves.last().cards.contains_key(x.id) && x.mtime.0
                <= shelves.last().cards[x.id].mtime.0),
        forall|id: CardID| #[trigger]
            shelves[0].cards.contains_key(id) ==> shelves.last().cards.contains_key(id) && (
            shelves.last().cards[id] == shelves[0].cards[id] || shelves[0].cards[id].mtime.0
                < shelves.last().cards[id].mtime.0),
        forall|id: CardID| #[trigger]
            shelves.last().cards.contains_key(id) ==> shelves[0].cards.contains_key(id)
                && shelves.last().cards[id] == shelves[0].cards[id] || exists|i: int|
                0 <= i < items.len() && (#[trigger] items[i] matches MergeItem::Card(x) && x.id == id
                    && objects::same_card(shelves.last().cards[id], x) && shelves.last().cards[id].usn == x.usn),
{
    newest::law_finished_merge_has_taken_in_everything(calls, shelves, items);
    newest::law_items_taken_in_are_no_news(shelves[0], items);
    newest::law_merge_never_goes_back(shelves[0], items);
    newest::law_merge_makes_nothing_up(shelves[0], items);
    let after = shelves.last();
    assert forall|i: int| 0 <= i < items.len() implies (#[trigger] items[i] matches MergeItem::Card(x)
        ==> after.cards.contains_key(x.id) && x.mtime.0 <= after.cards[x.id].mtime.0) by {
        assert(newest::no_news(after, items[i]));
    }
    assert forall|id: CardID| #[trigger] after.cards.contains_key(id) implies shelves[0].cards.contains_key(
        id,
    ) && after.cards[id] == shelves[0].cards[id] || exists|i: int|
        0 <= i < items.len() && (#[trigger] items[i] matches MergeItem::Card(x) && x.id == id && objects::same_card(after.cards[id], x) && after.cards[id].usn == x.usn) by {
        if newest::found(shelves[0].cards, id) != Some(after.cards[id]) {
        }
    }
}

/// After a finished merge the collection has, for each note among the items, one under its id that
/// is as new or newer. What it had before is still there, unless one that was changed later has
/// taken its place, and whatever is new there came in under its own id.
pub proof fn law_merged_notes_are_the_newest(
    calls: Seq<MergeCall>,
    shelves: Seq<Shelves>,
    items: Seq<MergeItem>,
)
    requires
        newest::merge_run(calls, shelves, items),
        calls.last() is Finished,
    ensures
        forall|i: int|
            0 <= i < items.len() ==> (#[trigger] items[i] matches MergeItem::Note(x)
                ==> shelves.last().notes.contains_key(x.id) && x.mtime.0
                <= shelves.last().notes[x.id].0),
        forall|id: NoteID| #[trigger]
            shelves[0].notes.contains_key(id) ==> shelves.last().notes.contains_key(id)
                && shelves[0].notes[id].0 <= shelves.last().notes[id].0,
        forall|id: NoteID| #[trigger]
            shelves.last().notes.contains_key(id) ==> shelves[0].notes.contains_key(id)
                && shelves.last().notes[id] == shelves[0].notes[id] || exists|i: int|
                0 <= i < items.len() && (#[trigger] items[i] matches MergeItem::Note(x) && x.id == id
                    && x.mtime == shelves.last().notes[id]),
{
    newest::law_finished_merge_has_taken_in_everything(calls, shelves, items);
    newest::law_items_taken_in_are_no_news(shelves[0], items);
    newest::law_merge_never_goes_back(shelves[0], items);
    newest::law_merge_makes_nothing_up(shelves[0], items);
    let after = shelves.last();
    assert forall|i: int| 0 <= i < items.len() implies (#[trigger] items[i] matches MergeItem::Note(x)
        ==> after.notes.contains_key(x.id) && x.mtime.0 <= after.notes[x.id].0) by {
        assert(newest::no_news(after, items[i]));
    }
}

/// After a finished merge the collection has every review and tag that it had, and every one
/// among the items, and no others.
pub proof fn law_merged_reviews_and_tags_are_all_there(
    calls: Seq<MergeCall>,
    shelves: Seq<Shelves>,
    items: Seq<MergeItem>,
)
    requires
        newest::merge_run(calls, shelves, items),
        calls.last() is Finished,
    ensures
        forall|e: ReviewLogEntry| #[trigger]
            shelves.last().reviews.contains(e) <==> shelves[0].reviews.contains(e)
                || items.contains(MergeItem::Revlog(e)),
        forall|tag: String, usn: Usn| #[trigger]
            shelves.last().tags.contains((tag, usn)) <==> shelves[0].tags.contains((tag, usn))
                || items.contains(MergeItem::Tag(tag, usn)),
{
    newest::law_finished_merge_has_taken_in_everything(calls, shelves, items);
    newest::law_items_taken_in_are_no_news(shelves[0], items);
    newest::law_merge_never_goes_back(shelves[0], items);
    newest::law_merge_makes_nothing_up(shelves[0], items);
    let after = shelves.last();
    assert forall|e: ReviewLogEntry|
        items.contains(MergeItem::Revlog(e)) implies #[trigger] after.reviews.contains(e) by {
        let i = choose|i: int| 0 <= i < items.len() && items[i] == MergeItem::Revlog(e);
        assert(newest::no_news(after, items[i]));
    }
    assert forall|tag: String, usn: Usn|
        items.contains(MergeItem::Tag(tag, usn)) implies #[trigger] after.tags.contains(
        (tag, usn),
    ) by {
        let i = choose|i: int| 0 <= i < items.len() && items[i] == MergeItem::Tag(tag, usn);
        assert(newest::no_news(after, items[i]));
    }
}

/// The items are those from before, followed by the new ones.
pub open spec fn adds(before: Seq<MergeItem>, after: Seq<MergeItem>, new: Seq<MergeItem>) -> bool {
    &&& after.len() == before.len() + new.len()
    &&& forall|i: int| 0 <= i < before.len() ==> #[trigger] after[i] == before[i]
    &&& forall|i: int| 0 <= i < new.len() ==> #[trigger] new[i] == after[before.len() + i]
}

/// All the note types are put on the list of what is to be merged, in order and behind what is there.
pub proof fn law_merge_notetypes_lists_all(
    col: Collection,
    notetypes: Vec<NoteTypeSchema11>,
    before: Merging,
    after: Merging,
    res: (),
)
    requires
        exists|merging: &mut Merging|
            *merging == before && *final(merging) == after && #[trigger] call_ensures(
                Collection::merge_notetypes,
                (&col, notetypes, merging),
                res,
            ),
    ensures
        adds(before.queue@, after.queue@, notetypes@.map_values(|x: NoteTypeSchema11| MergeItem::Notetype(x))),
{
}

/// All the decks are put on the list of what is to be merged, in order and behind what is there.
pub proof fn law_merge_decks_lists_all(
    col: Collection,
    decks: Vec<DeckSchema11>,
    before: Merging,
    after: Merging,
    res: (),
)
    requires
        exists|merging: &mut Merging|
            *merging == before && *final(merging) == after && #[trigger] call_ensures(
                Collection::merge_decks,
                (&col, decks, merging),
                res,
            ),
    ensures
        adds(before.queue@, after.queue@, decks@.map_values(|x: DeckSchema11| MergeItem::Deck(x))),
{
}

/// All the option groups are put on the list of what is to be merged, in order and behind what is there.
pub proof fn law_merge_deck_config_lists_all(
    col: Collection,
    dconf: Vec<DeckConfSchema11>,
    before: Merging,
    after: Merging,
    res: (),
)
    requires
        exists|merging: &mut Merging|
            *merging == before && *final(merging) == after && #[trigger] call_ensures(
                Collection::merge_deck_config,
                (&col, dconf, merging),
                res,
            ),
    ensures
        adds(before.queue@, after.queue@, dconf@.map_values(|x: DeckConfSchema11| MergeItem::DeckConfig(x))),
{
}

/// All the reviews are put on the list of what is to be merged, in order and behind what is there.
pub proof fn law_merge_revlog_lists_all(
    col: Collection,
    entries: Vec<ReviewLogEntry>,
    before: Merging,
    after: Merging,
    res: (),
)
    requires
        exists|merging: &mut Merging|
            *merging == before && *final(merging) == after && #[trigger] call_ensures(
                Collection::merge_revlog,
                (&col, entries, merging),
                res,
            ),
    ensures
        adds(before.queue@, after.queue@, entries@.map_values(|x: ReviewLogEntry| MergeItem::Revlog(x))),
{
}

/// All the cards are put on the list of what is to be merged, in order and behind what is there.
pub proof fn law_merge_cards_lists_all(
    col: Collection,
    entries: Vec<CardEntry>,
    before: Merging,
    after: Merging,
    res: (),
)
    requires
        exists|merging: &mut Merging|
            *merging == before && *final(merging) == after && #[trigger] call_ensures(
                Collection::merge_cards,
                (&col, entries, merging),
                res,
            ),
    ensures
        adds(before.queue@, after.queue@, entries@.map_values(|x: CardEntry| MergeItem::Card(x))),
{
}

/// All the notes are put on the list of what is to be merged, in order and behind what is there.
pub proof fn law_merge_notes_lists_all(
    col: Collection,
    entries: Vec<NoteEntry>,
    before: Merging,
    after: Merging,
    res: (),
)
    requires
        exists|merging: &mut Merging|
            *merging == before && *final(merging) == after && #[trigger] call_ensures(
                Collection::merge_notes,
                (&col, entries, merging),
                res,
            ),
    ensures
        adds(before.queue@, after.queue@, entries@.map_values(|x: NoteEntry| MergeItem::Note(x))),
{
}

/// All the tags are put on the list of what is to be merged, in order and behind what is there.
pub proof fn law_merge_tags_lists_all(
    col: Collection,
    tags: Vec<String>,
    latest_usn: Usn,
    before: Merging,
    after: Merging,
    res: (),
)
    requires
        exists|merging: &mut Merging|
            *merging == before && *final(merging) == after && #[trigger] call_ensures(
                Collection::merge_tags,
                (&col, tags, latest_usn, merging),
                res,
            ),
    ensures
        adds(before.queue@, after.queue@, tags@.map_values(|x: String| MergeItem::Tag(x, latest_usn))),
{
}

/// No time of creation is among the items from `from` on.
pub open spec fn no_stamp_from(items: Seq<MergeItem>, from: int) -> bool {
    forall|j: int| from <= j < items.len() ==> !(#[trigger] items[j] is CreationStamp)
}

/// No settings are among the items from `from` on.
pub open spec fn no_config_from(items: Seq<MergeItem>, from: int) -> bool {
    forall|j: int| from <= j < items.len() ==> !(#[trigger] items[j] is Config)
}

proof fn lemma_settings_stay(s: Shelves, items: Seq<MergeItem>)
    ensures
        no_stamp_from(items, 0) ==> s.take_in_all(items).creation_stamp == s.creation_stamp,
        no_config_from(items, 0) ==> s.take_in_all(items).config == s.config,
    decreases items.len(),
{
    if items.len() > 0 {
        let rest = items.drop_first();
        assert(forall|j: int| 0 <= j < rest.len() ==> #[trigger] rest[j] == items[j + 1]);
        lemma_settings_stay(s.take_in(items[0]), rest);
    }
}

proof fn lemma_settings_of_the_last(s: Shelves, items: Seq<MergeItem>, i: int)
    requires
        0 <= i < items.len(),
    ensures
        no_stamp_from(items, i + 1) ==> (items[i] matches MergeItem::CreationStamp(crt)
            ==> s.take_in_all(items).creation_stamp == Some(crt)),
        no_config_from(items, i + 1) ==> (items[i] matches MergeItem::Config(config, usn)
            ==> s.take_in_all(items).config == Some((config, usn))),
    decreases items.len(),
{
    let rest = items.drop_first();
    let first = s.take_in(items[0]);
    assert(forall|j: int| 0 <= j < rest.len() ==> #[trigger] rest[j] == items[j + 1]);
    if i == 0 {
        lemma_settings_stay(first, rest);
    } else {
        lemma_settings_of_the_last(first, rest, i - 1);
    }
}

/// After a finished merge the collection has the settings that came in last, and those that it had
/// if none came in.
pub proof fn law_merged_settings_are_the_last(
    calls: Seq<MergeCall>,
    shelves: Seq<Shelves>,
    items: Seq<MergeItem>,
    i: int,
)
    requires
        newest::merge_run(calls, shelves, items),
        calls.last() is Finished,
        0 <= i < items.len(),
    ensures
        no_stamp_from(items, 0) ==> shelves.last().creation_stamp == shelves[0].creation_stamp,
        no_stamp_from(items, i + 1) ==> (items[i] matches MergeItem::CreationStamp(crt)
            ==> shelves.last().creation_stamp == Some(crt)),
        no_config_from(items, 0) ==> shelves.last().config == shelves[0].config,
        no_config_from(items, i + 1) ==> (items[i] matches MergeItem::Config(config, usn)
            ==> shelves.last().config == Some((config, usn))),
{
    newest::law_finished_merge_has_taken_in_everything(calls, shelves, items);
    lemma_settings_stay(shelves[0], items);
    lemma_settings_of_the_last(shelves[0], items, i);
}

/// A merge that nothing was put into is empty.
pub proof fn law_empty_merge_is_empty(merging: Merging)
    requires
        call_ensures(Merging::new, (), merging),
    ensures
        merging.queue@.len() == 0,
{
}

} // verus!
