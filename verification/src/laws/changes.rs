//! On the changes that travel in one piece.

use crate::changes::{
    ConfigCleared, ConfigRead, CreationStampRead, DeckConfigIDs, DeckConfigRead, DeckIDs, DecksRead,
    Gather, GatherCall, NotetypeIDs, NotetypesRead, TagsFound, TagsUpdated, UnchunkedChanges,
};
use crate::chunk::Table;
use crate::collection::Collection;
use crate::error::AnkiError;
use crate::ids::{DeckConfID, DeckID, NoteTypeID, TimestampSecs, Usn};
use crate::laws::portions;
use crate::objects::{DeckConfSchema11, DeckSchema11, NoteTypeSchema11};
use std::collections::HashMap;
use vstd::prelude::*;

verus! {

/// A note type as it is stored, but for the number.
pub open spec fn same_notetype(a: NoteTypeSchema11, b: NoteTypeSchema11) -> bool {
    a.id == b.id && a.mtime == b.mtime && a.fields == b.fields && a.templates == b.templates
        && a.other == b.other
}

/// A deck as it is stored, but for the number.
pub open spec fn same_deck(a: DeckSchema11, b: DeckSchema11) -> bool {
    a.id == b.id && a.mtime == b.mtime && a.other == b.other
}

/// An option group as it is stored, but for the number.
pub open spec fn same_deck_config(a: DeckConfSchema11, b: DeckConfSchema11) -> bool {
    a.id == b.id && a.mtime == b.mtime && a.other == b.other
}

/// The note types are those that were found, in order, each with its new number.
pub open spec fn notetypes_as_found(
    found: Seq<Option<NoteTypeSchema11>>,
    new_usn: Option<Usn>,
    res: Seq<NoteTypeSchema11>,
) -> bool {
    &&& res.len() == found.len()
    &&& forall|i: int|
        0 <= i < found.len() ==> same_notetype(#[trigger] res[i], found[i]->0)
            && portions::number_sent(res[i].usn, found[i]->0.usn, new_usn)
}

/// The decks are those that were found, in order, each with its new number.
pub open spec fn decks_as_found(
    found: Seq<Option<DeckSchema11>>,
    new_usn: Option<Usn>,
    res: Seq<DeckSchema11>,
) -> bool {
    &&& res.len() == found.len()
    &&& forall|i: int|
        0 <= i < found.len() ==> same_deck(#[trigger] res[i], found[i]->0) && portions::number_sent(
            res[i].usn,
            found[i]->0.usn,
            new_usn,
        )
}

/// The option groups are those that were found, in order, each with its new number.
pub open spec fn deck_config_as_found(
    found: Seq<Option<DeckConfSchema11>>,
    new_usn: Option<Usn>,
    res: Seq<DeckConfSchema11>,
) -> bool {
    &&& res.len() == found.len()
    &&& forall|i: int|
        0 <= i < found.len() ==> same_deck_config(#[trigger] res[i], found[i]->0)
            && portions::number_sent(res[i].usn, found[i]->0.usn, new_usn)
}

/// Note types are sent as they are stored, but for the number.
pub proof fn law_changed_notetypes_are_sent_as_stored(
    col: Collection,
    found: Vec<Option<NoteTypeSchema11>>,
    new_usn: Option<Usn>,
    res: Vec<NoteTypeSchema11>,
)
    requires
        call_ensures(Collection::changed_notetypes, (&col, found, new_usn), res),
    ensures
        notetypes_as_found(found@, new_usn, res@),
{
}

/// Decks are sent as they are stored, but for the number.
pub proof fn law_changed_decks_are_sent_as_stored(
    col: Collection,
    found: Vec<Option<DeckSchema11>>,
    new_usn: Option<Usn>,
    res: Vec<DeckSchema11>,
)
    requires
        call_ensures(Collection::changed_decks, (&col, found, new_usn), res),
    ensures
        decks_as_found(found@, new_usn, res@),
{
}

/// Option groups are sent as they are stored, but for the number.
pub proof fn law_changed_deck_config_are_sent_as_stored(
    col: Collection,
    found: Vec<Option<DeckConfSchema11>>,
    new_usn: Option<Usn>,
    res: Vec<DeckConfSchema11>,
)
    requires
        call_ensures(Collection::changed_deck_config, (&col, found, new_usn), res),
    ensures
        deck_config_as_found(found@, new_usn, res@),
{
}

/// Gathering begins with the note types that wait, by the number that waiting objects have.
pub proof fn law_gathering_begins_with_notetypes(
    col: Collection,
    pending_usn: Usn,
    new_usn: Option<Usn>,
    local_is_newer: bool,
    call: GatherCall,
)
    requires
        call_ensures(
            Collection::local_unchunked_changes,
            (&col, pending_usn, new_usn, local_is_newer),
            call,
        ),
    ensures
        call matches GatherCall::PendingNotetypes { usn, then } && {
            &&& usn == pending_usn
            &&& then.gather.pending_usn == pending_usn
            &&& then.gather.new_usn == new_usn
            &&& then.gather.local_is_newer == local_is_newer
        },
{
}

/// The note types that wait get the new number before they are read, all of them and no others.
pub proof fn law_waiting_notetypes_get_the_new_number(
    asked: NotetypeIDs,
    reply: Result<Vec<NoteTypeID>, AnkiError>,
    call: GatherCall,
)
    requires
        call_ensures(NotetypeIDs::resume, (asked, reply), call),
    ensures
        reply matches Err(e) ==> call == GatherCall::Failed(e),
        reply matches Ok(ids) ==> (call matches GatherCall::ReadNotetypes { update, then } && {
            &&& update.table == Table::Notetypes
            &&& update.ids@ == ids@.map_values(|id: NoteTypeID| id.0)
            &&& update.new_usn == asked.gather.new_usn
            &&& then.gather == asked.gather
        }),
{
    if reply is Ok {
        let update = call->ReadNotetypes_update;
        assert(update.ids@ =~= reply->Ok_0@.map_values(|id: NoteTypeID| id.0));
    }
}

/// The decks that wait get the new number before they are read, all of them and no others.
pub proof fn law_waiting_decks_get_the_new_number(
    asked: DeckIDs,
    reply: Result<Vec<DeckID>, AnkiError>,
    call: GatherCall,
)
    requires
        call_ensures(DeckIDs::resume, (asked, reply), call),
    ensures
        reply matches Err(e) ==> call == GatherCall::Failed(e),
        reply matches Ok(ids) ==> (call matches GatherCall::ReadDecks { update, then } && {
            &&& update.table == Table::Decks
            &&& update.ids@ == ids@.map_values(|id: DeckID| id.0)
            &&& update.new_usn == asked.gather.new_usn
            &&& then.gather == asked.gather
            &&& then.notetypes == asked.notetypes
        }),
{
    if reply is Ok {
        let update = call->ReadDecks_update;
        assert(update.ids@ =~= reply->Ok_0@.map_values(|id: DeckID| id.0));
    }
}

/// The option groups that wait get the new number before they are read, all of them and no others.
pub proof fn law_waiting_deck_config_get_the_new_number(
    asked: DeckConfigIDs,
    reply: Result<Vec<DeckConfID>, AnkiError>,
    call: GatherCall,
)
    requires
        call_ensures(DeckConfigIDs::resume, (asked, reply), call),
    ensures
        reply matches Err(e) ==> call == GatherCall::Failed(e),
        reply matches Ok(ids) ==> (call matches GatherCall::ReadDeckConfig { update, then } && {
            &&& update.table == Table::DeckConfig
            &&& update.ids@ == ids@.map_values(|id: DeckConfID| id.0)
            &&& update.new_usn == asked.gather.new_usn
            &&& then.gather == asked.gather
            &&& then.notetypes == asked.notetypes
            &&& then.decks == asked.decks
        }),
{
    if reply is Ok {
        let update = call->ReadDeckConfig_update;
        assert(update.ids@ =~= reply->Ok_0@.map_values(|id: DeckConfID| id.0));
    }
}

/// The note types that were read go out as they were found.
pub proof fn law_read_notetypes_go_out(
    asked: NotetypesRead,
    col: Collection,
    reply: Result<Vec<Option<NoteTypeSchema11>>, AnkiError>,
    call: GatherCall,
)
    requires
        call_ensures(NotetypesRead::resume, (asked, &col, reply), call),
    ensures
        reply matches Err(e) ==> call == GatherCall::Failed(e),
        reply matches Ok(found) ==> (call matches GatherCall::PendingDecks { usn, then } && {
            &&& usn == asked.gather.pending_usn
            &&& then.gather == asked.gather
            &&& notetypes_as_found(found@, asked.gather.new_usn, then.notetypes@)
        }),
{
}

/// The decks that were read go out as they were found.
pub proof fn law_read_decks_go_out(
    asked: DecksRead,
    col: Collection,
    reply: Result<Vec<Option<DeckSchema11>>, AnkiError>,
    call: GatherCall,
)
    requires
        call_ensures(DecksRead::resume, (asked, &col, reply), call),
    ensures
        reply matches Err(e) ==> call == GatherCall::Failed(e),
        reply matches Ok(found) ==> (call matches GatherCall::PendingDeckConfig { usn, then } && {
            &&& usn == asked.gather.pending_usn
            &&& then.gather == asked.gather
            &&& then.notetypes == asked.notetypes
            &&& decks_as_found(found@, asked.gather.new_usn, then.decks@)
        }),
{
}

/// The option groups that were read go out as they were found.
pub proof fn law_read_deck_config_go_out(
    asked: DeckConfigRead,
    col: Collection,
    reply: Result<Vec<Option<DeckConfSchema11>>, AnkiError>,
    call: GatherCall,
)
    requires
        call_ensures(DeckConfigRead::resume, (asked, &col, reply), call),
    ensures
        reply matches Err(e) ==> call == GatherCall::Failed(e),
        reply matches Ok(found) ==> (call matches GatherCall::PendingTags { usn, then } && {
            &&& usn == asked.gather.pending_usn
            &&& then.gather == asked.gather
            &&& then.notetypes == asked.notetypes
            &&& then.decks_and_config.decks == asked.decks
            &&& deck_config_as_found(
                found@,
                asked.gather.new_usn,
                then.decks_and_config.config@,
            )
        }),
{
}

/// The changes hold what was gathered, without settings as yet. They are what is sent, unless the
/// local side is the newer one: then settings are still to come.
pub open spec fn settings_come_from_the_newer_side(
    gather: Gather,
    changes: UnchunkedChanges,
    call: GatherCall,
) -> bool {
    &&& changes.config is None
    &&& changes.creation_stamp is None
    &&& gather.local_is_newer ==> (call matches GatherCall::AllConfig { then } && then.changes
        == changes)
    &&& !gather.local_is_newer ==> (call matches GatherCall::Finished(sent) && sent == changes)
}

/// The changes that are gathered once the tags are known.
pub open spec fn changes_with_tags(found: TagsUpdated) -> UnchunkedChanges {
    UnchunkedChanges {
        notetypes: found.notetypes,
        decks_and_config: found.decks_and_config,
        tags: found.tags,
        config: None,
        creation_stamp: None,
    }
}

/// Tags that wait get the new number where there is one, and go out as they are.
pub proof fn law_waiting_tags_get_the_new_number(
    asked: TagsFound,
    reply: Result<Vec<String>, AnkiError>,
    call: GatherCall,
)
    requires
        call_ensures(TagsFound::resume, (asked, reply), call),
    ensures
        reply matches Err(e) ==> call == GatherCall::Failed(e),
        reply matches Ok(tags) ==> {
            let found = TagsUpdated {
                gather: asked.gather,
                notetypes: asked.notetypes,
                decks_and_config: asked.decks_and_config,
                tags,
            };
            &&& asked.gather.new_usn is Some ==> (call matches GatherCall::UpdateTagUsns {
                usn,
                then,
            } && usn == asked.gather.new_usn->0 && then == found)
            &&& asked.gather.new_usn is None ==> settings_come_from_the_newer_side(
                asked.gather,
                changes_with_tags(found),
                call,
            )
        },
{
}

/// Once the tags have their number, settings follow from the newer side only.
pub proof fn law_settings_follow_from_the_newer_side(
    asked: TagsUpdated,
    reply: Result<(), AnkiError>,
    call: GatherCall,
)
    requires
        call_ensures(TagsUpdated::resume, (asked, reply), call),
    ensures
        reply matches Err(e) ==> call == GatherCall::Failed(e),
        reply is Ok ==> settings_come_from_the_newer_side(
            asked.gather,
            changes_with_tags(asked),
            call,
        ),
{
}

/// All settings that were read go out, and are off the list of what waits before that.
pub proof fn law_all_settings_go_out(
    read: ConfigRead,
    settings: Result<HashMap<String, serde_json::Value>, AnkiError>,
    second: GatherCall,
    cleared: ConfigCleared,
    done: Result<(), AnkiError>,
    third: GatherCall,
    asked: CreationStampRead,
    created: Result<TimestampSecs, AnkiError>,
    last: GatherCall,
)
    requires
        call_ensures(ConfigRead::resume, (read, settings), second),
        call_ensures(ConfigCleared::resume, (cleared, done), third),
        call_ensures(CreationStampRead::resume, (asked, created), last),
    ensures
        settings matches Err(e) ==> second == GatherCall::Failed(e),
        settings matches Ok(config) ==> (second matches GatherCall::ClearConfigUsns { then }
            && then.changes == read.changes && then.config == config),
        done matches Err(e) ==> third == GatherCall::Failed(e),
        done is Ok ==> (third matches GatherCall::CreationStamp { then } && then.changes
            == cleared.changes && then.config == cleared.config),
        created matches Err(e) ==> last == GatherCall::Failed(e),
        created matches Ok(stamp) ==> (last matches GatherCall::Finished(changes) && {
            &&& changes.notetypes == asked.changes.notetypes
            &&& changes.decks_and_config == asked.changes.decks_and_config
            &&& changes.tags == asked.changes.tags
            &&& changes.config == Some(asked.config)
            &&& changes.creation_stamp == Some(stamp)
        }),
{
}

/// The count of changes is the sum of the four kinds of object.
pub proof fn law_changes_are_counted(changes: UnchunkedChanges, n: usize)
    requires
        call_ensures(UnchunkedChanges::count, (&changes,), n),
        changes.notetypes@.len() + changes.decks_and_config.decks@.len()
            + changes.decks_and_config.config@.len() + changes.tags@.len() <= usize::MAX,
    ensures
        n == changes.notetypes@.len() + changes.decks_and_config.decks@.len()
            + changes.decks_and_config.config@.len() + changes.tags@.len(),
{
}

/// Whatever was found is sent, as long as nothing that waits is missing.
pub proof fn law_nothing_else_is_asked_of_changes(
    col: Collection,
    new_usn: Option<Usn>,
    notetypes: Vec<Option<NoteTypeSchema11>>,
    decks: Vec<Option<DeckSchema11>>,
    config: Vec<Option<DeckConfSchema11>>,
    reading: (NotetypesRead, DecksRead, DeckConfigRead),
)
    requires
        portions::none_missing(notetypes@),
        portions::none_missing(decks@),
        portions::none_missing(config@),
    ensures
        call_requires(Collection::changed_notetypes, (&col, notetypes, new_usn)),
        call_requires(Collection::changed_decks, (&col, decks, new_usn)),
        call_requires(Collection::changed_deck_config, (&col, config, new_usn)),
        call_requires(
            NotetypesRead::resume,
            (reading.0, &col, Ok::<Vec<Option<NoteTypeSchema11>>, AnkiError>(notetypes)),
        ),
        call_requires(
            DecksRead::resume,
            (reading.1, &col, Ok::<Vec<Option<DeckSchema11>>, AnkiError>(decks)),
        ),
        call_requires(
            DeckConfigRead::resume,
            (reading.2, &col, Ok::<Vec<Option<DeckConfSchema11>>, AnkiError>(config)),
        ),
{
}

/// Changes that nothing was put into are empty.
pub proof fn law_empty_changes_are_empty(changes: UnchunkedChanges)
    requires
        call_ensures(<UnchunkedChanges as Default>::default, (), changes),
    ensures
        changes.notetypes@.len() == 0,
        changes.decks_and_config.decks@.len() == 0,
        changes.decks_and_config.config@.len() == 0,
        changes.tags@.len() == 0,
        changes.config is None,
        changes.creation_stamp is None,
{
}

} // verus!
